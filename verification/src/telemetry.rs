//! Changes to metrics, as values: the logic decides on them, the process exports them.

use vstd::prelude::*;

verus! {

/// A gauge and the value it now has.
#[derive(Debug, Clone, Copy)]
pub struct GaugeUpdate {
    pub name: &'static str,
    pub value: u64,
}

/// A counter, its `protocol` label if it has one, and by how much it grows.
#[derive(Debug, Clone, Copy)]
pub struct CounterUpdate {
    pub name: &'static str,
    pub protocol: Option<&'static str>,
    pub amount: u64,
}

/// What a [`GaugeUpdate`] says.
pub struct Gauge {
    pub name: Seq<char>,
    pub value: int,
}

/// What a [`CounterUpdate`] says.
pub struct Increment {
    pub name: Seq<char>,
    pub protocol: Option<Seq<char>>,
    pub amount: int,
}

impl View for GaugeUpdate {
    type V = Gauge;

    open spec fn view(&self) -> Gauge {
        Gauge { name: self.name@, value: self.value as int }
    }
}

impl View for CounterUpdate {
    type V = Increment;

    open spec fn view(&self) -> Increment {
        Increment {
            name: self.name@,
            protocol: match self.protocol {
                Some(protocol) => Some(protocol@),
                None => None,
            },
            amount: self.amount as int,
        }
    }
}

/// What a series of gauge updates says.
pub open spec fn gauges_of(updates: Seq<GaugeUpdate>) -> Seq<Gauge> {
    updates.map_values(|update: GaugeUpdate| update@)
}

/// What a series of counter updates says.
pub open spec fn increments_of(updates: Seq<CounterUpdate>) -> Seq<Increment> {
    updates.map_values(|update: CounterUpdate| update@)
}

/// A count on 64 bits, which wraps around.
pub open spec fn wrapped(count: int) -> int {
    count % 0x1_0000_0000_0000_0000
}

/// Growth of the outbound byte counter of one protocol.
pub open spec fn bytes_sent(protocol: Seq<char>, amount: int) -> Increment {
    Increment { name: "certstream_bytes_sent_total"@, protocol: Some(protocol), amount }
}

/// Growth of a counter without labels.
pub open spec fn plain_increment(name: Seq<char>, amount: int) -> Increment {
    Increment { name, protocol: None, amount }
}

impl Increment {
    /// By how much the counter of that name grows.
    pub open spec fn growth_of(self, name: Seq<char>) -> int {
        if self.name == name {
            self.amount
        } else {
            0
        }
    }
}

/// By how much the counter of that name grows in all.
pub open spec fn growth(increments: Seq<Increment>, name: Seq<char>) -> int
    decreases increments.len(),
{
    if increments.len() == 0 {
        0
    } else {
        growth(increments.drop_last(), name) + increments.last().growth_of(name)
    }
}

/// The growth of a counter by up to two increments.
pub(crate) proof fn lemma_growth_of_few(increments: Seq<Increment>, name: Seq<char>)
    requires
        increments.len() <= 2,
    ensures
        increments.len() == 0 ==> growth(increments, name) == 0,
        increments.len() == 1 ==> growth(increments, name) == increments[0].growth_of(name),
        increments.len() == 2 ==> growth(increments, name) == increments[0].growth_of(name)
            + increments[1].growth_of(name),
{
    reveal_with_fuel(growth, 3);
}

/// An update says all that it holds, and a series of updates says it one by one.
pub proof fn law_updates_are_told_in_full(
    gauges: Seq<GaugeUpdate>,
    counters: Seq<CounterUpdate>,
    i: int,
)
    ensures
        gauges_of(gauges).len() == gauges.len(),
        0 <= i < gauges.len() ==> {
            &&& gauges_of(gauges)[i].name == gauges[i].name@
            &&& gauges_of(gauges)[i].value == gauges[i].value
        },
        increments_of(counters).len() == counters.len(),
        0 <= i < counters.len() ==> {
            &&& increments_of(counters)[i].name == counters[i].name@
            &&& increments_of(counters)[i].amount == counters[i].amount
            &&& match counters[i].protocol {
                Some(protocol) => increments_of(counters)[i].protocol == Some(protocol@),
                None => increments_of(counters)[i].protocol is None,
            }
        },
{
}

/// A wrapped count is on 64 bits, is the count itself where that is, and does not see a whole
/// turn more.
pub proof fn law_counts_wrap_at_64_bits(count: int)
    ensures
        wrapped(count) == count % 0x1_0000_0000_0000_0000,
        0 <= wrapped(count) <= u64::MAX,
        0 <= count <= u64::MAX ==> wrapped(count) == count,
        wrapped(count + u64::MAX + 1) == wrapped(count),
{
}

/// What is counted in two series is what is counted in the two put together, and one increment
/// counts its amount for its own name alone.
pub proof fn law_growth_adds_up(
    a: Seq<Increment>,
    b: Seq<Increment>,
    increment: Increment,
    name: Seq<char>,
)
    ensures
        growth(a + b, name) == growth(a, name) + growth(b, name),
        increment.name == name ==> growth(seq![increment], name) == increment.amount,
        increment.name != name ==> growth(seq![increment], name) == 0,
    decreases b.len(),
{
    lemma_growth_of_few(seq![increment], name);
    if b.len() == 0 {
        assert(a + b =~= a);
    } else {
        law_growth_adds_up(a, b.drop_last(), increment, name);
        assert((a + b).drop_last() =~= a + b.drop_last());
    }
}

/// A change to a wrapped count is the change to the count, wrapped.
pub proof fn law_changes_go_through_wrapping(count: int, change: int)
    ensures
        wrapped(wrapped(count) + change) == wrapped(count + change),
{
}

/// The growth of the outbound byte counter is of that counter's name, under the protocol's label;
/// that of a counter without labels has none.
pub proof fn law_increments_name_their_counter(text: Seq<char>, amount: int)
    ensures
        bytes_sent(text, amount).name == "certstream_bytes_sent_total"@,
        bytes_sent(text, amount).protocol == Some(text),
        bytes_sent(text, amount).amount == amount,
        plain_increment(text, amount).name == text,
        plain_increment(text, amount).protocol is None,
        plain_increment(text, amount).amount == amount,
{
}

} // verus!
