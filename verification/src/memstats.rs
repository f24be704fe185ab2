//! Allocator-level heap statistics.
//!
//! RSS on its own cannot separate "the process is holding this data" from
//! "jemalloc has not handed these pages back to the OS yet". `allocated`
//! answers the first question, `resident` the second, and the gap between
//! them is what tells an operator whether to shrink a cache or to retune the
//! allocator.

use vstd::prelude::*;

use crate::telemetry::{gauges_of, Gauge, GaugeUpdate};

verus! {

/// Live heap figures from the allocator, in bytes.
#[derive(Debug, Clone, Copy)]
pub struct HeapUsage {
    /// Bytes the application currently holds.
    pub allocated: u64,
    /// Bytes in physically resident pages mapped by the allocator. Tracks
    /// process RSS closely, minus stacks and non-allocator mappings.
    pub resident: u64,
}

impl Default for HeapUsage {
    fn default() -> (usage: Self)
        ensures
            usage == (HeapUsage { allocated: 0, resident: 0 }),
    {
        HeapUsage { allocated: 0, resident: 0 }
    }
}

/// The allocator's figures after one refresh, in bytes; `None` for one that it would not tell.
#[derive(Debug, Clone, Copy)]
pub struct HeapReadings {
    pub allocated: Option<u64>,
    pub resident: Option<u64>,
    /// `active - allocated` is what rounding up each object wastes.
    pub active: Option<u64>,
    /// `mapped - resident` and `retained` together are the address space that the allocator
    /// holds without paying for it in physical memory.
    pub mapped: Option<u64>,
    pub retained: Option<u64>,
    pub metadata: Option<u64>,
}

/// The gauge that a figure sets: none where the figure is missing.
pub open spec fn figure_gauge(name: Seq<char>, figure: Option<u64>) -> Seq<Gauge> {
    match figure {
        Some(bytes) => seq![Gauge { name, value: bytes as int }],
        None => Seq::empty(),
    }
}

impl HeapReadings {
    /// The usage that the readings amount to: a missing figure counts as zero.
    pub open spec fn usage(self) -> HeapUsage {
        HeapUsage {
            allocated: match self.allocated {
                Some(bytes) => bytes,
                None => 0,
            },
            resident: match self.resident {
                Some(bytes) => bytes,
                None => 0,
            },
        }
    }

    /// The gauges that the readings set, in order.
    pub open spec fn gauges(self) -> Seq<Gauge> {
        figure_gauge("certstream_jemalloc_allocated_bytes"@, self.allocated)
            + figure_gauge("certstream_jemalloc_resident_bytes"@, self.resident)
            + figure_gauge("certstream_jemalloc_active_bytes"@, self.active)
            + figure_gauge("certstream_jemalloc_mapped_bytes"@, self.mapped)
            + figure_gauge("certstream_jemalloc_retained_bytes"@, self.retained)
            + figure_gauge("certstream_jemalloc_metadata_bytes"@, self.metadata)
    }
}

/// The error of the allocator's control interface.
#[verifier::external_type_specification]
#[verifier::external_body]
pub struct ExAllocatorError(tikv_jemalloc_ctl::Error);

/// `tikv_jemalloc_ctl::epoch::advance`: has jemalloc refresh its counters, and gives the
/// epoch before. Nothing is claimed of the number, nor of when the call fails.
#[verifier::external_body]
fn advance_epoch() -> Result<u64, tikv_jemalloc_ctl::Error> {
    tikv_jemalloc_ctl::epoch::advance()
}

/// `tikv_jemalloc_ctl::stats::allocated::read`: bytes allocated by the application. Nothing is
/// claimed of the number, nor of when the call fails.
#[verifier::external_body]
fn read_allocated() -> Result<usize, tikv_jemalloc_ctl::Error> {
    tikv_jemalloc_ctl::stats::allocated::read()
}

/// `tikv_jemalloc_ctl::stats::resident::read`: bytes in resident pages. Nothing is claimed of
/// the number, nor of when the call fails.
#[verifier::external_body]
fn read_resident() -> Result<usize, tikv_jemalloc_ctl::Error> {
    tikv_jemalloc_ctl::stats::resident::read()
}

/// `tikv_jemalloc_ctl::stats::active::read`: bytes in active pages. Nothing is claimed of the
/// number, nor of when the call fails.
#[verifier::external_body]
fn read_active() -> Result<usize, tikv_jemalloc_ctl::Error> {
    tikv_jemalloc_ctl::stats::active::read()
}

/// `tikv_jemalloc_ctl::stats::mapped::read`: bytes in mapped extents. Nothing is claimed of the
/// number, nor of when the call fails.
#[verifier::external_body]
fn read_mapped() -> Result<usize, tikv_jemalloc_ctl::Error> {
    tikv_jemalloc_ctl::stats::mapped::read()
}

/// `tikv_jemalloc_ctl::stats::retained::read`: bytes of address space kept from the system.
/// Nothing is claimed of the number, nor of when the call fails.
#[verifier::external_body]
fn read_retained() -> Result<usize, tikv_jemalloc_ctl::Error> {
    tikv_jemalloc_ctl::stats::retained::read()
}

/// `tikv_jemalloc_ctl::stats::metadata::read`: bytes of allocator metadata. Nothing is claimed
/// of the number, nor of when the call fails.
#[verifier::external_body]
fn read_metadata() -> Result<usize, tikv_jemalloc_ctl::Error> {
    tikv_jemalloc_ctl::stats::metadata::read()
}

/// The figure that a read gave, if it gave one.
pub open spec fn figure_of(read: Result<usize, tikv_jemalloc_ctl::Error>) -> Option<u64> {
    match read {
        Ok(bytes) => Some(bytes as u64),
        Err(_) => None,
    }
}

/// The figure that a read gave, if it gave one.
fn figure(read: Result<usize, tikv_jemalloc_ctl::Error>) -> (figure: Option<u64>)
    ensures
        figure == figure_of(read),
{
    match read {
        Ok(bytes) => Some(bytes as u64),
        Err(_) => None,
    }
}

/// Whether jemalloc can have given this: `refresh` is what advancing its epoch gave and, where
/// that succeeded, each of the readings is the figure that the read of its own name gave.
pub closed spec fn came_out(
    refresh: Result<u64, tikv_jemalloc_ctl::Error>,
    readings: HeapReadings,
) -> bool {
    &&& call_ensures(advance_epoch, (), refresh)
    &&& refresh is Ok ==> {
        &&& exists|read: Result<usize, tikv_jemalloc_ctl::Error>|
            call_ensures(read_allocated, (), read) && readings.allocated == #[trigger] figure_of(
                read,
            )
        &&& exists|read: Result<usize, tikv_jemalloc_ctl::Error>|
            call_ensures(read_resident, (), read) && readings.resident == #[trigger] figure_of(
                read,
            )
        &&& exists|read: Result<usize, tikv_jemalloc_ctl::Error>|
            call_ensures(read_active, (), read) && readings.active == #[trigger] figure_of(read)
        &&& exists|read: Result<usize, tikv_jemalloc_ctl::Error>|
            call_ensures(read_mapped, (), read) && readings.mapped == #[trigger] figure_of(read)
        &&& exists|read: Result<usize, tikv_jemalloc_ctl::Error>|
            call_ensures(read_retained, (), read) && readings.retained == #[trigger] figure_of(
                read,
            )
        &&& exists|read: Result<usize, tikv_jemalloc_ctl::Error>|
            call_ensures(read_metadata, (), read) && readings.metadata == #[trigger] figure_of(
                read,
            )
    }
}

/// Adds the gauge that a figure sets, if the figure is there.
fn push_gauge(gauges: &mut Vec<GaugeUpdate>, name: &'static str, figure: Option<u64>)
    ensures
        gauges_of(final(gauges)@) == gauges_of(old(gauges)@) + figure_gauge(name@, figure),
{
    if let Some(value) = figure {
        gauges.push(GaugeUpdate { name, value });
    }
    assert(gauges_of(gauges@) =~= gauges_of(old(gauges)@) + figure_gauge(name@, figure));
}

/// Turns a round of readings into heap usage, and adds the gauges that it sets to `gauges`.
/// Where there was no round, be it that jemalloc is not the platform's allocator or that it
/// refused to refresh its counters, there is no usage and no gauge.
pub fn report(
    readings: Option<HeapReadings>,
    gauges: &mut Vec<GaugeUpdate>,
) -> (usage: Option<HeapUsage>)
    ensures
        match readings {
            Some(readings) => {
                &&& usage == Some(readings.usage())
                &&& gauges_of(final(gauges)@) == gauges_of(old(gauges)@) + readings.gauges()
                &&& usage matches Some(usage) && {
                    &&& usage.allocated == match readings.allocated {
                        Some(bytes) => bytes,
                        None => 0,
                    }
                    &&& usage.resident == match readings.resident {
                        Some(bytes) => bytes,
                        None => 0,
                    }
                }
            },
            None => usage is None && final(gauges)@ == old(gauges)@,
        },
{
    let readings = match readings {
        Some(readings) => readings,
        None => return None,
    };
    let mut usage = HeapUsage::default();
    if let Some(bytes) = readings.allocated {
        usage.allocated = bytes;
    }
    if let Some(bytes) = readings.resident {
        usage.resident = bytes;
    }
    push_gauge(gauges, "certstream_jemalloc_allocated_bytes", readings.allocated);
    push_gauge(gauges, "certstream_jemalloc_resident_bytes", readings.resident);
    push_gauge(gauges, "certstream_jemalloc_active_bytes", readings.active);
    push_gauge(gauges, "certstream_jemalloc_mapped_bytes", readings.mapped);
    push_gauge(gauges, "certstream_jemalloc_retained_bytes", readings.retained);
    push_gauge(gauges, "certstream_jemalloc_metadata_bytes", readings.metadata);
    assert(gauges_of(gauges@) =~= gauges_of(old(gauges)@) + readings.gauges());
    Some(usage)
}

/// Has jemalloc refresh its counters, reads its figures, and adds the gauges that they set to
/// `gauges`. There is no usage exactly where jemalloc refuses to refresh, and then its error is
/// in `refusal`; a figure that cannot be read after that counts as zero and sets no gauge.
pub fn record(
    gauges: &mut Vec<GaugeUpdate>,
    refusal: &mut Option<tikv_jemalloc_ctl::Error>,
) -> (usage: Option<HeapUsage>)
    ensures
        exists|refresh: Result<u64, tikv_jemalloc_ctl::Error>, readings: HeapReadings|
            #[trigger] came_out(refresh, readings) && match refresh {
                Ok(_) => {
                    &&& *final(refusal) is None
                    &&& usage == Some(readings.usage())
                    &&& gauges_of(final(gauges)@) == gauges_of(old(gauges)@) + readings.gauges()
                },
                Err(error) => {
                    &&& *final(refusal) == Some(error)
                    &&& usage is None
                    &&& final(gauges)@ == old(gauges)@
                },
            },
{
    // jemalloc caches its counters and only refreshes them when the epoch is
    // advanced. Skipping this makes every read return the values from process
    // start, which looks like a perfectly flat heap.
    let refresh = advance_epoch();
    match refresh {
        Ok(_) => {
            let allocated = read_allocated();
            let resident = read_resident();
            let active = read_active();
            let mapped = read_mapped();
            let retained = read_retained();
            let metadata = read_metadata();
            let ghost reads = (allocated, resident, active, mapped, retained, metadata);
            let readings = HeapReadings {
                allocated: figure(allocated),
                resident: figure(resident),
                active: figure(active),
                mapped: figure(mapped),
                retained: figure(retained),
                metadata: figure(metadata),
            };
            assert(came_out(refresh, readings)) by {
                assert(readings.allocated == figure_of(reads.0));
                assert(readings.resident == figure_of(reads.1));
                assert(readings.active == figure_of(reads.2));
                assert(readings.mapped == figure_of(reads.3));
                assert(readings.retained == figure_of(reads.4));
                assert(readings.metadata == figure_of(reads.5));
            }
            *refusal = None;
            report(Some(readings), gauges)
        },
        Err(error) => {
            assert(came_out(
                refresh,
                HeapReadings {
                    allocated: None,
                    resident: None,
                    active: None,
                    mapped: None,
                    retained: None,
                    metadata: None,
                },
            ));
            *refusal = Some(error);
            report(None, gauges)
        },
    }
}

/// Two series put together hold what one of them holds.
proof fn lemma_contains_in_sum(a: Seq<Gauge>, b: Seq<Gauge>, gauge: Gauge)
    ensures
        (a + b).contains(gauge) == (a.contains(gauge) || b.contains(gauge)),
{
    if a.contains(gauge) {
        let i = choose|i: int| 0 <= i < a.len() && a[i] == gauge;
        assert((a + b)[i] == gauge);
    }
    if b.contains(gauge) {
        let i = choose|i: int| 0 <= i < b.len() && b[i] == gauge;
        assert((a + b)[a.len() + i] == gauge);
    }
}

/// The gauge of a figure is of its name and its value.
proof fn lemma_figure_gauge(name: Seq<char>, figure: Option<u64>, gauge: Gauge)
    ensures
        figure_gauge(name, figure).contains(gauge) == (gauge.name == name && figure is Some
            && figure->0 == gauge.value),
{
    if figure is Some {
        assert(figure_gauge(name, figure)[0] == (Gauge { name, value: figure->0 as int }));
    }
}

/// The names of the gauges are different.
proof fn lemma_gauge_names_differ()
    ensures
        "certstream_jemalloc_allocated_bytes"@.len() == 35,
        "certstream_jemalloc_resident_bytes"@.len() == 34,
        "certstream_jemalloc_active_bytes"@.len() == 32,
        "certstream_jemalloc_mapped_bytes"@.len() == 32,
        "certstream_jemalloc_retained_bytes"@.len() == 34,
        "certstream_jemalloc_metadata_bytes"@.len() == 34,
        "certstream_jemalloc_active_bytes"@ != "certstream_jemalloc_mapped_bytes"@,
        "certstream_jemalloc_resident_bytes"@ != "certstream_jemalloc_retained_bytes"@,
        "certstream_jemalloc_resident_bytes"@ != "certstream_jemalloc_metadata_bytes"@,
        "certstream_jemalloc_retained_bytes"@ != "certstream_jemalloc_metadata_bytes"@,
{
    reveal_strlit("certstream_jemalloc_allocated_bytes");
    reveal_strlit("certstream_jemalloc_resident_bytes");
    reveal_strlit("certstream_jemalloc_active_bytes");
    reveal_strlit("certstream_jemalloc_mapped_bytes");
    reveal_strlit("certstream_jemalloc_retained_bytes");
    reveal_strlit("certstream_jemalloc_metadata_bytes");
    assert("certstream_jemalloc_active_bytes"@[20] != "certstream_jemalloc_mapped_bytes"@[20]);
    assert("certstream_jemalloc_resident_bytes"@[22] != "certstream_jemalloc_retained_bytes"@[22]);
    assert("certstream_jemalloc_resident_bytes"@[20] != "certstream_jemalloc_metadata_bytes"@[20]);
    assert("certstream_jemalloc_retained_bytes"@[20] != "certstream_jemalloc_metadata_bytes"@[20]);
}

/// Each figure that could be read shows in the gauge of its own name, with its own value; a
/// figure that could not be read shows nowhere.
pub proof fn law_each_figure_shows_in_its_own_gauge(readings: HeapReadings, gauge: Gauge)
    ensures
        readings.gauges().contains(gauge) == {
            ||| gauge.name == "certstream_jemalloc_allocated_bytes"@ && readings.allocated is Some
                && readings.allocated->0 == gauge.value
            ||| gauge.name == "certstream_jemalloc_resident_bytes"@ && readings.resident is Some
                && readings.resident->0 == gauge.value
            ||| gauge.name == "certstream_jemalloc_active_bytes"@ && readings.active is Some
                && readings.active->0 == gauge.value
            ||| gauge.name == "certstream_jemalloc_mapped_bytes"@ && readings.mapped is Some
                && readings.mapped->0 == gauge.value
            ||| gauge.name == "certstream_jemalloc_retained_bytes"@ && readings.retained is Some
                && readings.retained->0 == gauge.value
            ||| gauge.name == "certstream_jemalloc_metadata_bytes"@ && readings.metadata is Some
                && readings.metadata->0 == gauge.value
        },
{
    let a = figure_gauge("certstream_jemalloc_allocated_bytes"@, readings.allocated);
    let b = figure_gauge("certstream_jemalloc_resident_bytes"@, readings.resident);
    let c = figure_gauge("certstream_jemalloc_active_bytes"@, readings.active);
    let d = figure_gauge("certstream_jemalloc_mapped_bytes"@, readings.mapped);
    let e = figure_gauge("certstream_jemalloc_retained_bytes"@, readings.retained);
    let f = figure_gauge("certstream_jemalloc_metadata_bytes"@, readings.metadata);
    lemma_contains_in_sum(a + b + c + d + e, f, gauge);
    lemma_contains_in_sum(a + b + c + d, e, gauge);
    lemma_contains_in_sum(a + b + c, d, gauge);
    lemma_contains_in_sum(a + b, c, gauge);
    lemma_contains_in_sum(a, b, gauge);
    lemma_figure_gauge("certstream_jemalloc_allocated_bytes"@, readings.allocated, gauge);
    lemma_figure_gauge("certstream_jemalloc_resident_bytes"@, readings.resident, gauge);
    lemma_figure_gauge("certstream_jemalloc_active_bytes"@, readings.active, gauge);
    lemma_figure_gauge("certstream_jemalloc_mapped_bytes"@, readings.mapped, gauge);
    lemma_figure_gauge("certstream_jemalloc_retained_bytes"@, readings.retained, gauge);
    lemma_figure_gauge("certstream_jemalloc_metadata_bytes"@, readings.metadata, gauge);
}

/// There is one gauge for each figure that could be read.
pub proof fn law_there_is_one_gauge_for_each_figure(readings: HeapReadings)
    ensures
        readings.gauges().len() == if readings.allocated is Some {
            1int
        } else {
            0int
        } + if readings.resident is Some {
            1int
        } else {
            0int
        } + if readings.active is Some {
            1int
        } else {
            0int
        } + if readings.mapped is Some {
            1int
        } else {
            0int
        } + if readings.retained is Some {
            1int
        } else {
            0int
        } + if readings.metadata is Some {
            1int
        } else {
            0int
        },
{
}

/// The gauge of one figure does not show another.
pub proof fn law_gauges_have_names_of_their_own()
    ensures
        seq![
            "certstream_jemalloc_allocated_bytes"@,
            "certstream_jemalloc_resident_bytes"@,
            "certstream_jemalloc_active_bytes"@,
            "certstream_jemalloc_mapped_bytes"@,
            "certstream_jemalloc_retained_bytes"@,
            "certstream_jemalloc_metadata_bytes"@,
        ].no_duplicates(),
{
    lemma_gauge_names_differ();
}

/// What can have come out of jemalloc: where the refresh succeeded, each reading is what the read
/// of its own name gave, and missing just where that read failed.
proof fn law_readings_are_those_of_their_own_reads(
    refresh: Result<u64, tikv_jemalloc_ctl::Error>,
    readings: HeapReadings,
)
    requires
        came_out(refresh, readings),
    ensures
        call_ensures(advance_epoch, (), refresh),
        refresh is Ok ==> {
            &&& exists|read: Result<usize, tikv_jemalloc_ctl::Error>|
                (#[trigger] call_ensures(read_allocated, (), read)) && (readings.allocated is Some
                    == read is Ok) && (read is Ok ==> readings.allocated->0 == read->Ok_0)
            &&& exists|read: Result<usize, tikv_jemalloc_ctl::Error>|
                (#[trigger] call_ensures(read_resident, (), read)) && (readings.resident is Some
                    == read is Ok) && (read is Ok ==> readings.resident->0 == read->Ok_0)
            &&& exists|read: Result<usize, tikv_jemalloc_ctl::Error>|
                (#[trigger] call_ensures(read_active, (), read)) && (readings.active is Some
                    == read is Ok) && (read is Ok ==> readings.active->0 == read->Ok_0)
            &&& exists|read: Result<usize, tikv_jemalloc_ctl::Error>|
                (#[trigger] call_ensures(read_mapped, (), read)) && (readings.mapped is Some
                    == read is Ok) && (read is Ok ==> readings.mapped->0 == read->Ok_0)
            &&& exists|read: Result<usize, tikv_jemalloc_ctl::Error>|
                (#[trigger] call_ensures(read_retained, (), read)) && (readings.retained is Some
                    == read is Ok) && (read is Ok ==> readings.retained->0 == read->Ok_0)
            &&& exists|read: Result<usize, tikv_jemalloc_ctl::Error>|
                (#[trigger] call_ensures(read_metadata, (), read)) && (readings.metadata is Some
                    == read is Ok) && (read is Ok ==> readings.metadata->0 == read->Ok_0)
        },
{
}

} // verus!
