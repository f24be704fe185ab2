//! The WebSocket connections of all streams.

use vstd::prelude::*;

use crate::admission::{limit_exceeded, Admission};
use crate::models::MessageText;
use crate::telemetry::{
    gauges_of, increments_of, law_changes_go_through_wrapping, law_counts_wrap_at_64_bits, wrapped,
    CounterUpdate, Gauge, GaugeUpdate,
};
use crate::websocket::session::{flush_increments, Session, SessionState};

pub mod lag_policy;

verus! {

/// Which of the three streams a connection carries.
#[derive(Clone, Copy, Debug, PartialEq, Eq, Structural)]
pub enum StreamType {
    Full,
    Lite,
    DomainsOnly,
}

impl StreamType {
    /// The text of a message on this stream.
    pub open spec fn select(self, message: MessageText) -> Seq<char> {
        match self {
            StreamType::Full => message.full,
            StreamType::Lite => message.lite,
            StreamType::DomainsOnly => message.domains_only,
        }
    }

    /// The stream's name in logs.
    pub fn name(self) -> (name: &'static str)
        ensures
            name@ == match self {
                StreamType::Full => "full"@,
                StreamType::Lite => "lite"@,
                StreamType::DomainsOnly => "domains"@,
            },
    {
        match self {
            StreamType::Full => "full",
            StreamType::Lite => "lite",
            StreamType::DomainsOnly => "domains",
        }
    }
}

/// Counts of connections, one for each stream.
pub struct Connections {
    pub full: int,
    pub lite: int,
    pub domains: int,
}

impl Connections {
    /// The count of one stream.
    pub open spec fn on(self, stream_type: StreamType) -> int {
        match stream_type {
            StreamType::Full => self.full,
            StreamType::Lite => self.lite,
            StreamType::DomainsOnly => self.domains,
        }
    }

    /// The counts with that of one stream moved by `change`; the others stay.
    pub open spec fn moved(self, stream_type: StreamType, change: int) -> Connections {
        match stream_type {
            StreamType::Full => Connections { full: wrapped(self.full + change), ..self },
            StreamType::Lite => Connections { lite: wrapped(self.lite + change), ..self },
            StreamType::DomainsOnly => Connections {
                domains: wrapped(self.domains + change),
                ..self
            },
        }
    }

    /// Connections of all streams.
    pub open spec fn total(self) -> int {
        self.full + self.lite + self.domains
    }

    /// Whether the total can be told on 64 bits.
    pub open spec fn fits(self) -> bool {
        self.total() <= u64::MAX
    }

    /// Whether each count is one on 64 bits.
    pub open spec fn in_range(self) -> bool {
        &&& 0 <= self.full <= u64::MAX
        &&& 0 <= self.lite <= u64::MAX
        &&& 0 <= self.domains <= u64::MAX
    }

    /// The gauges that show the counts.
    pub open spec fn gauges(self) -> Seq<Gauge> {
        seq![
            Gauge { name: "certstream_ws_connections_total"@, value: self.total() },
            Gauge { name: "certstream_ws_connections_full"@, value: self.full },
            Gauge { name: "certstream_ws_connections_lite"@, value: self.lite },
            Gauge { name: "certstream_ws_connections_domains"@, value: self.domains },
        ]
    }
}

/// Counts the open WebSocket connections of each stream.
pub struct ConnectionCounter {
    full: u64,
    lite: u64,
    domains: u64,
}

impl View for ConnectionCounter {
    type V = Connections;

    closed spec fn view(&self) -> Connections {
        Connections {
            full: self.full as int,
            lite: self.lite as int,
            domains: self.domains as int,
        }
    }
}

impl Default for ConnectionCounter {
    fn default() -> (counter: Self)
        ensures
            counter@ == (Connections { full: 0, lite: 0, domains: 0 }),
    {
        ConnectionCounter { full: 0, lite: 0, domains: 0 }
    }
}

/// The sum of three counts, where it fits.
fn checked_sum(a: u64, b: u64, c: u64) -> (sum: Option<u64>)
    ensures
        match sum {
            Some(sum) => sum == a + b + c,
            None => a + b + c > u64::MAX,
        },
{
    match a.checked_add(b) {
        Some(ab) => ab.checked_add(c),
        None => None,
    }
}

impl ConnectionCounter {
    /// No connections.
    pub fn new() -> (counter: Self)
        ensures
            counter@ == (Connections { full: 0, lite: 0, domains: 0 }),
    {
        Self::default()
    }

    /// Each count is one on 64 bits.
    pub proof fn lemma_in_range(&self)
        ensures
            self@.in_range(),
    {
    }

    /// Whether one more connection on the stream leaves a total that fits.
    pub fn can_increment(&self, stream_type: StreamType) -> (fits: bool)
        ensures
            fits == self@.moved(stream_type, 1).fits(),
            fits == match stream_type {
                StreamType::Full => (self@.full + 1) % 0x1_0000_0000_0000_0000 + self@.lite
                    + self@.domains <= u64::MAX,
                StreamType::Lite => self@.full + (self@.lite + 1) % 0x1_0000_0000_0000_0000
                    + self@.domains <= u64::MAX,
                StreamType::DomainsOnly => self@.full + self@.lite + (self@.domains + 1)
                    % 0x1_0000_0000_0000_0000 <= u64::MAX,
            },
    {
        let sum = match stream_type {
            StreamType::Full => checked_sum(self.full.wrapping_add(1), self.lite, self.domains),
            StreamType::Lite => checked_sum(self.full, self.lite.wrapping_add(1), self.domains),
            StreamType::DomainsOnly => checked_sum(
                self.full,
                self.lite,
                self.domains.wrapping_add(1),
            ),
        };
        sum.is_some()
    }

    /// Whether one connection less on the stream leaves a total that fits.
    pub fn can_decrement(&self, stream_type: StreamType) -> (fits: bool)
        ensures
            fits == self@.moved(stream_type, -1).fits(),
            fits == match stream_type {
                StreamType::Full => (self@.full - 1) % 0x1_0000_0000_0000_0000 + self@.lite
                    + self@.domains <= u64::MAX,
                StreamType::Lite => self@.full + (self@.lite - 1) % 0x1_0000_0000_0000_0000
                    + self@.domains <= u64::MAX,
                StreamType::DomainsOnly => self@.full + self@.lite + (self@.domains - 1)
                    % 0x1_0000_0000_0000_0000 <= u64::MAX,
            },
    {
        let sum = match stream_type {
            StreamType::Full => checked_sum(self.full.wrapping_sub(1), self.lite, self.domains),
            StreamType::Lite => checked_sum(self.full, self.lite.wrapping_sub(1), self.domains),
            StreamType::DomainsOnly => checked_sum(
                self.full,
                self.lite,
                self.domains.wrapping_sub(1),
            ),
        };
        sum.is_some()
    }

    /// One more connection on the stream, without telling the gauges.
    pub fn count_in(&mut self, stream_type: StreamType)
        ensures
            final(self)@ == old(self)@.moved(stream_type, 1),
            match stream_type {
                StreamType::Full => {
                    &&& final(self)@.full == (old(self)@.full + 1) % 0x1_0000_0000_0000_0000
                    &&& final(self)@.lite == old(self)@.lite
                    &&& final(self)@.domains == old(self)@.domains
                },
                StreamType::Lite => {
                    &&& final(self)@.full == old(self)@.full
                    &&& final(self)@.lite == (old(self)@.lite + 1) % 0x1_0000_0000_0000_0000
                    &&& final(self)@.domains == old(self)@.domains
                },
                StreamType::DomainsOnly => {
                    &&& final(self)@.full == old(self)@.full
                    &&& final(self)@.lite == old(self)@.lite
                    &&& final(self)@.domains == (old(self)@.domains + 1) % 0x1_0000_0000_0000_0000
                },
            },
    {
        match stream_type {
            StreamType::Full => self.full = self.full.wrapping_add(1),
            StreamType::Lite => self.lite = self.lite.wrapping_add(1),
            StreamType::DomainsOnly => self.domains = self.domains.wrapping_add(1),
        }
    }

    /// One connection less on the stream, without telling the gauges.
    pub fn count_out(&mut self, stream_type: StreamType)
        ensures
            final(self)@ == old(self)@.moved(stream_type, -1),
            match stream_type {
                StreamType::Full => {
                    &&& final(self)@.full == (old(self)@.full - 1) % 0x1_0000_0000_0000_0000
                    &&& final(self)@.lite == old(self)@.lite
                    &&& final(self)@.domains == old(self)@.domains
                },
                StreamType::Lite => {
                    &&& final(self)@.full == old(self)@.full
                    &&& final(self)@.lite == (old(self)@.lite - 1) % 0x1_0000_0000_0000_0000
                    &&& final(self)@.domains == old(self)@.domains
                },
                StreamType::DomainsOnly => {
                    &&& final(self)@.full == old(self)@.full
                    &&& final(self)@.lite == old(self)@.lite
                    &&& final(self)@.domains == (old(self)@.domains - 1) % 0x1_0000_0000_0000_0000
                },
            },
    {
        match stream_type {
            StreamType::Full => self.full = self.full.wrapping_sub(1),
            StreamType::Lite => self.lite = self.lite.wrapping_sub(1),
            StreamType::DomainsOnly => self.domains = self.domains.wrapping_sub(1),
        }
    }

    /// One more connection on the stream. Gives the gauges that change.
    pub fn increment(&mut self, stream_type: StreamType) -> (gauges: Vec<GaugeUpdate>)
        requires
            old(self)@.moved(stream_type, 1).fits(),
        ensures
            final(self)@ == old(self)@.moved(stream_type, 1),
            match stream_type {
                StreamType::Full => {
                    &&& final(self)@.full == (old(self)@.full + 1) % 0x1_0000_0000_0000_0000
                    &&& final(self)@.lite == old(self)@.lite
                    &&& final(self)@.domains == old(self)@.domains
                },
                StreamType::Lite => {
                    &&& final(self)@.full == old(self)@.full
                    &&& final(self)@.lite == (old(self)@.lite + 1) % 0x1_0000_0000_0000_0000
                    &&& final(self)@.domains == old(self)@.domains
                },
                StreamType::DomainsOnly => {
                    &&& final(self)@.full == old(self)@.full
                    &&& final(self)@.lite == old(self)@.lite
                    &&& final(self)@.domains == (old(self)@.domains + 1) % 0x1_0000_0000_0000_0000
                },
            },
            gauges_of(gauges@) == final(self)@.gauges(),
    {
        self.count_in(stream_type);
        self.update_metrics()
    }

    /// One connection less on the stream. Gives the gauges that change.
    pub fn decrement(&mut self, stream_type: StreamType) -> (gauges: Vec<GaugeUpdate>)
        requires
            old(self)@.moved(stream_type, -1).fits(),
        ensures
            final(self)@ == old(self)@.moved(stream_type, -1),
            match stream_type {
                StreamType::Full => {
                    &&& final(self)@.full == (old(self)@.full - 1) % 0x1_0000_0000_0000_0000
                    &&& final(self)@.lite == old(self)@.lite
                    &&& final(self)@.domains == old(self)@.domains
                },
                StreamType::Lite => {
                    &&& final(self)@.full == old(self)@.full
                    &&& final(self)@.lite == (old(self)@.lite - 1) % 0x1_0000_0000_0000_0000
                    &&& final(self)@.domains == old(self)@.domains
                },
                StreamType::DomainsOnly => {
                    &&& final(self)@.full == old(self)@.full
                    &&& final(self)@.lite == old(self)@.lite
                    &&& final(self)@.domains == (old(self)@.domains - 1) % 0x1_0000_0000_0000_0000
                },
            },
            gauges_of(gauges@) == final(self)@.gauges(),
    {
        self.count_out(stream_type);
        self.update_metrics()
    }

    /// The gauges that show the counts.
    pub fn update_metrics(&self) -> (gauges: Vec<GaugeUpdate>)
        requires
            self@.fits(),
        ensures
            gauges_of(gauges@) == self@.gauges(),
            gauges@.len() == 4,
            gauges@[0].name@ == "certstream_ws_connections_total"@,
            gauges@[0].value == self@.full + self@.lite + self@.domains,
            gauges@[1].name@ == "certstream_ws_connections_full"@,
            gauges@[1].value == self@.full,
            gauges@[2].name@ == "certstream_ws_connections_lite"@,
            gauges@[2].value == self@.lite,
            gauges@[3].name@ == "certstream_ws_connections_domains"@,
            gauges@[3].value == self@.domains,
    {
        let mut gauges: Vec<GaugeUpdate> = Vec::new();
        gauges.push(GaugeUpdate { name: "certstream_ws_connections_total", value: self.total() });
        gauges.push(GaugeUpdate { name: "certstream_ws_connections_full", value: self.full });
        gauges.push(GaugeUpdate { name: "certstream_ws_connections_lite", value: self.lite });
        gauges.push(
            GaugeUpdate { name: "certstream_ws_connections_domains", value: self.domains },
        );
        assert(gauges_of(gauges@) =~= self@.gauges());
        gauges
    }

    /// Connections of all streams.
    pub fn total(&self) -> (total: u64)
        requires
            self@.fits(),
        ensures
            total == self@.total(),
            total == self@.full + self@.lite + self@.domains,
    {
        self.full + self.lite + self.domains
    }
}

/// Decides on a request to open a WebSocket for a stream: it is let in if the connection
/// limiter had a slot for it.
pub fn admit_socket(acquired: bool, stream_type: StreamType) -> (admission: Admission<StreamType>)
    ensures
        acquired ==> admission == Admission::Admitted(stream_type),
        !acquired ==> (admission matches Admission::Refused(refusal) && refusal.says(
            429,
            "Connection limit exceeded"@,
        )),
        admission.settles_slots(acquired),
        admission matches Admission::Refused(refusal) ==> {
            &&& !acquired
            &&& refusal.status == 429
            &&& refusal.body@ == "Connection limit exceeded"@
            &&& !refusal.release_slot
        },
{
    if !acquired {
        return Admission::Refused(limit_exceeded());
    }
    Admission::Admitted(stream_type)
}

/// Registers a connection that has been established at `now`. Gives its session and the gauges
/// that change.
pub fn open_socket(
    connections: &mut ConnectionCounter,
    stream_type: StreamType,
    now: u128,
) -> (opened: (Session, Vec<GaugeUpdate>))
    requires
        old(connections)@.moved(stream_type, 1).fits(),
    ensures
        final(connections)@ == old(connections)@.moved(stream_type, 1),
        match stream_type {
            StreamType::Full => {
                &&& final(connections)@.full == (old(connections)@.full + 1) % 0x1_0000_0000_0000_0000
                &&& final(connections)@.lite == old(connections)@.lite
                &&& final(connections)@.domains == old(connections)@.domains
            },
            StreamType::Lite => {
                &&& final(connections)@.full == old(connections)@.full
                &&& final(connections)@.lite == (old(connections)@.lite + 1) % 0x1_0000_0000_0000_0000
                &&& final(connections)@.domains == old(connections)@.domains
            },
            StreamType::DomainsOnly => {
                &&& final(connections)@.full == old(connections)@.full
                &&& final(connections)@.lite == old(connections)@.lite
                &&& final(connections)@.domains == (old(connections)@.domains + 1) % 0x1_0000_0000_0000_0000
            },
        },
        opened.0@ == SessionState::fresh(stream_type, now as int),
        opened.0@.stream_type == stream_type,
        opened.0@.pending_bytes == 0,
        opened.0@.pending_frames == 0,
        opened.0@.last_pong == now,
        opened.0@.consecutive_lags == 0,
        opened.0@.sending is Nothing,
        opened.0@.connected,
        gauges_of(opened.1@) == final(connections)@.gauges(),
{
    let gauges = connections.increment(stream_type);
    (Session::new(stream_type, now), gauges)
}

/// What is left to do once a connection is over.
pub struct SocketClose {
    /// Whether the connection's slot is to be released.
    pub release_slot: bool,
    /// Bytes to add to the shared outbound counter.
    pub flushed: u64,
    /// Metric counters that grow.
    pub counters: Vec<CounterUpdate>,
    /// Gauges that change.
    pub gauges: Vec<GaugeUpdate>,
}

/// Takes a connection out of the counts, whatever ended it. The bytes still pending are pushed
/// out, and the slot that the connection holds goes back to the limiter.
pub fn close_socket(session: Session, connections: &mut ConnectionCounter) -> (close: SocketClose)
    requires
        old(connections)@.moved(session@.stream_type, -1).fits(),
    ensures
        final(connections)@ == old(connections)@.moved(session@.stream_type, -1),
        match session@.stream_type {
            StreamType::Full => {
                &&& final(connections)@.full == (old(connections)@.full - 1) % 0x1_0000_0000_0000_0000
                &&& final(connections)@.lite == old(connections)@.lite
                &&& final(connections)@.domains == old(connections)@.domains
            },
            StreamType::Lite => {
                &&& final(connections)@.full == old(connections)@.full
                &&& final(connections)@.lite == (old(connections)@.lite - 1) % 0x1_0000_0000_0000_0000
                &&& final(connections)@.domains == old(connections)@.domains
            },
            StreamType::DomainsOnly => {
                &&& final(connections)@.full == old(connections)@.full
                &&& final(connections)@.lite == old(connections)@.lite
                &&& final(connections)@.domains == (old(connections)@.domains - 1) % 0x1_0000_0000_0000_0000
            },
        },
        close.release_slot,
        close.flushed == session@.pending_bytes,
        increments_of(close.counters@) == flush_increments(session@.pending_bytes),
        close.flushed == 0 ==> close.counters@.len() == 0,
        close.flushed != 0 ==> {
            &&& close.counters@.len() == 1
            &&& close.counters@[0].name@ == "certstream_bytes_sent_total"@
            &&& close.counters@[0].protocol is Some
            &&& close.counters@[0].protocol->0@ == "websocket"@
            &&& close.counters@[0].amount == close.flushed
        },
        gauges_of(close.gauges@) == final(connections)@.gauges(),
{
    let stream_type = session.stream_type();
    let (flushed, counters) = session.finish();
    let gauges = connections.decrement(stream_type);
    SocketClose { release_slot: true, flushed, counters, gauges }
}

/// Each stream carries its own text of a message.
pub proof fn law_each_stream_carries_its_own_text(message: MessageText)
    ensures
        StreamType::Full.select(message) == message.full,
        StreamType::Lite.select(message) == message.lite,
        StreamType::DomainsOnly.select(message) == message.domains_only,
{
}

/// A change to one stream's count is on 64 bits, and leaves the counts of the others alone.
pub proof fn law_a_change_is_to_one_count(counts: Connections, change: int)
    ensures
        counts.moved(StreamType::Full, change) == (Connections {
            full: (counts.full + change) % 0x1_0000_0000_0000_0000,
            lite: counts.lite,
            domains: counts.domains,
        }),
        counts.moved(StreamType::Lite, change) == (Connections {
            full: counts.full,
            lite: (counts.lite + change) % 0x1_0000_0000_0000_0000,
            domains: counts.domains,
        }),
        counts.moved(StreamType::DomainsOnly, change) == (Connections {
            full: counts.full,
            lite: counts.lite,
            domains: (counts.domains + change) % 0x1_0000_0000_0000_0000,
        }),
{
}

/// The total is that of all three streams, and fits where it is at most the largest count.
pub proof fn law_the_total_is_of_all_streams(counts: Connections)
    ensures
        counts.on(StreamType::Full) == counts.full,
        counts.on(StreamType::Lite) == counts.lite,
        counts.on(StreamType::DomainsOnly) == counts.domains,
        counts.total() == counts.full + counts.lite + counts.domains,
        counts.fits() <==> counts.full + counts.lite + counts.domains <= u64::MAX,
        counts.in_range() <==> {
            &&& 0 <= counts.full <= u64::MAX
            &&& 0 <= counts.lite <= u64::MAX
            &&& 0 <= counts.domains <= u64::MAX
        },
{
}

/// The gauges show the total and each stream's count, under their own names.
pub proof fn law_the_gauges_show_the_counts(counts: Connections)
    ensures
        counts.gauges().len() == 4,
        counts.gauges()[0].name == "certstream_ws_connections_total"@,
        counts.gauges()[0].value == counts.full + counts.lite + counts.domains,
        counts.gauges()[1].name == "certstream_ws_connections_full"@,
        counts.gauges()[1].value == counts.full,
        counts.gauges()[2].name == "certstream_ws_connections_lite"@,
        counts.gauges()[2].value == counts.lite,
        counts.gauges()[3].name == "certstream_ws_connections_domains"@,
        counts.gauges()[3].value == counts.domains,
{
}

/// Taking a connection out of the counts undoes registering it: the counts are what they were.
pub proof fn law_close_undoes_open(counts: Connections, stream_type: StreamType)
    requires
        counts.in_range(),
    ensures
        counts.moved(stream_type, 1).moved(stream_type, -1) == counts,
        counts.moved(stream_type, -1).moved(stream_type, 1) == counts,
{
}

/// A connection moves the total by one, and the count of no other stream.
pub proof fn law_one_connection_counts_once(counts: Connections, stream_type: StreamType)
    requires
        counts.in_range(),
        counts.on(stream_type) < u64::MAX,
    ensures
        counts.moved(stream_type, 1).on(stream_type) == counts.on(stream_type) + 1,
        counts.moved(stream_type, 1).total() == counts.total() + 1,
        forall|other: StreamType|
            other != stream_type ==> #[trigger] counts.moved(stream_type, 1).on(other)
                == counts.on(other),
{
}

/// A connection that comes or goes.
pub enum Change {
    Opened(StreamType),
    Closed(StreamType),
}

/// How many of the changes open a connection on the stream.
pub open spec fn opened(changes: Seq<Change>, stream_type: StreamType) -> int
    decreases changes.len(),
{
    if changes.len() == 0 {
        0
    } else {
        opened(changes.drop_last(), stream_type) + if changes.last() == Change::Opened(
            stream_type,
        ) {
            1int
        } else {
            0int
        }
    }
}

/// How many of the changes close a connection on the stream.
pub open spec fn closed(changes: Seq<Change>, stream_type: StreamType) -> int
    decreases changes.len(),
{
    if changes.len() == 0 {
        0
    } else {
        closed(changes.drop_last(), stream_type) + if changes.last() == Change::Closed(
            stream_type,
        ) {
            1int
        } else {
            0int
        }
    }
}

/// The counts after a series of changes to a counter that starts at zero.
pub open spec fn counts_after(changes: Seq<Change>) -> Connections
    decreases changes.len(),
{
    if changes.len() == 0 {
        Connections { full: 0, lite: 0, domains: 0 }
    } else {
        match changes.last() {
            Change::Opened(stream_type) => counts_after(changes.drop_last()).moved(stream_type, 1),
            Change::Closed(stream_type) => counts_after(changes.drop_last()).moved(stream_type, -1),
        }
    }
}

/// After any series of openings and closings, whatever their order, the count of each stream is
/// its openings less its closings, on 64 bits.
pub proof fn law_counts_are_openings_less_closings(changes: Seq<Change>)
    ensures
        counts_after(changes).in_range(),
        forall|stream_type: StreamType|
            #![trigger counts_after(changes).on(stream_type)]
            counts_after(changes).on(stream_type) == wrapped(
                opened(changes, stream_type) - closed(changes, stream_type),
            ),
    decreases changes.len(),
{
    if changes.len() > 0 {
        let before = changes.drop_last();
        law_counts_are_openings_less_closings(before);
        assert forall|stream_type: StreamType|
            #![trigger counts_after(changes).on(stream_type)]
            counts_after(changes).on(stream_type) == wrapped(
                opened(changes, stream_type) - closed(changes, stream_type),
            ) by {
            let count = opened(before, stream_type) - closed(before, stream_type);
            assert(counts_after(before).on(stream_type) == wrapped(count));
            law_changes_go_through_wrapping(count, 1);
            law_changes_go_through_wrapping(count, -1);
            law_counts_wrap_at_64_bits(count);
        }
    }
}

/// No opening is lost: as long as the total fits on 64 bits, openings alone leave each count at
/// just the openings of its stream, and the total at all of them.
pub proof fn law_no_opening_is_lost(changes: Seq<Change>)
    requires
        changes.len() <= u64::MAX,
        forall|i: int| 0 <= i < changes.len() ==> (#[trigger] changes[i]) is Opened,
    ensures
        forall|stream_type: StreamType|
            #![trigger counts_after(changes).on(stream_type)]
            counts_after(changes).on(stream_type) == opened(changes, stream_type),
        counts_after(changes).total() == changes.len(),
        counts_after(changes).in_range(),
    decreases changes.len(),
{
    if changes.len() > 0 {
        let before = changes.drop_last();
        assert forall|i: int| 0 <= i < before.len() implies (#[trigger] before[i]) is Opened by {
            assert(before[i] == changes[i]);
        }
        law_no_opening_is_lost(before);
        assert(changes[changes.len() - 1] is Opened);
        let last = changes.last()->Opened_0;
        assert(counts_after(before).on(last) <= counts_after(before).total());
        law_one_connection_counts_once(counts_after(before), last);
        assert forall|stream_type: StreamType|
            #![trigger counts_after(changes).on(stream_type)]
            counts_after(changes).on(stream_type) == opened(changes, stream_type) by {
            assert(counts_after(before).on(stream_type) == opened(before, stream_type));
        }
    }
}

} // verus!
