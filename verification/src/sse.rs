//! Streaming as server-sent events.

use axum::response::sse::Event;
use std::convert::Infallible;
use vstd::prelude::*;
use vstd::utf8::encode_utf8;

use crate::admission::{limit_exceeded, stream_unavailable, Admission};
use crate::config::StreamConfig;
use crate::models::{MessageText, PreSerializedMessage};
use crate::payload::{as_text, data_event, data_field, event_fields, text_of};
use crate::telemetry::{
    bytes_sent, increments_of, wrapped, CounterUpdate, Gauge, GaugeUpdate, Increment,
};
use crate::text::same_text;

verus! {

/// Seconds between two keep-alive comments.
pub const KEEP_ALIVE_INTERVAL_SECS: u64 = 15;

/// The text of a keep-alive comment.
pub const KEEP_ALIVE_TEXT: &'static str = "heartbeat";

/// Pending bytes at which a connection pushes them to the shared counter. Long-lived
/// connections would otherwise only report their bytes on disconnect, which can be hours.
pub const FLUSH_THRESHOLD_BYTES: u64 = 262_144;

/// Which of the three streams a connection carries.
#[derive(Clone, Copy, Debug, PartialEq, Eq, Structural)]
pub enum SseStreamType {
    Full,
    Lite,
    DomainsOnly,
}

/// The stream of that name; every name that is not one of the others' means the lite stream.
pub open spec fn stream_named(name: Seq<char>) -> SseStreamType {
    if name == "full"@ {
        SseStreamType::Full
    } else if name == "domains"@ || name == "domains-only"@ {
        SseStreamType::DomainsOnly
    } else {
        SseStreamType::Lite
    }
}

impl SseStreamType {
    /// The text of a message on this stream.
    pub open spec fn select(self, message: MessageText) -> Seq<char> {
        match self {
            SseStreamType::Full => message.full,
            SseStreamType::Lite => message.lite,
            SseStreamType::DomainsOnly => message.domains_only,
        }
    }

    /// Whether the stream is switched on.
    pub open spec fn enabled(self, streams: StreamConfig) -> bool {
        match self {
            SseStreamType::Full => streams.full,
            SseStreamType::Lite => streams.lite,
            SseStreamType::DomainsOnly => streams.domains_only,
        }
    }

    /// The stream of that name.
    pub fn from_str(s: &str) -> (stream_type: Self)
        ensures
            stream_type == stream_named(s@),
            stream_type is Full <==> s@ == "full"@,
            stream_type is DomainsOnly <==> s@ == "domains"@ || s@ == "domains-only"@,
            stream_type is Lite <==> s@ != "full"@ && s@ != "domains"@ && s@ != "domains-only"@,
    {
        proof {
            lemma_stream_names_differ();
        }
        if same_text(s, "full") {
            SseStreamType::Full
        } else if same_text(s, "domains") || same_text(s, "domains-only") {
            SseStreamType::DomainsOnly
        } else {
            SseStreamType::Lite
        }
    }
}

/// The query of a request for a stream.
#[derive(Debug)]
pub struct SseQueryParams {
    /// The name of the stream, if the request gives one.
    pub stream: Option<String>,
}

impl Default for SseQueryParams {
    fn default() -> (params: Self)
        ensures
            params.stream is None,
    {
        SseQueryParams { stream: None }
    }
}

impl SseQueryParams {
    /// The stream name that the query amounts to.
    pub open spec fn name(self) -> Seq<char> {
        match self.stream {
            Some(name) => name@,
            None => "lite"@,
        }
    }

    /// The stream name that the query amounts to: `lite` if it gives none.
    pub fn stream_name(&self) -> (name: &str)
        ensures
            name@ == self.name(),
            self.stream is None ==> name@ == "lite"@,
            self.stream matches Some(given) ==> name@ == given@,
    {
        match &self.stream {
            Some(name) => name.as_str(),
            None => "lite",
        }
    }
}

/// The names of the streams are different.
proof fn lemma_stream_names_differ()
    ensures
        "lite"@ != "full"@,
        "lite"@ != "domains"@,
        "lite"@ != "domains-only"@,
        "full"@ != "domains"@,
        "full"@ != "domains-only"@,
{
    reveal_strlit("full");
    reveal_strlit("domains");
    reveal_strlit("domains-only");
    reveal_strlit("lite");
    assert("lite"@[0] != "full"@[0]);
    assert("lite"@.len() == 4 && "full"@.len() == 4);
    assert("domains"@.len() == 7 && "domains-only"@.len() == 12);
}

/// Decides on a request for a stream, once the connection limiter was asked for a slot.
pub fn admit_stream(
    acquired: bool,
    params: &SseQueryParams,
    streams: &StreamConfig,
) -> (admission: Admission<SseStreamType>)
    ensures
        !acquired ==> (admission matches Admission::Refused(refusal) && refusal.says(
            429,
            "Connection limit exceeded"@,
        )),
        acquired && !stream_named(params.name()).enabled(*streams) ==> (
        admission matches Admission::Refused(refusal) && refusal.says(
            404,
            "Stream type not available"@,
        )),
        acquired && stream_named(params.name()).enabled(*streams) ==> admission
            == Admission::Admitted(stream_named(params.name())),
        admission.settles_slots(acquired),
        admission is Admitted <==> acquired && match params.stream {
            Some(name) => if name@ == "full"@ {
                streams.full
            } else if name@ == "domains"@ || name@ == "domains-only"@ {
                streams.domains_only
            } else {
                streams.lite
            },
            None => streams.lite,
        },
        admission matches Admission::Admitted(stream_type) ==> match params.stream {
            Some(name) => {
                &&& stream_type is Full <==> name@ == "full"@
                &&& stream_type is DomainsOnly <==> name@ == "domains"@ || name@ == "domains-only"@
            },
            None => stream_type is Lite,
        },
        admission matches Admission::Refused(refusal) ==> if acquired {
            &&& refusal.status == 404
            &&& refusal.body@ == "Stream type not available"@
            &&& refusal.release_slot
        } else {
            &&& refusal.status == 429
            &&& refusal.body@ == "Connection limit exceeded"@
            &&& !refusal.release_slot
        },
{
    proof {
        lemma_stream_names_differ();
    }
    if !acquired {
        return Admission::Refused(limit_exceeded());
    }
    let stream_type = SseStreamType::from_str(params.stream_name());
    let stream_enabled = match stream_type {
        SseStreamType::Full => streams.full,
        SseStreamType::Lite => streams.lite,
        SseStreamType::DomainsOnly => streams.domains_only,
    };
    if !stream_enabled {
        return Admission::Refused(stream_unavailable());
    }
    Admission::Admitted(stream_type)
}

/// Bytes pending after `bytes` more were sent; the count wraps around.
pub open spec fn pending_after(pending_bytes: int, bytes: int) -> int {
    wrapped(pending_bytes + bytes)
}

/// The event of a message on a stream. Its bytes are added to those pending on the connection.
pub fn process_message(
    msg: &PreSerializedMessage,
    stream_type: SseStreamType,
    pending_bytes: &mut u64,
) -> (event: Option<Result<Event, Infallible>>)
    ensures
        event matches Some(Ok(event)) && event_fields(event) == data_field(
            encode_utf8(stream_type.select(msg@)),
        ),
        *final(pending_bytes) == pending_after(
            *old(pending_bytes) as int,
            encode_utf8(stream_type.select(msg@)).len() as int,
        ),
        ({
            let text = match stream_type {
                SseStreamType::Full => text_of(msg.full),
                SseStreamType::Lite => text_of(msg.lite),
                SseStreamType::DomainsOnly => text_of(msg.domains_only),
            };
            &&& event_fields(event->0->Ok_0) == data_field(encode_utf8(text))
            &&& *final(pending_bytes) == (*old(pending_bytes) + encode_utf8(text).len())
                % 0x1_0000_0000_0000_0000
        }),
{
    let text: &str = match stream_type {
        SseStreamType::Full => as_text(&msg.full),
        SseStreamType::DomainsOnly => as_text(&msg.domains_only),
        SseStreamType::Lite => as_text(&msg.lite),
    };
    *pending_bytes = (*pending_bytes).wrapping_add(text.as_bytes().len() as u64);
    Some(Ok(data_event(text)))
}

/// The event that a broadcast gives a connection: none where it fell behind, which skips the
/// messages that it missed.
pub fn receive(
    broadcast: Option<&PreSerializedMessage>,
    stream_type: SseStreamType,
    pending_bytes: &mut u64,
) -> (event: Option<Result<Event, Infallible>>)
    ensures
        match broadcast {
            Some(msg) => {
                &&& event matches Some(Ok(event)) && event_fields(event) == data_field(
                    encode_utf8(stream_type.select(msg@)),
                )
                &&& *final(pending_bytes) == pending_after(
                    *old(pending_bytes) as int,
                    encode_utf8(stream_type.select(msg@)).len() as int,
                )
                &&& {
                    let text = match stream_type {
                        SseStreamType::Full => text_of(msg.full),
                        SseStreamType::Lite => text_of(msg.lite),
                        SseStreamType::DomainsOnly => text_of(msg.domains_only),
                    };
                    &&& event_fields(event->0->Ok_0) == data_field(encode_utf8(text))
                    &&& *final(pending_bytes) == (*old(pending_bytes) + encode_utf8(text).len())
                        % 0x1_0000_0000_0000_0000
                }
            },
            None => event is None && *final(pending_bytes) == *old(pending_bytes),
        },
{
    match broadcast {
        Some(msg) => process_message(msg, stream_type, pending_bytes),
        None => None,
    }
}

/// Pushing the pending bytes to the shared counter, as what it reports.
pub open spec fn flush_increments(pending_bytes: int) -> Seq<Increment> {
    if pending_bytes > 0 {
        seq![bytes_sent("sse"@, pending_bytes)]
    } else {
        Seq::empty()
    }
}

/// Moves a connection's accumulated bytes into the shared counter: gives the bytes to add to
/// it, and adds the metric that grows with it to `counters`.
pub fn flush_bytes(pending_bytes: &mut u64, counters: &mut Vec<CounterUpdate>) -> (flushed: u64)
    ensures
        flushed == *old(pending_bytes),
        *final(pending_bytes) == 0,
        increments_of(final(counters)@) == increments_of(old(counters)@) + flush_increments(
            *old(pending_bytes) as int,
        ),
        *old(pending_bytes) == 0 ==> final(counters)@ == old(counters)@,
        *old(pending_bytes) != 0 ==> {
            &&& final(counters)@.len() == old(counters)@.len() + 1
            &&& final(counters)@.drop_last() == old(counters)@
            &&& final(counters)@.last().name@ == "certstream_bytes_sent_total"@
            &&& final(counters)@.last().protocol is Some
            &&& final(counters)@.last().protocol->0@ == "sse"@
            &&& final(counters)@.last().amount == *old(pending_bytes)
        },
{
    let flushed: u64 = *pending_bytes;
    *pending_bytes = 0;
    if flushed > 0 {
        counters.push(
            CounterUpdate {
                name: "certstream_bytes_sent_total",
                protocol: Some("sse"),
                amount: flushed,
            },
        );
    }
    assert(increments_of(counters@) =~= increments_of(old(counters)@) + flush_increments(
        flushed as int,
    ));
    flushed
}

/// The bytes that a poll moves into the shared counter: all that are pending, from
/// [`FLUSH_THRESHOLD_BYTES`] on.
pub open spec fn flushed_by_poll(pending_bytes: int) -> int {
    if pending_bytes >= FLUSH_THRESHOLD_BYTES {
        pending_bytes
    } else {
        0
    }
}

/// What a connection does each time it was polled: where enough bytes are pending, it moves them
/// into the shared counter. Gives the bytes to add to it, and adds the metric that grows with it
/// to `counters`.
pub fn after_poll(pending_bytes: &mut u64, counters: &mut Vec<CounterUpdate>) -> (flushed: u64)
    ensures
        flushed == flushed_by_poll(*old(pending_bytes) as int),
        *final(pending_bytes) == *old(pending_bytes) - flushed,
        increments_of(final(counters)@) == increments_of(old(counters)@) + flush_increments(
            flushed as int,
        ),
        *old(pending_bytes) >= 262_144 ==> flushed == *old(pending_bytes),
        *old(pending_bytes) < 262_144 ==> flushed == 0,
        flushed == 0 ==> final(counters)@ == old(counters)@,
        flushed != 0 ==> {
            &&& final(counters)@.len() == old(counters)@.len() + 1
            &&& final(counters)@.drop_last() == old(counters)@
            &&& final(counters)@.last().name@ == "certstream_bytes_sent_total"@
            &&& final(counters)@.last().protocol is Some
            &&& final(counters)@.last().protocol->0@ == "sse"@
            &&& final(counters)@.last().amount == flushed
        },
{
    if *pending_bytes >= FLUSH_THRESHOLD_BYTES {
        flush_bytes(pending_bytes, counters)
    } else {
        assert(increments_of(counters@) =~= increments_of(counters@) + flush_increments(0));
        0
    }
}

/// Counts the open connections; the count wraps around.
pub struct SseConnectionCount {
    count: u64,
}

impl View for SseConnectionCount {
    type V = int;

    closed spec fn view(&self) -> int {
        self.count as int
    }
}

/// The gauge that shows the number of open connections.
pub open spec fn connections_gauge(count: int) -> Gauge {
    Gauge { name: "certstream_sse_connections"@, value: count }
}

/// The number of open connections.
pub fn sse_connection_count(connections: &SseConnectionCount) -> (count: u64)
    ensures
        count == connections@,
{
    connections.count
}

/// The gauge that shows the number of open connections.
pub fn update_sse_metrics(connections: &SseConnectionCount) -> (gauge: GaugeUpdate)
    ensures
        gauge@ == connections_gauge(connections@),
        gauge.name@ == "certstream_sse_connections"@,
        gauge.value == connections@,
{
    GaugeUpdate { name: "certstream_sse_connections", value: connections.count }
}

impl SseConnectionCount {
    /// No connections.
    pub fn new() -> (connections: Self)
        ensures
            connections@ == 0,
    {
        SseConnectionCount { count: 0 }
    }

    /// The count is one on 64 bits.
    pub proof fn lemma_in_range(&self)
        ensures
            0 <= self@ <= u64::MAX,
    {
    }

    /// One more connection. Gives the gauge that changes.
    pub fn opened(&mut self) -> (gauge: GaugeUpdate)
        ensures
            final(self)@ == wrapped(old(self)@ + 1),
            gauge@ == connections_gauge(final(self)@),
            final(self)@ == (old(self)@ + 1) % 0x1_0000_0000_0000_0000,
            gauge.name@ == "certstream_sse_connections"@,
            gauge.value == final(self)@,
    {
        self.count = self.count.wrapping_add(1);
        update_sse_metrics(self)
    }

    /// One connection less. Gives the gauge that changes.
    fn closed(&mut self) -> (gauge: GaugeUpdate)
        ensures
            final(self)@ == wrapped(old(self)@ - 1),
            gauge@ == connections_gauge(final(self)@),
            final(self)@ == (old(self)@ - 1) % 0x1_0000_0000_0000_0000,
            gauge.name@ == "certstream_sse_connections"@,
            gauge.value == final(self)@,
    {
        self.count = self.count.wrapping_sub(1);
        update_sse_metrics(self)
    }
}

/// What is left to do once a connection is over.
pub struct SseClose {
    /// Whether the connection's slot is to be released.
    pub release_slot: bool,
    /// Bytes to add to the shared outbound counter.
    pub flushed: u64,
    /// Metric counters that grow.
    pub counters: Vec<CounterUpdate>,
    /// The gauge that changes.
    pub gauge: GaugeUpdate,
}

/// Takes a connection out of the count, whatever ended it. The bytes still pending are moved into
/// the shared counter, and the slot that the connection holds goes back to the limiter.
pub fn close_stream(
    pending_bytes: &mut u64,
    connections: &mut SseConnectionCount,
) -> (close: SseClose)
    ensures
        *final(pending_bytes) == 0,
        final(connections)@ == wrapped(old(connections)@ - 1),
        close.release_slot,
        close.flushed == *old(pending_bytes),
        increments_of(close.counters@) == flush_increments(*old(pending_bytes) as int),
        close.gauge@ == connections_gauge(final(connections)@),
        final(connections)@ == (old(connections)@ - 1) % 0x1_0000_0000_0000_0000,
        close.gauge.name@ == "certstream_sse_connections"@,
        close.gauge.value == final(connections)@,
        close.flushed == 0 ==> close.counters@.len() == 0,
        close.flushed != 0 ==> {
            &&& close.counters@.len() == 1
            &&& close.counters@[0].name@ == "certstream_bytes_sent_total"@
            &&& close.counters@[0].protocol is Some
            &&& close.counters@[0].protocol->0@ == "sse"@
            &&& close.counters@[0].amount == close.flushed
        },
{
    let mut counters: Vec<CounterUpdate> = Vec::new();
    let flushed: u64 = flush_bytes(pending_bytes, &mut counters);
    assert(increments_of(counters@) =~= flush_increments(flushed as int));
    let gauge = connections.closed();
    SseClose { release_slot: true, flushed, counters, gauge }
}

/// What a connection does between its opening and its end.
pub enum Activity {
    /// It sends a message of this many bytes.
    Sent(nat),
    /// It was polled.
    Polled,
}

/// The bytes of all messages that are sent.
pub open spec fn total_sent(activities: Seq<Activity>) -> int
    decreases activities.len(),
{
    if activities.len() == 0 {
        0
    } else {
        total_sent(activities.drop_last()) + match activities.last() {
            Activity::Sent(bytes) => bytes as int,
            Activity::Polled => 0,
        }
    }
}

/// The bytes pending on a connection that starts without any.
pub open spec fn pending(activities: Seq<Activity>) -> int
    decreases activities.len(),
{
    if activities.len() == 0 {
        0
    } else {
        let before = pending(activities.drop_last());
        match activities.last() {
            Activity::Sent(bytes) => pending_after(before, bytes as int),
            Activity::Polled => before - flushed_by_poll(before),
        }
    }
}

/// The bytes that the connection has moved into the shared counter.
pub open spec fn total_flushed(activities: Seq<Activity>) -> int
    decreases activities.len(),
{
    if activities.len() == 0 {
        0
    } else {
        let before = pending(activities.drop_last());
        total_flushed(activities.drop_last()) + match activities.last() {
            Activity::Sent(_) => 0,
            Activity::Polled => flushed_by_poll(before),
        }
    }
}

/// No byte is lost or counted twice: what was moved into the shared counter and what is pending
/// add up to what was sent. All of these counts wrap around on 64 bits.
pub proof fn law_bytes_are_conserved(activities: Seq<Activity>)
    ensures
        wrapped(total_flushed(activities) + pending(activities)) == wrapped(total_sent(activities)),
        0 <= pending(activities) <= u64::MAX,
    decreases activities.len(),
{
    if activities.len() > 0 {
        law_bytes_are_conserved(activities.drop_last());
    }
}

/// Where less is sent than a count on 64 bits can tell, no count wraps around: flushed and
/// pending bytes are exactly the bytes sent.
pub proof fn law_bytes_are_conserved_exactly(activities: Seq<Activity>)
    requires
        total_sent(activities) <= u64::MAX,
    ensures
        total_flushed(activities) + pending(activities) == total_sent(activities),
        0 <= total_flushed(activities),
        0 <= pending(activities),
    decreases activities.len(),
{
    if activities.len() > 0 {
        law_bytes_are_conserved_exactly(activities.drop_last());
    }
}

/// Right after a poll, less than [`FLUSH_THRESHOLD_BYTES`] are pending.
pub proof fn law_a_poll_bounds_what_is_pending(activities: Seq<Activity>)
    ensures
        pending(activities.push(Activity::Polled)) < FLUSH_THRESHOLD_BYTES,
{
    assert(activities.push(Activity::Polled).drop_last() =~= activities);
}

/// Closing a connection undoes opening it: the count is what it was.
pub proof fn law_close_undoes_open(count: int)
    requires
        0 <= count <= u64::MAX,
    ensures
        wrapped(wrapped(count + 1) - 1) == count,
{
}

/// A connection that comes or goes.
pub enum Change {
    Opened,
    Closed,
}

/// How many of the changes are the given one.
pub open spec fn times(changes: Seq<Change>, change: Change) -> int
    decreases changes.len(),
{
    if changes.len() == 0 {
        0
    } else {
        times(changes.drop_last(), change) + if changes.last() == change {
            1int
        } else {
            0int
        }
    }
}

/// The count after a series of changes to one that starts at zero.
pub open spec fn count_after(changes: Seq<Change>) -> int
    decreases changes.len(),
{
    if changes.len() == 0 {
        0
    } else {
        match changes.last() {
            Change::Opened => wrapped(count_after(changes.drop_last()) + 1),
            Change::Closed => wrapped(count_after(changes.drop_last()) - 1),
        }
    }
}

/// After any series of openings and closings, whatever their order, the count is the openings
/// less the closings, on 64 bits.
pub proof fn law_the_count_is_openings_less_closings(changes: Seq<Change>)
    ensures
        count_after(changes) == wrapped(
            times(changes, Change::Opened) - times(changes, Change::Closed),
        ),
    decreases changes.len(),
{
    if changes.len() > 0 {
        law_the_count_is_openings_less_closings(changes.drop_last());
    }
}

/// Every stream can be asked for by name.
pub proof fn law_every_stream_has_a_name(stream_type: SseStreamType)
    ensures
        exists|name: Seq<char>| #[trigger] stream_named(name) == stream_type,
{
    lemma_stream_names_differ();
    assert(stream_named("full"@) == SseStreamType::Full);
    assert(stream_named("domains"@) == SseStreamType::DomainsOnly);
    assert(stream_named("lite"@) == SseStreamType::Lite);
}

/// The full stream has one name, that of domain names has two, and every other name is one of
/// the lite stream. A query without a name asks for the lite stream too.
pub proof fn law_streams_answer_to_their_names(name: Seq<char>, params: SseQueryParams)
    ensures
        stream_named(name) is Full <==> name == "full"@,
        stream_named(name) is DomainsOnly <==> name == "domains"@ || name == "domains-only"@,
        stream_named(name) is Lite <==> name != "full"@ && name != "domains"@ && name
            != "domains-only"@,
        params.stream is None ==> stream_named(params.name()) is Lite,
        params.stream matches Some(given) ==> params.name() == given@,
{
    lemma_stream_names_differ();
}

/// Each stream is switched on and off by itself.
pub proof fn law_each_stream_has_its_own_switch(streams: StreamConfig)
    ensures
        SseStreamType::Full.enabled(streams) == streams.full,
        SseStreamType::Lite.enabled(streams) == streams.lite,
        SseStreamType::DomainsOnly.enabled(streams) == streams.domains_only,
{
}

/// Each stream carries its own text of a message.
pub proof fn law_each_stream_carries_its_own_text(message: MessageText)
    ensures
        SseStreamType::Full.select(message) == message.full,
        SseStreamType::Lite.select(message) == message.lite,
        SseStreamType::DomainsOnly.select(message) == message.domains_only,
{
}

/// Bytes add up on 64 bits. A poll pushes out all of them or none, from a quarter of a mebibyte
/// on; what is pushed out is reported as one increment of the byte counter, and nothing is
/// reported where nothing is.
pub proof fn law_what_a_poll_pushes_out(pending_bytes: int, bytes: int)
    requires
        0 <= pending_bytes,
    ensures
        pending_after(pending_bytes, bytes) == (pending_bytes + bytes) % 0x1_0000_0000_0000_0000,
        pending_bytes < 262_144 ==> flushed_by_poll(pending_bytes) == 0,
        pending_bytes >= 262_144 ==> flushed_by_poll(pending_bytes) == pending_bytes,
        pending_bytes == 0 ==> flush_increments(pending_bytes).len() == 0,
        pending_bytes > 0 ==> {
            &&& flush_increments(pending_bytes).len() == 1
            &&& flush_increments(pending_bytes)[0].name == "certstream_bytes_sent_total"@
            &&& flush_increments(pending_bytes)[0].protocol == Some("sse"@)
            &&& flush_increments(pending_bytes)[0].amount == pending_bytes
        },
{
}

/// The gauge shows the count, under its own name.
pub proof fn law_the_gauge_shows_the_count(count: int)
    ensures
        connections_gauge(count).name == "certstream_sse_connections"@,
        connections_gauge(count).value == count,
{
}

/// A keep-alive comment is sent every fifteen seconds, and says `heartbeat`.
pub proof fn law_connections_are_kept_alive()
    ensures
        KEEP_ALIVE_INTERVAL_SECS == 15,
        KEEP_ALIVE_TEXT@ == "heartbeat"@,
        FLUSH_THRESHOLD_BYTES == 262_144,
{
}

/// The bytes that a stream has carried once these messages went out on it.
pub open spec fn carried(stream_type: SseStreamType, messages: Seq<MessageText>) -> int
    decreases messages.len(),
{
    if messages.len() == 0 {
        0
    } else {
        let message = messages.last();
        carried(stream_type, messages.drop_last()) + match stream_type {
            SseStreamType::Full => encode_utf8(message.full).len(),
            SseStreamType::Lite => encode_utf8(message.lite).len(),
            SseStreamType::DomainsOnly => encode_utf8(message.domains_only).len(),
        }
    }
}

/// The bytes pending once these messages went out on a stream that was not polled between them.
pub open spec fn pending_with(
    stream_type: SseStreamType,
    pending_bytes: int,
    messages: Seq<MessageText>,
) -> int
    decreases messages.len(),
{
    if messages.len() == 0 {
        pending_bytes
    } else {
        pending_after(
            pending_with(stream_type, pending_bytes, messages.drop_last()),
            encode_utf8(stream_type.select(messages.last())).len() as int,
        )
    }
}

/// What is pending grows by the bytes of the texts that the stream carries, message by message,
/// on 64 bits.
pub proof fn law_pending_grows_by_what_the_stream_carries(
    stream_type: SseStreamType,
    pending_bytes: int,
    messages: Seq<MessageText>,
)
    requires
        0 <= pending_bytes <= u64::MAX,
    ensures
        pending_with(stream_type, pending_bytes, messages) == (pending_bytes + carried(
            stream_type,
            messages,
        )) % 0x1_0000_0000_0000_0000,
    decreases messages.len(),
{
    if messages.len() > 0 {
        law_pending_grows_by_what_the_stream_carries(
            stream_type,
            pending_bytes,
            messages.drop_last(),
        );
    }
}

} // verus!
