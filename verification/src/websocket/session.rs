//! The life of one WebSocket connection, as a state machine.
//!
//! The process around it waits for what happens next, tells the [`Session`], and does what the
//! session answers: go on waiting, send a frame and report how that went, or disconnect.

use axum::extract::ws::Utf8Bytes;
use bytes::Bytes;
use std::sync::Arc;
use vstd::prelude::*;
use vstd::utf8::encode_utf8;

use crate::models::{MessageText, PreSerializedMessage};
use crate::payload::{as_text, bytes_of, no_bytes, share_text, static_text, text_of};
use crate::telemetry::{bytes_sent, increments_of, plain_increment, CounterUpdate, Increment};
use crate::websocket::server::lag_policy::{note_lag, one_more_lag, MAX_CONSECUTIVE_LAGS};
use crate::websocket::server::StreamType;

verus! {

/// The text of a heartbeat frame.
pub const HEARTBEAT_JSON: &'static str = "{\"message_type\":\"heartbeat\"}";

/// Seconds between two heartbeats.
pub const HEARTBEAT_INTERVAL_SECS: u64 = 30;

/// Seconds between two pings.
pub const PING_INTERVAL_SECS: u64 = 15;

/// Nanoseconds without a pong after which a client counts as gone: 45 seconds.
pub const PONG_TIMEOUT_NANOS: u128 = 45_000_000_000;

/// Seconds that a write may take. A client whose send buffer is full would otherwise block its
/// connection for ever; any healthy client drains tens of kilobytes in under a second.
pub const WRITE_TIMEOUT_SECS: u64 = 10;

/// Number of frames after which the pending bytes are pushed to the shared counter. Doing it
/// for each frame would turn one broadcast into one shared write per subscriber.
pub const BYTES_FLUSH_FRAMES: u32 = 256;

/// How an attempt to send a frame ended.
#[derive(Clone, Copy, Debug, PartialEq, Eq, Structural)]
pub enum SendOutcome {
    Sent,
    /// The connection refused the frame.
    Failed,
    /// The write took longer than [`WRITE_TIMEOUT_SECS`]: the client is slow or dead.
    TimedOut,
}

/// Something that happened to a connection.
pub enum SocketEvent {
    /// The client sent a ping with this payload.
    ClientPing(Bytes),
    /// The client sent a pong.
    ClientPong,
    /// The client sent a text frame.
    ClientText,
    /// The client sent a binary frame.
    ClientBinary,
    /// The client sent a close frame.
    ClientClose,
    /// The client sent something that could not be read.
    ClientError,
    /// The client's side of the connection has ended.
    ClientGone,
    /// It is time to ping the client.
    PingDue,
    /// It is time for a heartbeat.
    HeartbeatDue,
    /// A message was broadcast.
    Message(Arc<PreSerializedMessage>),
    /// The connection fell behind the broadcast and missed this many messages.
    Lagged(u64),
    /// There will be no more broadcasts.
    ChannelClosed,
    /// The last frame was sent, or was not.
    SendFinished(SendOutcome),
}

/// A frame to send to the client.
pub enum Frame {
    Text(Utf8Bytes),
    Ping(Bytes),
    Pong(Bytes),
}

/// Why a connection is to be closed.
#[derive(Clone, Copy, Debug, PartialEq, Eq, Structural)]
pub enum Farewell {
    /// The client closed the connection, or is gone.
    ClientLeft,
    /// The client has not answered pings for too long.
    PongTimeout,
    /// A frame could not be sent.
    SendFailed,
    /// A frame could not be sent in time.
    WriteTimeout,
    /// The client lagged this many times in a row.
    PersistentLag(u32),
    /// There is nothing more to broadcast.
    ChannelClosed,
}

/// What to do next about a connection.
pub enum Action {
    /// Wait for the next event.
    Continue,
    /// Send the frame, and report how that went before anything else.
    Send(Frame),
    /// Close the connection, for this reason.
    Disconnect(Farewell),
}

/// The answer of a session to an event.
pub struct Step {
    pub action: Action,
    /// Bytes to add to the shared outbound counter.
    pub flushed: u64,
    /// Metric counters that grow.
    pub counters: Vec<CounterUpdate>,
}

/// A [`SocketEvent`] by what it carries.
pub enum Happening {
    ClientPing(Seq<u8>),
    ClientPong,
    ClientText,
    ClientBinary,
    ClientClose,
    ClientError,
    ClientGone,
    PingDue,
    HeartbeatDue,
    Message(MessageText),
    Lagged(int),
    ChannelClosed,
    SendFinished(SendOutcome),
}

impl View for SocketEvent {
    type V = Happening;

    open spec fn view(&self) -> Happening {
        match self {
            SocketEvent::ClientPing(data) => Happening::ClientPing(bytes_of(*data)),
            SocketEvent::ClientPong => Happening::ClientPong,
            SocketEvent::ClientText => Happening::ClientText,
            SocketEvent::ClientBinary => Happening::ClientBinary,
            SocketEvent::ClientClose => Happening::ClientClose,
            SocketEvent::ClientError => Happening::ClientError,
            SocketEvent::ClientGone => Happening::ClientGone,
            SocketEvent::PingDue => Happening::PingDue,
            SocketEvent::HeartbeatDue => Happening::HeartbeatDue,
            SocketEvent::Message(message) => Happening::Message(message@),
            SocketEvent::Lagged(missed) => Happening::Lagged(*missed as int),
            SocketEvent::ChannelClosed => Happening::ChannelClosed,
            SocketEvent::SendFinished(outcome) => Happening::SendFinished(*outcome),
        }
    }
}

/// A [`Frame`] by what it carries.
pub enum FrameData {
    Text(Seq<char>),
    Ping(Seq<u8>),
    Pong(Seq<u8>),
}

impl View for Frame {
    type V = FrameData;

    open spec fn view(&self) -> FrameData {
        match self {
            Frame::Text(text) => FrameData::Text(text_of(*text)),
            Frame::Ping(data) => FrameData::Ping(bytes_of(*data)),
            Frame::Pong(data) => FrameData::Pong(bytes_of(*data)),
        }
    }
}

/// An [`Action`] by what it carries.
pub enum Act {
    Continue,
    Send(FrameData),
    Disconnect(Farewell),
}

impl View for Action {
    type V = Act;

    open spec fn view(&self) -> Act {
        match self {
            Action::Continue => Act::Continue,
            Action::Send(frame) => Act::Send(frame@),
            Action::Disconnect(farewell) => Act::Disconnect(*farewell),
        }
    }
}

/// A [`Step`] by what it says.
#[verifier::ext_equal]
pub struct Reaction {
    pub act: Act,
    pub flushed: int,
    pub increments: Seq<Increment>,
}

impl View for Step {
    type V = Reaction;

    open spec fn view(&self) -> Reaction {
        Reaction {
            act: self.action@,
            flushed: self.flushed as int,
            increments: increments_of(self.counters@),
        }
    }
}

impl Reaction {
    /// Nothing but `act`.
    pub open spec fn just(act: Act) -> Reaction {
        Reaction { act, flushed: 0, increments: Seq::empty() }
    }
}

/// The frame whose outcome a session waits for.
pub enum InFlight {
    Nothing,
    /// A ping, a pong or a heartbeat.
    Control,
    /// A broadcast message of this many bytes.
    Data(u64),
}

/// What is in flight, as a model.
pub enum Sending {
    Nothing,
    Control,
    Data(int),
}

impl View for InFlight {
    type V = Sending;

    open spec fn view(&self) -> Sending {
        match self {
            InFlight::Nothing => Sending::Nothing,
            InFlight::Control => Sending::Control,
            InFlight::Data(bytes) => Sending::Data(*bytes as int),
        }
    }
}

/// The state of a connection.
pub struct SessionState {
    pub stream_type: StreamType,
    /// Bytes sent since the last push to the shared counter.
    pub pending_bytes: int,
    /// Messages sent since then.
    pub pending_frames: int,
    /// When the client last showed that it is alive, in nanoseconds.
    pub last_pong: int,
    /// Lags since the last message that went out.
    pub consecutive_lags: int,
    pub sending: Sending,
    pub connected: bool,
}

/// Pushing the pending bytes to the shared counter, as what it reports.
pub open spec fn flush_increments(pending_bytes: int) -> Seq<Increment> {
    if pending_bytes == 0 {
        Seq::empty()
    } else {
        seq![bytes_sent("websocket"@, pending_bytes)]
    }
}

impl SessionState {
    /// A fresh connection.
    pub open spec fn fresh(stream_type: StreamType, now: int) -> SessionState {
        SessionState {
            stream_type,
            pending_bytes: 0,
            pending_frames: 0,
            last_pong: now,
            consecutive_lags: 0,
            sending: Sending::Nothing,
            connected: true,
        }
    }

    /// Whether the session can be told of this now: it is connected, the outcome of a send is
    /// told exactly when a frame is in flight, and the counts of what was sent still fit.
    pub open spec fn accepts(self, happening: Happening) -> bool {
        &&& self.connected
        &&& match (self.sending, happening) {
            (Sending::Nothing, Happening::SendFinished(_)) => false,
            (Sending::Nothing, _) => true,
            (Sending::Data(bytes), Happening::SendFinished(SendOutcome::Sent)) => {
                &&& self.pending_bytes + bytes <= u64::MAX
                &&& self.pending_frames + 1 <= u32::MAX
            },
            (_, Happening::SendFinished(_)) => true,
            (_, _) => false,
        }
    }

    /// How long the client has been silent; a clock that runs backwards counts as no time.
    pub open spec fn silence(self, now: int) -> int {
        if now >= self.last_pong {
            now - self.last_pong
        } else {
            0
        }
    }

    /// The connection with a frame on its way.
    pub open spec fn while_sending(self, sending: Sending) -> SessionState {
        SessionState { sending, ..self }
    }

    /// The connection once it is to be closed.
    pub open spec fn cut(self) -> SessionState {
        SessionState { sending: Sending::Nothing, connected: false, ..self }
    }

    /// The connection closed for a reason, and nothing to report.
    pub open spec fn closing(self, farewell: Farewell) -> (SessionState, Reaction) {
        (self.cut(), Reaction::just(Act::Disconnect(farewell)))
    }

    /// The pending bytes pushed out. The frame count only starts anew where there were bytes.
    pub open spec fn flushed(self) -> SessionState {
        if self.pending_bytes == 0 {
            self
        } else {
            SessionState { pending_bytes: 0, pending_frames: 0, ..self }
        }
    }

    /// The connection with one more message of `bytes` bytes sent and counted.
    pub open spec fn counted(self, bytes: int) -> SessionState {
        SessionState {
            pending_bytes: self.pending_bytes + bytes,
            pending_frames: self.pending_frames + 1,
            consecutive_lags: 0,
            sending: Sending::Nothing,
            ..self
        }
    }

    /// After a message of `bytes` bytes went out: it is counted, and every
    /// [`BYTES_FLUSH_FRAMES`] messages the count is pushed out.
    pub open spec fn after_delivery(self, bytes: int) -> (SessionState, Reaction) {
        let counted = self.counted(bytes);
        if counted.pending_frames >= BYTES_FLUSH_FRAMES {
            (
                counted.flushed(),
                Reaction {
                    act: Act::Continue,
                    flushed: counted.pending_bytes,
                    increments: flush_increments(counted.pending_bytes),
                },
            )
        } else {
            (counted, Reaction::just(Act::Continue))
        }
    }

    /// After one more lag: the client is cut at [`MAX_CONSECUTIVE_LAGS`] in a row.
    pub open spec fn after_lag(self, missed: int) -> (SessionState, Reaction) {
        let lagging = SessionState {
            consecutive_lags: one_more_lag(self.consecutive_lags),
            ..self
        };
        let report = plain_increment("certstream_ws_messages_lagged"@, missed);
        if lagging.consecutive_lags >= MAX_CONSECUTIVE_LAGS {
            (
                lagging.cut(),
                Reaction {
                    act: Act::Disconnect(
                        Farewell::PersistentLag(lagging.consecutive_lags as u32),
                    ),
                    flushed: 0,
                    increments: seq![report, plain_increment("certstream_ws_disconnect_lag"@, 1)],
                },
            )
        } else {
            (lagging, Reaction { act: Act::Continue, flushed: 0, increments: seq![report] })
        }
    }

    /// What the session becomes, and how it reacts, when this happens at `now`.
    pub open spec fn next(self, happening: Happening, now: int) -> (SessionState, Reaction) {
        match happening {
            Happening::ClientPing(data) => (
                self.while_sending(Sending::Control),
                Reaction::just(Act::Send(FrameData::Pong(data))),
            ),
            Happening::ClientPong => (
                SessionState { last_pong: now, ..self },
                Reaction::just(Act::Continue),
            ),
            Happening::ClientText => (self, Reaction::just(Act::Continue)),
            Happening::ClientBinary => (self, Reaction::just(Act::Continue)),
            Happening::ClientClose => self.closing(Farewell::ClientLeft),
            Happening::ClientError => (self, Reaction::just(Act::Continue)),
            Happening::ClientGone => self.closing(Farewell::ClientLeft),
            Happening::PingDue => if self.silence(now) > PONG_TIMEOUT_NANOS {
                self.closing(Farewell::PongTimeout)
            } else {
                (
                    self.while_sending(Sending::Control),
                    Reaction::just(Act::Send(FrameData::Ping(Seq::empty()))),
                )
            },
            Happening::HeartbeatDue => (
                self.while_sending(Sending::Control),
                Reaction::just(Act::Send(FrameData::Text(HEARTBEAT_JSON@))),
            ),
            Happening::Message(message) => {
                let text = self.stream_type.select(message);
                (
                    self.while_sending(Sending::Data(encode_utf8(text).len() as int)),
                    Reaction::just(Act::Send(FrameData::Text(text))),
                )
            },
            Happening::Lagged(missed) => self.after_lag(missed),
            Happening::ChannelClosed => self.closing(Farewell::ChannelClosed),
            Happening::SendFinished(SendOutcome::Sent) => match self.sending {
                Sending::Data(bytes) => self.after_delivery(bytes),
                _ => (self.while_sending(Sending::Nothing), Reaction::just(Act::Continue)),
            },
            Happening::SendFinished(SendOutcome::Failed) => self.closing(Farewell::SendFailed),
            Happening::SendFinished(SendOutcome::TimedOut) => (
                self.cut(),
                Reaction {
                    act: Act::Disconnect(Farewell::WriteTimeout),
                    flushed: 0,
                    increments: seq![
                        plain_increment("certstream_ws_disconnect_write_timeout"@, 1),
                    ],
                },
            ),
        }
    }
}

/// One WebSocket connection.
pub struct Session {
    stream_type: StreamType,
    pending_bytes: u64,
    pending_frames: u32,
    last_pong: u128,
    consecutive_lags: u32,
    in_flight: InFlight,
    connected: bool,
}

impl View for Session {
    type V = SessionState;

    closed spec fn view(&self) -> SessionState {
        SessionState {
            stream_type: self.stream_type,
            pending_bytes: self.pending_bytes as int,
            pending_frames: self.pending_frames as int,
            last_pong: self.last_pong as int,
            consecutive_lags: self.consecutive_lags as int,
            sending: self.in_flight@,
            connected: self.connected,
        }
    }
}

/// Pushes a connection's accumulated outbound bytes to the shared counter: gives the bytes to
/// add to it, and adds the metric that grows with it to `counters`.
pub fn flush_bytes_sent(
    pending_bytes: &mut u64,
    pending_frames: &mut u32,
    counters: &mut Vec<CounterUpdate>,
) -> (flushed: u64)
    ensures
        flushed == *old(pending_bytes),
        *final(pending_bytes) == 0,
        *final(pending_frames) == if *old(pending_bytes) == 0 {
            *old(pending_frames)
        } else {
            0
        },
        increments_of(final(counters)@) == increments_of(old(counters)@) + flush_increments(
            *old(pending_bytes) as int,
        ),
        *old(pending_bytes) == 0 ==> final(counters)@ == old(counters)@,
        *old(pending_bytes) != 0 ==> {
            &&& final(counters)@.len() == old(counters)@.len() + 1
            &&& final(counters)@.drop_last() == old(counters)@
            &&& final(counters)@.last().name@ == "certstream_bytes_sent_total"@
            &&& final(counters)@.last().protocol is Some
            &&& final(counters)@.last().protocol->0@ == "websocket"@
            &&& final(counters)@.last().amount == *old(pending_bytes)
        },
{
    if *pending_bytes == 0 {
        assert(increments_of(counters@) =~= increments_of(old(counters)@) + flush_increments(0));
        return 0;
    }
    let flushed: u64 = *pending_bytes;
    counters.push(
        CounterUpdate {
            name: "certstream_bytes_sent_total",
            protocol: Some("websocket"),
            amount: flushed,
        },
    );
    *pending_bytes = 0;
    *pending_frames = 0;
    assert(increments_of(counters@) =~= increments_of(old(counters)@) + flush_increments(
        flushed as int,
    ));
    flushed
}

/// The frame of a message on a stream, and its length in bytes.
fn message_frame(stream_type: StreamType, message: &PreSerializedMessage) -> (framed: (Frame, u64))
    ensures
        framed.0@ == FrameData::Text(stream_type.select(message@)),
        framed.1 == encode_utf8(stream_type.select(message@)).len(),
        framed.0 is Text,
        text_of(framed.0->Text_0) == match stream_type {
            StreamType::Full => text_of(message.full),
            StreamType::Lite => text_of(message.lite),
            StreamType::DomainsOnly => text_of(message.domains_only),
        },
        framed.1 == encode_utf8(text_of(framed.0->Text_0)).len(),
{
    // Payloads are shared: a handle on one copies no text.
    let text = match stream_type {
        StreamType::Full => share_text(&message.full),
        StreamType::Lite => share_text(&message.lite),
        StreamType::DomainsOnly => share_text(&message.domains_only),
    };
    let bytes: u64 = as_text(&text).as_bytes().len() as u64;
    (Frame::Text(text), bytes)
}

/// A step that does nothing but `action`.
fn just(action: Action) -> (step: Step)
    ensures
        step@ == Reaction::just(action@),
        step.action == action,
        step.flushed == 0,
        step.counters@.len() == 0,
{
    let step = Step { action, flushed: 0, counters: Vec::new() };
    assert(step@ =~= Reaction::just(action@));
    step
}

impl Session {
    /// A connection that has just been established.
    pub fn new(stream_type: StreamType, now: u128) -> (session: Session)
        ensures
            session@ == SessionState::fresh(stream_type, now as int),
            session@.stream_type == stream_type,
            session@.pending_bytes == 0,
            session@.pending_frames == 0,
            session@.last_pong == now,
            session@.consecutive_lags == 0,
            session@.sending is Nothing,
            session@.connected,
    {
        Session {
            stream_type,
            pending_bytes: 0,
            pending_frames: 0,
            last_pong: now,
            consecutive_lags: 0,
            in_flight: InFlight::Nothing,
            connected: true,
        }
    }

    /// The stream that the connection carries.
    pub fn stream_type(&self) -> (stream_type: StreamType)
        ensures
            stream_type == self@.stream_type,
    {
        self.stream_type
    }

    /// Whether the session can be told of this event now.
    pub fn accepts(&self, event: &SocketEvent) -> (accepted: bool)
        ensures
            accepted == self@.accepts(event@),
            accepted <==> {
                &&& self@.connected
                &&& self@.sending is Nothing <==> !(event is SendFinished)
                &&& *event == SocketEvent::SendFinished(SendOutcome::Sent) ==> (
                self@.sending matches Sending::Data(bytes) ==> {
                    &&& self@.pending_bytes + bytes <= u64::MAX
                    &&& self@.pending_frames + 1 <= u32::MAX
                })
            },
    {
        if !self.connected {
            return false;
        }
        match (&self.in_flight, event) {
            (InFlight::Nothing, SocketEvent::SendFinished(_)) => false,
            (InFlight::Nothing, _) => true,
            (InFlight::Data(bytes), SocketEvent::SendFinished(SendOutcome::Sent)) => {
                *bytes <= u64::MAX - self.pending_bytes && self.pending_frames < u32::MAX
            },
            (_, SocketEvent::SendFinished(_)) => true,
            (_, _) => false,
        }
    }

    /// Reacts to an event that happened at `now`, in nanoseconds on a clock of the caller's.
    pub fn step(&mut self, event: SocketEvent, now: u128) -> (step: Step)
        requires
            old(self)@.accepts(event@),
        ensures
            (final(self)@, step@) == old(self)@.next(event@, now as int),
            // What the session does.
            match event {
                SocketEvent::ClientPing(data) => step.action matches Action::Send(
                    Frame::Pong(pong),
                ) && bytes_of(pong) == bytes_of(data),
                SocketEvent::PingDue => if now - old(self)@.last_pong > 45_000_000_000 {
                    step.action == Action::Disconnect(Farewell::PongTimeout)
                } else {
                    step.action matches Action::Send(Frame::Ping(ping)) && bytes_of(ping).len() == 0
                },
                SocketEvent::HeartbeatDue => step.action matches Action::Send(Frame::Text(text))
                    && text_of(text) == "{\"message_type\":\"heartbeat\"}"@,
                SocketEvent::Message(message) => step.action matches Action::Send(Frame::Text(text))
                    && text_of(text) == match old(self)@.stream_type {
                    StreamType::Full => text_of(message.full),
                    StreamType::Lite => text_of(message.lite),
                    StreamType::DomainsOnly => text_of(message.domains_only),
                },
                SocketEvent::Lagged(_) => if old(self)@.consecutive_lags + 1 >= 5 {
                    step.action == Action::Disconnect(
                        Farewell::PersistentLag(final(self)@.consecutive_lags as u32),
                    )
                } else {
                    step.action == Action::Continue
                },
                SocketEvent::ClientClose | SocketEvent::ClientGone => step.action
                    == Action::Disconnect(Farewell::ClientLeft),
                SocketEvent::ChannelClosed => step.action == Action::Disconnect(
                    Farewell::ChannelClosed,
                ),
                SocketEvent::SendFinished(SendOutcome::Failed) => step.action == Action::Disconnect(
                    Farewell::SendFailed,
                ),
                SocketEvent::SendFinished(SendOutcome::TimedOut) => step.action
                    == Action::Disconnect(Farewell::WriteTimeout),
                SocketEvent::ClientPong | SocketEvent::ClientText | SocketEvent::ClientBinary
                | SocketEvent::ClientError | SocketEvent::SendFinished(SendOutcome::Sent) =>
                    step.action == Action::Continue,
            },
            // What it reports.
            match event {
                SocketEvent::Lagged(missed) => {
                    &&& step.counters@.len() == if step.action is Disconnect {
                        2int
                    } else {
                        1int
                    }
                    &&& step.counters@[0].name@ == "certstream_ws_messages_lagged"@
                    &&& step.counters@[0].protocol is None
                    &&& step.counters@[0].amount == missed
                    &&& step.action is Disconnect ==> {
                        &&& step.counters@[1].name@ == "certstream_ws_disconnect_lag"@
                        &&& step.counters@[1].protocol is None
                        &&& step.counters@[1].amount == 1
                    }
                },
                SocketEvent::SendFinished(SendOutcome::TimedOut) => {
                    &&& step.counters@.len() == 1
                    &&& step.counters@[0].name@ == "certstream_ws_disconnect_write_timeout"@
                    &&& step.counters@[0].protocol is None
                    &&& step.counters@[0].amount == 1
                },
                _ => if step.flushed == 0 {
                    step.counters@.len() == 0
                } else {
                    &&& step.counters@.len() == 1
                    &&& step.counters@[0].name@ == "certstream_bytes_sent_total"@
                    &&& step.counters@[0].protocol is Some
                    &&& step.counters@[0].protocol->0@ == "websocket"@
                    &&& step.counters@[0].amount == step.flushed
                },
            },
            // What it keeps in mind.
            final(self)@.stream_type == old(self)@.stream_type,
            final(self)@.connected == !(step.action is Disconnect),
            final(self)@.last_pong == if event is ClientPong {
                now as int
            } else {
                old(self)@.last_pong
            },
            match step.action {
                Action::Send(Frame::Text(text)) => if event is Message {
                    final(self)@.sending == Sending::Data(encode_utf8(text_of(text)).len() as int)
                } else {
                    final(self)@.sending is Control
                },
                Action::Send(_) => final(self)@.sending is Control,
                _ => final(self)@.sending is Nothing,
            },
            match (old(self)@.sending, event) {
                (Sending::Data(bytes), SocketEvent::SendFinished(SendOutcome::Sent)) => {
                    &&& step.flushed + final(self)@.pending_bytes == old(self)@.pending_bytes
                        + bytes
                    &&& old(self)@.pending_frames + 1 < 256 ==> {
                        &&& step.flushed == 0
                        &&& final(self)@.pending_frames == old(self)@.pending_frames + 1
                    }
                    &&& old(self)@.pending_frames + 1 >= 256 ==> {
                        &&& final(self)@.pending_bytes == 0
                        &&& step.flushed != 0 ==> final(self)@.pending_frames == 0
                        &&& step.flushed == 0 ==> final(self)@.pending_frames
                            == old(self)@.pending_frames + 1
                    }
                    &&& final(self)@.consecutive_lags == 0
                },
                (_, SocketEvent::Lagged(_)) => {
                    &&& step.flushed == 0
                    &&& final(self)@.pending_bytes == old(self)@.pending_bytes
                    &&& final(self)@.pending_frames == old(self)@.pending_frames
                    &&& final(self)@.consecutive_lags == if old(self)@.consecutive_lags
                        < u32::MAX {
                        old(self)@.consecutive_lags + 1
                    } else {
                        old(self)@.consecutive_lags
                    }
                },
                _ => {
                    &&& step.flushed == 0
                    &&& final(self)@.pending_bytes == old(self)@.pending_bytes
                    &&& final(self)@.pending_frames == old(self)@.pending_frames
                    &&& final(self)@.consecutive_lags == old(self)@.consecutive_lags
                },
            },
    {
        match event {
            SocketEvent::ClientPing(data) => {
                self.in_flight = InFlight::Control;
                just(Action::Send(Frame::Pong(data)))
            },
            SocketEvent::ClientPong => {
                self.last_pong = now;
                just(Action::Continue)
            },
            SocketEvent::ClientText => just(Action::Continue),
            SocketEvent::ClientBinary => just(Action::Continue),
            SocketEvent::ClientClose => {
                self.connected = false;
                just(Action::Disconnect(Farewell::ClientLeft))
            },
            SocketEvent::ClientError => just(Action::Continue),
            SocketEvent::ClientGone => {
                self.connected = false;
                just(Action::Disconnect(Farewell::ClientLeft))
            },
            SocketEvent::PingDue => {
                if now.saturating_sub(self.last_pong) > PONG_TIMEOUT_NANOS {
                    self.connected = false;
                    just(Action::Disconnect(Farewell::PongTimeout))
                } else {
                    self.in_flight = InFlight::Control;
                    just(Action::Send(Frame::Ping(no_bytes())))
                }
            },
            SocketEvent::HeartbeatDue => {
                // A text frame: JSON over WebSocket is text, not binary.
                self.in_flight = InFlight::Control;
                just(Action::Send(Frame::Text(static_text(HEARTBEAT_JSON))))
            },
            SocketEvent::Message(message) => {
                let (frame, bytes) = message_frame(self.stream_type, &message);
                self.in_flight = InFlight::Data(bytes);
                just(Action::Send(frame))
            },
            SocketEvent::Lagged(missed) => {
                let mut step = Step { action: Action::Continue, flushed: 0, counters: Vec::new() };
                step.counters.push(
                    CounterUpdate {
                        name: "certstream_ws_messages_lagged",
                        protocol: None,
                        amount: missed,
                    },
                );
                if note_lag(&mut self.consecutive_lags) {
                    step.counters.push(
                        CounterUpdate {
                            name: "certstream_ws_disconnect_lag",
                            protocol: None,
                            amount: 1,
                        },
                    );
                    step.action = Action::Disconnect(
                        Farewell::PersistentLag(self.consecutive_lags),
                    );
                    self.connected = false;
                }
                assert(step@.increments =~= old(self)@.after_lag(missed as int).1.increments);
                step
            },
            SocketEvent::ChannelClosed => {
                self.connected = false;
                just(Action::Disconnect(Farewell::ChannelClosed))
            },
            SocketEvent::SendFinished(outcome) => self.send_finished(outcome),
        }
    }

    /// Reacts to the outcome of sending the frame in flight.
    fn send_finished(&mut self, outcome: SendOutcome) -> (step: Step)
        requires
            old(self)@.accepts(Happening::SendFinished(outcome)),
        ensures
            forall|now: int|
                (final(self)@, step@) == #[trigger] old(self)@.next(
                    Happening::SendFinished(outcome),
                    now,
                ),
            outcome is TimedOut ==> {
                &&& step.counters@.len() == 1
                &&& step.counters@[0].name@ == "certstream_ws_disconnect_write_timeout"@
                &&& step.counters@[0].protocol is None
                &&& step.counters@[0].amount == 1
            },
            !(outcome is TimedOut) ==> if step.flushed == 0 {
                step.counters@.len() == 0
            } else {
                &&& step.counters@.len() == 1
                &&& step.counters@[0].name@ == "certstream_bytes_sent_total"@
                &&& step.counters@[0].protocol is Some
                &&& step.counters@[0].protocol->0@ == "websocket"@
                &&& step.counters@[0].amount == step.flushed
            },
    {
        let mut step = Step { action: Action::Continue, flushed: 0, counters: Vec::new() };
        match outcome {
            SendOutcome::Sent => {
                if let InFlight::Data(bytes) = self.in_flight {
                    self.pending_bytes = self.pending_bytes + bytes;
                    self.pending_frames = self.pending_frames + 1;
                    if self.pending_frames >= BYTES_FLUSH_FRAMES {
                        step.flushed = flush_bytes_sent(
                            &mut self.pending_bytes,
                            &mut self.pending_frames,
                            &mut step.counters,
                        );
                    }
                    self.consecutive_lags = 0;
                }
            },
            SendOutcome::Failed => {
                step.action = Action::Disconnect(Farewell::SendFailed);
                self.connected = false;
            },
            SendOutcome::TimedOut => {
                step.counters.push(
                    CounterUpdate {
                        name: "certstream_ws_disconnect_write_timeout",
                        protocol: None,
                        amount: 1,
                    },
                );
                step.action = Action::Disconnect(Farewell::WriteTimeout);
                self.connected = false;
            },
        }
        self.in_flight = InFlight::Nothing;
        assert(step@ =~= old(self)@.next(Happening::SendFinished(outcome), 0).1);
        step
    }

    /// The bytes still to be added to the shared counter once the connection is over, and the
    /// metric that grows with it.
    pub fn finish(self) -> (rest: (u64, Vec<CounterUpdate>))
        ensures
            rest.0 == self@.pending_bytes,
            increments_of(rest.1@) == flush_increments(self@.pending_bytes),
            rest.0 == 0 ==> rest.1@.len() == 0,
            rest.0 != 0 ==> {
                &&& rest.1@.len() == 1
                &&& rest.1@[0].name@ == "certstream_bytes_sent_total"@
                &&& rest.1@[0].protocol is Some
                &&& rest.1@[0].protocol->0@ == "websocket"@
                &&& rest.1@[0].amount == rest.0
            },
    {
        let mut pending_bytes: u64 = self.pending_bytes;
        let mut pending_frames: u32 = self.pending_frames;
        let mut counters: Vec<CounterUpdate> = Vec::new();
        let flushed: u64 = flush_bytes_sent(&mut pending_bytes, &mut pending_frames, &mut counters);
        assert(increments_of(counters@) =~= flush_increments(self@.pending_bytes));
        (flushed, counters)
    }
}

} // verus!
