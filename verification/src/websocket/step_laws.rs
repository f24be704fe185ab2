//! What a connection does with each thing that happens to it, and what that amounts to.

use vstd::prelude::*;
use vstd::utf8::encode_utf8;

use crate::models::MessageText;
use crate::websocket::laws::{
    accepts_run, after, grown, law_metrics_tell_what_happened, pushed, Occurrence,
};
use crate::websocket::server::lag_policy::MAX_CONSECUTIVE_LAGS;
use crate::websocket::server::StreamType;
use crate::websocket::session::{
    flush_increments, Act, Farewell, FrameData, Happening, SendOutcome, Sending, SessionState,
    BYTES_FLUSH_FRAMES, HEARTBEAT_INTERVAL_SECS, HEARTBEAT_JSON, PING_INTERVAL_SECS,
    PONG_TIMEOUT_NANOS, WRITE_TIMEOUT_SECS,
};

verus! {

/// The intervals and limits of a connection.
pub proof fn law_intervals_and_limits()
    ensures
        HEARTBEAT_INTERVAL_SECS == 30,
        PING_INTERVAL_SECS == 15,
        PONG_TIMEOUT_NANOS == 45 * 1_000_000_000,
        WRITE_TIMEOUT_SECS == 10,
        BYTES_FLUSH_FRAMES == 256,
        MAX_CONSECUTIVE_LAGS == 5,
        HEARTBEAT_JSON@ == "{\"message_type\":\"heartbeat\"}"@,
{
}

/// A session that is connected can be told of the outcome of a send exactly while a frame is in
/// flight, and of everything else exactly while none is. Only the delivery of a message whose
/// count no longer fits is left out.
pub proof fn law_what_a_session_can_be_told(state: SessionState, happening: Happening)
    ensures
        state.accepts(happening) <==> {
            &&& state.connected
            &&& state.sending is Nothing <==> !(happening is SendFinished)
            &&& happening == Happening::SendFinished(SendOutcome::Sent) ==> (
            state.sending matches Sending::Data(bytes) ==> {
                &&& state.pending_bytes + bytes <= u64::MAX
                &&& state.pending_frames + 1 <= u32::MAX
            })
        },
{
}

/// A new connection is connected, has sent nothing, has not lagged, and was last heard of when
/// it was opened.
pub proof fn law_a_connection_starts_afresh(stream_type: StreamType, opened: int)
    ensures
        ({
            let fresh = SessionState::fresh(stream_type, opened);
            &&& fresh.stream_type == stream_type
            &&& fresh.pending_bytes == 0
            &&& fresh.pending_frames == 0
            &&& fresh.last_pong == opened
            &&& fresh.consecutive_lags == 0
            &&& fresh.sending is Nothing
            &&& fresh.connected
        }),
{
}

/// A message goes out as a text frame that holds, letter by letter, the full text on the full
/// stream, the lite text on the lite stream, and the domain names on the stream of those,
/// whatever the texts are and whatever else the connection has in mind.
pub proof fn law_a_message_goes_out_as_its_streams_text(
    state: SessionState,
    message: MessageText,
    now: int,
)
    ensures
        state.stream_type is Full ==> state.next(Happening::Message(message), now).1.act
            == Act::Send(FrameData::Text(message.full)),
        state.stream_type is Lite ==> state.next(Happening::Message(message), now).1.act
            == Act::Send(FrameData::Text(message.lite)),
        state.stream_type is DomainsOnly ==> state.next(Happening::Message(message), now).1.act
            == Act::Send(FrameData::Text(message.domains_only)),
{
}

/// A message that went out is counted by the bytes of the text that was sent: what was pushed
/// out and what is pending have grown by just these, on every stream.
pub proof fn law_a_delivery_counts_the_bytes_of_its_text(
    state: SessionState,
    message: MessageText,
    sent: int,
    done: int,
)
    ensures
        ({
            let (sending, reaction) = state.next(Happening::Message(message), sent);
            let (delivered, report) = sending.next(
                Happening::SendFinished(SendOutcome::Sent),
                done,
            );
            &&& reaction.act is Send && reaction.act->Send_0 is Text
            &&& reaction.flushed + report.flushed + delivered.pending_bytes == state.pending_bytes
                + encode_utf8(reaction.act->Send_0->Text_0).len()
            &&& state.stream_type is Full ==> report.flushed + delivered.pending_bytes
                == state.pending_bytes + encode_utf8(message.full).len()
            &&& state.stream_type is Lite ==> report.flushed + delivered.pending_bytes
                == state.pending_bytes + encode_utf8(message.lite).len()
            &&& state.stream_type is DomainsOnly ==> report.flushed + delivered.pending_bytes
                == state.pending_bytes + encode_utf8(message.domains_only).len()
            &&& report.act is Continue
            &&& delivered.consecutive_lags == 0
            &&& delivered.sending is Nothing
        }),
{
}

/// A message whose sending failed or took too long is not counted.
pub proof fn law_a_lost_message_is_not_counted(
    state: SessionState,
    message: MessageText,
    outcome: SendOutcome,
    sent: int,
    done: int,
)
    requires
        outcome != SendOutcome::Sent,
    ensures
        ({
            let (sending, reaction) = state.next(Happening::Message(message), sent);
            let (lost, report) = sending.next(Happening::SendFinished(outcome), done);
            &&& reaction.flushed == 0 && report.flushed == 0
            &&& lost.pending_bytes == state.pending_bytes
            &&& lost.pending_frames == state.pending_frames
            &&& lost.consecutive_lags == state.consecutive_lags
            &&& !lost.connected
        }),
{
}

/// A delivery pushes the pending bytes out if it is the last of a round of messages, all of them
/// at once, and otherwise none.
pub proof fn law_bytes_are_pushed_out_by_the_round(state: SessionState, bytes: int, now: int)
    requires
        state.sending == Sending::Data(bytes),
    ensures
        ({
            let (next, report) = state.next(Happening::SendFinished(SendOutcome::Sent), now);
            &&& state.pending_frames + 1 < 256 ==> {
                &&& report.flushed == 0
                &&& report.increments.len() == 0
                &&& next.pending_bytes == state.pending_bytes + bytes
                &&& next.pending_frames == state.pending_frames + 1
            }
            &&& state.pending_frames + 1 >= 256 ==> {
                &&& report.flushed == state.pending_bytes + bytes
                &&& next.pending_bytes == 0
                &&& report.flushed != 0 ==> {
                    &&& next.pending_frames == 0
                    &&& report.increments.len() == 1
                    &&& report.increments[0].name == "certstream_bytes_sent_total"@
                    &&& report.increments[0].protocol == Some("websocket"@)
                    &&& report.increments[0].amount == report.flushed
                }
                &&& report.flushed == 0 ==> {
                    &&& next.pending_frames == state.pending_frames + 1
                    &&& report.increments.len() == 0
                }
            }
        }),
{
}

/// What is pushed out is reported as one increment of the byte counter, under its protocol;
/// where there is nothing to push out, nothing is reported.
pub proof fn law_what_is_pushed_out_is_reported(pending_bytes: int)
    ensures
        pending_bytes == 0 ==> flush_increments(pending_bytes).len() == 0,
        pending_bytes != 0 ==> {
            &&& flush_increments(pending_bytes).len() == 1
            &&& flush_increments(pending_bytes)[0].name == "certstream_bytes_sent_total"@
            &&& flush_increments(pending_bytes)[0].protocol == Some("websocket"@)
            &&& flush_increments(pending_bytes)[0].amount == pending_bytes
        },
{
}

/// When a ping is due, a client that was last heard of more than 45 seconds ago is cut, and
/// any other is pinged, whatever is pending, however often the client lagged, and on every
/// stream.
pub proof fn law_silence_alone_decides_at_a_ping(state: SessionState, now: int)
    requires
        state.connected,
    ensures
        now - state.last_pong > 45 * 1_000_000_000 ==> {
            &&& state.next(Happening::PingDue, now).1.act == Act::Disconnect(Farewell::PongTimeout)
            &&& !state.next(Happening::PingDue, now).0.connected
        },
        now - state.last_pong <= 45 * 1_000_000_000 ==> {
            &&& state.next(Happening::PingDue, now).1.act == Act::Send(
                FrameData::Ping(Seq::empty()),
            )
            &&& state.next(Happening::PingDue, now).0.connected
        },
        now >= state.last_pong ==> state.silence(now) == now - state.last_pong,
        now < state.last_pong ==> state.silence(now) == 0,
{
}

/// When the client was last heard of: at its last pong, or when the connection was opened.
pub open spec fn last_heard_of(opened: int, run: Seq<Occurrence>) -> int
    decreases run.len(),
{
    if run.len() == 0 {
        opened
    } else if run.last().happening is ClientPong {
        run.last().now
    } else {
        last_heard_of(opened, run.drop_last())
    }
}

/// Over any life of a connection, a ping that is due more than 45 seconds after the last pong,
/// or after the opening if there was none, cuts the client; one that is due earlier pings it.
pub proof fn law_a_client_that_stays_silent_is_cut(
    stream_type: StreamType,
    opened: int,
    run: Seq<Occurrence>,
    now: int,
)
    requires
        accepts_run(SessionState::fresh(stream_type, opened), run),
        after(SessionState::fresh(stream_type, opened), run).accepts(Happening::PingDue),
    ensures
        ({
            let state = after(SessionState::fresh(stream_type, opened), run);
            let (next, reaction) = state.next(Happening::PingDue, now);
            &&& state.last_pong == last_heard_of(opened, run)
            &&& if now - last_heard_of(opened, run) > 45 * 1_000_000_000 {
                reaction.act == Act::Disconnect(Farewell::PongTimeout) && !next.connected
            } else {
                reaction.act == Act::Send(FrameData::Ping(Seq::empty())) && next.connected
            }
        }),
{
    lemma_last_pong(SessionState::fresh(stream_type, opened), run);
}

/// A session remembers the last pong of a run.
proof fn lemma_last_pong(start: SessionState, run: Seq<Occurrence>)
    requires
        accepts_run(start, run),
    ensures
        after(start, run).last_pong == last_heard_of(start.last_pong, run),
    decreases run.len(),
{
    if run.len() > 0 {
        lemma_last_pong(start, run.drop_last());
    }
}

/// The session sends a frame for a ping of the client, a heartbeat and a message that is due,
/// and pings a client that is not silent; each frame is of its own kind and carries what it
/// should. For nothing else does it send.
pub proof fn law_what_is_sent(state: SessionState, happening: Happening, now: int)
    requires
        state.accepts(happening),
    ensures
        state.next(happening, now).1.act is Send <==> {
            ||| happening is ClientPing
            ||| happening is HeartbeatDue
            ||| happening is Message
            ||| happening is PingDue && now - state.last_pong <= 45 * 1_000_000_000
        },
        happening matches Happening::ClientPing(data) ==> state.next(happening, now).1.act
            == Act::Send(FrameData::Pong(data)),
        happening is HeartbeatDue ==> state.next(happening, now).1.act == Act::Send(
            FrameData::Text("{\"message_type\":\"heartbeat\"}"@),
        ),
        state.next(happening, now).1.act is Send && happening is PingDue ==> state.next(
            happening,
            now,
        ).1.act == Act::Send(FrameData::Ping(Seq::empty())),
{
}

/// The session disconnects for each reason at just the time for it.
pub proof fn law_when_a_session_disconnects(state: SessionState, happening: Happening, now: int)
    requires
        state.accepts(happening),
    ensures
        ({
            let (next, reaction) = state.next(happening, now);
            &&& reaction.act == Act::Disconnect(Farewell::ClientLeft) <==> happening is ClientClose
                || happening is ClientGone
            &&& reaction.act == Act::Disconnect(Farewell::ChannelClosed)
                <==> happening is ChannelClosed
            &&& reaction.act == Act::Disconnect(Farewell::PongTimeout) <==> happening is PingDue
                && now - state.last_pong > 45 * 1_000_000_000
            &&& reaction.act == Act::Disconnect(Farewell::SendFailed) <==> happening
                == Happening::SendFinished(SendOutcome::Failed)
            &&& reaction.act == Act::Disconnect(Farewell::WriteTimeout) <==> happening
                == Happening::SendFinished(SendOutcome::TimedOut)
            &&& (reaction.act matches Act::Disconnect(Farewell::PersistentLag(_)))
                <==> happening is Lagged && state.consecutive_lags + 1 >= 5
            &&& next.connected <==> !(reaction.act is Disconnect)
        }),
{
}

/// A lag adds one to the lags in a row, reports the messages missed and, where it is the fifth,
/// cuts the client with the number of lags and reports that too.
pub proof fn law_what_a_lag_does(state: SessionState, missed: int, now: int)
    requires
        0 <= state.consecutive_lags < u32::MAX,
    ensures
        ({
            let (next, reaction) = state.next(Happening::Lagged(missed), now);
            &&& next.consecutive_lags == state.consecutive_lags + 1
            &&& next.pending_bytes == state.pending_bytes
            &&& next.pending_frames == state.pending_frames
            &&& reaction.flushed == 0
            &&& reaction.increments.len() >= 1
            &&& reaction.increments[0].name == "certstream_ws_messages_lagged"@
            &&& reaction.increments[0].protocol is None
            &&& reaction.increments[0].amount == missed
            &&& state.consecutive_lags + 1 < 5 ==> {
                &&& reaction.act is Continue
                &&& reaction.increments.len() == 1
            }
            &&& state.consecutive_lags + 1 >= 5 ==> {
                &&& reaction.act == Act::Disconnect(
                    Farewell::PersistentLag((state.consecutive_lags + 1) as u32),
                )
                &&& reaction.increments.len() == 2
                &&& reaction.increments[1].name == "certstream_ws_disconnect_lag"@
                &&& reaction.increments[1].protocol is None
                &&& reaction.increments[1].amount == 1
            }
        }),
{
}

/// Nothing is reported but messages missed, disconnects for lagging or for a write that took too
/// long, and bytes that are pushed out by a delivery.
pub proof fn law_nothing_else_is_reported(state: SessionState, happening: Happening, now: int)
    requires
        state.accepts(happening),
        !(happening is Lagged),
        state.sending is Data ==> happening != Happening::SendFinished(SendOutcome::Sent),
    ensures
        state.next(happening, now).1.flushed == 0,
        happening != Happening::SendFinished(SendOutcome::TimedOut) ==> state.next(
            happening,
            now,
        ).1.increments.len() == 0,
        happening == Happening::SendFinished(SendOutcome::TimedOut) ==> {
            let increments = state.next(happening, now).1.increments;
            &&& increments.len() == 1
            &&& increments[0].name == "certstream_ws_disconnect_write_timeout"@
            &&& increments[0].protocol is None
            &&& increments[0].amount == 1
        },
{
}

/// Each thing that a session has in mind changes at its own time and at no other: the stream
/// never, the last pong at a pong, what is pending at a delivery, the lags at a delivery and at a
/// lag, and a frame is in flight exactly from when it is sent until its outcome is told.
pub proof fn law_what_a_session_keeps_in_mind(state: SessionState, happening: Happening, now: int)
    requires
        state.accepts(happening),
    ensures
        ({
            let (next, reaction) = state.next(happening, now);
            let delivery = state.sending is Data && happening == Happening::SendFinished(
                SendOutcome::Sent,
            );
            &&& next.stream_type == state.stream_type
            &&& happening is ClientPong ==> next.last_pong == now
            &&& !(happening is ClientPong) ==> next.last_pong == state.last_pong
            &&& !delivery ==> {
                &&& next.pending_bytes == state.pending_bytes
                &&& next.pending_frames == state.pending_frames
            }
            &&& delivery ==> next.consecutive_lags == 0
            &&& !delivery && !(happening is Lagged) ==> next.consecutive_lags
                == state.consecutive_lags
            &&& reaction.act is Send <==> !(next.sending is Nothing)
            &&& happening is Message <==> next.sending is Data
        }),
{
}

/// The bytes of the texts that went out in a run on a stream: those of each message whose
/// sending is told to have succeeded, by its text for the stream.
pub open spec fn bytes_of_texts_sent(stream_type: StreamType, run: Seq<Occurrence>) -> int
    decreases run.len(),
{
    if run.len() == 0 {
        0
    } else {
        bytes_of_texts_sent(stream_type, run.drop_last()) + if run.len() >= 2
            && run.last().happening == Happening::SendFinished(SendOutcome::Sent) {
            match run[run.len() - 2].happening {
                Happening::Message(message) => match stream_type {
                    StreamType::Full => encode_utf8(message.full).len() as int,
                    StreamType::Lite => encode_utf8(message.lite).len() as int,
                    StreamType::DomainsOnly => encode_utf8(message.domains_only).len() as int,
                },
                _ => 0,
            }
        } else {
            0
        }
    }
}

/// What a session has in flight after a run, and what its stream is.
proof fn lemma_in_flight_is_the_last_message(start: SessionState, run: Seq<Occurrence>)
    requires
        accepts_run(start, run),
        start.sending is Nothing,
    ensures
        after(start, run).stream_type == start.stream_type,
        after(start, run).sending is Data <==> run.len() > 0 && run.last().happening is Message,
        run.len() > 0 ==> (run.last().happening matches Happening::Message(message) ==> after(
            start,
            run,
        ).sending == Sending::Data(
            match start.stream_type {
                StreamType::Full => encode_utf8(message.full).len() as int,
                StreamType::Lite => encode_utf8(message.lite).len() as int,
                StreamType::DomainsOnly => encode_utf8(message.domains_only).len() as int,
            },
        )),
    decreases run.len(),
{
    if run.len() > 0 {
        lemma_in_flight_is_the_last_message(start, run.drop_last());
    }
}

/// Over any run, what is pushed to the shared counter and what is still pending are the bytes of
/// the texts that went out to the client, and the metric tells what was pushed.
pub proof fn law_every_byte_of_text_is_accounted_for(start: SessionState, run: Seq<Occurrence>)
    requires
        accepts_run(start, run),
        start.sending is Nothing,
    ensures
        pushed(start, run) + after(start, run).pending_bytes == start.pending_bytes
            + bytes_of_texts_sent(start.stream_type, run),
        grown(start, run, "certstream_bytes_sent_total"@) + after(start, run).pending_bytes
            == start.pending_bytes + bytes_of_texts_sent(start.stream_type, run),
    decreases run.len(),
{
    law_metrics_tell_what_happened(start, run);
    if run.len() > 0 {
        let before = run.drop_last();
        law_every_byte_of_text_is_accounted_for(start, before);
        lemma_in_flight_is_the_last_message(start, before);
        if before.len() > 0 {
            assert(before.last() == run[run.len() - 2]);
        }
    }
}

} // verus!
