//! What holds over the life of a connection.

use vstd::prelude::*;

use crate::models::MessageText;
use crate::telemetry::{bytes_sent, growth, lemma_growth_of_few};
use crate::websocket::server::lag_policy::{one_more_lag, MAX_CONSECUTIVE_LAGS};
use crate::websocket::server::StreamType;
use crate::websocket::session::{
    Act, Farewell, FrameData, Happening, Reaction, SendOutcome, Sending, SessionState,
    BYTES_FLUSH_FRAMES, PONG_TIMEOUT_NANOS,
};

verus! {

/// Something that happens, and when.
pub struct Occurrence {
    pub happening: Happening,
    pub now: int,
}

/// The session after a run of occurrences.
pub open spec fn after(start: SessionState, run: Seq<Occurrence>) -> SessionState
    decreases run.len(),
{
    if run.len() == 0 {
        start
    } else {
        after(start, run.drop_last()).next(run.last().happening, run.last().now).0
    }
}

/// Whether the session accepts each occurrence of the run in its turn.
pub open spec fn accepts_run(start: SessionState, run: Seq<Occurrence>) -> bool
    decreases run.len(),
{
    run.len() == 0 || {
        &&& accepts_run(start, run.drop_last())
        &&& after(start, run.drop_last()).accepts(run.last().happening)
    }
}

/// The bytes of the message that has just gone out, if one has.
pub open spec fn bytes_delivered_by(state: SessionState, happening: Happening) -> int {
    match (state.sending, happening) {
        (Sending::Data(bytes), Happening::SendFinished(SendOutcome::Sent)) => bytes,
        _ => 0,
    }
}

/// The bytes of all messages that went out during a run.
pub open spec fn delivered(start: SessionState, run: Seq<Occurrence>) -> int
    decreases run.len(),
{
    if run.len() == 0 {
        0
    } else {
        delivered(start, run.drop_last()) + bytes_delivered_by(
            after(start, run.drop_last()),
            run.last().happening,
        )
    }
}

/// The bytes that were pushed to the shared counter during a run.
pub open spec fn pushed(start: SessionState, run: Seq<Occurrence>) -> int
    decreases run.len(),
{
    if run.len() == 0 {
        0
    } else {
        pushed(start, run.drop_last()) + after(start, run.drop_last()).next(
            run.last().happening,
            run.last().now,
        ).1.flushed
    }
}

/// No byte is lost or counted twice: at any time the bytes pushed to the shared counter and
/// those still pending are the bytes of the messages that went out. A message whose sending
/// failed is not among them.
pub proof fn law_bytes_are_conserved(start: SessionState, run: Seq<Occurrence>)
    requires
        accepts_run(start, run),
    ensures
        pushed(start, run) + after(start, run).pending_bytes == start.pending_bytes + delivered(
            start,
            run,
        ),
    decreases run.len(),
{
    if run.len() > 0 {
        law_bytes_are_conserved(start, run.drop_last());
    }
}

/// Over the whole life of a connection, what is pushed while it lasts and what is left to push
/// when it is over are the bytes of the messages that went out.
pub proof fn law_a_finished_connection_has_reported_every_byte(
    stream_type: StreamType,
    opened: int,
    run: Seq<Occurrence>,
)
    requires
        accepts_run(SessionState::fresh(stream_type, opened), run),
    ensures
        ({
            let fresh = SessionState::fresh(stream_type, opened);
            pushed(fresh, run) + after(fresh, run).pending_bytes == delivered(fresh, run)
        }),
{
    law_bytes_are_conserved(SessionState::fresh(stream_type, opened), run);
}

/// The metric grows by just what is pushed to the shared counter.
pub proof fn law_the_metric_follows_the_shared_counter(
    state: SessionState,
    happening: Happening,
    now: int,
)
    requires
        state.accepts(happening),
        state.next(happening, now).1.flushed != 0,
    ensures
        state.next(happening, now).1.increments == seq![
            bytes_sent("websocket"@, state.next(happening, now).1.flushed),
        ],
{
}

/// Whether the counts of a session are ones that a session can have: bytes never wait for more
/// than [`BYTES_FLUSH_FRAMES`] messages, and a client that is still connected has not used up
/// its lags.
pub open spec fn well_formed(state: SessionState) -> bool {
    &&& 0 <= state.pending_bytes
    &&& 0 <= state.pending_frames
    &&& 0 <= state.consecutive_lags
    &&& state.pending_bytes > 0 ==> state.pending_frames < BYTES_FLUSH_FRAMES
    &&& state.connected ==> state.consecutive_lags < MAX_CONSECUTIVE_LAGS
    &&& state.sending matches Sending::Data(bytes) ==> bytes >= 0
}

/// Every session that came about by a run is well-formed, and carries the stream that it was
/// opened for.
pub proof fn law_sessions_stay_well_formed(
    stream_type: StreamType,
    opened: int,
    run: Seq<Occurrence>,
)
    requires
        accepts_run(SessionState::fresh(stream_type, opened), run),
    ensures
        well_formed(after(SessionState::fresh(stream_type, opened), run)),
        after(SessionState::fresh(stream_type, opened), run).stream_type == stream_type,
    decreases run.len(),
{
    if run.len() > 0 {
        law_sessions_stay_well_formed(stream_type, opened, run.drop_last());
    }
}

/// Whether nothing but lags happens in a run.
pub open spec fn only_lags(run: Seq<Occurrence>) -> bool {
    forall|i: int| 0 <= i < run.len() ==> (#[trigger] run[i]).happening is Lagged
}

/// A client is cut by the lag that makes it [`MAX_CONSECUTIVE_LAGS`] in a row, and not before.
pub proof fn law_lags_in_a_row_cut_at_the_limit(start: SessionState, run: Seq<Occurrence>)
    requires
        start.connected,
        start.sending is Nothing,
        0 <= start.consecutive_lags < MAX_CONSECUTIVE_LAGS,
        only_lags(run),
        start.consecutive_lags + run.len() <= MAX_CONSECUTIVE_LAGS,
    ensures
        accepts_run(start, run),
        after(start, run).consecutive_lags == start.consecutive_lags + run.len(),
        after(start, run).connected == (start.consecutive_lags + run.len() < MAX_CONSECUTIVE_LAGS),
        after(start, run).sending is Nothing,
    decreases run.len(),
{
    if run.len() > 0 {
        let before = run.drop_last();
        assert forall|i: int| 0 <= i < before.len() implies (
        #[trigger] before[i]).happening is Lagged by {
            assert(before[i] == run[i]);
        }
        law_lags_in_a_row_cut_at_the_limit(start, before);
        assert(run[run.len() - 1].happening is Lagged);
    }
}

/// Whether a message has just gone out.
pub open spec fn is_delivery(state: SessionState, happening: Happening) -> bool {
    state.sending is Data && happening == Happening::SendFinished(SendOutcome::Sent)
}

/// A message that went out takes the client's lags back to none, a lag adds one, and nothing
/// else touches them.
pub proof fn law_only_a_delivery_forgives_lags(state: SessionState, happening: Happening, now: int)
    requires
        state.accepts(happening),
    ensures
        state.next(happening, now).0.consecutive_lags == if is_delivery(state, happening) {
            0
        } else if happening is Lagged {
            one_more_lag(state.consecutive_lags)
        } else {
            state.consecutive_lags
        },
{
}

/// Whether no message goes out during a run.
pub open spec fn delivers_nothing(start: SessionState, run: Seq<Occurrence>) -> bool
    decreases run.len(),
{
    run.len() == 0 || {
        &&& delivers_nothing(start, run.drop_last())
        &&& !is_delivery(after(start, run.drop_last()), run.last().happening)
    }
}

/// How many lags there are in a run.
pub open spec fn lags_in(run: Seq<Occurrence>) -> int
    decreases run.len(),
{
    if run.len() == 0 {
        0
    } else {
        lags_in(run.drop_last()) + if run.last().happening is Lagged {
            1int
        } else {
            0int
        }
    }
}

/// How many messages are missed in a run.
pub open spec fn missed_in(run: Seq<Occurrence>) -> int
    decreases run.len(),
{
    if run.len() == 0 {
        0
    } else {
        missed_in(run.drop_last()) + match run.last().happening {
            Happening::Lagged(missed) => missed,
            _ => 0,
        }
    }
}

/// What the session answers to the last occurrence of a run.
pub open spec fn last_reaction(start: SessionState, run: Seq<Occurrence>) -> Reaction
    recommends
        run.len() > 0,
{
    after(start, run.drop_last()).next(run.last().happening, run.last().now).1
}

/// As long as no message goes out, lags add up, whatever comes between them: pings, heartbeats,
/// frames of the client. The session is cut by the lag that makes [`MAX_CONSECUTIVE_LAGS`], and
/// for its lags at no other time.
pub proof fn law_lags_add_up_until_a_delivery(start: SessionState, run: Seq<Occurrence>)
    requires
        0 <= start.consecutive_lags < MAX_CONSECUTIVE_LAGS,
        accepts_run(start, run),
        delivers_nothing(start, run),
    ensures
        after(start, run).consecutive_lags == start.consecutive_lags + lags_in(run),
        start.consecutive_lags + lags_in(run) <= MAX_CONSECUTIVE_LAGS,
        start.consecutive_lags + lags_in(run) == MAX_CONSECUTIVE_LAGS ==> {
            &&& run.len() > 0
            &&& run.last().happening is Lagged
            &&& last_reaction(start, run).act == Act::Disconnect(
                Farewell::PersistentLag(MAX_CONSECUTIVE_LAGS),
            )
            &&& !after(start, run).connected
        },
        start.consecutive_lags + lags_in(run) < MAX_CONSECUTIVE_LAGS && run.len() > 0 ==> !(
        last_reaction(start, run).act matches Act::Disconnect(Farewell::PersistentLag(_))),
    decreases run.len(),
{
    if run.len() > 0 {
        law_lags_add_up_until_a_delivery(start, run.drop_last());
        // The session still accepted the last occurrence, so no lag before it was the limit.
        assert(after(start, run.drop_last()).connected);
    }
}

/// By how much the counter of that name grows during a run.
pub open spec fn grown(start: SessionState, run: Seq<Occurrence>, name: Seq<char>) -> int
    decreases run.len(),
{
    if run.len() == 0 {
        0
    } else {
        grown(start, run.drop_last(), name) + growth(last_reaction(start, run).increments, name)
    }
}

/// The names of a session's metrics are different.
proof fn lemma_metric_names_differ()
    ensures
        "certstream_ws_messages_lagged"@ != "certstream_ws_disconnect_lag"@,
        "certstream_ws_messages_lagged"@ != "certstream_ws_disconnect_write_timeout"@,
        "certstream_ws_messages_lagged"@ != "certstream_bytes_sent_total"@,
        "certstream_ws_disconnect_lag"@ != "certstream_ws_disconnect_write_timeout"@,
        "certstream_ws_disconnect_lag"@ != "certstream_bytes_sent_total"@,
        "certstream_ws_disconnect_write_timeout"@ != "certstream_bytes_sent_total"@,
{
    reveal_strlit("certstream_ws_messages_lagged");
    reveal_strlit("certstream_ws_disconnect_lag");
    reveal_strlit("certstream_ws_disconnect_write_timeout");
    reveal_strlit("certstream_bytes_sent_total");
    assert("certstream_ws_messages_lagged"@.len() == 29);
    assert("certstream_ws_disconnect_lag"@.len() == 28);
    assert("certstream_ws_disconnect_write_timeout"@.len() == 38);
    assert("certstream_bytes_sent_total"@.len() == 27);
}

/// By how much each metric grows in one step.
proof fn lemma_growth_of_a_step(state: SessionState, happening: Happening, now: int)
    requires
        state.accepts(happening),
    ensures
        ({
            let reaction = state.next(happening, now).1;
            &&& growth(reaction.increments, "certstream_ws_messages_lagged"@) == match happening {
                Happening::Lagged(missed) => missed,
                _ => 0,
            }
            &&& growth(reaction.increments, "certstream_ws_disconnect_lag"@)
                == if reaction.act matches Act::Disconnect(Farewell::PersistentLag(_)) {
                1int
            } else {
                0int
            }
            &&& growth(reaction.increments, "certstream_ws_disconnect_write_timeout"@)
                == if reaction.act == Act::Disconnect(Farewell::WriteTimeout) {
                1int
            } else {
                0int
            }
            &&& growth(reaction.increments, "certstream_bytes_sent_total"@) == reaction.flushed
        }),
{
    lemma_metric_names_differ();
    let increments = state.next(happening, now).1.increments;
    lemma_growth_of_few(increments, "certstream_ws_messages_lagged"@);
    lemma_growth_of_few(increments, "certstream_ws_disconnect_lag"@);
    lemma_growth_of_few(increments, "certstream_ws_disconnect_write_timeout"@);
    lemma_growth_of_few(increments, "certstream_bytes_sent_total"@);
}

/// Over any run, the metrics tell what happened: the messages missed, the bytes pushed to the
/// shared counter, and the one disconnect for lagging or for a write that took too long, if the
/// run ends in one.
pub proof fn law_metrics_tell_what_happened(start: SessionState, run: Seq<Occurrence>)
    requires
        accepts_run(start, run),
    ensures
        grown(start, run, "certstream_ws_messages_lagged"@) == missed_in(run),
        grown(start, run, "certstream_bytes_sent_total"@) == pushed(start, run),
        grown(start, run, "certstream_ws_disconnect_lag"@) == if run.len() > 0 && (last_reaction(
            start,
            run,
        ).act matches Act::Disconnect(Farewell::PersistentLag(_))) {
            1int
        } else {
            0int
        },
        grown(start, run, "certstream_ws_disconnect_write_timeout"@) == if run.len() > 0
            && last_reaction(start, run).act == Act::Disconnect(Farewell::WriteTimeout) {
            1int
        } else {
            0int
        },
    decreases run.len(),
{
    if run.len() > 0 {
        let before = run.drop_last();
        law_metrics_tell_what_happened(start, before);
        lemma_growth_of_a_step(after(start, before), run.last().happening, run.last().now);
        // What came before did not end the connection.
        assert(after(start, before).connected);
    }
}

/// Why the session closes the connection when this happens at `now`, if it does.
pub open spec fn reason_to_close(
    state: SessionState,
    happening: Happening,
    now: int,
) -> Option<Farewell> {
    let lags = one_more_lag(state.consecutive_lags);
    if happening is ClientClose || happening is ClientGone {
        Some(Farewell::ClientLeft)
    } else if happening is ChannelClosed {
        Some(Farewell::ChannelClosed)
    } else if happening is PingDue && state.silence(now) > PONG_TIMEOUT_NANOS {
        Some(Farewell::PongTimeout)
    } else if happening is Lagged && lags >= MAX_CONSECUTIVE_LAGS {
        Some(Farewell::PersistentLag(lags as u32))
    } else if happening == Happening::SendFinished(SendOutcome::Failed) {
        Some(Farewell::SendFailed)
    } else if happening == Happening::SendFinished(SendOutcome::TimedOut) {
        Some(Farewell::WriteTimeout)
    } else {
        None
    }
}

/// A connection is closed when the client leaves, when it has been silent for too long at a
/// ping, when a frame cannot be sent to it in time, when it lags too often in a row and when
/// there is nothing more to broadcast; and for no other reason.
pub proof fn law_what_closes_a_connection(state: SessionState, happening: Happening, now: int)
    requires
        state.accepts(happening),
    ensures
        match reason_to_close(state, happening, now) {
            Some(farewell) => {
                &&& state.next(happening, now).1.act == Act::Disconnect(farewell)
                &&& !state.next(happening, now).0.connected
            },
            None => {
                &&& !(state.next(happening, now).1.act is Disconnect)
                &&& state.next(happening, now).0.connected
            },
        },
{
}

/// What the client sends as text, as binary data or unreadably changes nothing.
pub proof fn law_other_frames_are_ignored(state: SessionState, happening: Happening, now: int)
    requires
        state.accepts(happening),
        happening is ClientText || happening is ClientBinary || happening is ClientError,
    ensures
        state.next(happening, now) == (state, Reaction::just(Act::Continue)),
{
}

/// A client that has answered within the timeout is pinged again, not cut.
pub proof fn law_a_live_client_is_kept(state: SessionState, ponged: int, now: int)
    requires
        state.accepts(Happening::ClientPong),
        now - ponged <= PONG_TIMEOUT_NANOS,
    ensures
        ({
            let alive = state.next(Happening::ClientPong, ponged).0;
            &&& alive.accepts(Happening::PingDue)
            &&& alive.next(Happening::PingDue, now).0.connected
            &&& alive.next(Happening::PingDue, now).1.act == Act::Send(
                FrameData::Ping(Seq::empty()),
            )
        }),
{
}

/// Control frames leave no trace: once a pong, a ping or a heartbeat has gone out, the session
/// is what it was.
pub proof fn law_control_frames_leave_no_trace(
    state: SessionState,
    happening: Happening,
    now: int,
    later: int,
)
    requires
        state.accepts(happening),
        happening is ClientPing || happening is HeartbeatDue || happening is PingDue,
        state.next(happening, now).0.connected,
    ensures
        state.next(happening, now).1.act is Send,
        state.next(happening, now).0.next(Happening::SendFinished(SendOutcome::Sent), later).0
            == state,
{
}

/// A ping of the client is answered with a pong that carries the same bytes.
pub proof fn law_pings_are_answered_in_kind(state: SessionState, data: Seq<u8>, now: int)
    requires
        state.accepts(Happening::ClientPing(data)),
    ensures
        state.next(Happening::ClientPing(data), now).1 == Reaction::just(
            Act::Send(FrameData::Pong(data)),
        ),
{
}

/// A broadcast reaches the client as a text frame with the text of its own stream.
pub proof fn law_messages_are_those_of_the_stream(
    stream_type: StreamType,
    opened: int,
    run: Seq<Occurrence>,
    message: MessageText,
    now: int,
)
    requires
        accepts_run(SessionState::fresh(stream_type, opened), run),
        after(SessionState::fresh(stream_type, opened), run).accepts(Happening::Message(message)),
    ensures
        after(SessionState::fresh(stream_type, opened), run).next(
            Happening::Message(message),
            now,
        ).1.act == Act::Send(FrameData::Text(stream_type.select(message))),
{
    law_sessions_stay_well_formed(stream_type, opened, run);
}

/// The session never gets stuck: told to wait, it accepts whatever happens next; told to send,
/// it accepts the outcome, save that a message went out whose count no longer fits.
pub proof fn law_the_next_event_is_accepted(
    state: SessionState,
    happening: Happening,
    now: int,
    following: Happening,
)
    requires
        state.accepts(happening),
    ensures
        ({
            let (next, reaction) = state.next(happening, now);
            &&& reaction.act is Continue && !(following is SendFinished) ==> next.accepts(following)
            &&& reaction.act is Send && following is SendFinished ==> {
                ||| next.accepts(following)
                ||| {
                    &&& following == Happening::SendFinished(SendOutcome::Sent)
                    &&& next.sending matches Sending::Data(bytes) && {
                        ||| next.pending_bytes + bytes > u64::MAX
                        ||| next.pending_frames + 1 > u32::MAX
                    }
                }
            }
            &&& reaction.act is Disconnect ==> !next.accepts(following)
        }),
{
}

} // verus!
