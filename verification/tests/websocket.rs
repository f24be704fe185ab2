use std::sync::Arc;

use axum::extract::ws::Utf8Bytes;
use bytes::Bytes;
use certstream_server::admission::Admission;
use certstream_server::models::PreSerializedMessage;
use certstream_server::websocket::server::lag_policy;
use certstream_server::websocket::server::{
    admit_socket, close_socket, open_socket, ConnectionCounter, StreamType,
};
use certstream_server::websocket::session::{
    flush_bytes_sent, Action, Farewell, Frame, SendOutcome, Session, SocketEvent, Step,
};
use tokio::sync::broadcast;

const SECOND: u128 = 1_000_000_000;

fn dummy_message() -> Arc<PreSerializedMessage> {
    Arc::new(PreSerializedMessage {
        full: Utf8Bytes::from_static(r#"{"stream":"full"}"#),
        lite: Utf8Bytes::from_static(r#"{"stream":"lite"}"#),
        domains_only: Utf8Bytes::from_static(r#"{"stream":"domains"}"#),
    })
}

fn text(step: Step) -> String {
    match step.action {
        Action::Send(Frame::Text(text)) => text.as_str().to_string(),
        _ => panic!("expected a text frame"),
    }
}

fn sent() -> SocketEvent {
    SocketEvent::SendFinished(SendOutcome::Sent)
}

fn is_continue(step: &Step) -> bool {
    matches!(step.action, Action::Continue)
}

fn is_disconnect(step: &Step) -> bool {
    matches!(step.action, Action::Disconnect(_))
}

fn increments(step: &Step) -> Vec<(&'static str, Option<&'static str>, u64)> {
    step.counters.iter().map(|c| (c.name, c.protocol, c.amount)).collect()
}

#[test]
fn lag_policy_disconnect_threshold_is_sane() {
    assert!(
        lag_policy::MAX_CONSECUTIVE_LAGS >= 1 && lag_policy::MAX_CONSECUTIVE_LAGS <= 16,
        "MAX_CONSECUTIVE_LAGS outside sane window [1, 16]"
    );
    assert_eq!(lag_policy::MAX_CONSECUTIVE_LAGS, 5);
}

#[test]
fn broadcast_emits_lagged_when_receiver_falls_behind() {
    let (tx, mut rx) = broadcast::channel::<Arc<PreSerializedMessage>>(4);
    for _ in 0..16 {
        let _ = tx.send(dummy_message());
    }
    let received = tokio::runtime::Builder::new_current_thread()
        .build()
        .unwrap()
        .block_on(rx.recv());
    match received {
        Err(broadcast::error::RecvError::Lagged(n)) => {
            assert!(n > 0, "Lagged(n) must report n>0; got {n}");
        }
        Err(other) => panic!("expected Lagged, got {other:?}"),
        Ok(_) => panic!("receiver should report lag after overrun"),
    }
}

#[test]
fn lag_counter_disconnects_at_threshold() {
    let mut consecutive_lags: u32 = 0;
    let mut disconnected = false;
    for _ in 0..(lag_policy::MAX_CONSECUTIVE_LAGS as usize + 5) {
        if lag_policy::note_lag(&mut consecutive_lags) {
            disconnected = true;
            break;
        }
    }
    assert!(disconnected, "loop must break by MAX_CONSECUTIVE_LAGS");
    assert_eq!(consecutive_lags, lag_policy::MAX_CONSECUTIVE_LAGS);
}

#[test]
fn the_lag_count_does_not_overflow() {
    let mut consecutive_lags: u32 = u32::MAX;
    assert!(lag_policy::note_lag(&mut consecutive_lags));
    assert_eq!(consecutive_lags, u32::MAX);
}

#[test]
fn a_lagging_client_is_cut_at_the_fifth_lag_in_a_row() {
    let mut session = Session::new(StreamType::Lite, 0);
    for missed in 1..=4 {
        let step = session.step(SocketEvent::Lagged(missed), 0);
        assert!(is_continue(&step));
        assert_eq!(increments(&step), [("certstream_ws_messages_lagged", None, missed)]);
    }
    let step = session.step(SocketEvent::Lagged(9), 0);
    assert!(is_disconnect(&step));
    assert_eq!(
        increments(&step),
        [
            ("certstream_ws_messages_lagged", None, 9),
            ("certstream_ws_disconnect_lag", None, 1),
        ]
    );
    assert!(!session.accepts(&SocketEvent::PingDue));
}

#[test]
fn a_delivered_message_forgives_lags_and_a_heartbeat_does_not() {
    let mut session = Session::new(StreamType::Lite, 0);
    for _ in 0..4 {
        session.step(SocketEvent::Lagged(1), 0);
    }
    session.step(SocketEvent::Message(dummy_message()), 0);
    session.step(sent(), 0);
    for _ in 0..4 {
        assert!(is_continue(&session.step(SocketEvent::Lagged(1), 0)));
    }
    session.step(SocketEvent::HeartbeatDue, 0);
    session.step(sent(), 0);
    assert!(is_disconnect(&session.step(SocketEvent::Lagged(1), 0)));
}

#[test]
fn lags_add_up_whatever_comes_between_them() {
    let mut session = Session::new(StreamType::Lite, 0);
    let mut missed: u64 = 0;
    for n in 1..=5u64 {
        session.step(SocketEvent::ClientText, 0);
        session.step(SocketEvent::ClientPong, 0);
        session.step(SocketEvent::ClientPing(Bytes::from_static(b"p")), 0);
        session.step(sent(), 0);
        session.step(SocketEvent::HeartbeatDue, 0);
        session.step(sent(), 0);
        session.step(SocketEvent::PingDue, 0);
        session.step(sent(), 0);
        let step = session.step(SocketEvent::Lagged(n), 0);
        missed += increments(&step)
            .iter()
            .filter(|(name, _, _)| *name == "certstream_ws_messages_lagged")
            .map(|(_, _, amount)| amount)
            .sum::<u64>();
        assert_eq!(is_disconnect(&step), n == 5);
    }
    assert_eq!(missed, 15);
}

#[test]
fn lite_stream_delivers_a_broadcast_message() {
    let mut session = Session::new(StreamType::Lite, 0);
    let step = session.step(SocketEvent::Message(dummy_message()), 0);
    assert_eq!(text(step), r#"{"stream":"lite"}"#);
}

#[test]
fn full_stream_delivers_the_full_payload() {
    let mut session = Session::new(StreamType::Full, 0);
    let step = session.step(SocketEvent::Message(dummy_message()), 0);
    assert_eq!(text(step), r#"{"stream":"full"}"#);
}

#[test]
fn domains_only_stream_delivers_the_domains_payload() {
    let mut session = Session::new(StreamType::DomainsOnly, 0);
    let step = session.step(SocketEvent::Message(dummy_message()), 0);
    assert_eq!(text(step), r#"{"stream":"domains"}"#);
}

#[test]
fn connection_limit_rejects_the_upgrade() {
    match admit_socket(false, StreamType::Lite) {
        Admission::Refused(refusal) => {
            assert_eq!(refusal.status, 429);
            assert_eq!(refusal.body, "Connection limit exceeded");
            assert!(!refusal.release_slot);
        }
        Admission::Admitted(_) => panic!("there was no slot"),
    }
    assert!(matches!(
        admit_socket(true, StreamType::Full),
        Admission::Admitted(StreamType::Full)
    ));
}

#[test]
fn client_close_disconnects_and_releases_the_slot() {
    let mut connections = ConnectionCounter::new();
    let (mut session, gauges) = open_socket(&mut connections, StreamType::Lite, 0);
    assert_eq!(connections.total(), 1);
    let shown: Vec<(&str, u64)> = gauges.iter().map(|g| (g.name, g.value)).collect();
    assert_eq!(
        shown,
        [
            ("certstream_ws_connections_total", 1),
            ("certstream_ws_connections_full", 0),
            ("certstream_ws_connections_lite", 1),
            ("certstream_ws_connections_domains", 0),
        ]
    );
    assert!(is_disconnect(&session.step(SocketEvent::ClientClose, 0)));
    let close = close_socket(session, &mut connections);
    assert_eq!(connections.total(), 0);
    assert!(close.release_slot);
    assert_eq!(close.flushed, 0);
    assert!(close.counters.is_empty());
    assert_eq!(close.gauges[0].value, 0);
}

#[test]
fn counts_are_kept_for_each_stream() {
    let mut connections = ConnectionCounter::default();
    connections.increment(StreamType::Full);
    connections.increment(StreamType::Full);
    connections.increment(StreamType::DomainsOnly);
    assert_eq!(connections.total(), 3);
    let gauges = connections.decrement(StreamType::Full);
    let values: Vec<u64> = gauges.iter().map(|g| g.value).collect();
    assert_eq!(values, [2, 1, 0, 1]);
    assert_eq!(connections.update_metrics()[3].value, 1);
}

#[test]
fn a_count_below_zero_wraps_around() {
    let mut connections = ConnectionCounter::new();
    assert!(connections.can_decrement(StreamType::Lite));
    connections.decrement(StreamType::Lite);
    assert_eq!(connections.total(), u64::MAX);
    assert!(!connections.can_increment(StreamType::Full));
    assert!(connections.can_increment(StreamType::Lite));
    connections.increment(StreamType::Lite);
    assert_eq!(connections.total(), 0);
}

#[test]
fn a_ping_is_answered_with_its_own_bytes() {
    let mut session = Session::new(StreamType::Full, 0);
    let step = session.step(SocketEvent::ClientPing(Bytes::from_static(b"abc")), 0);
    match step.action {
        Action::Send(Frame::Pong(data)) => assert_eq!(&data[..], b"abc"),
        _ => panic!("expected a pong"),
    }
    assert!(!session.accepts(&SocketEvent::ClientPong));
    assert!(is_continue(&session.step(sent(), 0)));
    assert!(session.accepts(&SocketEvent::ClientPong));
    assert!(!session.accepts(&sent()));
}

#[test]
fn a_silent_client_is_cut_at_the_next_ping() {
    let mut session = Session::new(StreamType::Full, 5 * SECOND);
    match session.step(SocketEvent::PingDue, 50 * SECOND).action {
        Action::Send(Frame::Ping(data)) => assert!(data.is_empty()),
        _ => panic!("expected a ping"),
    }
    session.step(sent(), 50 * SECOND);
    session.step(SocketEvent::ClientPong, 51 * SECOND);
    assert!(matches!(
        session.step(SocketEvent::PingDue, 96 * SECOND).action,
        Action::Send(Frame::Ping(_))
    ));
    session.step(sent(), 96 * SECOND);
    assert!(is_disconnect(&session.step(SocketEvent::PingDue, 96 * SECOND + 1)));
}

#[test]
fn a_clock_that_runs_backwards_cuts_nobody() {
    let mut session = Session::new(StreamType::Full, 100 * SECOND);
    assert!(matches!(
        session.step(SocketEvent::PingDue, 0).action,
        Action::Send(Frame::Ping(_))
    ));
}

#[test]
fn the_heartbeat_is_a_text_frame() {
    let mut session = Session::new(StreamType::Full, 0);
    let step = session.step(SocketEvent::HeartbeatDue, 0);
    assert_eq!(text(step), r#"{"message_type":"heartbeat"}"#);
}

#[test]
fn other_frames_are_ignored() {
    let mut session = Session::new(StreamType::Full, 0);
    for event in [
        SocketEvent::ClientText,
        SocketEvent::ClientBinary,
        SocketEvent::ClientError,
    ] {
        let step = session.step(event, 0);
        assert!(is_continue(&step));
        assert!(step.counters.is_empty());
    }
}

#[test]
fn the_end_of_the_broadcast_disconnects() {
    let mut session = Session::new(StreamType::Full, 0);
    assert!(is_disconnect(&session.step(SocketEvent::ChannelClosed, 0)));
}

#[test]
fn a_write_that_fails_or_times_out_disconnects_and_is_not_counted() {
    let mut session = Session::new(StreamType::Full, 0);
    session.step(SocketEvent::Message(dummy_message()), 0);
    let step = session.step(SocketEvent::SendFinished(SendOutcome::Failed), 0);
    assert!(is_disconnect(&step));
    assert!(step.counters.is_empty());
    assert_eq!(session.finish().0, 0);

    let mut session = Session::new(StreamType::Full, 0);
    session.step(SocketEvent::Message(dummy_message()), 0);
    let step = session.step(SocketEvent::SendFinished(SendOutcome::TimedOut), 0);
    assert!(is_disconnect(&step));
    assert_eq!(increments(&step), [("certstream_ws_disconnect_write_timeout", None, 1)]);
    assert_eq!(session.finish().0, 0);
}

#[test]
fn bytes_are_pushed_every_256_messages_and_at_the_end() {
    let mut connections = ConnectionCounter::new();
    let (mut session, _) = open_socket(&mut connections, StreamType::DomainsOnly, 0);
    let mut pushed: u64 = 0;
    for n in 1..=300u64 {
        session.step(SocketEvent::Message(dummy_message()), 0);
        let step = session.step(sent(), 0);
        if n == 256 {
            assert_eq!(step.flushed, 256 * 20);
            assert_eq!(
                increments(&step),
                [("certstream_bytes_sent_total", Some("websocket"), 256 * 20)]
            );
        } else {
            assert_eq!(step.flushed, 0);
            assert!(step.counters.is_empty());
        }
        pushed += step.flushed;
    }
    let close = close_socket(session, &mut connections);
    assert_eq!(close.flushed, 44 * 20);
    assert_eq!(pushed + close.flushed, 300 * 20);
}

#[test]
fn a_flush_without_bytes_keeps_the_frame_count() {
    let mut counters = Vec::new();
    let (mut bytes, mut frames): (u64, u32) = (0, 7);
    assert_eq!(flush_bytes_sent(&mut bytes, &mut frames, &mut counters), 0);
    assert_eq!((bytes, frames, counters.len()), (0, 7, 0));
    bytes = 11;
    assert_eq!(flush_bytes_sent(&mut bytes, &mut frames, &mut counters), 11);
    assert_eq!((bytes, frames, counters.len()), (0, 0, 1));
}

#[test]
fn a_disconnect_gives_its_reason() {
    let reason = |session: &mut Session, event: SocketEvent, now: u128| {
        match session.step(event, now).action {
            Action::Disconnect(farewell) => Some(farewell),
            _ => None,
        }
    };
    let fresh = || Session::new(StreamType::Lite, 0);
    assert_eq!(
        reason(&mut fresh(), SocketEvent::ClientClose, 0),
        Some(Farewell::ClientLeft)
    );
    assert_eq!(
        reason(&mut fresh(), SocketEvent::ClientGone, 0),
        Some(Farewell::ClientLeft)
    );
    assert_eq!(
        reason(&mut fresh(), SocketEvent::ChannelClosed, 0),
        Some(Farewell::ChannelClosed)
    );
    assert_eq!(
        reason(&mut fresh(), SocketEvent::PingDue, 46 * SECOND),
        Some(Farewell::PongTimeout)
    );
    let mut session = fresh();
    for _ in 0..4 {
        assert_eq!(reason(&mut session, SocketEvent::Lagged(1), 0), None);
    }
    assert_eq!(
        reason(&mut session, SocketEvent::Lagged(1), 0),
        Some(Farewell::PersistentLag(5))
    );
    for (outcome, expected) in [
        (SendOutcome::Failed, Farewell::SendFailed),
        (SendOutcome::TimedOut, Farewell::WriteTimeout),
    ] {
        let mut session = fresh();
        session.step(SocketEvent::HeartbeatDue, 0);
        assert_eq!(
            reason(&mut session, SocketEvent::SendFinished(outcome), 0),
            Some(expected)
        );
    }
}

#[test]
fn counts_are_openings_less_closings_in_any_order() {
    let mut connections = ConnectionCounter::new();
    connections.increment(StreamType::Full);
    connections.increment(StreamType::Lite);
    connections.decrement(StreamType::Full);
    connections.increment(StreamType::DomainsOnly);
    connections.increment(StreamType::Full);
    connections.count_in(StreamType::Lite);
    connections.count_out(StreamType::DomainsOnly);
    let values: Vec<u64> = connections.update_metrics().iter().map(|g| g.value).collect();
    assert_eq!(values, [3, 1, 2, 0]);
}

#[test]
fn streams_have_names() {
    assert_eq!(StreamType::Full.name(), "full");
    assert_eq!(StreamType::Lite.name(), "lite");
    assert_eq!(StreamType::DomainsOnly.name(), "domains");
    assert_eq!(Session::new(StreamType::Lite, 0).stream_type(), StreamType::Lite);
}
