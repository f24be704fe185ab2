use std::convert::Infallible;

use axum::extract::ws::Utf8Bytes;
use axum::response::sse::{Event, Sse};
use axum::response::IntoResponse;
use certstream_server::admission::Admission;
use certstream_server::config::StreamConfig;
use certstream_server::models::PreSerializedMessage;
use certstream_server::sse::{
    admit_stream, after_poll, close_stream, process_message, receive, sse_connection_count,
    update_sse_metrics, SseConnectionCount, SseQueryParams, SseStreamType,
};

const ALL_ON: StreamConfig = StreamConfig {
    full: true,
    lite: true,
    domains_only: true,
};

/// A limiter without limits per client.
struct Slots {
    max: usize,
    taken: usize,
}

impl Slots {
    fn try_acquire(&mut self) -> bool {
        let free = self.taken < self.max;
        if free {
            self.taken += 1;
        }
        free
    }
}

fn message() -> PreSerializedMessage {
    PreSerializedMessage {
        full: Utf8Bytes::from_static(r#"{"stream":"full"}"#),
        lite: Utf8Bytes::from_static(r#"{"stream":"lite"}"#),
        domains_only: Utf8Bytes::from_static(r#"{"stream":"domains"}"#),
    }
}

/// The event as it goes over the wire.
fn wire(event: Result<Event, Infallible>) -> String {
    let body = Sse::new(futures_util::stream::iter(vec![event]))
        .into_response()
        .into_body();
    let bytes = tokio::runtime::Builder::new_current_thread()
        .build()
        .unwrap()
        .block_on(axum::body::to_bytes(body, usize::MAX))
        .unwrap();
    String::from_utf8(bytes.to_vec()).unwrap()
}

fn named(stream: &str) -> SseQueryParams {
    SseQueryParams {
        stream: Some(stream.to_string()),
    }
}

#[test]
fn stream_type_from_str() {
    assert!(matches!(SseStreamType::from_str("full"), SseStreamType::Full));
    assert!(matches!(SseStreamType::from_str("domains"), SseStreamType::DomainsOnly));
    assert!(matches!(
        SseStreamType::from_str("domains-only"),
        SseStreamType::DomainsOnly
    ));
    assert!(matches!(SseStreamType::from_str("lite"), SseStreamType::Lite));
    assert!(matches!(SseStreamType::from_str("anything-else"), SseStreamType::Lite));
    assert!(matches!(SseStreamType::from_str(""), SseStreamType::Lite));
}

#[test]
fn process_message_selects_the_requested_stream_and_counts_bytes() {
    let msg = message();
    let mut counter: u64 = 0;

    let full = process_message(&msg, SseStreamType::Full, &mut counter).unwrap();
    assert!(matches!(full, Ok(_)));
    assert_eq!(counter, msg.full.len() as u64);

    let before = counter;
    let _ = process_message(&msg, SseStreamType::Lite, &mut counter).unwrap();
    assert_eq!(counter, before + msg.lite.len() as u64);

    let before = counter;
    let expected_len = msg.domains_only.len() as u64;
    let _ = process_message(&msg, SseStreamType::DomainsOnly, &mut counter).unwrap();
    assert_eq!(counter, before + expected_len);
}

#[test]
fn an_event_carries_the_text_of_its_stream() {
    let msg = message();
    let mut counter: u64 = 0;
    for (stream_type, expected) in [
        (SseStreamType::Full, "data: {\"stream\":\"full\"}\n\n"),
        (SseStreamType::Lite, "data: {\"stream\":\"lite\"}\n\n"),
        (SseStreamType::DomainsOnly, "data: {\"stream\":\"domains\"}\n\n"),
    ] {
        let event = process_message(&msg, stream_type, &mut counter).unwrap();
        assert_eq!(wire(event), expected);
    }
}

#[test]
fn lines_of_a_text_become_data_lines_of_the_event() {
    let mut msg = message();
    msg.lite = Utf8Bytes::from_static("é\nb\rc");
    let mut counter: u64 = 0;
    let event = process_message(&msg, SseStreamType::Lite, &mut counter).unwrap();
    assert_eq!(wire(event), "data: é\ndata: b\rdata: c\n\n");
    assert_eq!(counter, 6);

    msg.lite = Utf8Bytes::from_static("");
    let event = process_message(&msg, SseStreamType::Lite, &mut counter).unwrap();
    assert_eq!(wire(event), "\n");
    assert_eq!(counter, 6);
}

#[test]
fn the_pending_count_wraps_around() {
    let mut counter: u64 = u64::MAX;
    let _ = process_message(&message(), SseStreamType::Lite, &mut counter).unwrap();
    assert_eq!(counter, 16);
}

#[test]
fn a_connection_that_fell_behind_gets_no_event() {
    let msg = message();
    let mut counter: u64 = 7;
    assert!(receive(None, SseStreamType::Lite, &mut counter).is_none());
    assert_eq!(counter, 7);
    let event = receive(Some(&msg), SseStreamType::Lite, &mut counter).unwrap();
    assert_eq!(wire(event), "data: {\"stream\":\"lite\"}\n\n");
    assert_eq!(counter, 24);
}

#[test]
fn handle_sse_stream_rejects_over_the_connection_limit() {
    let mut limiter = Slots { max: 1, taken: 0 };
    assert!(limiter.try_acquire());
    assert!(!limiter.try_acquire());

    match admit_stream(limiter.try_acquire(), &SseQueryParams { stream: None }, &ALL_ON) {
        Admission::Refused(refusal) => {
            assert_eq!(refusal.status, 429);
            assert_eq!(refusal.body, "Connection limit exceeded");
            assert!(!refusal.release_slot);
        }
        Admission::Admitted(_) => panic!("there was no slot"),
    }
}

#[test]
fn handle_sse_stream_404s_for_a_disabled_stream() {
    let streams = StreamConfig {
        full: false,
        lite: true,
        domains_only: true,
    };
    match admit_stream(true, &named("full"), &streams) {
        Admission::Refused(refusal) => {
            assert_eq!(refusal.status, 404);
            assert_eq!(refusal.body, "Stream type not available");
            assert!(refusal.release_slot);
        }
        Admission::Admitted(_) => panic!("the stream is off"),
    }
}

#[test]
fn handle_sse_stream_succeeds_for_an_enabled_stream() {
    assert!(matches!(
        admit_stream(true, &named("lite"), &ALL_ON),
        Admission::Admitted(SseStreamType::Lite)
    ));
}

#[test]
fn a_request_without_a_name_is_for_the_lite_stream() {
    let params = SseQueryParams::default();
    assert_eq!(params.stream_name(), "lite");
    assert!(matches!(
        admit_stream(true, &params, &ALL_ON),
        Admission::Admitted(SseStreamType::Lite)
    ));
    let off = StreamConfig {
        full: true,
        lite: false,
        domains_only: true,
    };
    assert!(matches!(admit_stream(true, &params, &off), Admission::Refused(_)));
    assert!(matches!(
        admit_stream(true, &named("domains"), &off),
        Admission::Admitted(SseStreamType::DomainsOnly)
    ));
}

#[test]
fn wrapper_flushes_pending_bytes_and_releases_its_slot_on_drop() {
    let mut limiter = Slots { max: 10, taken: 0 };
    assert!(limiter.try_acquire());
    assert_eq!(limiter.taken, 1);

    let mut connections = SseConnectionCount::new();
    let before_count = sse_connection_count(&connections);
    let gauge = connections.opened();
    assert_eq!((gauge.name, gauge.value), ("certstream_sse_connections", 1));

    let mut pending_bytes: u64 = 123;
    let close = close_stream(&mut pending_bytes, &mut connections);
    assert!(close.release_slot);
    limiter.taken -= 1;

    assert_eq!(close.flushed, 123);
    assert_eq!(close.counters.len(), 1);
    assert_eq!(close.counters[0].name, "certstream_bytes_sent_total");
    assert_eq!(close.counters[0].protocol, Some("sse"));
    assert_eq!(close.counters[0].amount, 123);
    assert_eq!((close.gauge.name, close.gauge.value), ("certstream_sse_connections", 0));
    assert_eq!(pending_bytes, 0);
    assert_eq!(limiter.taken, 0);
    assert_eq!(sse_connection_count(&connections), before_count);
}

#[test]
fn wrapper_flushes_mid_stream_once_the_threshold_is_crossed() {
    let mut counters = Vec::new();
    let mut pending_bytes: u64 = 256 * 1024;
    assert_eq!(after_poll(&mut pending_bytes, &mut counters), 256 * 1024);
    assert_eq!(pending_bytes, 0);
    assert_eq!(counters.len(), 1);

    pending_bytes = 256 * 1024 - 1;
    assert_eq!(after_poll(&mut pending_bytes, &mut counters), 0);
    assert_eq!(pending_bytes, 256 * 1024 - 1);
    assert_eq!(counters.len(), 1);
}

#[test]
fn no_sse_byte_is_lost_or_counted_twice() {
    let mut msg = message();
    msg.full = Utf8Bytes::from("x".repeat(100_000));
    let mut connections = SseConnectionCount::new();
    connections.opened();
    let mut counters = Vec::new();
    let mut pending: u64 = 0;
    let mut flushed: u64 = 0;
    for _ in 0..7 {
        let _ = process_message(&msg, SseStreamType::Full, &mut pending);
        flushed += after_poll(&mut pending, &mut counters);
        assert!(pending < 256 * 1024);
    }
    flushed += close_stream(&mut pending, &mut connections).flushed;
    assert_eq!(flushed, 700_000);
}

#[test]
fn closing_without_pending_bytes_reports_none() {
    let mut connections = SseConnectionCount::new();
    connections.opened();
    connections.opened();
    let close = close_stream(&mut 0, &mut connections);
    assert_eq!(close.flushed, 0);
    assert!(close.counters.is_empty());
    assert_eq!(update_sse_metrics(&connections).value, 1);
}

#[test]
fn the_sse_count_is_openings_less_closings_in_any_order() {
    let mut connections = SseConnectionCount::new();
    connections.opened();
    connections.opened();
    close_stream(&mut 0, &mut connections);
    connections.opened();
    assert_eq!(sse_connection_count(&connections), 2);
    for _ in 0..3 {
        close_stream(&mut 0, &mut connections);
    }
    assert_eq!(sse_connection_count(&connections), u64::MAX);
}
