use rscat::dispatch::{connector_for_text, Connector};
use rscat::orchestrator::{continue_after, failure_is_fatal, plan_pair, PairLaunch, RunMode};
use rscat::quic::QuicDialer;
use rscat::relay::{pump_step, relay_direction, relay_pair, PumpAction, ReadEvent};
use rscat::websocket::{adapter_read, MsgEvent, MsgWriter, ReadOutcome};
use rscat::wrapper::{Wrap, WrapRW};

fn round_trip(payload: Vec<u8>, bufsize: usize) {
    let (out, total) = relay_direction(&payload, bufsize);
    assert_eq!(out, payload);
    assert_eq!(total, payload.len());
}

#[test]
fn relay_copies_bytes_unmodified_and_in_order() {
    let bufsize = 1024;
    round_trip(Vec::new(), bufsize);
    round_trip(vec![42], bufsize);
    round_trip((0..=255u8).cycle().take(bufsize).collect(), bufsize);
    round_trip((0..=255u8).cycle().take(5000).collect(), bufsize);
}

#[test]
fn relay_works_in_both_directions() {
    let left_to_right: Vec<u8> = (0..100u8).collect();
    let right_to_left: Vec<u8> = (0..200u8).rev().cycle().take(3000).collect();
    let ((at_right, sent_right), (at_left, sent_left)) =
        relay_pair(&left_to_right, &right_to_left, 16);
    assert_eq!(at_right, left_to_right);
    assert_eq!(at_left, right_to_left);
    assert_eq!(sent_right, 100);
    assert_eq!(sent_left, 3000);
}

#[test]
fn pump_reacts_to_reads() {
    match pump_step(ReadEvent::Data(vec![1, 2, 3])) {
        PumpAction::Forward(d) => assert_eq!(d, vec![1, 2, 3]),
        _ => panic!("data must be forwarded"),
    }
    assert!(matches!(
        pump_step(ReadEvent::Data(Vec::new())),
        PumpAction::ShutdownDest
    ));
    assert!(matches!(pump_step(ReadEvent::Failed), PumpAction::Abort));
}

#[test]
fn listener_is_bound_once_and_reused() {
    let mut server = match connector_for_text("tcp-server://127.0.0.1:9000") {
        Ok(Connector::TcpServer(s)) => s,
        _ => panic!("expected a TCP server"),
    };
    // the first connect binds; a successful bind is kept for all later
    // connects
    assert!(!server.bound);
    assert!(server.needs_bind());
    server.record_bound(true);
    assert!(server.bound);
    assert!(!server.needs_bind());
    assert!(!server.needs_bind());
    assert!(server.bound);
}

#[test]
fn failed_bind_is_not_cached() {
    let mut server = match connector_for_text("tcp-server://127.0.0.1:9000") {
        Ok(Connector::TcpServer(s)) => s,
        _ => panic!("expected a TCP server"),
    };
    assert!(server.needs_bind());
    server.record_bound(false);
    // the next connect must try to bind again
    assert!(server.needs_bind());
    server.record_bound(true);
    assert!(!server.needs_bind());
}

#[test]
fn one_write_becomes_one_message() {
    let mut w = MsgWriter::new();
    let payloads: [usize; 3] = [3, 0, 5000];
    for &size in payloads.iter() {
        let buf: Vec<u8> = (0..=255u8).cycle().take(size).collect();
        assert_eq!(w.write(&buf, true), Some(size));
    }
    assert_eq!(w.sent.len(), 3);
    assert_eq!(w.sent[0].len(), 3);
    assert_eq!(w.sent[1].len(), 0);
    assert_eq!(w.sent[2].len(), 5000);
    assert_eq!(w.sent[0], vec![0, 1, 2]);
}

#[test]
fn pending_channel_enqueues_nothing() {
    let mut w = MsgWriter::new();
    assert_eq!(w.write(&vec![1, 2, 3], false), None);
    assert!(w.sent.is_empty());
    assert_eq!(w.write(&vec![1, 2, 3], true), Some(3));
    assert_eq!(w.sent.len(), 1);
}

#[test]
fn non_binary_message_is_a_read_error() {
    match adapter_read(MsgEvent::Other("Text".to_string()), 4096) {
        ReadOutcome::UnsupportedKind(k) => assert_eq!(k, "Text"),
        _ => panic!("a non-binary message must be a read error, not dropped"),
    }
}

#[test]
fn binary_message_surfaces_whole() {
    match adapter_read(MsgEvent::Binary(vec![9, 8, 7]), 4096) {
        ReadOutcome::Data(d) => assert_eq!(d, vec![9, 8, 7]),
        _ => panic!("a binary message must surface as data"),
    }
    match adapter_read(MsgEvent::Binary(vec![1, 2, 3]), 3) {
        ReadOutcome::Data(d) => assert_eq!(d, vec![1, 2, 3]),
        _ => panic!("a message exactly filling the buffer must surface"),
    }
    assert!(matches!(
        adapter_read(MsgEvent::Closed, 4096),
        ReadOutcome::Eof
    ));
}

#[test]
fn oversized_message_is_an_error_not_a_truncation() {
    match adapter_read(MsgEvent::Binary(vec![0; 10]), 9) {
        ReadOutcome::Oversized(len) => assert_eq!(len, 10),
        _ => panic!("a message larger than the buffer must be an explicit error"),
    }
}

#[test]
fn loop_mode_restarts_after_a_pair_completes() {
    let mode = RunMode {
        concurrent: false,
        repeat: true,
    };
    assert!(matches!(plan_pair(&mode), PairLaunch::RunToCompletion));
    assert!(continue_after(&mode));
}

#[test]
fn single_mode_runs_one_pair_and_exits() {
    let mode = RunMode {
        concurrent: false,
        repeat: false,
    };
    assert!(matches!(plan_pair(&mode), PairLaunch::RunToCompletion));
    assert!(!continue_after(&mode));
    assert!(failure_is_fatal(&mode));
}

#[test]
fn concurrent_mode_spawns() {
    let one = RunMode {
        concurrent: true,
        repeat: false,
    };
    assert!(matches!(plan_pair(&one), PairLaunch::Spawn));
    assert!(!continue_after(&one));
    assert!(!failure_is_fatal(&one));
    let many = RunMode {
        concurrent: true,
        repeat: true,
    };
    assert!(matches!(plan_pair(&many), PairLaunch::Spawn));
    assert!(continue_after(&many));
}

#[test]
fn quic_dial_takes_first_success() {
    let mut d = QuicDialer::new(3);
    assert_eq!(d.next_candidate(), Some(0));
    d.on_attempt(false);
    assert_eq!(d.next_candidate(), Some(1));
    d.on_attempt(true);
    assert_eq!(d.next_candidate(), None);
    assert!(d.succeeded());
}

#[test]
fn quic_dial_fails_when_all_candidates_fail() {
    let mut d = QuicDialer::new(2);
    d.on_attempt(false);
    assert_eq!(d.next_candidate(), Some(1));
    d.on_attempt(false);
    assert_eq!(d.next_candidate(), None);
    assert!(!d.succeeded());
}

#[test]
fn wrappers_keep_their_resources() {
    let w = Wrap::new(7u32);
    assert_eq!(w.inner, 7);
    let b = Wrap::new_boxed("abc".to_string());
    assert_eq!(b.inner, "abc");
    let rw = WrapRW::new(1u8, 2u8);
    assert_eq!((rw.reader, rw.writer), (1, 2));
    let brw = WrapRW::new_boxed(vec![1u8], vec![2u8]);
    assert_eq!(brw.reader, vec![1]);
    assert_eq!(brw.writer, vec![2]);
}
