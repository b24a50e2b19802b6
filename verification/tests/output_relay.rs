use sidecar_supervisor::relay::{relay_event, relay_lines, StreamTag, WorkerEvent};

#[test]
fn valid_lines_decode_to_their_text() {
    let ev = WorkerEvent::OutLine(b"hello".to_vec());
    let e = relay_event(&ev).expect("an output line yields an event");
    assert_eq!(e.tag, StreamTag::Stdout);
    assert_eq!(e.line, "hello");
}

#[test]
fn non_ascii_valid_utf8_is_kept_exactly() {
    let ev = WorkerEvent::ErrLine("héllo wörld".as_bytes().to_vec());
    let e = relay_event(&ev).expect("an error line yields an event");
    assert_eq!(e.tag, StreamTag::Stderr);
    assert_eq!(e.line, "héllo wörld");
}

#[test]
fn malformed_bytes_yield_one_event_with_substitution_marker() {
    let ev = WorkerEvent::OutLine(vec![0xff]);
    let e = relay_event(&ev).expect("a malformed line still yields an event");
    assert_eq!(e.tag, StreamTag::Stdout);
    assert_eq!(e.line, "\u{FFFD}");
}

#[test]
fn malformed_bytes_do_not_stop_the_relay() {
    let arrivals = vec![
        WorkerEvent::OutLine(b"first".to_vec()),
        WorkerEvent::OutLine(vec![0xc3, 0x28]),
        WorkerEvent::OutLine(b"second".to_vec()),
    ];
    let events = relay_lines(&arrivals);
    assert_eq!(events.len(), 3);
    assert_eq!(events[0].line, "first");
    assert!(events[1].line.contains('\u{FFFD}'));
    assert_eq!(events[2].line, "second");
}

#[test]
fn other_arrivals_are_ignored() {
    assert!(relay_event(&WorkerEvent::Other).is_none());
}

#[test]
fn n_out_and_m_err_lines_give_n_and_m_events_in_order() {
    let arrivals = vec![
        WorkerEvent::OutLine(b"o1".to_vec()),
        WorkerEvent::ErrLine(b"e1".to_vec()),
        WorkerEvent::Other,
        WorkerEvent::OutLine(b"o2".to_vec()),
        WorkerEvent::OutLine(b"o3".to_vec()),
    ];
    let events = relay_lines(&arrivals);
    assert_eq!(events.len(), 4);

    let out: Vec<&str> = events
        .iter()
        .filter(|e| e.tag == StreamTag::Stdout)
        .map(|e| e.line.as_str())
        .collect();
    let err: Vec<&str> = events
        .iter()
        .filter(|e| e.tag == StreamTag::Stderr)
        .map(|e| e.line.as_str())
        .collect();
    assert_eq!(out, ["o1", "o2", "o3"]);
    assert_eq!(err, ["e1"]);
}

#[test]
fn empty_batch_publishes_nothing() {
    let events = relay_lines(&Vec::new());
    assert!(events.is_empty());
}
