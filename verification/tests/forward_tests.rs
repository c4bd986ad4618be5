use backend_supervisor::forward::{forward_all, forward_event, OutputEvent};

#[test]
fn forwards_three_lines_with_prefix_and_replacement() {
    let events = vec![
        OutputEvent::Stdout("L1".as_bytes().to_vec()),
        OutputEvent::Stderr("noise".as_bytes().to_vec()),
        OutputEvent::Stdout(vec![b'L', 0xFF, b'2']),
        OutputEvent::Error("channel hiccup".to_string()),
        OutputEvent::Stdout("L3".as_bytes().to_vec()),
    ];
    let logs = forward_all(&events);
    assert_eq!(
        logs,
        vec![
            "Backend Log: L1".to_string(),
            "Backend Log: L\u{FFFD}2".to_string(),
            "Backend Log: L3".to_string(),
        ]
    );
}

#[test]
fn forwarding_ends_with_the_stream() {
    let events = vec![
        OutputEvent::Stdout("bye".as_bytes().to_vec()),
        OutputEvent::Terminated { code: Some(0), signal: None },
    ];
    let logs = forward_all(&events);
    assert_eq!(logs, vec!["Backend Log: bye".to_string()]);
}

#[test]
fn empty_stream_forwards_nothing() {
    let logs = forward_all(&Vec::new());
    assert!(logs.is_empty());
}

#[test]
fn only_stdout_events_become_lines() {
    assert_eq!(
        forward_event(&OutputEvent::Stdout("hi".as_bytes().to_vec())),
        Some("Backend Log: hi".to_string())
    );
    assert_eq!(forward_event(&OutputEvent::Stderr("hi".as_bytes().to_vec())), None);
    assert_eq!(forward_event(&OutputEvent::Error("boom".to_string())), None);
    assert_eq!(forward_event(&OutputEvent::Terminated { code: None, signal: Some(9) }), None);
}

#[test]
fn invalid_bytes_are_replaced_not_returned() {
    let line = forward_event(&OutputEvent::Stdout(vec![0xFF, 0xFE])).unwrap();
    assert_eq!(line, "Backend Log: \u{FFFD}\u{FFFD}");
}
