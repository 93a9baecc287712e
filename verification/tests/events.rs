use pwman_desktop::events::{forward_event, ProcessEvent, SinkEvent};

#[test]
fn forwarded_events_keep_their_order() {
    let produced = vec![
        ProcessEvent::Stdout(b"A".to_vec()),
        ProcessEvent::Stdout(b"B".to_vec()),
        ProcessEvent::Terminated(Some(0)),
    ];
    let observed: Vec<SinkEvent> = produced.iter().filter_map(forward_event).collect();
    assert_eq!(
        observed,
        vec![
            SinkEvent::Stdout("A".to_string()),
            SinkEvent::Stdout("B".to_string()),
            SinkEvent::Terminated(Some(0)),
        ]
    );
}

#[test]
fn output_goes_out_on_its_own_channel() {
    let out = forward_event(&ProcessEvent::Stdout("héllo\n".as_bytes().to_vec())).unwrap();
    assert_eq!(out, SinkEvent::Stdout("héllo\n".to_string()));
    assert_eq!(out.channel(), "sync://stdout");
    let err = forward_event(&ProcessEvent::Stderr(b"oops".to_vec())).unwrap();
    assert_eq!(err, SinkEvent::Stderr("oops".to_string()));
    assert_eq!(err.channel(), "sync://stderr");
}

#[test]
fn invalid_bytes_are_replaced() {
    let out = forward_event(&ProcessEvent::Stdout(vec![b'a', 0xff, b'b'])).unwrap();
    assert_eq!(out, SinkEvent::Stdout("a\u{fffd}b".to_string()));
    let cut = forward_event(&ProcessEvent::Stderr(vec![0xe2, 0x82])).unwrap();
    assert_eq!(cut, SinkEvent::Stderr("\u{fffd}".to_string()));
    let empty = forward_event(&ProcessEvent::Stdout(Vec::new())).unwrap();
    assert_eq!(empty, SinkEvent::Stdout(String::new()));
}

#[test]
fn exit_goes_out_with_its_code() {
    let done = forward_event(&ProcessEvent::Terminated(Some(-3))).unwrap();
    assert_eq!(done, SinkEvent::Terminated(Some(-3)));
    assert_eq!(done.channel(), "sync://terminated");
    assert_eq!(forward_event(&ProcessEvent::Terminated(None)), Some(SinkEvent::Terminated(None)));
}

#[test]
fn other_events_are_dropped() {
    assert_eq!(forward_event(&ProcessEvent::Other), None);
}

#[test]
fn ready_has_its_channel() {
    assert_eq!(SinkEvent::Ready("x".to_string()).channel(), "sync://ready");
}
