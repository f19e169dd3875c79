use imap_receiver::receiver::{FeedEvent, Receiver};

#[test]
fn unknown_command_is_tagged() {
    let mut receiver = Receiver::new();
    let events = receiver.feed(&b"A1 NOOP\r\n".to_vec());
    assert_eq!(events.len(), 1);
    match &events[0] {
        FeedEvent::Failed(err) => {
            assert_eq!(err.tag, Some(b"A1".to_vec()));
            assert_eq!(err.message, "Unknown command.");
        }
        other => panic!("expected a failure, got {:?}", other),
    }
}

#[test]
fn missing_tag_is_fatal() {
    let mut receiver = Receiver::new();
    let events = receiver.feed(&b" GETQUOTA INBOX\r\n".to_vec());
    assert_eq!(events.len(), 1);
    match &events[0] {
        FeedEvent::Failed(err) => {
            assert_eq!(err.tag, None);
            assert_eq!(err.message, "Missing command tag.");
        }
        other => panic!("expected a failure, got {:?}", other),
    }
}

#[test]
fn tag_without_command_echoes_partial_tag() {
    let mut receiver = Receiver::new();
    let events = receiver.feed(&b"A9\r\n".to_vec());
    assert_eq!(events.len(), 1);
    match &events[0] {
        FeedEvent::Failed(err) => {
            assert_eq!(err.tag, Some(b"A9".to_vec()));
            assert_eq!(err.message, "Missing command.");
        }
        other => panic!("expected a failure, got {:?}", other),
    }
}

#[test]
fn stray_newline_in_quoted_string() {
    let mut receiver = Receiver::new();
    let events = receiver.feed(&b"A1 GETQUOTA \"abc\r\n".to_vec());
    assert_eq!(events.len(), 1);
    match &events[0] {
        FeedEvent::Failed(err) => {
            assert_eq!(err.tag, Some(b"A1".to_vec()));
            assert_eq!(err.message, "Unterminated quoted string.");
        }
        other => panic!("expected a failure, got {:?}", other),
    }
}

#[test]
fn quoted_escapes_are_removed() {
    let mut receiver = Receiver::new();
    let events = receiver.feed(&b"A1 GETQUOTA \"a\\\"b\\\\c\"\r\n".to_vec());
    assert_eq!(events.len(), 1);
    let request = match events.into_iter().next().unwrap() {
        FeedEvent::Completed(r) => r,
        other => panic!("expected a completed request, got {:?}", other),
    };
    let arguments = request.parse_get_quota().unwrap();
    assert_eq!(arguments.name, b"a\"b\\c".to_vec());
}

#[test]
fn oversized_literal_is_rejected() {
    let mut receiver = Receiver::new();
    let events = receiver.feed(&b"A1 GETQUOTA {99999999}\r\n".to_vec());
    assert_eq!(events.len(), 1);
    match &events[0] {
        FeedEvent::Failed(err) => {
            assert_eq!(err.tag, Some(b"A1".to_vec()));
            assert_eq!(err.message, "Literal too large.");
        }
        other => panic!("expected a failure, got {:?}", other),
    }
}

#[test]
fn malformed_literal_count() {
    let mut receiver = Receiver::new();
    let events = receiver.feed(&b"A1 GETQUOTA {x}\r\nrest\r\n".to_vec());
    assert!(matches!(&events[0], FeedEvent::Failed(err) if err.message == "Invalid literal."));
}

#[test]
fn receiver_recovers_after_error() {
    let mut receiver = Receiver::new();
    let events = receiver.feed(&b"A1 BOGUS junk\r\nA2 GETQUOTA root\r\n".to_vec());
    assert_eq!(events.len(), 2);
    assert!(matches!(&events[0], FeedEvent::Failed(err) if err.message == "Unknown command."));
    match events.into_iter().nth(1).unwrap() {
        FeedEvent::Completed(request) => {
            let arguments = request.parse_get_quota().unwrap();
            assert_eq!(arguments.tag, b"A2".to_vec());
            assert_eq!(arguments.name, b"root".to_vec());
        }
        other => panic!("expected a completed request, got {:?}", other),
    }
}

#[test]
fn pipelined_commands_complete_in_order() {
    let mut receiver = Receiver::new();
    let events = receiver.feed(&b"A1 GETQUOTA one\r\nA2 GETQUOTA two\r\n".to_vec());
    assert_eq!(events.len(), 2);
    let tags: Vec<Vec<u8>> = events
        .into_iter()
        .map(|e| match e {
            FeedEvent::Completed(r) => r.tag,
            other => panic!("expected a completed request, got {:?}", other),
        })
        .collect();
    assert_eq!(tags, vec![b"A1".to_vec(), b"A2".to_vec()]);
}

#[test]
fn byte_at_a_time_matches_whole_feed() {
    let line = b"A77 getquotaroot \"Sent Mail\"\r\n".to_vec();
    let mut whole = Receiver::new();
    let expected = whole.feed(&line);

    let mut trickle = Receiver::new();
    let mut collected: Vec<FeedEvent> = Vec::new();
    for b in &line {
        collected.extend(trickle.feed(&vec![*b]));
    }
    assert_eq!(collected, expected);
}

#[test]
fn continuation_prompt_before_sync_literal_payload() {
    let mut receiver = Receiver::new();
    let events = receiver.feed(&b"A1 GETQUOTA {3}\r\n".to_vec());
    assert_eq!(events, vec![FeedEvent::NeedsContinuation]);
    let events = receiver.feed(&b"abc\r\n".to_vec());
    assert_eq!(events.len(), 1);
    match events.into_iter().next().unwrap() {
        FeedEvent::Completed(request) => {
            let arguments = request.parse_get_quota().unwrap();
            assert_eq!(arguments.name, b"abc".to_vec());
        }
        other => panic!("expected a completed request, got {:?}", other),
    }
}

#[test]
fn overlong_line_is_rejected() {
    let mut receiver = Receiver::new();
    let line = vec![65u8; 9000];
    let events = receiver.feed(&line);
    assert_eq!(events.len(), 1);
    match &events[0] {
        FeedEvent::Failed(err) => {
            assert_eq!(err.message, "Request too long.");
        }
        other => panic!("expected a failure, got {:?}", other),
    }
}

#[test]
fn reserved_byte_in_tag_is_fatal() {
    let mut receiver = Receiver::new();
    let events = receiver.feed(&b"*1 GETQUOTA x\r\n".to_vec());
    assert_eq!(events.len(), 1);
    assert!(matches!(&events[0], FeedEvent::Failed(err)
        if err.tag == None && err.message == "Invalid tag."));
}

#[test]
fn carriage_return_must_be_followed_by_line_feed() {
    let mut receiver = Receiver::new();
    let events = receiver.feed(&b"A1 GETQUOTA x\rx\n".to_vec());
    assert_eq!(events.len(), 1);
    assert!(matches!(&events[0], FeedEvent::Failed(err)
        if err.tag == Some(b"A1".to_vec()) && err.message == "Expected CRLF."));
}

#[test]
fn empty_line_reports_missing_tag() {
    let mut receiver = Receiver::new();
    let events = receiver.feed(&b"\r\n".to_vec());
    assert_eq!(events.len(), 1);
    assert!(matches!(&events[0], FeedEvent::Failed(err)
        if err.tag == None && err.message == "Missing command tag."));
}
