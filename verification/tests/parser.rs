use imap_receiver::quota::Arguments;
use imap_receiver::receiver::{FeedEvent, Receiver, Request};
use imap_receiver::ProtocolVersion;

fn only_completed(events: Vec<FeedEvent>) -> Request {
    assert_eq!(events.len(), 1);
    match events.into_iter().next().unwrap() {
        FeedEvent::Completed(r) => r,
        other => panic!("expected a completed request, got {:?}", other),
    }
}

#[test]
fn parse_quota() {
    let mut receiver = Receiver::new();

    let (command, arguments) = (
        "A142 GETQUOTAROOT INBOX\r\n",
        Arguments {
            name: b"INBOX".to_vec(),
            tag: b"A142".to_vec(),
        },
    );
    assert_eq!(
        only_completed(receiver.feed(&command.as_bytes().to_vec()))
            .parse_get_quota_root(ProtocolVersion::Rev2)
            .unwrap(),
        arguments
    );

    let (command, arguments) = (
        "A142 GETQUOTA \"my funky mailbox\"\r\n",
        Arguments {
            name: b"my funky mailbox".to_vec(),
            tag: b"A142".to_vec(),
        },
    );
    assert_eq!(
        only_completed(receiver.feed(&command.as_bytes().to_vec()))
            .parse_get_quota()
            .unwrap(),
        arguments
    );
}

#[test]
fn missing_quota_root() {
    let mut receiver = Receiver::new();
    let request = only_completed(receiver.feed(&b"A142 GETQUOTA\r\n".to_vec()));
    let err = request.parse_get_quota().unwrap_err();
    assert_eq!(err.tag, Some(b"A142".to_vec()));
    assert_eq!(err.message, "Missing quota root.");
}

#[test]
fn missing_mailbox_name() {
    let mut receiver = Receiver::new();
    let request = only_completed(receiver.feed(&b"A142 GETQUOTAROOT\r\n".to_vec()));
    let err = request.parse_get_quota_root(ProtocolVersion::Rev2).unwrap_err();
    assert_eq!(err.tag, Some(b"A142".to_vec()));
    assert_eq!(err.message, "Missing mailbox name.");
}

#[test]
fn too_many_arguments() {
    let mut receiver = Receiver::new();
    let request = only_completed(receiver.feed(&b"A142 GETQUOTA root1 root2\r\n".to_vec()));
    let err = request.parse_get_quota().unwrap_err();
    assert_eq!(err.tag, Some(b"A142".to_vec()));
    assert_eq!(err.message, "Too many arguments.");
}

#[test]
fn split_chunks_match_whole() {
    let mut split = Receiver::new();
    assert_eq!(split.feed(&b"A142 GETQ".to_vec()), vec![]);
    let from_split = only_completed(split.feed(&b"UOTA INBOX\r\n".to_vec()));

    let mut whole = Receiver::new();
    let from_whole = only_completed(whole.feed(&b"A142 GETQUOTA INBOX\r\n".to_vec()));
    assert_eq!(from_split, from_whole);

    let arguments = from_split.parse_get_quota().unwrap();
    assert_eq!(
        arguments,
        Arguments {
            name: b"INBOX".to_vec(),
            tag: b"A142".to_vec(),
        }
    );
}

#[test]
fn literal_quota_root() {
    let mut receiver = Receiver::new();
    let events = receiver.feed(&b"A1 GETQUOTA {5}\r\nroot1\r\n".to_vec());
    assert_eq!(events.len(), 2);
    assert_eq!(events[0], FeedEvent::NeedsContinuation);
    let request = match events.into_iter().nth(1).unwrap() {
        FeedEvent::Completed(r) => r,
        other => panic!("expected a completed request, got {:?}", other),
    };
    let arguments = request.parse_get_quota().unwrap();
    assert_eq!(
        arguments,
        Arguments {
            name: b"root1".to_vec(),
            tag: b"A1".to_vec(),
        }
    );
}

#[test]
fn literal_payload_keeps_raw_bytes() {
    let mut receiver = Receiver::new();
    let events = receiver.feed(&b"A1 GETQUOTA {5+}\r\nr\r\n\"\\\r\n".to_vec());
    let request = only_completed(events);
    let arguments = request.parse_get_quota().unwrap();
    assert_eq!(arguments.name, b"r\r\n\"\\".to_vec());
}

#[test]
fn mailbox_name_decoded_per_revision() {
    let mut receiver = Receiver::new();
    let request = only_completed(receiver.feed(&b"A2 GETQUOTAROOT Caf&AOk-\r\n".to_vec()));
    let arguments = request.parse_get_quota_root(ProtocolVersion::Rev1).unwrap();
    assert_eq!(arguments.name, b"Caf\xC3\xA9".to_vec());

    let mut receiver = Receiver::new();
    let request = only_completed(receiver.feed(&b"A2 GETQUOTAROOT Caf&AOk-\r\n".to_vec()));
    let arguments = request.parse_get_quota_root(ProtocolVersion::Rev2).unwrap();
    assert_eq!(arguments.name, b"Caf&AOk-".to_vec());
}
