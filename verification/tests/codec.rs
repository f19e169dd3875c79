use imap_receiver::utf7::utf7_maybe_decode;
use imap_receiver::ProtocolVersion;

#[test]
fn rev2_is_identity() {
    let name = b"Caf&AOk-".to_vec();
    assert_eq!(
        utf7_maybe_decode(name.clone(), ProtocolVersion::Rev2),
        name
    );
}

#[test]
fn rev2_decode_twice_is_decode_once() {
    let name = b"A&B-C".to_vec();
    let once = utf7_maybe_decode(name.clone(), ProtocolVersion::Rev2);
    let twice = utf7_maybe_decode(once.clone(), ProtocolVersion::Rev2);
    assert_eq!(once, name);
    assert_eq!(twice, once);
}

#[test]
fn rev1_plain_text_unchanged() {
    let name = b"INBOX/Drafts 2024".to_vec();
    assert_eq!(
        utf7_maybe_decode(name.clone(), ProtocolVersion::Rev1),
        name
    );
}

#[test]
fn rev1_shift_dash_is_ampersand() {
    assert_eq!(
        utf7_maybe_decode(b"Tom &- Jerry".to_vec(), ProtocolVersion::Rev1),
        b"Tom & Jerry".to_vec()
    );
}

#[test]
fn rev1_two_byte_code_point() {
    assert_eq!(
        utf7_maybe_decode(b"Caf&AOk-".to_vec(), ProtocolVersion::Rev1),
        b"Caf\xC3\xA9".to_vec()
    );
}

#[test]
fn rev1_three_byte_code_point() {
    assert_eq!(
        utf7_maybe_decode(b"&Jjo-".to_vec(), ProtocolVersion::Rev1),
        b"\xE2\x98\xBA".to_vec()
    );
}

#[test]
fn rev1_surrogate_pair() {
    assert_eq!(
        utf7_maybe_decode(b"&2D3eAA-".to_vec(), ProtocolVersion::Rev1),
        b"\xF0\x9F\x98\x80".to_vec()
    );
}

#[test]
fn rev1_bad_base64_passes_through() {
    let name = b"&*-".to_vec();
    assert_eq!(
        utf7_maybe_decode(name.clone(), ProtocolVersion::Rev1),
        name
    );
}

#[test]
fn rev1_nonzero_padding_passes_through() {
    let name = b"&AOR-".to_vec();
    assert_eq!(
        utf7_maybe_decode(name.clone(), ProtocolVersion::Rev1),
        name
    );
}

#[test]
fn rev1_unterminated_shift_passes_through() {
    let name = b"&AOk".to_vec();
    assert_eq!(
        utf7_maybe_decode(name.clone(), ProtocolVersion::Rev1),
        name
    );
}

#[test]
fn rev1_lone_low_surrogate_passes_through() {
    let name = b"&3gA-".to_vec();
    assert_eq!(
        utf7_maybe_decode(name.clone(), ProtocolVersion::Rev1),
        name
    );
}
