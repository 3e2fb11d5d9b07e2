use lurk_lcsc::{Protocol, RecvError};

#[test]
fn room_extended_read_scenario() {
    // Room frame: tag, room number 1, name "Test" padded to 32 bytes, then
    // a 16-bit description length of 38 followed by exactly 38 bytes.
    let description = "Auto-generated connection description.";
    assert_eq!(description.len(), 38);

    let mut frame: Vec<u8> = vec![0x09, 0x01, 0x00];
    let mut name = b"Test".to_vec();
    name.resize(32, 0x00);
    frame.extend(name);
    frame.extend([0x26, 0x00]);
    frame.extend(description.as_bytes());
    assert_eq!(frame.len(), 1 + 36 + 38);

    match Protocol::parse(&frame) {
        Ok((Protocol::Room(room), consumed)) => {
            assert_eq!(consumed, 1 + 36 + 38);
            assert_eq!(room.room_number, 1);
            assert_eq!(room.room_name, "Test");
            assert_eq!(room.description_len, 38);
            assert_eq!(room.description, description);
        }
        other => panic!("expected a room frame, got {:?}", other.map(|_| ())),
    }
}

#[test]
fn room_length_field_consumes_exactly_that_many_bytes() {
    // A prefix announcing 32 trailing bytes consumes exactly 32 of them,
    // leaving the rest of the stream untouched.
    let mut frame: Vec<u8> = vec![0x09, 0x07, 0x00];
    frame.extend([0u8; 32]);
    frame.extend([0x20, 0x00]);
    frame.extend([0x61u8; 32]);
    frame.extend([0xff, 0xff, 0xff]);

    match Protocol::parse(&frame) {
        Ok((Protocol::Room(room), consumed)) => {
            assert_eq!(consumed, 1 + 36 + 32);
            assert_eq!(room.description_len, 32);
            assert_eq!(room.description.len(), 32);
        }
        other => panic!("expected a room frame, got {:?}", other.map(|_| ())),
    }
}

#[test]
fn empty_input_is_a_closed_connection() {
    match Protocol::parse(&[]) {
        Err(e) => assert_eq!(e, RecvError::Closed),
        Ok(_) => panic!("an empty stream must not parse"),
    }
}

#[test]
fn short_fixed_read_is_a_transport_failure() {
    // A room frame needs a 36-byte fixed prefix; two bytes are not enough.
    match Protocol::parse(&[0x09, 0x01]) {
        Err(e) => assert_eq!(e, RecvError::Truncated),
        Ok(_) => panic!("a truncated fixed read must not parse"),
    }
    // A loot frame needs 32 body bytes.
    match Protocol::parse(&[0x05, 0x41, 0x42]) {
        Err(e) => assert_eq!(e, RecvError::Truncated),
        Ok(_) => panic!("a truncated fixed read must not parse"),
    }
}

#[test]
fn short_extended_read_is_a_transport_failure() {
    // A whole error prefix announcing 13 trailing bytes, but only 4 present.
    let mut frame: Vec<u8> = vec![0x07, 0x04, 0x0d, 0x00];
    frame.extend(b"Inva");
    match Protocol::parse(&frame) {
        Err(e) => assert_eq!(e, RecvError::Truncated),
        Ok(_) => panic!("a truncated extended read must not parse"),
    }
}

#[test]
fn unrecognized_tag_is_unsupported_not_transport() {
    match Protocol::parse(&[0xff, 0x00, 0x00]) {
        Err(e) => {
            assert_eq!(e, RecvError::Unsupported);
            assert_ne!(e, RecvError::Closed);
            assert_ne!(e, RecvError::Truncated);
        }
        Ok(_) => panic!("an unrecognized tag must not parse"),
    }
    // The sentinel tag byte itself is unsupported too.
    match Protocol::parse(&[0x00]) {
        Err(e) => assert_eq!(e, RecvError::Unsupported),
        Ok(_) => panic!("the sentinel tag must not parse"),
    }
}

#[test]
fn tag_only_kinds_consume_one_byte() {
    for (tag, name) in [(0x03u8, "fight"), (0x06u8, "start"), (0x0cu8, "leave")] {
        match Protocol::parse(&[tag, 0xaa, 0xbb]) {
            Ok((_, consumed)) => assert_eq!(consumed, 1, "{}", name),
            Err(_) => panic!("a tag-only frame must parse"),
        }
    }
}

#[test]
fn consumed_count_lets_a_stream_hold_several_frames() {
    // Two frames back to back: parse consumes exactly the first, and
    // parsing the rest yields the second.
    let mut stream: Vec<u8> = vec![0x08, 0x0a];
    stream.extend([0x02, 0x07, 0x00]);
    let consumed = match Protocol::parse(&stream) {
        Ok((Protocol::Accept(accept), consumed)) => {
            assert_eq!(accept.accept_type, 0x0a);
            consumed
        }
        other => panic!("expected an accept frame, got {:?}", other.map(|_| ())),
    };
    assert_eq!(consumed, 2);
    match Protocol::parse(&stream[consumed..]) {
        Ok((Protocol::ChangeRoom(room), consumed)) => {
            assert_eq!(consumed, 3);
            assert_eq!(room.room_number, 7);
        }
        other => panic!("expected a change room frame, got {:?}", other.map(|_| ())),
    }
}

#[test]
fn version_decode_discards_extensions() {
    // A version frame whose prefix announces two extension bytes: the
    // framing consumes them, the payload discards them.
    let frame: Vec<u8> = vec![0x0e, 0x02, 0x03, 0x02, 0x00, 0x10, 0x20];
    match Protocol::parse(&frame) {
        Ok((Protocol::Version(version), consumed)) => {
            assert_eq!(consumed, 7);
            assert_eq!(version.major_rev, 2);
            assert_eq!(version.minor_rev, 3);
            assert_eq!(version.extension_len, 0);
            assert!(version.extensions.is_none());
        }
        other => panic!("expected a version frame, got {:?}", other.map(|_| ())),
    }
}
