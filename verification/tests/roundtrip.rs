use lurk_lcsc::{CharacterFlags, LurkError, Protocol, PktAccept, PktChangeRoom, PktCharacter,
    PktConnection, PktError, PktFight, PktGame, PktLeave, PktLoot, PktMessage, PktPVPFight,
    PktRoom, PktStart, PktType, PktVersion};

#[test]
fn accept_concrete_scenario() {
    // Tag ACCEPT, body 0x0a = 10 = CHARACTER.
    let original: Vec<u8> = vec![0x08, 0x0a];
    match Protocol::parse(&original) {
        Ok((Protocol::Accept(accept), consumed)) => {
            assert_eq!(consumed, 2);
            assert_eq!(accept.accept_type, u8::from(PktType::CHARACTER));
            let reencoded = Protocol::Accept(accept).encode();
            assert_eq!(reencoded, original);
        }
        other => panic!("expected an accept frame, got {:?}", other.map(|_| ())),
    }
}

#[test]
fn error_concrete_scenario() {
    let mut original: Vec<u8> = vec![0x07, 0x04, 0x0d, 0x00];
    original.extend(b"Invalid stats");
    match Protocol::parse(&original) {
        Ok((Protocol::Error(error), consumed)) => {
            assert_eq!(consumed, original.len());
            assert_eq!(error.error, LurkError::STATERROR);
            assert_eq!(error.message_len, 13);
            assert_eq!(error.message, "Invalid stats");
            let reencoded = Protocol::Error(error).encode();
            assert_eq!(reencoded, original);
        }
        other => panic!("expected an error frame, got {:?}", other.map(|_| ())),
    }
}

#[test]
fn message_round_trip_narration() {
    // Encoding with narration then decoding keeps the flag and yields a
    // sender free of the two-byte marker.
    let message = PktMessage::narrator("Riley", "The door creaks open.");
    let bytes = Protocol::Message(message).encode();
    // The marker sits in the last two bytes of the sender field: frame
    // offsets 65 and 66, one past the body offsets because of the tag byte.
    assert_eq!(bytes[65], 0x00);
    assert_eq!(bytes[66], 0x01);
    match Protocol::parse(&bytes) {
        Ok((Protocol::Message(decoded), consumed)) => {
            assert_eq!(consumed, bytes.len());
            assert!(decoded.narration);
            assert_eq!(decoded.sender, "Narrator");
            assert_eq!(decoded.recipient, "Riley");
            assert_eq!(decoded.message, "The door creaks open.");
        }
        other => panic!("expected a message frame, got {:?}", other.map(|_| ())),
    }
}

#[test]
fn message_round_trip_thirty_byte_sender_without_marker() {
    // A sender of exactly 30 bytes with narration off round-trips with
    // narration still off: its padding can never look like the marker.
    let sender = "abcdefghijklmnopqrstuvwxyz0123";
    assert_eq!(sender.len(), 30);
    let message = PktMessage {
        packet_type: PktType::MESSAGE,
        message_len: 5,
        recipient: String::from("Riley"),
        sender: String::from(sender),
        narration: false,
        message: String::from("hello"),
    };
    let bytes = Protocol::Message(message).encode();
    match Protocol::parse(&bytes) {
        Ok((Protocol::Message(decoded), _)) => {
            assert!(!decoded.narration);
            assert_eq!(decoded.sender, sender);
        }
        other => panic!("expected a message frame, got {:?}", other.map(|_| ())),
    }
}

#[test]
fn change_room_round_trip() {
    let bytes = Protocol::ChangeRoom(PktChangeRoom::from(513)).encode();
    assert_eq!(bytes, vec![0x02, 0x01, 0x02]);
    match Protocol::parse(&bytes) {
        Ok((Protocol::ChangeRoom(decoded), _)) => {
            assert_eq!(u16::from(decoded), 513);
        }
        other => panic!("expected a change room frame, got {:?}", other.map(|_| ())),
    }
}

#[test]
fn tag_only_round_trips() {
    let bytes = Protocol::Fight(PktFight::default()).encode();
    assert_eq!(bytes, vec![0x03]);
    let bytes = Protocol::Start(PktStart::default()).encode();
    assert_eq!(bytes, vec![0x06]);
    let bytes = Protocol::Leave(PktLeave::default()).encode();
    assert_eq!(bytes, vec![0x0c]);
}

#[test]
fn pvp_fight_round_trip() {
    let bytes = Protocol::PVPFight(PktPVPFight::fight("Morgan")).encode();
    assert_eq!(bytes.len(), 33);
    match Protocol::parse(&bytes) {
        Ok((Protocol::PVPFight(decoded), _)) => {
            assert_eq!(decoded.target_name, "Morgan");
        }
        other => panic!("expected a fight frame, got {:?}", other.map(|_| ())),
    }
}

#[test]
fn loot_round_trip_with_thirty_two_byte_name() {
    // The largest name that fits its field: 32 bytes, no padding at all.
    let name = "abcdefghijklmnopqrstuvwxyz012345";
    assert_eq!(name.len(), 32);
    let bytes = Protocol::Loot(PktLoot::loot(name)).encode();
    assert_eq!(bytes.len(), 33);
    match Protocol::parse(&bytes) {
        Ok((Protocol::Loot(decoded), _)) => {
            assert_eq!(decoded.target_name, name);
        }
        other => panic!("expected a loot frame, got {:?}", other.map(|_| ())),
    }
}

#[test]
fn message_round_trip_empty_text() {
    let message = PktMessage::server("Riley", "");
    let bytes = Protocol::Message(message).encode();
    assert_eq!(bytes.len(), 67);
    match Protocol::parse(&bytes) {
        Ok((Protocol::Message(decoded), consumed)) => {
            assert_eq!(consumed, 67);
            assert_eq!(decoded.message_len, 0);
            assert_eq!(decoded.message, "");
            assert_eq!(decoded.sender, "Server");
        }
        other => panic!("expected a message frame, got {:?}", other.map(|_| ())),
    }
}

#[test]
fn message_round_trip_unicode_text() {
    // Multi-byte UTF-8 in every textual field survives the trip; lengths
    // count bytes, not characters.
    let message = PktMessage::server("R\u{e9}my", "caf\u{e9} \u{2603}");
    assert_eq!(message.message_len, 9);
    let bytes = Protocol::Message(message).encode();
    match Protocol::parse(&bytes) {
        Ok((Protocol::Message(decoded), _)) => {
            assert_eq!(decoded.recipient, "R\u{e9}my");
            assert_eq!(decoded.message, "caf\u{e9} \u{2603}");
        }
        other => panic!("expected a message frame, got {:?}", other.map(|_| ())),
    }
}

#[test]
fn invalid_utf8_in_a_name_is_repaired_not_fatal() {
    // 0xff can never appear in UTF-8: the decoder must repair it with the
    // replacement character rather than fail.
    let mut frame: Vec<u8> = vec![0x05];
    let mut name = vec![0xffu8, 0x41];
    name.resize(32, 0x00);
    frame.extend(name);
    match Protocol::parse(&frame) {
        Ok((Protocol::Loot(decoded), _)) => {
            assert_eq!(decoded.target_name, "\u{fffd}A");
        }
        other => panic!("expected a loot frame, got {:?}", other.map(|_| ())),
    }
}

#[test]
fn character_round_trip() {
    let character = PktCharacter {
        packet_type: PktType::CHARACTER,
        name: String::from("Glorfindel"),
        flags: CharacterFlags::alive(),
        attack: 50,
        defense: 25,
        regen: 25,
        health: -7,
        gold: 1200,
        current_room: 42,
        description_len: 8,
        description: String::from("An elf.\n"),
    };
    let bytes = Protocol::Character(character).encode();
    assert_eq!(bytes.len(), 1 + 47 + 8);
    match Protocol::parse(&bytes) {
        Ok((Protocol::Character(decoded), consumed)) => {
            assert_eq!(consumed, bytes.len());
            assert_eq!(decoded.name, "Glorfindel");
            assert_eq!(decoded.flags.bits(), CharacterFlags::alive().bits());
            assert_eq!(decoded.attack, 50);
            assert_eq!(decoded.defense, 25);
            assert_eq!(decoded.regen, 25);
            assert_eq!(decoded.health, -7);
            assert_eq!(decoded.gold, 1200);
            assert_eq!(decoded.current_room, 42);
            assert_eq!(decoded.description_len, 8);
            assert_eq!(decoded.description, "An elf.\n");
        }
        other => panic!("expected a character frame, got {:?}", other.map(|_| ())),
    }
}

#[test]
fn character_with_defaults_from_overrides_client_values() {
    let incoming = PktCharacter {
        packet_type: PktType::CHARACTER,
        name: String::from("Imp"),
        flags: CharacterFlags::from_bits_truncate(0xff),
        attack: 10,
        defense: 20,
        regen: 30,
        health: -100,
        gold: 9999,
        current_room: 77,
        description_len: 4,
        description: String::from("Tiny"),
    };
    let fresh = PktCharacter::with_defaults_from(&incoming);
    assert_eq!(fresh.name, "Imp");
    assert_eq!(fresh.attack, 10);
    assert_eq!(fresh.defense, 20);
    assert_eq!(fresh.regen, 30);
    assert_eq!(fresh.health, 100);
    assert_eq!(fresh.gold, 0);
    assert_eq!(fresh.current_room, 0);
    assert_eq!(fresh.flags.bits(), CharacterFlags::reset().bits());
    assert_eq!(fresh.description, "Tiny");
}

#[test]
fn game_round_trip() {
    let game = PktGame {
        packet_type: PktType::GAME,
        initial_points: 100,
        stat_limit: 65535,
        description_len: 16,
        description: String::from("This is a test!\n"),
    };
    let bytes = Protocol::Game(game).encode();
    match Protocol::parse(&bytes) {
        Ok((Protocol::Game(decoded), _)) => {
            assert_eq!(decoded.initial_points, 100);
            assert_eq!(decoded.stat_limit, 65535);
            assert_eq!(decoded.description, "This is a test!\n");
        }
        other => panic!("expected a game frame, got {:?}", other.map(|_| ())),
    }
}

#[test]
fn connection_round_trip() {
    let connection = PktConnection {
        message_type: PktType::CONNECTION,
        room_number: 3,
        room_name: String::from("Hallway"),
        description_len: 6,
        description: String::from("A door"),
    };
    let bytes = Protocol::Connection(connection).encode();
    match Protocol::parse(&bytes) {
        Ok((Protocol::Connection(decoded), _)) => {
            assert_eq!(decoded.room_number, 3);
            assert_eq!(decoded.room_name, "Hallway");
            assert_eq!(decoded.description, "A door");
        }
        other => panic!("expected a connection frame, got {:?}", other.map(|_| ())),
    }
}

#[test]
fn version_round_trip_without_extensions() {
    let version = PktVersion {
        packet_type: PktType::VERSION,
        major_rev: 2,
        minor_rev: 3,
        extension_len: 0,
        extensions: None,
    };
    let bytes = Protocol::Version(version).encode();
    assert_eq!(bytes, vec![0x0e, 0x02, 0x03, 0x00, 0x00]);
    match Protocol::parse(&bytes) {
        Ok((Protocol::Version(decoded), _)) => {
            assert_eq!(decoded.major_rev, 2);
            assert_eq!(decoded.minor_rev, 3);
            assert_eq!(decoded.extension_len, 0);
            assert!(decoded.extensions.is_none());
        }
        other => panic!("expected a version frame, got {:?}", other.map(|_| ())),
    }
}

#[test]
fn error_constructors_and_codes() {
    // One input for each error code, through the constructor and the wire.
    let cases = [
        (LurkError::OTHER, 0u8),
        (LurkError::BADROOM, 1),
        (LurkError::PLAYEREXISTS, 2),
        (LurkError::BADMONSTER, 3),
        (LurkError::STATERROR, 4),
        (LurkError::NOTREADY, 5),
        (LurkError::NOTARGET, 6),
        (LurkError::NOFIGHT, 7),
        (LurkError::NOPLAYERCOMBAT, 8),
    ];
    for (code, byte) in cases {
        let error = PktError::new(code, "no");
        let bytes = Protocol::Error(error).encode();
        assert_eq!(bytes[1], byte);
        match Protocol::parse(&bytes) {
            Ok((Protocol::Error(decoded), _)) => {
                assert_eq!(decoded.error, code);
                assert_eq!(decoded.message, "no");
            }
            other => panic!("expected an error frame, got {:?}", other.map(|_| ())),
        }
    }
}

#[test]
fn accept_constructor_reuses_kind_bytes() {
    let accept = PktAccept::new(PktType::CHARACTER);
    assert_eq!(accept.packet_type, PktType::ACCEPT);
    assert_eq!(accept.accept_type, 10);
}
