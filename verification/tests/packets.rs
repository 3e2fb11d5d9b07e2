use lurk_lcsc::{Packet, PktAccept, PktChangeRoom, PktFight, PktGame, PktLeave, PktLoot,
    PktMessage, PktStart, PktType};

#[test]
fn accept_parse_and_serialize() {
    let type_byte = PktType::ACCEPT;
    let original_bytes: &[u8; 2] = &[0x08, 0x0a];

    // Create a packet with known bytes, excluding the type byte
    let packet = Packet::new(type_byte, original_bytes[1..].to_vec());

    // Deserialize the packet into a PktAccept
    let message = PktAccept::deserialize(packet);

    // Assert the fields were parsed correctly
    assert_eq!(message.packet_type, PktType::ACCEPT);
    assert_eq!(message.accept_type, u8::from(PktType::CHARACTER));

    // Serialize the message back into bytes
    let mut buffer: Vec<u8> = Vec::new();
    message.serialize(&mut buffer);

    // Assert that the serialized bytes match the original
    assert_eq!(buffer, original_bytes);
    assert_eq!(buffer[0], u8::from(type_byte));
}

#[test]
fn changeroom_parse_and_serialize() {
    let type_byte = PktType::CHANGEROOM;
    let original_bytes: &[u8; 3] = &[0x02, 0x00, 0x00];

    // Create a packet with known bytes, excluding the type byte
    let packet = Packet::new(type_byte, original_bytes[1..].to_vec());

    // Deserialize the packet into a PktChangeRoom
    let message = PktChangeRoom::deserialize(packet);

    // Assert the fields were parsed correctly
    assert_eq!(message.packet_type, PktType::CHANGEROOM);
    assert_eq!(message.room_number, 0);

    // Serialize the message back into bytes
    let mut buffer: Vec<u8> = Vec::new();
    message.serialize(&mut buffer);

    // Assert that the serialized bytes match the original
    assert_eq!(buffer, original_bytes);
    assert_eq!(buffer[0], u8::from(type_byte));
}

#[test]
fn fight_parse_and_serialize() {
    let type_byte = PktType::FIGHT;
    let original_bytes: &[u8; 1] = &[0x03];

    // Create a packet with known bytes, excluding the type byte
    let packet = Packet::new(type_byte, Vec::new());

    // Deserialize the packet into a PktFight
    let message = PktFight::deserialize(packet);

    // Assert the fields were parsed correctly
    assert_eq!(message.packet_type, PktType::FIGHT);

    // Serialize the message back into bytes
    let mut buffer: Vec<u8> = Vec::new();
    message.serialize(&mut buffer);

    // Assert that the serialized bytes match the original
    assert_eq!(buffer, original_bytes);
    assert_eq!(buffer[0], u8::from(type_byte));
}

#[test]
fn game_parse_and_serialize() {
    let type_byte = PktType::GAME;
    let original_bytes: &[u8; 23] = &[
        0x0b, 0x64, 0x00, 0xff, 0xff, 0x10, 0x00, 0x54, 0x68, 0x69, 0x73, 0x20, 0x69, 0x73,
        0x20, 0x61, 0x20, 0x74, 0x65, 0x73, 0x74, 0x21, 0x0a,
    ];

    // Create a packet with known bytes, excluding the type byte
    let packet = Packet::new(type_byte, original_bytes[1..].to_vec());

    // Deserialize the packet into a PktGame
    let message = PktGame::deserialize(packet);

    // Assert the fields were parsed correctly
    assert_eq!(message.packet_type, PktType::GAME);
    assert_eq!(message.initial_points, 100);
    assert_eq!(message.stat_limit, 65535);
    assert_eq!(message.description_len, 16);
    assert_eq!(message.description, "This is a test!\n");

    // Serialize the message back into bytes
    let mut buffer: Vec<u8> = Vec::new();
    message.serialize(&mut buffer);

    // Assert that the serialized bytes match the original
    assert_eq!(buffer, original_bytes);
    assert_eq!(buffer[0], u8::from(type_byte));
}

#[test]
fn leave_parse_and_serialize() {
    let type_byte = PktType::LEAVE;
    let original_bytes: &[u8; 1] = &[0x0c];

    // Create a packet with known bytes, excluding the type byte
    let packet = Packet::new(type_byte, Vec::new());

    // Deserialize the packet into a PktLeave
    let message = PktLeave::deserialize(packet);

    // Assert the fields were parsed correctly
    assert_eq!(message.packet_type, PktType::LEAVE);

    // Serialize the message back into bytes
    let mut buffer: Vec<u8> = Vec::new();
    message.serialize(&mut buffer);

    // Assert that the serialized bytes match the original
    assert_eq!(buffer, original_bytes);
    assert_eq!(buffer[0], u8::from(type_byte));
}

#[test]
fn loot_parse_and_serialize() {
    let type_byte = PktType::LOOT;
    let original_bytes: &[u8; 33] = &[
        0x05, 0x54, 0x65, 0x73, 0x74, 0x00, 0x00, 0x00, 0x00, 0x00, 0x00, 0x00, 0x00, 0x00,
        0x00, 0x00, 0x00, 0x00, 0x00, 0x00, 0x00, 0x00, 0x00, 0x00, 0x00, 0x00, 0x00, 0x00,
        0x00, 0x00, 0x00, 0x00, 0x00,
    ];

    // Create a packet with known bytes, excluding the type byte
    let packet = Packet::new(type_byte, original_bytes[1..].to_vec());

    // Deserialize the packet into a PktLoot
    let message = PktLoot::deserialize(packet);

    // Assert the fields were parsed correctly
    assert_eq!(message.packet_type, PktType::LOOT);
    assert_eq!(message.target_name, "Test");

    // Serialize the message back into bytes
    let mut buffer: Vec<u8> = Vec::new();
    message.serialize(&mut buffer);

    // Assert that the serialized bytes match the original
    assert_eq!(buffer, original_bytes);
    assert_eq!(buffer[0], u8::from(type_byte));
}

#[test]
fn message_parse_and_serialize() {
    let type_byte = PktType::MESSAGE;
    let original_bytes: &[u8; 80] = &[
        0x01, 0x0d, 0x00, 0x52, 0x69, 0x6c, 0x65, 0x79, 0x00, 0x00, 0x00, 0x00, 0x00, 0x00,
        0x00, 0x00, 0x00, 0x00, 0x00, 0x00, 0x00, 0x00, 0x00, 0x00, 0x00, 0x00, 0x00, 0x00,
        0x00, 0x00, 0x00, 0x00, 0x00, 0x00, 0x00, 0x53, 0x65, 0x72, 0x76, 0x65, 0x72, 0x00,
        0x00, 0x00, 0x00, 0x00, 0x00, 0x00, 0x00, 0x00, 0x00, 0x00, 0x00, 0x00, 0x00, 0x00,
        0x00, 0x00, 0x00, 0x00, 0x00, 0x00, 0x00, 0x00, 0x00, 0x00, 0x00, 0x48, 0x65, 0x6c,
        0x6c, 0x6f, 0x2c, 0x20, 0x57, 0x6f, 0x72, 0x6c, 0x64, 0x21,
    ];

    // Create a packet with known bytes, excluding the type byte
    let packet = Packet::new(type_byte, original_bytes[1..].to_vec());

    // Deserialize the packet into a PktMessage
    let message = PktMessage::deserialize(packet);

    // Assert the fields were parsed correctly
    assert_eq!(message.packet_type, PktType::MESSAGE);
    assert_eq!(message.message_len, 13);
    assert_eq!(message.recipient, "Riley");
    assert_eq!(message.sender, "Server");
    assert!(!message.narration);
    assert_eq!(message.message, "Hello, World!");

    // Serialize the message back into bytes
    let mut buffer: Vec<u8> = Vec::new();
    message.serialize(&mut buffer);

    // Assert that the serialized bytes match the original
    assert_eq!(buffer, original_bytes);
    assert_eq!(buffer[0], u8::from(type_byte));
}

#[test]
fn start_parse_and_serialize() {
    let type_byte = PktType::START;
    let original_bytes: &[u8; 1] = &[0x06];
    // Create a packet with known bytes, excluding the type byte
    let packet = Packet::new(type_byte, original_bytes[1..].to_vec());

    // Deserialize the packet into a PktStart
    let message = PktStart::deserialize(packet);

    // Assert the fields were parsed correctly
    assert_eq!(message.packet_type, PktType::START);

    // Serialize the message back into bytes
    let mut buffer: Vec<u8> = Vec::new();
    message.serialize(&mut buffer);

    // Assert that the serialized bytes match the original
    assert_eq!(buffer, original_bytes);
    assert_eq!(buffer[0], u8::from(type_byte));
}
