use lurk_lcsc::{LurkError, PktType};

#[test]
fn pkt_type_byte_round_trip_for_every_kind() {
    let kinds = [
        PktType::DEFAULT,
        PktType::MESSAGE,
        PktType::CHANGEROOM,
        PktType::FIGHT,
        PktType::PVPFIGHT,
        PktType::LOOT,
        PktType::START,
        PktType::ERROR,
        PktType::ACCEPT,
        PktType::ROOM,
        PktType::CHARACTER,
        PktType::GAME,
        PktType::LEAVE,
        PktType::CONNECTION,
        PktType::VERSION,
    ];
    for (i, kind) in kinds.into_iter().enumerate() {
        assert_eq!(u8::from(kind), i as u8);
        assert_eq!(PktType::from(i as u8), kind);
    }
}

#[test]
fn pkt_type_out_of_range_bytes_default() {
    assert_eq!(PktType::from(15u8), PktType::DEFAULT);
    assert_eq!(PktType::from(100u8), PktType::DEFAULT);
    assert_eq!(PktType::from(255u8), PktType::DEFAULT);
}

#[test]
fn lurk_error_byte_round_trip_for_every_code() {
    let codes = [
        LurkError::OTHER,
        LurkError::BADROOM,
        LurkError::PLAYEREXISTS,
        LurkError::BADMONSTER,
        LurkError::STATERROR,
        LurkError::NOTREADY,
        LurkError::NOTARGET,
        LurkError::NOFIGHT,
        LurkError::NOPLAYERCOMBAT,
    ];
    for (i, code) in codes.into_iter().enumerate() {
        assert_eq!(u8::from(code), i as u8);
        assert_eq!(LurkError::from(i as u8), code);
    }
}

#[test]
fn lurk_error_out_of_range_bytes_default() {
    assert_eq!(LurkError::from(9u8), LurkError::OTHER);
    assert_eq!(LurkError::from(255u8), LurkError::OTHER);
}

#[test]
fn registry_names() {
    assert_eq!(PktType::FIGHT.name(), "Fight");
    assert_eq!(PktType::CHANGEROOM.name(), "ChangeRoom");
    assert_eq!(PktType::DEFAULT.name(), "Default");
    assert_eq!(LurkError::STATERROR.name(), "StatError");
    assert_eq!(LurkError::NOPLAYERCOMBAT.name(), "NoPlayerCombat");
}
