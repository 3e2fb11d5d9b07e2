use lurk_lcsc::CharacterFlags;

#[test]
fn reset_sets_alive_and_battle_and_clears_the_rest() {
    let flags = CharacterFlags::reset();
    assert_eq!(flags.bits(), 0b1100_0000);
    assert!(flags.is_alive());
    assert!(flags.is_battle());
    assert!(!flags.is_started());
    assert!(!flags.is_ready());
}

#[test]
fn dead_clears_alive() {
    let flags = CharacterFlags::dead();
    assert_eq!(flags.bits(), 0b0100_1000);
    assert!(!flags.is_alive());
    assert!(flags.is_battle());
    assert!(flags.is_ready());
}

#[test]
fn alive_sets_alive_battle_and_ready() {
    let flags = CharacterFlags::alive();
    assert_eq!(flags.bits(), 0b1100_1000);
    assert!(flags.is_alive());
    assert!(flags.is_battle());
    assert!(flags.is_ready());
    assert!(!flags.is_started());
}

#[test]
fn from_bits_truncate_masks_reserved_bits() {
    let flags = CharacterFlags::from_bits_truncate(0xff);
    assert_eq!(flags.bits(), 0xf8);
    let flags = CharacterFlags::from_bits_truncate(0b0001_0111);
    assert_eq!(flags.bits(), 0b0001_0000);
    assert!(flags.is_started());
    assert!(!flags.is_alive());
}
