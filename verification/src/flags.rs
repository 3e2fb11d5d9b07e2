use vstd::prelude::*;

verus! {

/// The bit identifying a living character.
pub const ALIVE: u8 = 0x80;

/// The bit identifying a character that automatically joins battles in its
/// room.
pub const BATTLE: u8 = 0x40;

/// The bit identifying a monster rather than a human player.
pub const MONSTER: u8 = 0x20;

/// The bit identifying a character that has started playing.
pub const STARTED: u8 = 0x10;

/// The bit identifying a character that is ready.
pub const READY: u8 = 0x08;

/// Flags representing the state of a character in the game, stored as an
/// 8-bit set.  The five high bits are defined ([`ALIVE`], [`BATTLE`],
/// [`MONSTER`], [`STARTED`], [`READY`]); the three low bits are reserved,
/// kept zero on encode and masked away on decode.
///
/// When a client proposes a new character, the server should overwrite the
/// client-supplied flags with [`CharacterFlags::reset`]; the codec itself
/// does not enforce this.
#[derive(Clone, Copy, Debug, Hash, PartialEq, Eq, Structural)]
pub struct CharacterFlags {
    /// The raw flag byte.
    pub bits: u8,
}

impl CharacterFlags {
    /// The raw flag byte, as written to the wire.
    pub fn bits(&self) -> (r: u8)
        ensures
            r == self.bits,
    {
        self.bits
    }

    /// Builds a flag set from a raw byte, masking away the three reserved
    /// low bits.
    pub fn from_bits_truncate(bits: u8) -> (r: CharacterFlags)
        ensures
            r.bits == bits & 0xf8,
            r.bits & 0x07 == 0,
    {
        proof {
            assert((bits & 0xf8) & 0x07 == 0) by (bit_vector);
        }
        CharacterFlags { bits: bits & 0xf8 }
    }

    /// Check if the character is alive.
    pub fn is_alive(&self) -> (r: bool)
        ensures
            r == (self.bits & ALIVE != 0),
    {
        self.bits & ALIVE != 0
    }

    /// Check if the character automatically joins battles.
    pub fn is_battle(&self) -> (r: bool)
        ensures
            r == (self.bits & BATTLE != 0),
    {
        self.bits & BATTLE != 0
    }

    /// Check if the character has started.
    pub fn is_started(&self) -> (r: bool)
        ensures
            r == (self.bits & STARTED != 0),
    {
        self.bits & STARTED != 0
    }

    /// Check if the character is ready.
    pub fn is_ready(&self) -> (r: bool)
        ensures
            r == (self.bits & READY != 0),
    {
        self.bits & READY != 0
    }

    /// Kill a character, making them unplayable until they rejoin: the
    /// battle and ready bits, with the alive bit cleared.
    pub fn dead() -> (r: CharacterFlags)
        ensures
            r.bits == BATTLE | READY,
    {
        CharacterFlags { bits: BATTLE | READY }
    }

    /// Bring a character back to life, ready to play: the alive, battle and
    /// ready bits.
    pub fn alive() -> (r: CharacterFlags)
        ensures
            r.bits == ALIVE | BATTLE | READY,
    {
        CharacterFlags { bits: ALIVE | BATTLE | READY }
    }

    /// Reset a character when first starting or respawning: the alive and
    /// battle bits alone.
    pub fn reset() -> (r: CharacterFlags)
        ensures
            r.bits == ALIVE | BATTLE,
    {
        CharacterFlags { bits: ALIVE | BATTLE }
    }
}

/// The three presets agree with the bit predicates: `reset` sets alive and
/// battle and clears monster, started and ready; `dead` clears alive and sets
/// battle and ready; `alive` sets all of alive, battle and ready; and none of
/// them touches the reserved low bits.
pub proof fn lemma_flag_presets()
    ensures
        (ALIVE | BATTLE) & ALIVE != 0,
        (ALIVE | BATTLE) & BATTLE != 0,
        (ALIVE | BATTLE) & MONSTER == 0,
        (ALIVE | BATTLE) & STARTED == 0,
        (ALIVE | BATTLE) & READY == 0,
        (BATTLE | READY) & ALIVE == 0,
        (BATTLE | READY) & BATTLE != 0,
        (BATTLE | READY) & READY != 0,
        (ALIVE | BATTLE | READY) & ALIVE != 0,
        (ALIVE | BATTLE | READY) & BATTLE != 0,
        (ALIVE | BATTLE | READY) & READY != 0,
        (ALIVE | BATTLE) & 0x07 == 0,
        (BATTLE | READY) & 0x07 == 0,
        (ALIVE | BATTLE | READY) & 0x07 == 0,
{
    assert((0x80u8 | 0x40u8) & 0x80u8 != 0) by (bit_vector);
    assert((0x80u8 | 0x40u8) & 0x40u8 != 0) by (bit_vector);
    assert((0x80u8 | 0x40u8) & 0x20u8 == 0) by (bit_vector);
    assert((0x80u8 | 0x40u8) & 0x10u8 == 0) by (bit_vector);
    assert((0x80u8 | 0x40u8) & 0x08u8 == 0) by (bit_vector);
    assert((0x40u8 | 0x08u8) & 0x80u8 == 0) by (bit_vector);
    assert((0x40u8 | 0x08u8) & 0x40u8 != 0) by (bit_vector);
    assert((0x40u8 | 0x08u8) & 0x08u8 != 0) by (bit_vector);
    assert((0x80u8 | 0x40u8 | 0x08u8) & 0x80u8 != 0) by (bit_vector);
    assert((0x80u8 | 0x40u8 | 0x08u8) & 0x40u8 != 0) by (bit_vector);
    assert((0x80u8 | 0x40u8 | 0x08u8) & 0x08u8 != 0) by (bit_vector);
    assert((0x80u8 | 0x40u8) & 0x07u8 == 0) by (bit_vector);
    assert((0x40u8 | 0x08u8) & 0x07u8 == 0) by (bit_vector);
    assert((0x80u8 | 0x40u8 | 0x08u8) & 0x07u8 == 0) by (bit_vector);
}

} // verus!
