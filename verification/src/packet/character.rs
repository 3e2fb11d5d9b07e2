use crate::codec::{cut_at_nul, nul_cut, pad_or_trim, push_bytes, push_text_field, push_u16_le, read_u16_le, spec_i16_from_bits, spec_i16_to_bits, i16_from_bits, i16_to_bits, text_fits, text_of, text_string, lemma_i16_bits_round_trip, lemma_pad_or_trim_len, lemma_text_field_round_trip, lemma_text_tail_round_trip};
use crate::flags::CharacterFlags;
use crate::packet::Packet;
use crate::pkt_type::PktType;
use vstd::bytes::{lemma_auto_spec_u16_to_from_le_bytes, spec_u16_from_le_bytes, spec_u16_to_le_bytes};
use vstd::prelude::*;
use vstd::utf8::encode_utf8;

verus! {

/// Sent by both the client and the server to describe a player or monster.
///
/// The server sends it to show the client changes to their player's status
/// and to show other players or monsters in a room; the client uses it to
/// set the name, description, stats and flags when proposing a character.
/// When a client proposes a new character, the receiving side should
/// discard the client's flags, health, gold and room and substitute
/// server-computed values (see [`PktCharacter::with_defaults_from`]); the
/// codec itself does not enforce this.
pub struct PktCharacter {
    /// The type of message for the character packet.
    pub packet_type: PktType,
    /// The name of the character, up to 32 bytes.
    pub name: String,
    /// The character's flags.
    pub flags: CharacterFlags,
    /// The character's attack stat.
    pub attack: u16,
    /// The character's defense stat.
    pub defense: u16,
    /// The character's regeneration stat.
    pub regen: u16,
    /// The character's health stat, signed.
    pub health: i16,
    /// The character's gold amount.
    pub gold: u16,
    /// The character's current room.
    pub current_room: u16,
    /// The length in bytes of the character's description.
    pub description_len: u16,
    /// The character's description.
    pub description: String,
}

impl PktCharacter {
    /// Creates a new `PktCharacter` with server-computed defaults for
    /// health, gold, current room and flags, cloning the other fields from
    /// the incoming character.
    pub fn with_defaults_from(incoming: &PktCharacter) -> (r: PktCharacter)
        ensures
            r.packet_type == incoming.packet_type,
            r.name@ == incoming.name@,
            r.flags.bits == 0xc0,
            r.attack == incoming.attack,
            r.defense == incoming.defense,
            r.regen == incoming.regen,
            r.health == 100,
            r.gold == 0,
            r.current_room == 0,
            r.description_len == incoming.description_len,
            r.description@ == incoming.description@,
    {
        proof {
            assert(0x80u8 | 0x40u8 == 0xc0u8) by (bit_vector);
        }
        PktCharacter {
            packet_type: incoming.packet_type,
            name: incoming.name.clone(),
            flags: CharacterFlags::reset(),
            attack: incoming.attack,
            defense: incoming.defense,
            regen: incoming.regen,
            health: 100,
            gold: 0,
            current_room: 0,
            description_len: incoming.description_len,
            description: incoming.description.clone(),
        }
    }

    /// The exact wire bytes of this packet: the tag byte, the name resized
    /// to 32 bytes, the raw flag byte, the five unsigned and one signed
    /// little-endian stats, the description length, then the description
    /// bytes unpadded.
    pub open spec fn spec_serialize(self) -> Seq<u8> {
        seq![self.packet_type.spec_byte()] + pad_or_trim(encode_utf8(self.name@), 32)
            + seq![self.flags.bits] + spec_u16_to_le_bytes(self.attack) + spec_u16_to_le_bytes(
            self.defense,
        ) + spec_u16_to_le_bytes(self.regen) + spec_u16_to_le_bytes(spec_i16_to_bits(self.health))
            + spec_u16_to_le_bytes(self.gold) + spec_u16_to_le_bytes(self.current_room)
            + spec_u16_to_le_bytes(self.description_len) + encode_utf8(self.description@)
    }

    /// The payload a body of at least 47 bytes decodes to, under the given
    /// resolved kind: the name is cut at its first NUL byte, the reserved
    /// low flag bits are masked away, and the whole tail after the fixed
    /// fields is the description text.
    pub open spec fn parsed_from(self, packet_type: PktType, body: Seq<u8>) -> bool {
        &&& self.packet_type == packet_type
        &&& self.name@ == text_of(nul_cut(body.subrange(0, 32)))
        &&& self.flags.bits == body[32] & 0xf8
        &&& self.attack == spec_u16_from_le_bytes(body.subrange(33, 35))
        &&& self.defense == spec_u16_from_le_bytes(body.subrange(35, 37))
        &&& self.regen == spec_u16_from_le_bytes(body.subrange(37, 39))
        &&& self.health == spec_i16_from_bits(spec_u16_from_le_bytes(body.subrange(39, 41)))
        &&& self.gold == spec_u16_from_le_bytes(body.subrange(41, 43))
        &&& self.current_room == spec_u16_from_le_bytes(body.subrange(43, 45))
        &&& self.description_len == spec_u16_from_le_bytes(body.subrange(45, 47))
        &&& self.description@ == text_of(body.subrange(47, body.len() as int))
    }

    /// Two character payloads agree when every field is equal, text
    /// compared by its characters.
    pub open spec fn agrees(self, other: PktCharacter) -> bool {
        &&& self.packet_type == other.packet_type
        &&& self.name@ == other.name@
        &&& self.flags == other.flags
        &&& self.attack == other.attack
        &&& self.defense == other.defense
        &&& self.regen == other.regen
        &&& self.health == other.health
        &&& self.gold == other.gold
        &&& self.current_room == other.current_room
        &&& self.description_len == other.description_len
        &&& self.description@ == other.description@
    }

    /// The values a conformant sender produces: what `deserialize` can
    /// return for this kind.  The three reserved low flag bits must be
    /// zero, as decode masks them away.
    pub open spec fn wf(self) -> bool {
        &&& self.packet_type == PktType::CHARACTER
        &&& text_fits(self.name@, 32)
        &&& self.flags.bits & 0x07 == 0
        &&& self.description_len == encode_utf8(self.description@).len()
    }

    /// Serializes the packet, appending its wire bytes to `buffer`.
    pub fn serialize(self, buffer: &mut Vec<u8>)
        ensures
            final(buffer)@ == old(buffer)@ + self.spec_serialize(),
    {
        buffer.push(u8::from(self.packet_type));
        push_text_field(buffer, self.name.as_str(), 32);
        buffer.push(self.flags.bits());
        push_u16_le(buffer, self.attack);
        push_u16_le(buffer, self.defense);
        push_u16_le(buffer, self.regen);
        push_u16_le(buffer, i16_to_bits(self.health));
        push_u16_le(buffer, self.gold);
        push_u16_le(buffer, self.current_room);
        push_u16_le(buffer, self.description_len);
        push_bytes(buffer, self.description.as_str().as_bytes());
        proof {
            assert(buffer@ =~= old(buffer)@ + self.spec_serialize());
        }
    }

    /// Deserializes a packet whose body holds the fixed fields and the
    /// description bytes the framing layer read for it.
    pub fn deserialize(packet: Packet) -> (r: PktCharacter)
        requires
            packet.body@.len() >= 47,
        ensures
            r.parsed_from(packet.packet_type, packet.body@),
    {
        let name = text_string(cut_at_nul(&packet.body[0..32]));
        let flags = CharacterFlags::from_bits_truncate(packet.body[32]);
        let attack = read_u16_le(packet.body.as_slice(), 33);
        let defense = read_u16_le(packet.body.as_slice(), 35);
        let regen = read_u16_le(packet.body.as_slice(), 37);
        let health = i16_from_bits(read_u16_le(packet.body.as_slice(), 39));
        let gold = read_u16_le(packet.body.as_slice(), 41);
        let current_room = read_u16_le(packet.body.as_slice(), 43);
        let description_len = read_u16_le(packet.body.as_slice(), 45);
        let description = text_string(&packet.body[47..packet.body.len()]);
        PktCharacter {
            packet_type: packet.packet_type,
            name,
            flags,
            attack,
            defense,
            regen,
            health,
            gold,
            current_room,
            description_len,
            description,
        }
    }

    /// Round trip: any decode of the encoded bytes (after the tag byte)
    /// restores every field of the packet, the reserved-bit-free flag byte
    /// included.
    pub proof fn lemma_round_trip(self, other: PktCharacter)
        requires
            self.wf(),
            other.parsed_from(PktType::CHARACTER, self.spec_serialize().drop_first()),
        ensures
            other.agrees(self),
    {
        lemma_auto_spec_u16_to_from_le_bytes();
        lemma_pad_or_trim_len(encode_utf8(self.name@), 32);
        let body = self.spec_serialize().drop_first();
        assert(body.subrange(0, 32) =~= pad_or_trim(encode_utf8(self.name@), 32));
        lemma_text_field_round_trip(self.name@, 32);
        assert(body[32] == self.flags.bits);
        let b = self.flags.bits;
        assert(b & 0x07 == 0 ==> b & 0xf8 == b) by (bit_vector);
        assert(body.subrange(33, 35) =~= spec_u16_to_le_bytes(self.attack));
        assert(body.subrange(35, 37) =~= spec_u16_to_le_bytes(self.defense));
        assert(body.subrange(37, 39) =~= spec_u16_to_le_bytes(self.regen));
        assert(body.subrange(39, 41) =~= spec_u16_to_le_bytes(spec_i16_to_bits(self.health)));
        lemma_i16_bits_round_trip(self.health, 0);
        assert(body.subrange(41, 43) =~= spec_u16_to_le_bytes(self.gold));
        assert(body.subrange(43, 45) =~= spec_u16_to_le_bytes(self.current_room));
        assert(body.subrange(45, 47) =~= spec_u16_to_le_bytes(self.description_len));
        assert(body.subrange(47, body.len() as int) =~= encode_utf8(self.description@));
        lemma_text_tail_round_trip(self.description@);
    }
}

} // verus!
