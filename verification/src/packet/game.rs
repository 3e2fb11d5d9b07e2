use crate::codec::{push_bytes, push_u16_le, read_u16_le, text_of, text_string};
use crate::packet::Packet;
use crate::pkt_type::PktType;
use vstd::bytes::{lemma_auto_spec_u16_to_from_le_bytes, spec_u16_from_le_bytes, spec_u16_to_le_bytes};
use vstd::prelude::*;
use vstd::utf8::encode_utf8;

verus! {

/// Used by the server to describe the game, sent once upon connecting.
///
/// The initial points bound the combined stats a new character may declare;
/// the stat limit is a hard limit for any player on the server.
pub struct PktGame {
    /// The type of message for the game packet.
    pub packet_type: PktType,
    /// The initial points available to a new character.
    pub initial_points: u16,
    /// The maximum stat limit for any character.
    pub stat_limit: u16,
    /// The length in bytes of the game description.
    pub description_len: u16,
    /// The description of the game.
    pub description: String,
}

impl PktGame {
    /// The exact wire bytes of this packet: the tag byte, the three
    /// little-endian 16-bit fields, then the description bytes unpadded.
    pub open spec fn spec_serialize(self) -> Seq<u8> {
        seq![self.packet_type.spec_byte()] + spec_u16_to_le_bytes(self.initial_points)
            + spec_u16_to_le_bytes(self.stat_limit) + spec_u16_to_le_bytes(self.description_len)
            + encode_utf8(self.description@)
    }

    /// The payload a body of at least six bytes decodes to, under the given
    /// resolved kind: the whole tail after the fixed fields is the
    /// description text.
    pub open spec fn parsed_from(self, packet_type: PktType, body: Seq<u8>) -> bool {
        &&& self.packet_type == packet_type
        &&& self.initial_points == spec_u16_from_le_bytes(body.subrange(0, 2))
        &&& self.stat_limit == spec_u16_from_le_bytes(body.subrange(2, 4))
        &&& self.description_len == spec_u16_from_le_bytes(body.subrange(4, 6))
        &&& self.description@ == text_of(body.subrange(6, body.len() as int))
    }

    /// Two game payloads agree when every field is equal, text compared
    /// by its characters.
    pub open spec fn agrees(self, other: PktGame) -> bool {
        &&& self.packet_type == other.packet_type
        &&& self.initial_points == other.initial_points
        &&& self.stat_limit == other.stat_limit
        &&& self.description_len == other.description_len
        &&& self.description@ == other.description@
    }

    /// The values a conformant sender produces: what `deserialize` can
    /// return for this kind.
    pub open spec fn wf(self) -> bool {
        &&& self.packet_type == PktType::GAME
        &&& self.description_len == encode_utf8(self.description@).len()
    }

    /// Serializes the packet, appending its wire bytes to `buffer`.
    pub fn serialize(self, buffer: &mut Vec<u8>)
        ensures
            final(buffer)@ == old(buffer)@ + self.spec_serialize(),
    {
        buffer.push(u8::from(self.packet_type));
        push_u16_le(buffer, self.initial_points);
        push_u16_le(buffer, self.stat_limit);
        push_u16_le(buffer, self.description_len);
        push_bytes(buffer, self.description.as_str().as_bytes());
        proof {
            assert(buffer@ =~= old(buffer)@ + self.spec_serialize());
        }
    }

    /// Deserializes a packet whose body holds the three 16-bit fields and
    /// the description bytes the framing layer read for it.
    pub fn deserialize(packet: Packet) -> (r: PktGame)
        requires
            packet.body@.len() >= 6,
        ensures
            r.parsed_from(packet.packet_type, packet.body@),
    {
        let initial_points = read_u16_le(packet.body.as_slice(), 0);
        let stat_limit = read_u16_le(packet.body.as_slice(), 2);
        let description_len = read_u16_le(packet.body.as_slice(), 4);
        let description = text_string(&packet.body[6..packet.body.len()]);
        PktGame {
            packet_type: packet.packet_type,
            initial_points,
            stat_limit,
            description_len,
            description,
        }
    }

    /// Round trip: any decode of the encoded bytes (after the tag byte)
    /// restores every field of the packet.
    pub proof fn lemma_round_trip(self, other: PktGame)
        requires
            self.wf(),
            other.parsed_from(PktType::GAME, self.spec_serialize().drop_first()),
        ensures
            other.agrees(self),
    {
        lemma_auto_spec_u16_to_from_le_bytes();
        let body = self.spec_serialize().drop_first();
        assert(body.subrange(0, 2) =~= spec_u16_to_le_bytes(self.initial_points));
        assert(body.subrange(2, 4) =~= spec_u16_to_le_bytes(self.stat_limit));
        assert(body.subrange(4, 6) =~= spec_u16_to_le_bytes(self.description_len));
        assert(body.subrange(6, body.len() as int) =~= encode_utf8(self.description@));
        crate::codec::lemma_text_tail_round_trip(self.description@);
    }
}

} // verus!
