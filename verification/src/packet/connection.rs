use crate::codec::{cut_at_nul, nul_cut, pad_or_trim, push_bytes, push_text_field, push_u16_le, read_u16_le, text_fits, text_of, text_string, lemma_pad_or_trim_len, lemma_text_field_round_trip, lemma_text_tail_round_trip};
use crate::packet::Packet;
use crate::pkt_type::PktType;
use vstd::bytes::{lemma_auto_spec_u16_to_from_le_bytes, spec_u16_from_le_bytes, spec_u16_to_le_bytes};
use vstd::prelude::*;
use vstd::utf8::encode_utf8;

verus! {

/// Used by the server to describe rooms connected to the room the player
/// is in.
///
/// The client should expect a series of these when changing rooms, but
/// they may be sent at any time; the description may be an abbreviated
/// version of the one sent when the room is actually entered.
pub struct PktConnection {
    /// The type of message for the connection packet.
    pub message_type: PktType,
    /// The number of the room this connection leads to.
    pub room_number: u16,
    /// The name of the room this connection leads to, up to 32 bytes.
    pub room_name: String,
    /// The length in bytes of the room description.
    pub description_len: u16,
    /// The description of the room this connection leads to.
    pub description: String,
}

impl PktConnection {
    /// The exact wire bytes of this packet: the tag byte, the room number
    /// in little-endian order, the room name as UTF-8 resized to 32 bytes,
    /// the description length, then the description bytes unpadded.
    pub open spec fn spec_serialize(self) -> Seq<u8> {
        seq![self.message_type.spec_byte()] + spec_u16_to_le_bytes(self.room_number)
            + pad_or_trim(encode_utf8(self.room_name@), 32) + spec_u16_to_le_bytes(
            self.description_len,
        ) + encode_utf8(self.description@)
    }

    /// The payload a body of at least 36 bytes decodes to, under the given
    /// resolved kind: the name field is cut at its first NUL byte, and the
    /// whole tail after the fixed fields is the description text.
    pub open spec fn parsed_from(self, message_type: PktType, body: Seq<u8>) -> bool {
        &&& self.message_type == message_type
        &&& self.room_number == spec_u16_from_le_bytes(body.subrange(0, 2))
        &&& self.room_name@ == text_of(nul_cut(body.subrange(2, 34)))
        &&& self.description_len == spec_u16_from_le_bytes(body.subrange(34, 36))
        &&& self.description@ == text_of(body.subrange(36, body.len() as int))
    }

    /// Two connection payloads agree when every field is equal, text
    /// compared by its characters.
    pub open spec fn agrees(self, other: PktConnection) -> bool {
        &&& self.message_type == other.message_type
        &&& self.room_number == other.room_number
        &&& self.room_name@ == other.room_name@
        &&& self.description_len == other.description_len
        &&& self.description@ == other.description@
    }

    /// The values a conformant sender produces: what `deserialize` can
    /// return for this kind.
    pub open spec fn wf(self) -> bool {
        &&& self.message_type == PktType::CONNECTION
        &&& text_fits(self.room_name@, 32)
        &&& self.description_len == encode_utf8(self.description@).len()
    }

    /// Serializes the packet, appending its wire bytes to `buffer`.
    pub fn serialize(self, buffer: &mut Vec<u8>)
        ensures
            final(buffer)@ == old(buffer)@ + self.spec_serialize(),
    {
        buffer.push(u8::from(self.message_type));
        push_u16_le(buffer, self.room_number);
        push_text_field(buffer, self.room_name.as_str(), 32);
        push_u16_le(buffer, self.description_len);
        push_bytes(buffer, self.description.as_str().as_bytes());
        proof {
            assert(buffer@ =~= old(buffer)@ + self.spec_serialize());
        }
    }

    /// Deserializes a packet whose body holds the fixed fields and the
    /// description bytes the framing layer read for it.
    pub fn deserialize(packet: Packet) -> (r: PktConnection)
        requires
            packet.body@.len() >= 36,
        ensures
            r.parsed_from(packet.packet_type, packet.body@),
    {
        let room_number = read_u16_le(packet.body.as_slice(), 0);
        let room_name = text_string(cut_at_nul(&packet.body[2..34]));
        let description_len = read_u16_le(packet.body.as_slice(), 34);
        let description = text_string(&packet.body[36..packet.body.len()]);
        PktConnection {
            message_type: packet.packet_type,
            room_number,
            room_name,
            description_len,
            description,
        }
    }

    /// Round trip: any decode of the encoded bytes (after the tag byte)
    /// restores every field of the packet.
    pub proof fn lemma_round_trip(self, other: PktConnection)
        requires
            self.wf(),
            other.parsed_from(PktType::CONNECTION, self.spec_serialize().drop_first()),
        ensures
            other.agrees(self),
    {
        lemma_auto_spec_u16_to_from_le_bytes();
        lemma_pad_or_trim_len(encode_utf8(self.room_name@), 32);
        let body = self.spec_serialize().drop_first();
        assert(body.subrange(0, 2) =~= spec_u16_to_le_bytes(self.room_number));
        assert(body.subrange(2, 34) =~= pad_or_trim(encode_utf8(self.room_name@), 32));
        assert(body.subrange(34, 36) =~= spec_u16_to_le_bytes(self.description_len));
        assert(body.subrange(36, body.len() as int) =~= encode_utf8(self.description@));
        lemma_text_field_round_trip(self.room_name@, 32);
        lemma_text_tail_round_trip(self.description@);
    }
}

} // verus!
