use crate::codec::{push_bytes, push_u16_le, read_u16_le, text_of, text_string};
use crate::lurk_error::LurkError;
use crate::packet::Packet;
use crate::pkt_type::PktType;
use vstd::bytes::{lemma_auto_spec_u16_to_from_le_bytes, spec_u16_from_le_bytes, spec_u16_to_le_bytes};
use vstd::prelude::*;
use vstd::utf8::encode_utf8;

verus! {

/// Notify the client of an error, such as a stat violation, an
/// inappropriate room connection, or an attempt to loot a living player.
pub struct PktError {
    /// The type of message for the error packet.
    pub packet_type: PktType,
    /// The specific error code.
    pub error: LurkError,
    /// The length in bytes of the error message.
    pub message_len: u16,
    /// The error message.
    pub message: String,
}

impl PktError {
    /// Create a new `PktError` with the specified error code and message.
    pub fn new(error: LurkError, message: &str) -> (r: PktError)
        requires
            encode_utf8(message@).len() <= 65535,
        ensures
            r.packet_type == PktType::ERROR,
            r.error == error,
            r.message_len == encode_utf8(message@).len(),
            r.message@ == message@,
    {
        PktError {
            packet_type: PktType::ERROR,
            error,
            message_len: message.len() as u16,
            message: message.to_owned(),
        }
    }

    /// The exact wire bytes of this packet: the tag byte, the error code
    /// byte, the message length in little-endian order, then the message
    /// bytes unpadded.
    pub open spec fn spec_serialize(self) -> Seq<u8> {
        seq![self.packet_type.spec_byte(), self.error.spec_byte()]
            + spec_u16_to_le_bytes(self.message_len) + encode_utf8(self.message@)
    }

    /// The payload a body of at least three bytes decodes to, under the
    /// given resolved kind: the whole tail after the fixed fields is the
    /// message text.
    pub open spec fn parsed_from(self, packet_type: PktType, body: Seq<u8>) -> bool {
        &&& self.packet_type == packet_type
        &&& self.error == LurkError::spec_of_byte(body[0])
        &&& self.message_len == spec_u16_from_le_bytes(body.subrange(1, 3))
        &&& self.message@ == text_of(body.subrange(3, body.len() as int))
    }

    /// Two error payloads agree when every field is equal, text compared
    /// by its characters.
    pub open spec fn agrees(self, other: PktError) -> bool {
        &&& self.packet_type == other.packet_type
        &&& self.error == other.error
        &&& self.message_len == other.message_len
        &&& self.message@ == other.message@
    }

    /// The values a conformant sender produces: what `deserialize` can
    /// return for this kind.
    pub open spec fn wf(self) -> bool {
        &&& self.packet_type == PktType::ERROR
        &&& self.message_len == encode_utf8(self.message@).len()
    }

    /// Serializes the packet, appending its wire bytes to `buffer`.
    pub fn serialize(self, buffer: &mut Vec<u8>)
        ensures
            final(buffer)@ == old(buffer)@ + self.spec_serialize(),
    {
        buffer.push(u8::from(self.packet_type));
        buffer.push(u8::from(self.error));
        push_u16_le(buffer, self.message_len);
        push_bytes(buffer, self.message.as_str().as_bytes());
        proof {
            assert(buffer@ =~= old(buffer)@ + self.spec_serialize());
        }
    }

    /// Deserializes a packet whose body holds the code byte, the message
    /// length, and the message bytes the framing layer read for it.
    pub fn deserialize(packet: Packet) -> (r: PktError)
        requires
            packet.body@.len() >= 3,
        ensures
            r.parsed_from(packet.packet_type, packet.body@),
    {
        let error = LurkError::from(packet.body[0]);
        let message_len = read_u16_le(packet.body.as_slice(), 1);
        let message = text_string(&packet.body[3..packet.body.len()]);
        PktError { packet_type: packet.packet_type, error, message_len, message }
    }

    /// Round trip: any decode of the encoded bytes (after the tag byte)
    /// restores the packet's kind, code, length and message.
    pub proof fn lemma_round_trip(self, other: PktError)
        requires
            self.wf(),
            other.parsed_from(PktType::ERROR, self.spec_serialize().drop_first()),
        ensures
            other.agrees(self),
    {
        lemma_auto_spec_u16_to_from_le_bytes();
        let body = self.spec_serialize().drop_first();
        crate::lurk_error::lemma_lurk_error_byte_round_trip(self.error, 0);
        assert(body.subrange(1, 3) =~= spec_u16_to_le_bytes(self.message_len));
        assert(body.subrange(3, body.len() as int) =~= encode_utf8(self.message@));
        crate::codec::lemma_text_tail_round_trip(self.message@);
    }
}

} // verus!
