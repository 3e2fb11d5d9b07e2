use crate::codec::{cut_at_nul, nul_cut, pad_or_trim, push_bytes, push_text_field, push_u16_le, read_u16_le, text_fits, text_of, text_string, lemma_pad_or_trim_len, lemma_text_field_round_trip, lemma_text_tail_round_trip};
use crate::packet::Packet;
use crate::pkt_type::PktType;
use vstd::bytes::{lemma_auto_spec_u16_to_from_le_bytes, spec_u16_from_le_bytes, spec_u16_to_le_bytes};
use vstd::prelude::*;
use vstd::utf8::encode_utf8;

verus! {

/// Sent by the client to message other players, and by the server to send
/// presentable information to the client.
///
/// The sender field occupies 32 bytes on the wire: a 30-byte name plus two
/// trailing bytes.  When those two bytes hold the exact marker `0x00 0x01`
/// the message is narration and the marker is stripped before the name is
/// cut at its first NUL; otherwise the whole 32 bytes are the name field.
/// Decode tells the cases apart only by those two bytes, never by name
/// content.
pub struct PktMessage {
    /// The type of message for the message packet.
    pub packet_type: PktType,
    /// The length in bytes of the message text.
    pub message_len: u16,
    /// The recipient of the message, up to 32 bytes.
    pub recipient: String,
    /// The sender of the message, up to 30 bytes when narration, else up
    /// to 32 bytes.
    pub sender: String,
    /// Whether the message is narration (from the narrator persona) rather
    /// than from a player or the server.
    pub narration: bool,
    /// The message text, of `message_len` bytes.
    pub message: String,
}

impl PktMessage {
    /// Create a new `PktMessage` from the server to a specific recipient:
    /// the sender is "Server" and the narration flag is clear.
    pub fn server(recipient: &str, message: &str) -> (r: PktMessage)
        requires
            encode_utf8(message@).len() <= 65535,
        ensures
            r.packet_type == PktType::MESSAGE,
            r.message_len == encode_utf8(message@).len(),
            r.recipient@ == recipient@,
            r.sender@ == "Server"@,
            r.narration == false,
            r.message@ == message@,
    {
        PktMessage {
            packet_type: PktType::MESSAGE,
            message_len: message.len() as u16,
            recipient: recipient.to_owned(),
            sender: "Server".to_owned(),
            narration: false,
            message: message.to_owned(),
        }
    }

    /// Create a new `PktMessage` from the narrator to a specific recipient:
    /// the sender is "Narrator" and the narration flag is set.
    pub fn narrator(recipient: &str, message: &str) -> (r: PktMessage)
        requires
            encode_utf8(message@).len() <= 65535,
        ensures
            r.packet_type == PktType::MESSAGE,
            r.message_len == encode_utf8(message@).len(),
            r.recipient@ == recipient@,
            r.sender@ == "Narrator"@,
            r.narration == true,
            r.message@ == message@,
    {
        PktMessage {
            packet_type: PktType::MESSAGE,
            message_len: message.len() as u16,
            recipient: recipient.to_owned(),
            sender: "Narrator".to_owned(),
            narration: true,
            message: message.to_owned(),
        }
    }

    /// The 32 wire bytes of the sender field: a 30-byte name plus the
    /// narration marker when narrating, else the name resized to the full
    /// 32 bytes.
    pub open spec fn spec_sender_field(self) -> Seq<u8> {
        if self.narration {
            pad_or_trim(encode_utf8(self.sender@), 30) + seq![0u8, 1u8]
        } else {
            pad_or_trim(encode_utf8(self.sender@), 32)
        }
    }

    /// The exact wire bytes of this packet: the tag byte, the message
    /// length in little-endian order, the recipient resized to 32 bytes,
    /// the 32-byte sender field, then the message bytes unpadded.
    pub open spec fn spec_serialize(self) -> Seq<u8> {
        seq![self.packet_type.spec_byte()] + spec_u16_to_le_bytes(self.message_len)
            + pad_or_trim(encode_utf8(self.recipient@), 32) + self.spec_sender_field()
            + encode_utf8(self.message@)
    }

    /// The payload a body of at least 66 bytes decodes to, under the given
    /// resolved kind: narration holds exactly when the last two sender
    /// bytes are the marker, in which case they are stripped before the
    /// NUL cut.
    pub open spec fn parsed_from(self, packet_type: PktType, body: Seq<u8>) -> bool {
        let narration = body[64] == 0 && body[65] == 1;
        &&& self.packet_type == packet_type
        &&& self.message_len == spec_u16_from_le_bytes(body.subrange(0, 2))
        &&& self.recipient@ == text_of(nul_cut(body.subrange(2, 34)))
        &&& self.narration == narration
        &&& self.sender@ == text_of(
            nul_cut(
                if narration {
                    body.subrange(34, 64)
                } else {
                    body.subrange(34, 66)
                },
            ),
        )
        &&& self.message@ == text_of(body.subrange(66, body.len() as int))
    }

    /// Two message payloads agree when every field is equal, text
    /// compared by its characters.
    pub open spec fn agrees(self, other: PktMessage) -> bool {
        &&& self.packet_type == other.packet_type
        &&& self.message_len == other.message_len
        &&& self.recipient@ == other.recipient@
        &&& self.sender@ == other.sender@
        &&& self.narration == other.narration
        &&& self.message@ == other.message@
    }

    /// The values a conformant sender produces: what `deserialize` can
    /// return for this kind.  A narration sender must fit the 30-byte
    /// name slot; any other sender may use the full 32 bytes.
    pub open spec fn wf(self) -> bool {
        &&& self.packet_type == PktType::MESSAGE
        &&& self.message_len == encode_utf8(self.message@).len()
        &&& text_fits(self.recipient@, 32)
        &&& text_fits(self.sender@, if self.narration { 30nat } else { 32nat })
    }

    /// Serializes the packet, appending its wire bytes to `buffer`.
    pub fn serialize(self, buffer: &mut Vec<u8>)
        ensures
            final(buffer)@ == old(buffer)@ + self.spec_serialize(),
    {
        buffer.push(u8::from(self.packet_type));
        push_u16_le(buffer, self.message_len);
        push_text_field(buffer, self.recipient.as_str(), 32);
        if self.narration {
            push_text_field(buffer, self.sender.as_str(), 30);
            buffer.push(0x00);
            buffer.push(0x01);
            proof {
                assert(buffer@ =~= old(buffer)@ + seq![self.packet_type.spec_byte()]
                    + spec_u16_to_le_bytes(self.message_len) + pad_or_trim(
                    encode_utf8(self.recipient@),
                    32,
                ) + self.spec_sender_field());
            }
        } else {
            push_text_field(buffer, self.sender.as_str(), 32);
        }
        push_bytes(buffer, self.message.as_str().as_bytes());
        proof {
            assert(buffer@ =~= old(buffer)@ + self.spec_serialize());
        }
    }

    /// Deserializes a packet whose body holds the fixed fields and the
    /// message bytes the framing layer read for it.
    pub fn deserialize(packet: Packet) -> (r: PktMessage)
        requires
            packet.body@.len() >= 66,
        ensures
            r.parsed_from(packet.packet_type, packet.body@),
    {
        let message_len = read_u16_le(packet.body.as_slice(), 0);
        let recipient = text_string(cut_at_nul(&packet.body[2..34]));
        let narration = packet.body[64] == 0 && packet.body[65] == 1;
        let sender = if narration {
            text_string(cut_at_nul(&packet.body[34..64]))
        } else {
            text_string(cut_at_nul(&packet.body[34..66]))
        };
        let message = text_string(&packet.body[66..packet.body.len()]);
        PktMessage {
            packet_type: packet.packet_type,
            message_len,
            recipient,
            sender,
            narration,
            message,
        }
    }

    /// Round trip: any decode of the encoded bytes (after the tag byte)
    /// restores every field of the packet, narration flag included, and a
    /// non-narration sender is never mistaken for the marker.
    pub proof fn lemma_round_trip(self, other: PktMessage)
        requires
            self.wf(),
            other.parsed_from(PktType::MESSAGE, self.spec_serialize().drop_first()),
        ensures
            other.agrees(self),
    {
        lemma_auto_spec_u16_to_from_le_bytes();
        lemma_pad_or_trim_len(encode_utf8(self.recipient@), 32);
        let body = self.spec_serialize().drop_first();
        assert(body.subrange(0, 2) =~= spec_u16_to_le_bytes(self.message_len));
        assert(body.subrange(2, 34) =~= pad_or_trim(encode_utf8(self.recipient@), 32));
        lemma_text_field_round_trip(self.recipient@, 32);
        if self.narration {
            lemma_pad_or_trim_len(encode_utf8(self.sender@), 30);
            assert(body[64] == 0 && body[65] == 1);
            assert(body.subrange(34, 64) =~= pad_or_trim(encode_utf8(self.sender@), 30));
            lemma_text_field_round_trip(self.sender@, 30);
        } else {
            lemma_pad_or_trim_len(encode_utf8(self.sender@), 32);
            let e = encode_utf8(self.sender@);
            let s32 = pad_or_trim(e, 32);
            assert(body.subrange(34, 66) =~= s32);
            assert(body[64] == s32[30] && body[65] == s32[31]);
            if e.len() <= 31 {
                assert(s32[31] == 0);
            } else {
                assert(s32[30] == e[30]);
                assert(e[30] != 0);
            }
            assert(!(body[64] == 0 && body[65] == 1));
            lemma_text_field_round_trip(self.sender@, 32);
        }
        assert(body.subrange(66, body.len() as int) =~= encode_utf8(self.message@));
        lemma_text_tail_round_trip(self.message@);
    }
}

} // verus!
