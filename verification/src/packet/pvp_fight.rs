use crate::codec::{cut_at_nul, nul_cut, pad_or_trim, push_text_field, text_fits, text_of, text_string, lemma_text_field_round_trip};
use crate::packet::Packet;
use crate::pkt_type::PktType;
use vstd::prelude::*;
use vstd::utf8::encode_utf8;

verus! {

/// Initiate a fight against another player, naming the target.
///
/// The server determines the results of the fight and allocates damage and
/// rewards appropriately.  If the server does not support player-versus-
/// player combat, it should answer with the matching error.
pub struct PktPVPFight {
    /// The type of message for the player-versus-player fight packet.
    pub packet_type: PktType,
    /// The name of the target player, up to 32 bytes.
    pub target_name: String,
}

impl PktPVPFight {
    /// Create a new `PktPVPFight` packet from a given name.
    pub fn fight(name: &str) -> (r: PktPVPFight)
        ensures
            r.packet_type == PktType::PVPFIGHT,
            r.target_name@ == name@,
    {
        PktPVPFight { packet_type: PktType::PVPFIGHT, target_name: name.to_owned() }
    }

    /// The exact wire bytes of this packet: the tag byte, then the target
    /// name as UTF-8 resized to 32 bytes.
    pub open spec fn spec_serialize(self) -> Seq<u8> {
        seq![self.packet_type.spec_byte()] + pad_or_trim(encode_utf8(self.target_name@), 32)
    }

    /// The payload a body of at least 32 bytes decodes to, under the given
    /// resolved kind: the name field is cut at its first NUL byte and
    /// decoded as UTF-8.
    pub open spec fn parsed_from(self, packet_type: PktType, body: Seq<u8>) -> bool {
        &&& self.packet_type == packet_type
        &&& self.target_name@ == text_of(nul_cut(body.subrange(0, 32)))
    }

    /// Two fight payloads agree when every field is equal, text compared
    /// by its characters.
    pub open spec fn agrees(self, other: PktPVPFight) -> bool {
        &&& self.packet_type == other.packet_type
        &&& self.target_name@ == other.target_name@
    }

    /// The values a conformant sender produces: what `deserialize` can
    /// return for this kind.
    pub open spec fn wf(self) -> bool {
        &&& self.packet_type == PktType::PVPFIGHT
        &&& text_fits(self.target_name@, 32)
    }

    /// Serializes the packet, appending its wire bytes to `buffer`.
    pub fn serialize(self, buffer: &mut Vec<u8>)
        ensures
            final(buffer)@ == old(buffer)@ + self.spec_serialize(),
    {
        buffer.push(u8::from(self.packet_type));
        push_text_field(buffer, self.target_name.as_str(), 32);
        proof {
            assert(buffer@ =~= old(buffer)@ + self.spec_serialize());
        }
    }

    /// Deserializes a packet whose body holds the 32-byte target name.
    pub fn deserialize(packet: Packet) -> (r: PktPVPFight)
        requires
            packet.body@.len() >= 32,
        ensures
            r.parsed_from(packet.packet_type, packet.body@),
    {
        let target_name = text_string(cut_at_nul(&packet.body[0..32]));
        PktPVPFight { packet_type: packet.packet_type, target_name }
    }

    /// Round trip: any decode of the encoded bytes (after the tag byte)
    /// restores the packet's kind and target name.
    pub proof fn lemma_round_trip(self, other: PktPVPFight)
        requires
            self.wf(),
            other.parsed_from(PktType::PVPFIGHT, self.spec_serialize().drop_first()),
        ensures
            other.agrees(self),
    {
        let body = self.spec_serialize().drop_first();
        assert(body.subrange(0, 32) =~= pad_or_trim(encode_utf8(self.target_name@), 32));
        lemma_text_field_round_trip(self.target_name@, 32);
    }
}

} // verus!
