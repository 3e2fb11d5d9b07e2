use crate::packet::Packet;
use crate::pkt_type::PktType;
use vstd::prelude::*;

verus! {

/// Initiate a fight against the monsters in the current room.
///
/// Sent by the client; the server allocates damage and rewards after the
/// battle and informs clients appropriately.  The packet carries no body:
/// its tag byte is the whole frame.
pub struct PktFight {
    /// The type of message for the fight packet.
    pub packet_type: PktType,
}

impl PktFight {
    /// The exact wire bytes of this packet: the tag byte alone.
    pub open spec fn spec_serialize(self) -> Seq<u8> {
        seq![self.packet_type.spec_byte()]
    }

    /// The payload any body decodes to, under the given resolved kind.
    pub open spec fn parsed_from(self, packet_type: PktType, body: Seq<u8>) -> bool {
        self.packet_type == packet_type
    }

    /// Two fight payloads agree when their kind fields are equal.
    pub open spec fn agrees(self, other: PktFight) -> bool {
        self.packet_type == other.packet_type
    }

    /// The values a conformant sender produces: what `deserialize` can
    /// return for this kind.
    pub open spec fn wf(self) -> bool {
        self.packet_type == PktType::FIGHT
    }

    /// Serializes the packet, appending its tag byte to `buffer`.
    pub fn serialize(self, buffer: &mut Vec<u8>)
        ensures
            final(buffer)@ == old(buffer)@ + self.spec_serialize(),
    {
        buffer.push(u8::from(self.packet_type));
        proof {
            assert(buffer@ =~= old(buffer)@ + self.spec_serialize());
        }
    }

    /// Deserializes a packet; a fight frame has no body to read.
    pub fn deserialize(packet: Packet) -> (r: PktFight)
        ensures
            r.parsed_from(packet.packet_type, packet.body@),
    {
        PktFight { packet_type: packet.packet_type }
    }

    /// Round trip: any decode of the encoded bytes (after the tag byte)
    /// restores the packet exactly.
    pub proof fn lemma_round_trip(self, other: PktFight)
        requires
            self.wf(),
            other.parsed_from(PktType::FIGHT, self.spec_serialize().drop_first()),
        ensures
            other.agrees(self),
    {
    }
}

impl Default for PktFight {
    /// The fight packet: its kind is its only content.
    fn default() -> (r: PktFight)
        ensures
            r.packet_type == PktType::FIGHT,
    {
        PktFight { packet_type: PktType::FIGHT }
    }
}

} // verus!
