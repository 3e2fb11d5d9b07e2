use crate::packet::Packet;
use crate::pkt_type::PktType;
use vstd::prelude::*;

verus! {

/// Used by the client to leave the game: a graceful way to disconnect.
///
/// The server never terminates, so it does not send this packet.  The
/// packet carries no body: its tag byte is the whole frame.
pub struct PktLeave {
    /// The type of message for the leave packet.
    pub packet_type: PktType,
}

impl PktLeave {
    /// The exact wire bytes of this packet: the tag byte alone.
    pub open spec fn spec_serialize(self) -> Seq<u8> {
        seq![self.packet_type.spec_byte()]
    }

    /// The payload any body decodes to, under the given resolved kind.
    pub open spec fn parsed_from(self, packet_type: PktType, body: Seq<u8>) -> bool {
        self.packet_type == packet_type
    }

    /// Two leave payloads agree when their kind fields are equal.
    pub open spec fn agrees(self, other: PktLeave) -> bool {
        self.packet_type == other.packet_type
    }

    /// The values a conformant sender produces: what `deserialize` can
    /// return for this kind.
    pub open spec fn wf(self) -> bool {
        self.packet_type == PktType::LEAVE
    }

    /// Serializes the packet, appending its tag byte to `buffer`.
    pub fn serialize(self, buffer: &mut Vec<u8>)
        ensures
            final(buffer)@ == old(buffer)@ + self.spec_serialize(),
    {
        buffer.push(u8::from(self.packet_type));
        proof {
            assert(buffer@ =~= old(buffer)@ + self.spec_serialize());
        }
    }

    /// Deserializes a packet; a leave frame has no body to read.
    pub fn deserialize(packet: Packet) -> (r: PktLeave)
        ensures
            r.parsed_from(packet.packet_type, packet.body@),
    {
        PktLeave { packet_type: packet.packet_type }
    }

    /// Round trip: any decode of the encoded bytes (after the tag byte)
    /// restores the packet exactly.
    pub proof fn lemma_round_trip(self, other: PktLeave)
        requires
            self.wf(),
            other.parsed_from(PktType::LEAVE, self.spec_serialize().drop_first()),
        ensures
            other.agrees(self),
    {
    }
}

impl Default for PktLeave {
    /// The leave packet: its kind is its only content.
    fn default() -> (r: PktLeave)
        ensures
            r.packet_type == PktType::LEAVE,
    {
        PktLeave { packet_type: PktType::LEAVE }
    }
}

} // verus!
