use crate::packet::Packet;
use crate::pkt_type::PktType;
use vstd::prelude::*;

verus! {

/// Sent by the server to acknowledge a non-error-causing action which has no
/// other direct result.
///
/// The one-byte payload is itself a message-kind tag byte (the kind being
/// acknowledged), reusing the tag encoding rather than a separate
/// enumeration.
pub struct PktAccept {
    /// The type of message for the accept packet.
    pub packet_type: PktType,
    /// The tag byte of the kind of action accepted.
    pub accept_type: u8,
}

impl PktAccept {
    /// Creates a new `PktAccept` acknowledging the given kind.
    pub fn new(accept_type: PktType) -> (r: PktAccept)
        ensures
            r.packet_type == PktType::ACCEPT,
            r.accept_type == accept_type.spec_byte(),
    {
        PktAccept { packet_type: PktType::ACCEPT, accept_type: u8::from(accept_type) }
    }

    /// The exact wire bytes of this packet: the tag byte, then the accepted
    /// kind's tag byte.
    pub open spec fn spec_serialize(self) -> Seq<u8> {
        seq![self.packet_type.spec_byte(), self.accept_type]
    }

    /// The payload a body of at least one byte decodes to, under the given
    /// resolved kind.
    pub open spec fn parsed_from(self, packet_type: PktType, body: Seq<u8>) -> bool {
        &&& self.packet_type == packet_type
        &&& self.accept_type == body[0]
    }

    /// Two accept payloads agree when every field is equal.
    pub open spec fn agrees(self, other: PktAccept) -> bool {
        &&& self.packet_type == other.packet_type
        &&& self.accept_type == other.accept_type
    }

    /// The values a conformant sender produces: what `deserialize` can
    /// return for this kind.
    pub open spec fn wf(self) -> bool {
        self.packet_type == PktType::ACCEPT
    }

    /// Serializes the packet, appending its wire bytes to `buffer`.
    pub fn serialize(self, buffer: &mut Vec<u8>)
        ensures
            final(buffer)@ == old(buffer)@ + self.spec_serialize(),
    {
        buffer.push(u8::from(self.packet_type));
        buffer.push(self.accept_type);
        proof {
            assert(buffer@ =~= old(buffer)@ + self.spec_serialize());
        }
    }

    /// Deserializes a packet whose body holds the accepted kind's tag byte.
    pub fn deserialize(packet: Packet) -> (r: PktAccept)
        requires
            packet.body@.len() >= 1,
        ensures
            r.parsed_from(packet.packet_type, packet.body@),
    {
        PktAccept { packet_type: packet.packet_type, accept_type: packet.body[0] }
    }

    /// Round trip: any decode of the encoded bytes (after the tag byte)
    /// restores the packet exactly.
    pub proof fn lemma_round_trip(self, other: PktAccept)
        requires
            self.wf(),
            other.parsed_from(PktType::ACCEPT, self.spec_serialize().drop_first()),
        ensures
            other.agrees(self),
    {
    }
}

} // verus!
