use crate::codec::{push_u16_le, read_u16_le};
use crate::packet::Packet;
use crate::pkt_type::PktType;
use vstd::bytes::{spec_u16_from_le_bytes, spec_u16_to_le_bytes, lemma_auto_spec_u16_to_from_le_bytes};
use vstd::prelude::*;

verus! {

/// Sent by the client only, to change rooms.
///
/// If the server changes the room a client is in, it should send an updated
/// room, character, and connection message(s) to explain the new location;
/// if not, an error should be sent.
pub struct PktChangeRoom {
    /// The type of message for the change room packet.
    pub packet_type: PktType,
    /// Number of the room to change to.
    pub room_number: u16,
}

impl PktChangeRoom {
    /// The exact wire bytes of this packet: the tag byte, then the room
    /// number in little-endian order.
    pub open spec fn spec_serialize(self) -> Seq<u8> {
        seq![self.packet_type.spec_byte()] + spec_u16_to_le_bytes(self.room_number)
    }

    /// The payload a body of at least two bytes decodes to, under the given
    /// resolved kind.
    pub open spec fn parsed_from(self, packet_type: PktType, body: Seq<u8>) -> bool {
        &&& self.packet_type == packet_type
        &&& self.room_number == spec_u16_from_le_bytes(body.subrange(0, 2))
    }

    /// Two change room payloads agree when every field is equal.
    pub open spec fn agrees(self, other: PktChangeRoom) -> bool {
        &&& self.packet_type == other.packet_type
        &&& self.room_number == other.room_number
    }

    /// The values a conformant sender produces: what `deserialize` can
    /// return for this kind.
    pub open spec fn wf(self) -> bool {
        self.packet_type == PktType::CHANGEROOM
    }

    /// Serializes the packet, appending its wire bytes to `buffer`.
    pub fn serialize(self, buffer: &mut Vec<u8>)
        ensures
            final(buffer)@ == old(buffer)@ + self.spec_serialize(),
    {
        buffer.push(u8::from(self.packet_type));
        push_u16_le(buffer, self.room_number);
        proof {
            assert(buffer@ =~= old(buffer)@ + self.spec_serialize());
        }
    }

    /// Deserializes a packet whose body holds the little-endian room number.
    pub fn deserialize(packet: Packet) -> (r: PktChangeRoom)
        requires
            packet.body@.len() >= 2,
        ensures
            r.parsed_from(packet.packet_type, packet.body@),
    {
        let room_number = read_u16_le(packet.body.as_slice(), 0);
        PktChangeRoom { packet_type: packet.packet_type, room_number }
    }

    /// Round trip: any decode of the encoded bytes (after the tag byte)
    /// restores the packet exactly.
    pub proof fn lemma_round_trip(self, other: PktChangeRoom)
        requires
            self.wf(),
            other.parsed_from(PktType::CHANGEROOM, self.spec_serialize().drop_first()),
        ensures
            other.agrees(self),
    {
        lemma_auto_spec_u16_to_from_le_bytes();
        assert(self.spec_serialize().drop_first().subrange(0, 2) =~= spec_u16_to_le_bytes(
            self.room_number,
        ));
    }
}

impl From<u16> for PktChangeRoom {
    /// Builds a change room packet for the given room number.
    fn from(room_number: u16) -> (r: PktChangeRoom)
        ensures
            r.packet_type == PktType::CHANGEROOM,
            r.room_number == room_number,
    {
        PktChangeRoom { packet_type: PktType::CHANGEROOM, room_number }
    }
}

impl vstd::std_specs::convert::FromSpecImpl<u16> for PktChangeRoom {
    open spec fn obeys_from_spec() -> bool {
        true
    }

    open spec fn from_spec(room_number: u16) -> PktChangeRoom {
        PktChangeRoom { packet_type: PktType::CHANGEROOM, room_number }
    }
}

impl From<PktChangeRoom> for u16 {
    /// Returns the room number a change room packet requests.
    fn from(packet: PktChangeRoom) -> (r: u16)
        ensures
            r == packet.room_number,
    {
        packet.room_number
    }
}

impl vstd::std_specs::convert::FromSpecImpl<PktChangeRoom> for u16 {
    open spec fn obeys_from_spec() -> bool {
        true
    }

    open spec fn from_spec(packet: PktChangeRoom) -> u16 {
        packet.room_number
    }
}

} // verus!
