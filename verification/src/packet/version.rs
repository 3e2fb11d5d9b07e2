use crate::codec::{push_bytes, push_u16_le, read_u16_le};
use crate::packet::Packet;
use crate::pkt_type::PktType;
use vstd::bytes::{lemma_auto_spec_u16_to_from_le_bytes, spec_u16_from_le_bytes, spec_u16_to_le_bytes};
use vstd::prelude::*;

verus! {

/// Sent by the server upon initial connection along with the game
/// description.
///
/// The wire format reserves a length-prefixed extension list, and
/// `serialize` can emit one; `deserialize` deliberately discards whatever
/// was read and always yields an empty extension list.  This asymmetry is
/// kept on purpose for wire compatibility with peers that assume extensions
/// are never echoed back.
pub struct PktVersion {
    /// The type of message for the version packet.
    pub packet_type: PktType,
    /// The major revision number of the server.
    pub major_rev: u8,
    /// The minor revision number of the server.
    pub minor_rev: u8,
    /// The length in bytes of the extensions field.
    pub extension_len: u16,
    /// The extension list: each extension is prefixed by its own 16-bit
    /// length, and the whole list is `extension_len` bytes long.
    pub extensions: Option<Vec<u8>>,
}

impl PktVersion {
    /// The bytes the extension list contributes to the frame.
    pub open spec fn spec_extension_bytes(self) -> Seq<u8> {
        match self.extensions {
            Option::Some(e) => e@,
            Option::None => Seq::<u8>::empty(),
        }
    }

    /// The exact wire bytes of this packet: the tag byte, the two revision
    /// bytes, the extension length in little-endian order, then the
    /// extension list bytes if any.
    pub open spec fn spec_serialize(self) -> Seq<u8> {
        seq![self.packet_type.spec_byte(), self.major_rev, self.minor_rev]
            + spec_u16_to_le_bytes(self.extension_len) + self.spec_extension_bytes()
    }

    /// The payload a body of at least four bytes decodes to, under the
    /// given resolved kind: the revision bytes are read, and the extension
    /// list is always discarded.
    pub open spec fn parsed_from(self, packet_type: PktType, body: Seq<u8>) -> bool {
        &&& self.packet_type == packet_type
        &&& self.major_rev == body[0]
        &&& self.minor_rev == body[1]
        &&& self.extension_len == 0
        &&& self.extensions is None
    }

    /// Two version payloads agree when every field is equal.
    pub open spec fn agrees(self, other: PktVersion) -> bool {
        &&& self.packet_type == other.packet_type
        &&& self.major_rev == other.major_rev
        &&& self.minor_rev == other.minor_rev
        &&& self.extension_len == other.extension_len
        &&& self.extensions == other.extensions
    }

    /// The values a conformant sender produces and `deserialize` restores:
    /// decode never yields extensions, so only extension-free packets
    /// round-trip.
    pub open spec fn wf(self) -> bool {
        &&& self.packet_type == PktType::VERSION
        &&& self.extension_len == 0
        &&& self.extensions is None
    }

    /// Serializes the packet, appending its wire bytes to `buffer`.
    pub fn serialize(self, buffer: &mut Vec<u8>)
        ensures
            final(buffer)@ == old(buffer)@ + self.spec_serialize(),
    {
        buffer.push(u8::from(self.packet_type));
        buffer.push(self.major_rev);
        buffer.push(self.minor_rev);
        push_u16_le(buffer, self.extension_len);
        match &self.extensions {
            Option::Some(extensions) => {
                push_bytes(buffer, extensions.as_slice());
            },
            Option::None => {},
        }
        proof {
            assert(buffer@ =~= old(buffer)@ + self.spec_serialize());
        }
    }

    /// Deserializes a packet whose body holds the two revision bytes and
    /// the extension length; the extension bytes the framing layer read are
    /// discarded.
    pub fn deserialize(packet: Packet) -> (r: PktVersion)
        requires
            packet.body@.len() >= 4,
        ensures
            r.parsed_from(packet.packet_type, packet.body@),
    {
        PktVersion {
            packet_type: packet.packet_type,
            major_rev: packet.body[0],
            minor_rev: packet.body[1],
            extension_len: 0,
            extensions: Option::None,
        }
    }

    /// Round trip: any decode of the encoded bytes (after the tag byte)
    /// restores an extension-free packet exactly.
    pub proof fn lemma_round_trip(self, other: PktVersion)
        requires
            self.wf(),
            other.parsed_from(PktType::VERSION, self.spec_serialize().drop_first()),
        ensures
            other.agrees(self),
    {
        lemma_auto_spec_u16_to_from_le_bytes();
    }
}

} // verus!
