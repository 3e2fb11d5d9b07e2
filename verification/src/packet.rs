//! The per-kind packet payloads and the [`Packet`] parsing view every
//! per-kind `deserialize` operates on.
//!
//! Every payload type offers a `serialize` that appends its exact wire bytes
//! (tag byte first) to a buffer, and a `deserialize` that slices its fields
//! out of a body whose length the framing layer has already established.

/// Module for handling accept packets.
pub mod accept;
/// Module for handling change room packets.
pub mod change_room;
/// Module for handling character packets.
pub mod character;
/// Module for handling connection packets.
pub mod connection;
/// Module for handling error packets.
pub mod error;
/// Module for handling fight packets.
pub mod fight;
/// Module for handling game packets.
pub mod game;
/// Module for handling leave packets.
pub mod leave;
/// Module for handling loot packets.
pub mod loot;
/// Module for handling message packets.
pub mod message;
/// Module for handling player-versus-player fight packets.
pub mod pvp_fight;
/// Module for handling room packets.
pub mod room;
/// Module for handling start packets.
pub mod start;
/// Module for handling version packets.
pub mod version;

use crate::pkt_type::PktType;
use vstd::prelude::*;

verus! {

/// A parsing view over one framed message: the resolved kind and the body
/// bytes (everything after the tag byte).  The body's length is the caller's
/// responsibility: each kind's `deserialize` requires the body to be at
/// least as long as its fixed layout, as the framing layer guarantees.
pub struct Packet {
    /// The resolved kind of the message.
    pub packet_type: PktType,
    /// The body of the packet containing the raw bytes after the tag.
    pub body: Vec<u8>,
}

impl Packet {
    /// Creates a new `Packet` from the given packet type and body bytes.
    pub fn new(packet_type: PktType, body: Vec<u8>) -> (r: Packet)
        ensures
            r.packet_type == packet_type,
            r.body == body,
    {
        Packet { packet_type, body }
    }
}

} // verus!
