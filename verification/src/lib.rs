//! Codec and framing engine for the Lurk protocol, a binary wire protocol
//! for turn-based multiplayer games exchanged over a byte stream.
//!
//! The crate models every message kind as a typed payload struct with a
//! byte-exact, verified `serialize`/`deserialize` pair, and offers the
//! [`protocol::Protocol`] tagged union together with the two-phase
//! (fixed-then-extended) framing rules that let fixed-size and
//! variable-size messages share one mechanism.  Each payload carries a
//! round-trip law: decoding the frame built from its encoded bytes
//! restores the value.

/// Shared byte-level codec primitives: little-endian fields, fixed-width
/// NUL-padded text, and lossy UTF-8 decoding.
pub mod codec;
/// Operator console action types.
pub mod commands;
/// Flags representing the state of a character in the game.
pub mod flags;
/// Error codes of the protocol.
pub mod lurk_error;
/// The per-kind packet payloads and their codecs.
pub mod packet;
/// Hex/ASCII dump lines for packet capture diagnostics.
pub mod pcap;
/// Packet type definitions.
pub mod pkt_type;
/// The protocol dispatcher: framing, parsing and encoding of whole frames.
pub mod protocol;

pub use flags::CharacterFlags;
pub use lurk_error::LurkError;
pub use packet::Packet;
pub use packet::{accept::PktAccept, change_room::PktChangeRoom, character::PktCharacter,
    connection::PktConnection, error::PktError, fight::PktFight, game::PktGame,
    leave::PktLeave, loot::PktLoot, message::PktMessage, pvp_fight::PktPVPFight,
    room::PktRoom, start::PktStart, version::PktVersion};
pub use pcap::PCap;
pub use pkt_type::PktType;
pub use protocol::{Protocol, RecvError};
