//! The protocol dispatcher: the tagged union pairing each frame with its
//! typed payload, the two-phase (fixed-then-extended) framing rules, and
//! the verified `parse`/`encode` pair the transport layer drives.

use crate::codec::read_u16_le;
use crate::packet::accept::PktAccept;
use crate::packet::change_room::PktChangeRoom;
use crate::packet::character::PktCharacter;
use crate::packet::connection::PktConnection;
use crate::packet::error::PktError;
use crate::packet::fight::PktFight;
use crate::packet::game::PktGame;
use crate::packet::leave::PktLeave;
use crate::packet::loot::PktLoot;
use crate::packet::message::PktMessage;
use crate::packet::pvp_fight::PktPVPFight;
use crate::packet::room::PktRoom;
use crate::packet::start::PktStart;
use crate::packet::version::PktVersion;
use crate::packet::Packet;
use crate::pkt_type::PktType;
use vstd::bytes::spec_u16_from_le_bytes;
use vstd::prelude::*;
use vstd::slice::slice_to_vec;

verus! {

/// Why receiving one frame failed.  Truncation and a closed connection are
/// transport failures: the connection should be considered dead for
/// framing purposes.  An unsupported tag is a distinct fatal condition for
/// that receive alone.
#[derive(Clone, Copy, Debug, Hash, PartialEq, Eq, Structural)]
pub enum RecvError {
    /// The stream yielded no tag byte: the connection is closed.
    Closed,
    /// A fixed or extended framing step found fewer bytes than the kind
    /// requires: a short read.
    Truncated,
    /// The tag byte resolved to the sentinel kind: the message is
    /// unsupported.  This is the single point where an unrecognized tag is
    /// fatal rather than silently defaulted.
    Unsupported,
}

/// Represents all possible protocol packets exchanged between the client
/// and server: exactly one typed payload per value.
pub enum Protocol {
    /// A message sent between client and server.
    Message(PktMessage),
    /// A request to change the room.
    ChangeRoom(PktChangeRoom),
    /// A fight request.
    Fight(PktFight),
    /// A player-versus-player fight request.
    PVPFight(PktPVPFight),
    /// A loot request.
    Loot(PktLoot),
    /// A start request.
    Start(PktStart),
    /// An error response.
    Error(PktError),
    /// An acceptance response.
    Accept(PktAccept),
    /// Room information.
    Room(PktRoom),
    /// Character information.
    Character(PktCharacter),
    /// Game information.
    Game(PktGame),
    /// Leave information.
    Leave(PktLeave),
    /// Connection information.
    Connection(PktConnection),
    /// Version information.
    Version(PktVersion),
}

/// The number of body bytes in each kind's fixed part: the whole body for
/// fixed-body kinds, the prefix holding the embedded length for extended
/// kinds, zero for tag-only kinds.
pub open spec fn spec_fixed_len(kind: PktType) -> int {
    match kind {
        PktType::DEFAULT => 0,
        PktType::MESSAGE => 66,
        PktType::CHANGEROOM => 2,
        PktType::FIGHT => 0,
        PktType::PVPFIGHT => 32,
        PktType::LOOT => 32,
        PktType::START => 0,
        PktType::ERROR => 3,
        PktType::ACCEPT => 1,
        PktType::ROOM => 36,
        PktType::CHARACTER => 47,
        PktType::GAME => 6,
        PktType::LEAVE => 0,
        PktType::CONNECTION => 36,
        PktType::VERSION => 4,
    }
}

/// For extended kinds, the pair of byte offsets within the fixed prefix
/// that hold the little-endian 16-bit length of the trailing part; `None`
/// for every other kind.
pub open spec fn spec_length_offsets(kind: PktType) -> Option<(int, int)> {
    match kind {
        PktType::MESSAGE => Option::Some((0int, 1int)),
        PktType::ERROR => Option::Some((1int, 2int)),
        PktType::ROOM => Option::Some((34int, 35int)),
        PktType::CHARACTER => Option::Some((45int, 46int)),
        PktType::GAME => Option::Some((4int, 5int)),
        PktType::CONNECTION => Option::Some((34int, 35int)),
        PktType::VERSION => Option::Some((2int, 3int)),
        _ => Option::None,
    }
}

/// The number of trailing bytes an extended kind's prefix announces: the
/// little-endian value at the kind's offset pair, and zero for kinds that
/// are not extended.
pub open spec fn spec_ext_len(kind: PktType, prefix: Seq<u8>) -> int {
    match spec_length_offsets(kind) {
        Option::Some(p) => spec_u16_from_le_bytes(prefix.subrange(p.0, p.0 + 2)) as int,
        Option::None => 0,
    }
}

/// The framing decision on a stream prefix: which failure receiving one
/// frame surfaces, or the resolved kind and the total frame length (tag
/// byte included) when the input holds a whole frame.
pub open spec fn spec_recv(input: Seq<u8>) -> Result<(PktType, int), RecvError> {
    if input.len() == 0 {
        Result::Err(RecvError::Closed)
    } else {
        let kind = PktType::spec_of_byte(input[0]);
        if kind == PktType::DEFAULT {
            Result::Err(RecvError::Unsupported)
        } else if input.len() < 1 + spec_fixed_len(kind) {
            Result::Err(RecvError::Truncated)
        } else {
            let total = 1 + spec_fixed_len(kind) + spec_ext_len(
                kind,
                input.subrange(1, 1 + spec_fixed_len(kind)),
            );
            if input.len() < total {
                Result::Err(RecvError::Truncated)
            } else {
                Result::Ok((kind, total))
            }
        }
    }
}

/// The number of body bytes in each kind's fixed part.
pub fn fixed_len(kind: PktType) -> (n: usize)
    ensures
        n == spec_fixed_len(kind),
        n <= 66,
{
    match kind {
        PktType::DEFAULT => 0,
        PktType::MESSAGE => 66,
        PktType::CHANGEROOM => 2,
        PktType::FIGHT => 0,
        PktType::PVPFIGHT => 32,
        PktType::LOOT => 32,
        PktType::START => 0,
        PktType::ERROR => 3,
        PktType::ACCEPT => 1,
        PktType::ROOM => 36,
        PktType::CHARACTER => 47,
        PktType::GAME => 6,
        PktType::LEAVE => 0,
        PktType::CONNECTION => 36,
        PktType::VERSION => 4,
    }
}

/// For extended kinds, the pair of byte offsets within the fixed prefix
/// that hold the length of the trailing part.
pub fn length_offsets(kind: PktType) -> (r: Option<(usize, usize)>)
    ensures
        (r is None) == (spec_length_offsets(kind) is None),
        r matches Option::Some(p) ==> {
            &&& spec_length_offsets(kind) == Option::Some((p.0 as int, p.1 as int))
            &&& p.1 == p.0 + 1
            &&& p.0 + 2 <= spec_fixed_len(kind)
        },
{
    match kind {
        PktType::MESSAGE => Option::Some((0usize, 1usize)),
        PktType::ERROR => Option::Some((1usize, 2usize)),
        PktType::ROOM => Option::Some((34usize, 35usize)),
        PktType::CHARACTER => Option::Some((45usize, 46usize)),
        PktType::GAME => Option::Some((4usize, 5usize)),
        PktType::CONNECTION => Option::Some((34usize, 35usize)),
        PktType::VERSION => Option::Some((2usize, 3usize)),
        _ => Option::None,
    }
}

impl Protocol {
    /// The kind of the payload this value carries.
    pub open spec fn spec_kind(self) -> PktType {
        match self {
            Protocol::Message(_) => PktType::MESSAGE,
            Protocol::ChangeRoom(_) => PktType::CHANGEROOM,
            Protocol::Fight(_) => PktType::FIGHT,
            Protocol::PVPFight(_) => PktType::PVPFIGHT,
            Protocol::Loot(_) => PktType::LOOT,
            Protocol::Start(_) => PktType::START,
            Protocol::Error(_) => PktType::ERROR,
            Protocol::Accept(_) => PktType::ACCEPT,
            Protocol::Room(_) => PktType::ROOM,
            Protocol::Character(_) => PktType::CHARACTER,
            Protocol::Game(_) => PktType::GAME,
            Protocol::Leave(_) => PktType::LEAVE,
            Protocol::Connection(_) => PktType::CONNECTION,
            Protocol::Version(_) => PktType::VERSION,
        }
    }

    /// The exact wire bytes of the whole frame this value encodes to.
    pub open spec fn spec_serialize(self) -> Seq<u8> {
        match self {
            Protocol::Message(p) => p.spec_serialize(),
            Protocol::ChangeRoom(p) => p.spec_serialize(),
            Protocol::Fight(p) => p.spec_serialize(),
            Protocol::PVPFight(p) => p.spec_serialize(),
            Protocol::Loot(p) => p.spec_serialize(),
            Protocol::Start(p) => p.spec_serialize(),
            Protocol::Error(p) => p.spec_serialize(),
            Protocol::Accept(p) => p.spec_serialize(),
            Protocol::Room(p) => p.spec_serialize(),
            Protocol::Character(p) => p.spec_serialize(),
            Protocol::Game(p) => p.spec_serialize(),
            Protocol::Leave(p) => p.spec_serialize(),
            Protocol::Connection(p) => p.spec_serialize(),
            Protocol::Version(p) => p.spec_serialize(),
        }
    }

    /// The value decodes from a frame of the given resolved kind and body:
    /// the variant matches the kind and its payload decodes from the body.
    pub open spec fn parsed_from(self, kind: PktType, body: Seq<u8>) -> bool {
        match self {
            Protocol::Message(p) => kind == PktType::MESSAGE && p.parsed_from(kind, body),
            Protocol::ChangeRoom(p) => kind == PktType::CHANGEROOM && p.parsed_from(kind, body),
            Protocol::Fight(p) => kind == PktType::FIGHT && p.parsed_from(kind, body),
            Protocol::PVPFight(p) => kind == PktType::PVPFIGHT && p.parsed_from(kind, body),
            Protocol::Loot(p) => kind == PktType::LOOT && p.parsed_from(kind, body),
            Protocol::Start(p) => kind == PktType::START && p.parsed_from(kind, body),
            Protocol::Error(p) => kind == PktType::ERROR && p.parsed_from(kind, body),
            Protocol::Accept(p) => kind == PktType::ACCEPT && p.parsed_from(kind, body),
            Protocol::Room(p) => kind == PktType::ROOM && p.parsed_from(kind, body),
            Protocol::Character(p) => kind == PktType::CHARACTER && p.parsed_from(kind, body),
            Protocol::Game(p) => kind == PktType::GAME && p.parsed_from(kind, body),
            Protocol::Leave(p) => kind == PktType::LEAVE && p.parsed_from(kind, body),
            Protocol::Connection(p) => kind == PktType::CONNECTION && p.parsed_from(kind, body),
            Protocol::Version(p) => kind == PktType::VERSION && p.parsed_from(kind, body),
        }
    }

    /// The values a conformant sender produces: the payload is well formed
    /// for its kind.
    pub open spec fn wf(self) -> bool {
        match self {
            Protocol::Message(p) => p.wf(),
            Protocol::ChangeRoom(p) => p.wf(),
            Protocol::Fight(p) => p.wf(),
            Protocol::PVPFight(p) => p.wf(),
            Protocol::Loot(p) => p.wf(),
            Protocol::Start(p) => p.wf(),
            Protocol::Error(p) => p.wf(),
            Protocol::Accept(p) => p.wf(),
            Protocol::Room(p) => p.wf(),
            Protocol::Character(p) => p.wf(),
            Protocol::Game(p) => p.wf(),
            Protocol::Leave(p) => p.wf(),
            Protocol::Connection(p) => p.wf(),
            Protocol::Version(p) => p.wf(),
        }
    }

    /// Two protocol values agree when they carry the same variant and
    /// their payloads agree field by field, text compared by its
    /// characters.
    pub open spec fn agrees(self, other: Protocol) -> bool {
        match (self, other) {
            (Protocol::Message(a), Protocol::Message(b)) => a.agrees(b),
            (Protocol::ChangeRoom(a), Protocol::ChangeRoom(b)) => a.agrees(b),
            (Protocol::Fight(a), Protocol::Fight(b)) => a.agrees(b),
            (Protocol::PVPFight(a), Protocol::PVPFight(b)) => a.agrees(b),
            (Protocol::Loot(a), Protocol::Loot(b)) => a.agrees(b),
            (Protocol::Start(a), Protocol::Start(b)) => a.agrees(b),
            (Protocol::Error(a), Protocol::Error(b)) => a.agrees(b),
            (Protocol::Accept(a), Protocol::Accept(b)) => a.agrees(b),
            (Protocol::Room(a), Protocol::Room(b)) => a.agrees(b),
            (Protocol::Character(a), Protocol::Character(b)) => a.agrees(b),
            (Protocol::Game(a), Protocol::Game(b)) => a.agrees(b),
            (Protocol::Leave(a), Protocol::Leave(b)) => a.agrees(b),
            (Protocol::Connection(a), Protocol::Connection(b)) => a.agrees(b),
            (Protocol::Version(a), Protocol::Version(b)) => a.agrees(b),
            _ => false,
        }
    }

    /// Serializes the whole frame into a fresh in-memory buffer: encoding
    /// happens fully before any byte can reach the wire, so a transport
    /// failure can never leave a partial frame behind.
    pub fn encode(self) -> (r: Vec<u8>)
        ensures
            r@ == self.spec_serialize(),
    {
        let mut buffer: Vec<u8> = Vec::new();
        match self {
            Protocol::Message(p) => p.serialize(&mut buffer),
            Protocol::ChangeRoom(p) => p.serialize(&mut buffer),
            Protocol::Fight(p) => p.serialize(&mut buffer),
            Protocol::PVPFight(p) => p.serialize(&mut buffer),
            Protocol::Loot(p) => p.serialize(&mut buffer),
            Protocol::Start(p) => p.serialize(&mut buffer),
            Protocol::Error(p) => p.serialize(&mut buffer),
            Protocol::Accept(p) => p.serialize(&mut buffer),
            Protocol::Room(p) => p.serialize(&mut buffer),
            Protocol::Character(p) => p.serialize(&mut buffer),
            Protocol::Game(p) => p.serialize(&mut buffer),
            Protocol::Leave(p) => p.serialize(&mut buffer),
            Protocol::Connection(p) => p.serialize(&mut buffer),
            Protocol::Version(p) => p.serialize(&mut buffer),
        }
        buffer
    }

    /// Reads one frame off the front of `input`, following the two-phase
    /// algorithm: resolve the tag byte, reject the sentinel kind, take the
    /// kind's fixed part, then for extended kinds take the trailing bytes
    /// the prefix announces; decode the assembled body with the kind's
    /// codec.  Returns the decoded value and the number of bytes consumed,
    /// or the failure [`spec_recv`] assigns to this input — never a
    /// partially populated payload.
    pub fn parse(input: &[u8]) -> (r: Result<(Protocol, usize), RecvError>)
        ensures
            match spec_recv(input@) {
                Result::Err(e) => r == Result::Err::<(Protocol, usize), RecvError>(e),
                Result::Ok(kt) => {
                    &&& r is Ok
                    &&& (r matches Result::Ok(pc) ==> {
                        &&& pc.1 as int == kt.1
                        &&& pc.0.parsed_from(kt.0, input@.subrange(1, kt.1))
                    })
                },
            },
    {
        if input.len() == 0 {
            return Result::Err(RecvError::Closed);
        }
        let kind = PktType::from(input[0]);
        if kind == PktType::DEFAULT {
            return Result::Err(RecvError::Unsupported);
        }
        let fixed = fixed_len(kind);
        if input.len() - 1 < fixed {
            return Result::Err(RecvError::Truncated);
        }
        let ext: usize = match length_offsets(kind) {
            Option::Some(pair) => {
                let value = read_u16_le(input, 1 + pair.0);
                proof {
                    assert(input@.subrange(1 + pair.0 as int, 1 + pair.0 as int + 2) =~= input@.subrange(
                        1,
                        1 + spec_fixed_len(kind),
                    ).subrange(pair.0 as int, pair.0 as int + 2));
                }
                value as usize
            },
            Option::None => 0,
        };
        let total: usize = 1 + fixed + ext;
        if input.len() < total {
            return Result::Err(RecvError::Truncated);
        }
        let body = slice_to_vec(&input[1..total]);
        let packet = Packet::new(kind, body);
        let value = match kind {
            PktType::MESSAGE => Protocol::Message(PktMessage::deserialize(packet)),
            PktType::CHANGEROOM => Protocol::ChangeRoom(PktChangeRoom::deserialize(packet)),
            PktType::FIGHT => Protocol::Fight(PktFight::deserialize(packet)),
            PktType::PVPFIGHT => Protocol::PVPFight(PktPVPFight::deserialize(packet)),
            PktType::LOOT => Protocol::Loot(PktLoot::deserialize(packet)),
            PktType::START => Protocol::Start(PktStart::deserialize(packet)),
            PktType::ERROR => Protocol::Error(PktError::deserialize(packet)),
            PktType::ACCEPT => Protocol::Accept(PktAccept::deserialize(packet)),
            PktType::ROOM => Protocol::Room(PktRoom::deserialize(packet)),
            PktType::CHARACTER => Protocol::Character(PktCharacter::deserialize(packet)),
            PktType::GAME => Protocol::Game(PktGame::deserialize(packet)),
            PktType::LEAVE => Protocol::Leave(PktLeave::deserialize(packet)),
            PktType::CONNECTION => Protocol::Connection(PktConnection::deserialize(packet)),
            PktType::VERSION => Protocol::Version(PktVersion::deserialize(packet)),
            PktType::DEFAULT => {
                return Result::Err(RecvError::Unsupported);
            },
        };
        Result::Ok((value, total))
    }

    /// Framing coherence: on the encoded bytes of any well-formed value,
    /// the two-phase framing resolves the value's own kind and consumes
    /// exactly the whole frame — the embedded length announces precisely
    /// the trailing bytes the encoder emitted.
    pub proof fn lemma_recv_of_serialize(self)
        requires
            self.wf(),
        ensures
            spec_recv(self.spec_serialize()) == Result::Ok::<(PktType, int), RecvError>(
                (self.spec_kind(), self.spec_serialize().len() as int),
            ),
    {
        vstd::bytes::lemma_auto_spec_u16_to_from_le_bytes();
        let bytes = self.spec_serialize();
        let kind = self.spec_kind();
        match self {
            Protocol::Message(p) => {
                crate::codec::lemma_pad_or_trim_len(
                    vstd::utf8::encode_utf8(p.recipient@),
                    32,
                );
                crate::codec::lemma_pad_or_trim_len(
                    vstd::utf8::encode_utf8(p.sender@),
                    if p.narration {
                        30nat
                    } else {
                        32nat
                    },
                );
                assert(p.spec_sender_field().len() == 32);
                let tail = vstd::utf8::encode_utf8(p.message@);
                assert(bytes.len() == 67 + tail.len());
                let prefix = bytes.subrange(1, 67);
                assert(prefix.subrange(0, 2) =~= vstd::bytes::spec_u16_to_le_bytes(
                    p.message_len,
                ));
                assert(spec_ext_len(kind, prefix) == tail.len());
            },
            Protocol::ChangeRoom(p) => {
                assert(bytes.len() == 3);
            },
            Protocol::Fight(p) => {
                assert(bytes.len() == 1);
            },
            Protocol::PVPFight(p) => {
                crate::codec::lemma_pad_or_trim_len(
                    vstd::utf8::encode_utf8(p.target_name@),
                    32,
                );
                assert(bytes.len() == 33);
            },
            Protocol::Loot(p) => {
                crate::codec::lemma_pad_or_trim_len(
                    vstd::utf8::encode_utf8(p.target_name@),
                    32,
                );
                assert(bytes.len() == 33);
            },
            Protocol::Start(p) => {
                assert(bytes.len() == 1);
            },
            Protocol::Error(p) => {
                let tail = vstd::utf8::encode_utf8(p.message@);
                assert(bytes.len() == 4 + tail.len());
                let prefix = bytes.subrange(1, 4);
                assert(prefix.subrange(1, 3) =~= vstd::bytes::spec_u16_to_le_bytes(
                    p.message_len,
                ));
                assert(spec_ext_len(kind, prefix) == tail.len());
            },
            Protocol::Accept(p) => {
                assert(bytes.len() == 2);
            },
            Protocol::Room(p) => {
                crate::codec::lemma_pad_or_trim_len(
                    vstd::utf8::encode_utf8(p.room_name@),
                    32,
                );
                let tail = vstd::utf8::encode_utf8(p.description@);
                assert(bytes.len() == 37 + tail.len());
                let prefix = bytes.subrange(1, 37);
                assert(prefix.subrange(34, 36) =~= vstd::bytes::spec_u16_to_le_bytes(
                    p.description_len,
                ));
                assert(spec_ext_len(kind, prefix) == tail.len());
            },
            Protocol::Character(p) => {
                crate::codec::lemma_pad_or_trim_len(vstd::utf8::encode_utf8(p.name@), 32);
                let tail = vstd::utf8::encode_utf8(p.description@);
                assert(bytes.len() == 48 + tail.len());
                let prefix = bytes.subrange(1, 48);
                assert(prefix.subrange(45, 47) =~= vstd::bytes::spec_u16_to_le_bytes(
                    p.description_len,
                ));
                assert(spec_ext_len(kind, prefix) == tail.len());
            },
            Protocol::Game(p) => {
                let tail = vstd::utf8::encode_utf8(p.description@);
                assert(bytes.len() == 7 + tail.len());
                let prefix = bytes.subrange(1, 7);
                assert(prefix.subrange(4, 6) =~= vstd::bytes::spec_u16_to_le_bytes(
                    p.description_len,
                ));
                assert(spec_ext_len(kind, prefix) == tail.len());
            },
            Protocol::Leave(p) => {
                assert(bytes.len() == 1);
            },
            Protocol::Connection(p) => {
                crate::codec::lemma_pad_or_trim_len(
                    vstd::utf8::encode_utf8(p.room_name@),
                    32,
                );
                let tail = vstd::utf8::encode_utf8(p.description@);
                assert(bytes.len() == 37 + tail.len());
                let prefix = bytes.subrange(1, 37);
                assert(prefix.subrange(34, 36) =~= vstd::bytes::spec_u16_to_le_bytes(
                    p.description_len,
                ));
                assert(spec_ext_len(kind, prefix) == tail.len());
            },
            Protocol::Version(p) => {
                assert(bytes.len() == 5);
                let prefix = bytes.subrange(1, 5);
                assert(prefix.subrange(2, 4) =~= vstd::bytes::spec_u16_to_le_bytes(
                    p.extension_len,
                ));
                assert(spec_ext_len(kind, prefix) == 0);
            },
        }
    }

    /// Round trip: decoding the frame built from the encoded bytes of any
    /// well-formed value yields a value that agrees with it, variant and
    /// every field alike.
    pub proof fn lemma_round_trip(self, other: Protocol)
        requires
            self.wf(),
            other.parsed_from(self.spec_kind(), self.spec_serialize().drop_first()),
        ensures
            other.agrees(self),
    {
        match self {
            Protocol::Message(p) => {
                if let Protocol::Message(q) = other {
                    p.lemma_round_trip(q);
                }
            },
            Protocol::ChangeRoom(p) => {
                if let Protocol::ChangeRoom(q) = other {
                    p.lemma_round_trip(q);
                }
            },
            Protocol::Fight(p) => {
                if let Protocol::Fight(q) = other {
                    p.lemma_round_trip(q);
                }
            },
            Protocol::PVPFight(p) => {
                if let Protocol::PVPFight(q) = other {
                    p.lemma_round_trip(q);
                }
            },
            Protocol::Loot(p) => {
                if let Protocol::Loot(q) = other {
                    p.lemma_round_trip(q);
                }
            },
            Protocol::Start(p) => {
                if let Protocol::Start(q) = other {
                    p.lemma_round_trip(q);
                }
            },
            Protocol::Error(p) => {
                if let Protocol::Error(q) = other {
                    p.lemma_round_trip(q);
                }
            },
            Protocol::Accept(p) => {
                if let Protocol::Accept(q) = other {
                    p.lemma_round_trip(q);
                }
            },
            Protocol::Room(p) => {
                if let Protocol::Room(q) = other {
                    p.lemma_round_trip(q);
                }
            },
            Protocol::Character(p) => {
                if let Protocol::Character(q) = other {
                    p.lemma_round_trip(q);
                }
            },
            Protocol::Game(p) => {
                if let Protocol::Game(q) = other {
                    p.lemma_round_trip(q);
                }
            },
            Protocol::Leave(p) => {
                if let Protocol::Leave(q) = other {
                    p.lemma_round_trip(q);
                }
            },
            Protocol::Connection(p) => {
                if let Protocol::Connection(q) = other {
                    p.lemma_round_trip(q);
                }
            },
            Protocol::Version(p) => {
                if let Protocol::Version(q) = other {
                    p.lemma_round_trip(q);
                }
            },
        }
    }
}

} // verus!

