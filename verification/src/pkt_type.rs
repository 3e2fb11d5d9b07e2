use vstd::prelude::*;

verus! {

/// The kinds of packet exchanged over the wire, each identified by a one-byte
/// tag.  Byte values outside the defined range resolve to the
/// [`PktType::DEFAULT`] sentinel rather than failing.
#[derive(Clone, Copy, Debug, Hash, PartialEq, Eq, Structural)]
pub enum PktType {
    /// The sentinel kind, used as a fallback for unrecognized tag bytes.
    DEFAULT,
    /// A message exchanged between players, or presentable server text.
    MESSAGE,
    /// A request to change rooms.
    CHANGEROOM,
    /// A request to fight the monsters in the current room.
    FIGHT,
    /// A player-versus-player fight request.
    PVPFIGHT,
    /// A request to loot a target.
    LOOT,
    /// A request to start playing.
    START,
    /// An error notification.
    ERROR,
    /// An acknowledgement of an accepted action.
    ACCEPT,
    /// A description of a room.
    ROOM,
    /// A description of a character.
    CHARACTER,
    /// A description of the game.
    GAME,
    /// A graceful leave notification.
    LEAVE,
    /// A description of a room connected to the current one.
    CONNECTION,
    /// The server's protocol version.
    VERSION,
}

impl PktType {
    /// The tag byte that identifies this kind on the wire.
    pub open spec fn spec_byte(self) -> u8 {
        match self {
            PktType::DEFAULT => 0,
            PktType::MESSAGE => 1,
            PktType::CHANGEROOM => 2,
            PktType::FIGHT => 3,
            PktType::PVPFIGHT => 4,
            PktType::LOOT => 5,
            PktType::START => 6,
            PktType::ERROR => 7,
            PktType::ACCEPT => 8,
            PktType::ROOM => 9,
            PktType::CHARACTER => 10,
            PktType::GAME => 11,
            PktType::LEAVE => 12,
            PktType::CONNECTION => 13,
            PktType::VERSION => 14,
        }
    }

    /// The kind a tag byte resolves to; every byte above 14 resolves to the
    /// [`PktType::DEFAULT`] sentinel.
    pub open spec fn spec_of_byte(b: u8) -> PktType {
        if b == 1 {
            PktType::MESSAGE
        } else if b == 2 {
            PktType::CHANGEROOM
        } else if b == 3 {
            PktType::FIGHT
        } else if b == 4 {
            PktType::PVPFIGHT
        } else if b == 5 {
            PktType::LOOT
        } else if b == 6 {
            PktType::START
        } else if b == 7 {
            PktType::ERROR
        } else if b == 8 {
            PktType::ACCEPT
        } else if b == 9 {
            PktType::ROOM
        } else if b == 10 {
            PktType::CHARACTER
        } else if b == 11 {
            PktType::GAME
        } else if b == 12 {
            PktType::LEAVE
        } else if b == 13 {
            PktType::CONNECTION
        } else if b == 14 {
            PktType::VERSION
        } else {
            PktType::DEFAULT
        }
    }

    /// A fixed human-readable name for this kind, used only for diagnostics.
    pub fn name(&self) -> (r: &'static str)
        ensures
            r@ == self.spec_name(),
    {
        match self {
            PktType::DEFAULT => "Default",
            PktType::MESSAGE => "Message",
            PktType::CHANGEROOM => "ChangeRoom",
            PktType::FIGHT => "Fight",
            PktType::PVPFIGHT => "PVPFight",
            PktType::LOOT => "Loot",
            PktType::START => "Start",
            PktType::ERROR => "Error",
            PktType::ACCEPT => "Accept",
            PktType::ROOM => "Room",
            PktType::CHARACTER => "Character",
            PktType::GAME => "Game",
            PktType::LEAVE => "Leave",
            PktType::CONNECTION => "Connection",
            PktType::VERSION => "Version",
        }
    }

    /// The name [`PktType::name`] returns for each kind.
    pub open spec fn spec_name(self) -> Seq<char> {
        match self {
            PktType::DEFAULT => "Default"@,
            PktType::MESSAGE => "Message"@,
            PktType::CHANGEROOM => "ChangeRoom"@,
            PktType::FIGHT => "Fight"@,
            PktType::PVPFIGHT => "PVPFight"@,
            PktType::LOOT => "Loot"@,
            PktType::START => "Start"@,
            PktType::ERROR => "Error"@,
            PktType::ACCEPT => "Accept"@,
            PktType::ROOM => "Room"@,
            PktType::CHARACTER => "Character"@,
            PktType::GAME => "Game"@,
            PktType::LEAVE => "Leave"@,
            PktType::CONNECTION => "Connection"@,
            PktType::VERSION => "Version"@,
        }
    }
}

impl From<PktType> for u8 {
    /// Converts a kind into its tag byte: a total, lossless, trivial cast.
    fn from(val: PktType) -> (r: u8)
        ensures
            r == val.spec_byte(),
    {
        match val {
            PktType::DEFAULT => 0,
            PktType::MESSAGE => 1,
            PktType::CHANGEROOM => 2,
            PktType::FIGHT => 3,
            PktType::PVPFIGHT => 4,
            PktType::LOOT => 5,
            PktType::START => 6,
            PktType::ERROR => 7,
            PktType::ACCEPT => 8,
            PktType::ROOM => 9,
            PktType::CHARACTER => 10,
            PktType::GAME => 11,
            PktType::LEAVE => 12,
            PktType::CONNECTION => 13,
            PktType::VERSION => 14,
        }
    }
}

impl vstd::std_specs::convert::FromSpecImpl<PktType> for u8 {
    open spec fn obeys_from_spec() -> bool {
        true
    }

    open spec fn from_spec(val: PktType) -> u8 {
        val.spec_byte()
    }
}

impl From<u8> for PktType {
    /// Resolves a tag byte to its kind; unmapped values yield the sentinel,
    /// so resolution never fails.
    fn from(value: u8) -> (r: PktType)
        ensures
            r == PktType::spec_of_byte(value),
    {
        match value {
            0 => PktType::DEFAULT,
            1 => PktType::MESSAGE,
            2 => PktType::CHANGEROOM,
            3 => PktType::FIGHT,
            4 => PktType::PVPFIGHT,
            5 => PktType::LOOT,
            6 => PktType::START,
            7 => PktType::ERROR,
            8 => PktType::ACCEPT,
            9 => PktType::ROOM,
            10 => PktType::CHARACTER,
            11 => PktType::GAME,
            12 => PktType::LEAVE,
            13 => PktType::CONNECTION,
            14 => PktType::VERSION,
            _ => PktType::DEFAULT,
        }
    }
}

impl vstd::std_specs::convert::FromSpecImpl<u8> for PktType {
    open spec fn obeys_from_spec() -> bool {
        true
    }

    open spec fn from_spec(value: u8) -> PktType {
        PktType::spec_of_byte(value)
    }
}

/// The tag byte of each kind resolves back to that kind, for every kind; and
/// every byte outside the defined range resolves to the sentinel.
pub proof fn lemma_pkt_type_byte_round_trip(k: PktType, b: u8)
    ensures
        PktType::spec_of_byte(k.spec_byte()) == k,
        b > 14 ==> PktType::spec_of_byte(b) == PktType::DEFAULT,
{
}

} // verus!
