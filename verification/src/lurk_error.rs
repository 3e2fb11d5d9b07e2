use vstd::prelude::*;

verus! {

/// The error conditions a server can report in an error packet, each
/// identified by a one-byte code.  Byte values outside the defined range
/// resolve to the [`LurkError::OTHER`] sentinel rather than failing.
#[derive(Clone, Copy, Debug, Hash, PartialEq, Eq, Structural)]
pub enum LurkError {
    /// Any error not covered by a more specific code.
    OTHER,
    /// An inappropriate room was requested.
    BADROOM,
    /// A player with the requested name already exists.
    PLAYEREXISTS,
    /// An inappropriate monster was referenced.
    BADMONSTER,
    /// The proposed character stats violate the server's limits.
    STATERROR,
    /// The player is not ready for the requested action.
    NOTREADY,
    /// The requested target does not exist.
    NOTARGET,
    /// There is no fight to act on.
    NOFIGHT,
    /// The server does not support player-versus-player combat.
    NOPLAYERCOMBAT,
}

impl LurkError {
    /// The one-byte code that identifies this error on the wire.
    pub open spec fn spec_byte(self) -> u8 {
        match self {
            LurkError::OTHER => 0,
            LurkError::BADROOM => 1,
            LurkError::PLAYEREXISTS => 2,
            LurkError::BADMONSTER => 3,
            LurkError::STATERROR => 4,
            LurkError::NOTREADY => 5,
            LurkError::NOTARGET => 6,
            LurkError::NOFIGHT => 7,
            LurkError::NOPLAYERCOMBAT => 8,
        }
    }

    /// The error a code byte resolves to; every byte above 8 resolves to the
    /// [`LurkError::OTHER`] sentinel.
    pub open spec fn spec_of_byte(b: u8) -> LurkError {
        if b == 1 {
            LurkError::BADROOM
        } else if b == 2 {
            LurkError::PLAYEREXISTS
        } else if b == 3 {
            LurkError::BADMONSTER
        } else if b == 4 {
            LurkError::STATERROR
        } else if b == 5 {
            LurkError::NOTREADY
        } else if b == 6 {
            LurkError::NOTARGET
        } else if b == 7 {
            LurkError::NOFIGHT
        } else if b == 8 {
            LurkError::NOPLAYERCOMBAT
        } else {
            LurkError::OTHER
        }
    }

    /// A fixed human-readable name for this error, used only for diagnostics.
    pub fn name(&self) -> (r: &'static str)
        ensures
            r@ == self.spec_name(),
    {
        match self {
            LurkError::OTHER => "Other",
            LurkError::BADROOM => "BadRoom",
            LurkError::PLAYEREXISTS => "PlayerExists",
            LurkError::BADMONSTER => "BadMonster",
            LurkError::STATERROR => "StatError",
            LurkError::NOTREADY => "NotReady",
            LurkError::NOTARGET => "NoTarget",
            LurkError::NOFIGHT => "NoFight",
            LurkError::NOPLAYERCOMBAT => "NoPlayerCombat",
        }
    }

    /// The name [`LurkError::name`] returns for each error.
    pub open spec fn spec_name(self) -> Seq<char> {
        match self {
            LurkError::OTHER => "Other"@,
            LurkError::BADROOM => "BadRoom"@,
            LurkError::PLAYEREXISTS => "PlayerExists"@,
            LurkError::BADMONSTER => "BadMonster"@,
            LurkError::STATERROR => "StatError"@,
            LurkError::NOTREADY => "NotReady"@,
            LurkError::NOTARGET => "NoTarget"@,
            LurkError::NOFIGHT => "NoFight"@,
            LurkError::NOPLAYERCOMBAT => "NoPlayerCombat"@,
        }
    }
}

impl From<LurkError> for u8 {
    /// Converts an error into its code byte: a total, lossless, trivial cast.
    fn from(val: LurkError) -> (r: u8)
        ensures
            r == val.spec_byte(),
    {
        match val {
            LurkError::OTHER => 0,
            LurkError::BADROOM => 1,
            LurkError::PLAYEREXISTS => 2,
            LurkError::BADMONSTER => 3,
            LurkError::STATERROR => 4,
            LurkError::NOTREADY => 5,
            LurkError::NOTARGET => 6,
            LurkError::NOFIGHT => 7,
            LurkError::NOPLAYERCOMBAT => 8,
        }
    }
}

impl vstd::std_specs::convert::FromSpecImpl<LurkError> for u8 {
    open spec fn obeys_from_spec() -> bool {
        true
    }

    open spec fn from_spec(val: LurkError) -> u8 {
        val.spec_byte()
    }
}

impl From<u8> for LurkError {
    /// Resolves a code byte to its error; unmapped values yield the sentinel,
    /// so resolution never fails.
    fn from(value: u8) -> (r: LurkError)
        ensures
            r == LurkError::spec_of_byte(value),
    {
        match value {
            0 => LurkError::OTHER,
            1 => LurkError::BADROOM,
            2 => LurkError::PLAYEREXISTS,
            3 => LurkError::BADMONSTER,
            4 => LurkError::STATERROR,
            5 => LurkError::NOTREADY,
            6 => LurkError::NOTARGET,
            7 => LurkError::NOFIGHT,
            8 => LurkError::NOPLAYERCOMBAT,
            _ => LurkError::OTHER,
        }
    }
}

impl vstd::std_specs::convert::FromSpecImpl<u8> for LurkError {
    open spec fn obeys_from_spec() -> bool {
        true
    }

    open spec fn from_spec(value: u8) -> LurkError {
        LurkError::spec_of_byte(value)
    }
}

/// The code byte of each error resolves back to that error, for every error;
/// and every byte outside the defined range resolves to the sentinel.
pub proof fn lemma_lurk_error_byte_round_trip(e: LurkError, b: u8)
    ensures
        LurkError::spec_of_byte(e.spec_byte()) == e,
        b > 8 ==> LurkError::spec_of_byte(b) == LurkError::OTHER,
{
}

} // verus!
