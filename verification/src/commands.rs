//! Operator console actions: the typed value a command line is turned
//! into before it is routed alongside the protocol traffic.

use vstd::prelude::*;

verus! {

/// An operator action parsed from a console command line: its kind, the
/// whitespace-separated tokens, and their count.
pub struct Action {
    /// The kind of action the first token names.
    pub kind: ActionKind,
    /// The tokens of the command line, the command word first.
    pub argv: Vec<String>,
    /// The number of tokens in `argv`.
    pub argc: usize,
}

/// The kinds of operator action a console command can name.
pub enum ActionKind {
    /// Show the available commands.
    HELP,
    /// Send a message to every connected player.
    BROADCAST,
    /// Send a message to one player.
    MESSAGE,
    /// Remove every monster from the game.
    NUKE,
    /// Any command word not recognized above.
    OTHER,
}

} // verus!
