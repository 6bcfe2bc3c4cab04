//! The kinds of command.

use vstd::prelude::*;

verus! {

/// Whether a command acts on the game or on the challenge being played.
#[derive(Debug, Clone, Copy, PartialEq, Eq, Hash, Structural)]
pub enum CommandType {
    Game,
    Challenge,
}

} // verus!
