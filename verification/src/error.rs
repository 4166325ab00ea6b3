//! The errors the simulation reports.

use vstd::prelude::*;

verus! {

/// Why an operation was refused. A refused operation changes nothing.
#[derive(Debug, Clone, Copy, PartialEq, Eq, Structural)]
pub enum GameError {
    /// Homeworlds were asked for a number of players other than two.
    InvalidPlayerCount,
    /// A transfer asked for more ships of a class than the fleet holds.
    InsufficientShips,
    /// A solar system id is not on the map.
    UnknownSystem,
}

impl GameError {
    /// What `message` says of each error.
    pub open spec fn text(self) -> Seq<char> {
        match self {
            GameError::InvalidPlayerCount => "Only two players are possible now!"@,
            GameError::InsufficientShips => "There are no enough ships"@,
            GameError::UnknownSystem => "There is no such solar system"@,
        }
    }

    /// The error in words.
    pub fn message(&self) -> (words: &'static str)
        ensures
            words@ == self.text(),
    {
        match self {
            GameError::InvalidPlayerCount => "Only two players are possible now!",
            GameError::InsufficientShips => "There are no enough ships",
            GameError::UnknownSystem => "There is no such solar system",
        }
    }
}

} // verus!
