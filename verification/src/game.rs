//! The two games that the editor supports.

use vstd::prelude::*;

verus! {

/// A supported game.
#[derive(Clone, Copy, Debug, PartialEq, Eq, Hash, Structural)]
pub enum Game {
    Crusaders,
    Heroes,
}

impl Default for Game {
    /// Crusaders is the game that a fresh installation starts with.
    fn default() -> (game: Self)
        ensures
            game == Game::Crusaders,
    {
        Game::Crusaders
    }
}

} // verus!
