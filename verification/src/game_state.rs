//! The game's running state.

use vstd::prelude::*;

verus! {

/// `Playing` is the initial state; `GameOver` is terminal. The only
/// transition is `Playing` to `GameOver`, taken at the instant a
/// player-enemy collision empties the life counter.
#[derive(Clone, Copy, PartialEq, Eq, Structural, Debug)]
pub enum GameState {
    Playing,
    GameOver,
}

} // verus!
