//! The top-level scene the program is showing.

use vstd::prelude::*;

verus! {

#[derive(Clone, Copy, PartialEq, Eq, Structural, Debug)]
pub enum GameState {
    Menu,
    Playing,
    Paused,
    GameOver,
    LevelUp,
}

} // verus!
