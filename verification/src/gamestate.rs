//! The top-level states the session moves through.
use vstd::prelude::*;

verus! {

/// Which screen the session is on: the running game, a pause, the menu,
/// the two end screens, or the blend between levels.
#[derive(Clone, Copy, PartialEq, Eq, Structural, Debug)]
pub enum GameState {
    GameRunning,
    GamePaused,
    MainMenu,
    GameOver,
    LevelCompleted,
    Transition,
}

} // verus!
