use vstd::prelude::*;

use crate::game::players::Player;

verus! {

/// How a sitting of the game is run.
#[derive(Debug)]
pub enum Mode {
    /// One player at the controls.
    OnePlayer(Player),
    /// A training run for the computer player.
    TrainAi(Player),
}

} // verus!
