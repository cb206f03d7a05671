//! Where the status box of a fighter sits on the battle screen.

use vstd::prelude::*;

verus! {

/// The side of the screen: opponents at the top, the player at the bottom.
#[derive(Debug, Clone, Copy, PartialEq, Eq, Structural)]
pub enum BattleGuiPosition {
    Top,
    Bottom,
}

impl Default for BattleGuiPosition {
    fn default() -> (position: BattleGuiPosition)
        ensures
            position == BattleGuiPosition::Top,
    {
        BattleGuiPosition::Top
    }
}

/// A place on one side: the `index`-th of `size` fighters there.
#[derive(Debug, Clone, Copy, PartialEq, Eq, Structural)]
pub struct BattleGuiPositionIndex {
    pub position: BattleGuiPosition,
    pub index: u8,
    pub size: u8,
}

impl BattleGuiPositionIndex {
    pub fn new(position: BattleGuiPosition, index: u8, size: u8) -> (place: BattleGuiPositionIndex)
        ensures
            place == (BattleGuiPositionIndex { position, index, size }),
    {
        BattleGuiPositionIndex { position, index, size }
    }
}

} // verus!
