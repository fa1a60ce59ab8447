use vstd::prelude::*;

verus! {

/// Direction in which the desk is moving, or `Rest` when it stands still.
#[derive(Debug, PartialEq, Eq, Structural, Clone, Copy)]
pub enum TableMotion {
    Up,
    Down,
    Rest,
}

/// Classification of one distance reading against the current motion and target.
#[derive(Debug, PartialEq, Eq, Structural, Clone, Copy)]
pub enum Interaction {
    NoInteraction,
    CloseObject,
    TargetMet,
    TargetExceeded,
}

} // verus!
