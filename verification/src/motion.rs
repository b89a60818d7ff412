use vstd::prelude::*;

verus! {

/// The sign of a horizontal quantity: left of zero, zero, or right of zero.
#[derive(Clone, Copy, Debug, PartialEq, Eq, Structural)]
pub enum Sign {
    Negative,
    Zero,
    Positive,
}

/// The sprite animation a character should be playing.
#[derive(Clone, Copy, Debug, PartialEq, Eq, Structural)]
pub enum Anim {
    Idle,
    Walk,
}

} // verus!
