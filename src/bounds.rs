use vstd::prelude::*;

verus! {

/// Where one coordinate of the ship lies against the screen's extent on that
/// axis, from 0 to the screen's size.
#[derive(Clone, Copy, Debug, PartialEq, Eq, Structural)]
pub enum Side {
    /// Below 0.
    Before,
    /// From 0 to the size, both ends included (or not comparable to them).
    Within,
    /// Above the size.
    Past,
}

/// What becomes of a coordinate when the ship is kept on the screen.
#[derive(Clone, Copy, Debug, PartialEq, Eq, Structural)]
pub enum Wrap {
    /// It stays as it is.
    Stay,
    /// It is set to the far edge, the screen's size.
    ToFarEdge,
    /// It is set to 0.
    ToZero,
}

/// The screen wraps around: leaving past one edge brings the ship back in at
/// the opposite edge, and on the screen it stays where it is.
pub open spec fn wrap_rule(side: Side) -> Wrap {
    match side {
        Side::Before => Wrap::ToFarEdge,
        Side::Within => Wrap::Stay,
        Side::Past => Wrap::ToZero,
    }
}

/// Decides what becomes of one coordinate of the ship, given where it lies.
pub fn wrap(side: Side) -> (r: Wrap)
    ensures
        r == wrap_rule(side),
{
    match side {
        Side::Before => Wrap::ToFarEdge,
        Side::Within => Wrap::Stay,
        Side::Past => Wrap::ToZero,
    }
}

} // verus!
