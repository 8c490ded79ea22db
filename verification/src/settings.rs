//! The shape of the acceleration driver's settings block, as far as the
//! logic needs it. The full block the device takes is floating-point heavy
//! and lives in the platform layer; these are the plain building blocks it
//! shares.

use vstd::prelude::*;

verus! {

/// A per-axis pair: the driver takes most parameters once for each of the
/// two pointer axes.
#[derive(Debug, Copy, Clone, PartialEq, Eq, Structural)]
pub struct Vec2<T> {
    pub x: T,
    pub y: T,
}

impl<T> Vec2<T> {
    /// A pair from two per-axis values.
    pub fn new(x: T, y: T) -> (v: Vec2<T>)
        ensures
            v.x == x,
            v.y == y,
    {
        Vec2 { x, y }
    }

    /// A pair holding the same value for both axes.
    pub fn both(val: T) -> (v: Vec2<T>)
        where T: Copy
        ensures
            v.x == val,
            v.y == val,
    {
        Vec2::new(val, val)
    }
}

/// The driver's acceleration curve families. The sensitivity scaling here
/// always runs with acceleration off.
#[derive(Debug, Copy, Clone, PartialEq, Eq, Structural)]
pub enum AccelMode {
    Linear,
    Classic,
    Natural,
    NaturalGain,
    Power,
    Motivity,
    NoAccel,
}

} // verus!
