//! A validated pair of creature levels.

use vstd::prelude::*;

verus! {

/// Lowest level a creature can have. Level 0 and the single negative
/// sub-level are real levels; nothing weaker exists.
pub const MIN_LEVEL: i32 = -1;

/// Highest level a creature can have.
pub const MAX_LEVEL: i32 = 24;

/// How many levels there are, and thus how many rows a table has.
pub const NUM_LEVELS: usize = 26;

/// The level a statistic is valid at and the level to rescale it to.
/// Construction validates both; the pair is read-only afterwards.
#[derive(Clone, Copy, Debug, PartialEq, Eq, Structural)]
pub struct Levels {
    pub current: i32,
    pub target: i32,
}

impl Levels {
    /// Whether a single level lies in the supported range.
    pub open spec fn spec_is_valid(level: i32) -> bool {
        MIN_LEVEL <= level <= MAX_LEVEL
    }

    fn is_valid(level: i32) -> (r: bool)
        ensures
            r == Levels::spec_is_valid(level),
    {
        MIN_LEVEL <= level && level <= MAX_LEVEL
    }

    /// Validates both levels; yields no value when either is out of range.
    pub fn new(current: i32, target: i32) -> (r: Option<Levels>)
        ensures
            r is Some <==> Levels::spec_is_valid(current) && Levels::spec_is_valid(target),
            r matches Some(l) ==> l.current == current && l.target == target,
    {
        if !Levels::is_valid(current) {
            return None;
        }

        if !Levels::is_valid(target) {
            return None;
        }

        Some(Levels { current, target })
    }
}

} // verus!
