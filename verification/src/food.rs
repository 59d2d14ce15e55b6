//! The food an ant carries back toward its parent nest.

use vstd::prelude::*;

verus! {

/// A unit of food of one resource colour.
pub struct Food {
    /// The resource colour of the nest the food was taken from.
    pub color: usize,
}

impl Food {
    /// Food of the given resource colour.
    pub fn new(color: usize) -> (f: Food)
        ensures
            f.color == color,
    {
        Food { color }
    }
}

} // verus!
