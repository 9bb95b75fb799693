use vstd::prelude::*;

verus! {

/// A pair of coordinates.
#[derive(Clone, Copy)]
pub struct Vec2<T> {
    pub x: T,
    pub y: T,
}

} // verus!
