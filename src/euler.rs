use vstd::prelude::*;

verus! {

/// Three angles about the `x` (pitch), `y` (yaw) and `z` (roll) axes.
#[derive(Clone, Copy, Debug, PartialEq, Eq)]
pub struct Euler<A> {
    pub x: A,
    pub y: A,
    pub z: A,
}

impl<A> Euler<A> {
    pub fn new(x: A, y: A, z: A) -> (r: Euler<A>)
        ensures
            r.x == x,
            r.y == y,
            r.z == z,
    {
        Euler { x, y, z }
    }
}

} // verus!
