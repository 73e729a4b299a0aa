use vstd::prelude::*;
use crate::angle::Rad;

verus! {

/// A perspective projection: vertical field of view, aspect ratio and the
/// near and far planes.
#[derive(Clone, Copy, Debug, PartialEq, Eq)]
pub struct Perspective<S> {
    pub fovy: Rad<S>,
    pub aspect: S,
    pub near: S,
    pub far: S,
}

/// An orthographic projection: the six planes of the view volume.
#[derive(Clone, Copy, Debug, PartialEq, Eq)]
pub struct Ortho<S> {
    pub left: S,
    pub right: S,
    pub bottom: S,
    pub top: S,
    pub near: S,
    pub far: S,
}

} // verus!
