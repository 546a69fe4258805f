//! The kinds of body in the scene.
use vstd::prelude::*;

verus! {

/// What a sphere is; it picks the procedural shader used on its surface.
#[derive(Clone, Copy, Debug, PartialEq, Eq, Structural)]
pub enum SphereKind {
    Star,
    Rocky,
    GasGiant,
    Moon,
}

} // verus!
