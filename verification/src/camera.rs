//! Directions a free-fly camera can move in. The camera itself lives with
//! the host application; the library only fixes the vocabulary.

use vstd::prelude::*;

verus! {

/// A movement direction relative to the camera's current orientation.
#[derive(Clone, Copy, PartialEq, Eq, Structural, Debug)]
pub enum CameraDirection {
    Forward,
    Backward,
    Left,
    Right,
    Up,
    Down,
}

} // verus!
