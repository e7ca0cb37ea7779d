//! The commands of the editor to the host.

use vstd::prelude::*;

verus! {

/// A pair of unsigned coordinates.
#[derive(Clone, Copy, Debug, PartialEq, Eq, Structural)]
pub struct UVec2 {
    pub x: u32,
    pub y: u32,
}

#[derive(Clone, Copy, Debug, PartialEq, Eq, Structural)]
pub enum EditorCommand {
    ResizeViewport { new_position: Option<UVec2>, new_size: Option<UVec2> },
}

/// The vector that a JSON value holds: `map` is `None` for a value that is no
/// object, and else the `x` and the `y` of the object.
pub fn deserialie_new_size(map: Option<(u32, u32)>) -> (new_size: Option<UVec2>)
    ensures
        new_size == (match map {
            Some((x, y)) => Some(UVec2 { x, y }),
            None => None,
        }),
{
    match map {
        Some((x, y)) => Some(UVec2 { x, y }),
        None => None,
    }
}

} // verus!
