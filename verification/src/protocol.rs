//! What viewers are told of the mouse pointer.

use vstd::prelude::*;

verus! {

/// The pointer as the viewer draws it.
#[derive(Debug, Clone, Copy, PartialEq, Eq, Structural)]
pub struct CursorState {
    pub visible: bool,
    pub x: i32,
    pub y: i32,
    pub shape_id: u64,
}

/// The picture of a pointer.
#[derive(Debug, Clone, PartialEq, Eq)]
pub struct CursorShape {
    pub shape_id: u64,
    pub width: u32,
    pub height: u32,
    /// The point of the picture that points.
    pub hotspot_x: i32,
    pub hotspot_y: i32,
    /// Four bytes to a pixel: red, green, blue, opacity.
    pub rgba: Vec<u8>,
}

} // verus!
