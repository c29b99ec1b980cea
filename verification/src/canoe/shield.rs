//! Surface that keeps the pointer from the windows while a menu is open.

use vstd::prelude::*;
use crate::canoe::OutputId;
use crate::protocol::ObjectId;

verus! {

/// Full-output surface behind an open window menu.
#[derive(Debug, Clone, Copy, PartialEq, Eq, Structural)]
pub struct ShieldSurface {
    pub surface: ObjectId,
    pub layer_surface: ObjectId,
    pub output_id: OutputId,
    pub width: i32,
    pub height: i32,
    pub configured: bool,
    /// Whether a buffer exists.
    pub buffer: bool,
}

impl ShieldSurface {
    pub fn new(surface: ObjectId, layer_surface: ObjectId, output_id: OutputId) -> (r: Self)
        ensures
            r == (ShieldSurface {
                surface,
                layer_surface,
                output_id,
                width: 0,
                height: 0,
                configured: false,
                buffer: false,
            }),
    {
        ShieldSurface {
            surface,
            layer_surface,
            output_id,
            width: 0,
            height: 0,
            configured: false,
            buffer: false,
        }
    }

    /// Drop the buffer
    pub fn reset_buffer(&mut self)
        ensures
            *final(self) == (ShieldSurface { buffer: false, ..*old(self) }),
    {
        self.buffer = false;
    }
}

} // verus!
