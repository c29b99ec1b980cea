//! The window manager's state and what it does with it.

pub mod app_icon;
pub mod context;
pub mod desktop;
pub mod desktop_picture;
pub mod font;
pub mod frame_laws;
pub mod geometry;
pub mod icon_lookup;
pub mod menu;
pub mod menu_picture;
pub mod output;
pub mod render;
pub mod scale;
pub mod seat;
pub mod shadow;
pub mod shield;
pub mod shmfile;
pub mod snap;
pub mod titlebar;
pub mod titlebar_frame;
pub mod titlebar_picture;
pub mod window;

use vstd::prelude::*;

verus! {

/// Window identifier
pub type WindowId = usize;

/// Output identifier
pub type OutputId = usize;

/// Seat identifier
pub type SeatId = usize;

/// Window menu interaction modes.
#[derive(Debug, Clone, Copy, PartialEq, Eq, Structural)]
pub enum WindowMenuMode {
    Pointer,
    AltTab,
}

/// User data for layer shell surfaces owned by the WM.
#[derive(Debug, Clone, Copy, PartialEq, Eq, Structural)]
pub enum LayerSurfaceKind {
    Desktop(OutputId),
    Menu,
    MenuShield(OutputId),
}

} // verus!
