//! Verified core of a stacking window manager for the River Wayland compositor.
//!
//! The library holds the window manager's state, the rules that move it from
//! one state to the next, and everything that can be computed from plain values:
//! geometry, focus, bindings, configuration, menus, icons, titlebars and shadows.
//! It never talks to the compositor. What has to be sent is appended to a queue
//! of [`protocol::Request`] values, and what arrives is handed in as plain
//! values.

pub mod binding;
pub mod canoe;
pub mod config;
pub mod dispatch;
pub mod num;
pub mod protocol;
pub mod rule;
pub mod search;
pub mod text;
