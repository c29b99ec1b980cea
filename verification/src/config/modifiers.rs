//! Modifier key masks.

use vstd::prelude::*;

verus! {

pub const NONE: u32 = 0;

pub const SHIFT: u32 = 1;

pub const CTRL: u32 = 4;

/// mod1
pub const ALT: u32 = 8;

pub const MOD3: u32 = 32;

/// mod4
pub const SUPER: u32 = 64;

pub const MOD5: u32 = 128;

} // verus!
