//! Keysyms of the keys in the built-in bindings.

use vstd::prelude::*;

verus! {

pub const W: u32 = 0x77;

pub const H: u32 = 0x68;

pub const M: u32 = 0x6d;

pub const SPACE: u32 = 0x20;

pub const GRAVE: u32 = 0x60;

pub const TAB: u32 = 0xff09;

pub const RETURN: u32 = 0xff0d;

pub const ESCAPE: u32 = 0xff1b;

pub const LEFT: u32 = 0xff51;

pub const UP: u32 = 0xff52;

pub const RIGHT: u32 = 0xff53;

pub const DOWN: u32 = 0xff54;

pub const ALT_L: u32 = 0xffe9;

pub const ALT_R: u32 = 0xffea;

pub const SUPER_L: u32 = 0xffeb;

pub const SUPER_R: u32 = 0xffec;

} // verus!
