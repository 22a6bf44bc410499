//! Shorthand keycode constants for authoring keymaps, each named for the HID
//! usage it stands for.

use vstd::prelude::*;
use crate::Keycode;

verus! {

/// `NoEventIndicated`: a binding that emits nothing.
pub const NOP: Keycode = 0x00;

pub const A: Keycode = 0x04;

pub const B: Keycode = 0x05;

pub const C: Keycode = 0x06;

pub const D: Keycode = 0x07;

pub const E: Keycode = 0x08;

pub const F: Keycode = 0x09;

pub const G: Keycode = 0x0A;

pub const H: Keycode = 0x0B;

pub const I: Keycode = 0x0C;

pub const J: Keycode = 0x0D;

pub const K: Keycode = 0x0E;

pub const L: Keycode = 0x0F;

pub const M: Keycode = 0x10;

pub const N: Keycode = 0x11;

pub const O: Keycode = 0x12;

pub const P: Keycode = 0x13;

pub const Q: Keycode = 0x14;

pub const R: Keycode = 0x15;

pub const S: Keycode = 0x16;

pub const T: Keycode = 0x17;

pub const U: Keycode = 0x18;

pub const V: Keycode = 0x19;

pub const W: Keycode = 0x1A;

pub const X: Keycode = 0x1B;

pub const Y: Keycode = 0x1C;

pub const Z: Keycode = 0x1D;

pub const K1: Keycode = 0x1E;

pub const K2: Keycode = 0x1F;

pub const K3: Keycode = 0x20;

pub const K4: Keycode = 0x21;

pub const K5: Keycode = 0x22;

pub const K6: Keycode = 0x23;

pub const K7: Keycode = 0x24;

pub const K8: Keycode = 0x25;

pub const K9: Keycode = 0x26;

pub const K0: Keycode = 0x27;

pub const BSL: Keycode = 0x31;

pub const RIGHT: Keycode = 0x4F;

pub const LEFT: Keycode = 0x50;

pub const DOWN: Keycode = 0x51;

pub const UP: Keycode = 0x52;

pub const LCTL: Keycode = 0xE0;

pub const LSFT: Keycode = 0xE1;

pub const LALT: Keycode = 0xE2;

pub const LGUI: Keycode = 0xE3;

pub const LWIN: Keycode = 0xE3;

pub const RCTL: Keycode = 0xE4;

pub const RSFT: Keycode = 0xE5;

pub const RALT: Keycode = 0xE6;

pub const RGUI: Keycode = 0xE7;

pub const RWIN: Keycode = 0xE7;

} // verus!
