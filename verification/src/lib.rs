//! Core input-processing engine of a split mechanical keyboard: Schmitt-trigger
//! debouncing of the scanned switch matrix, one state machine per key position
//! (plain key, momentary layer shift, mod-tap), a duplicate-free stack of
//! active layers, and assembly of a bounded NKRO report of pressed keycodes.

use vstd::prelude::*;

pub mod debounce;
pub mod hid;
pub mod keystate;
pub mod matrix;
pub mod report;

verus! {

/// One HID usage byte; `NO_EVENT` suppresses emission.
pub type Keycode = u8;

/// Index of a layer in the keymap, in `[0, layer count)`.
pub type Layer = u8;

/// Monotonic clock reading, in ticks.
pub type Instant = u64;

/// Span between two instants, in ticks.
pub type Duration = u64;

/// The HID `NoEventIndicated` usage: a key bound to it emits nothing.
pub const NO_EVENT: Keycode = 0;

} // verus!
