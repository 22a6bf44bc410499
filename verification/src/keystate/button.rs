//! The plain-key machine: pressed it emits its bound keycode, released it
//! rests. The simplest of the three per-position state machines.

use vstd::prelude::*;
use crate::Keycode;
use crate::NO_EVENT;

verus! {

/// Resting: the bound keycode waits for a press.
#[derive(Debug, Clone, Copy, PartialEq, Eq, Structural)]
pub struct Unpressed {
    pub key: Keycode,
}

/// Held: the bound keycode is emitted each tick (unless it is `NO_EVENT`).
#[derive(Debug, Clone, Copy, PartialEq, Eq, Structural)]
pub struct Pressed {
    pub key: Keycode,
}

/// State of one plain key.
#[derive(Debug, Clone, Copy, PartialEq, Eq, Structural)]
pub enum ButtonState {
    Unpressed(Unpressed),
    Pressed(Pressed),
}

/// One tick of the plain-key machine: press moves to `Pressed`, release moves
/// back to `Unpressed`, anything else holds.
pub open spec fn button_step(s: ButtonState, pressed: bool) -> ButtonState {
    match s {
        ButtonState::Unpressed(u) => if pressed {
            ButtonState::Pressed(Pressed { key: u.key })
        } else {
            s
        },
        ButtonState::Pressed(p) => if !pressed {
            ButtonState::Unpressed(Unpressed { key: p.key })
        } else {
            s
        },
    }
}

/// What a plain key contributes to the report: its keycode while pressed,
/// except that `NO_EVENT` is never emitted.
pub open spec fn button_emit(s: ButtonState) -> Option<Keycode> {
    match s {
        ButtonState::Pressed(p) => if p.key != NO_EVENT {
            Some(p.key)
        } else {
            None
        },
        ButtonState::Unpressed(_) => None,
    }
}

/// The machine after feeding it a whole trace of raw inputs, oldest first.
pub open spec fn button_run(s: ButtonState, inputs: Seq<bool>) -> ButtonState
    decreases inputs.len(),
{
    if inputs.len() == 0 {
        s
    } else {
        button_run(button_step(s, inputs[0]), inputs.drop_first())
    }
}

/// How many `Unpressed` to `Pressed` transitions a trace causes.
pub open spec fn button_press_count(s: ButtonState, inputs: Seq<bool>) -> int
    decreases inputs.len(),
{
    if inputs.len() == 0 {
        0
    } else {
        (if s is Unpressed && inputs[0] {
            1int
        } else {
            0int
        }) + button_press_count(button_step(s, inputs[0]), inputs.drop_first())
    }
}

/// How many `Pressed` to `Unpressed` transitions a trace causes.
pub open spec fn button_release_count(s: ButtonState, inputs: Seq<bool>) -> int
    decreases inputs.len(),
{
    if inputs.len() == 0 {
        0
    } else {
        (if s is Pressed && !inputs[0] {
            1int
        } else {
            0int
        }) + button_release_count(button_step(s, inputs[0]), inputs.drop_first())
    }
}

impl ButtonState {
    /// The keycode this key is bound to, whatever its state.
    pub open spec fn key_spec(self) -> Keycode {
        match self {
            ButtonState::Unpressed(u) => u.key,
            ButtonState::Pressed(p) => p.key,
        }
    }

    /// The machine rests in `Unpressed`.
    pub open spec fn is_finished_spec(self) -> bool {
        self is Unpressed
    }

    /// A fresh plain key bound to `key`, at rest.
    pub fn new(key: Keycode) -> (r: Self)
        ensures
            r == ButtonState::Unpressed(Unpressed { key }),
    {
        ButtonState::Unpressed(Unpressed { key })
    }

    /// Advance one tick on a raw pressed/released input.
    pub fn key_transition(&mut self, pressed: bool)
        ensures
            *final(self) == button_step(*old(self), pressed),
    {
        match &self {
            ButtonState::Unpressed(state) => {
                if pressed {
                    *self = ButtonState::Pressed(Pressed { key: state.key });
                }
            },
            ButtonState::Pressed(state) => {
                if !pressed {
                    *self = ButtonState::Unpressed(Unpressed { key: state.key });
                }
            },
        }
    }

    /// The keycode to include in this tick's report, if any.
    pub fn get_key(&self) -> (r: Option<Keycode>)
        ensures
            r == button_emit(*self),
    {
        match self {
            ButtonState::Unpressed(_) => None,
            ButtonState::Pressed(p) => if p.key != NO_EVENT {
                Some(p.key)
            } else {
                None
            },
        }
    }

    /// Whether the machine is back in its resting state.
    pub fn is_finished(&self) -> (r: bool)
        ensures
            r == self.is_finished_spec(),
    {
        match self {
            ButtonState::Unpressed(_) => true,
            ButtonState::Pressed(_) => false,
        }
    }
}

/// Presses and releases alternate: over any trace, the press count and the
/// release count differ exactly by what the end states show.
proof fn lemma_button_count_delta(s: ButtonState, inputs: Seq<bool>)
    ensures
        button_press_count(s, inputs) - button_release_count(s, inputs) == (if button_run(
            s,
            inputs,
        ) is Pressed {
            1int
        } else {
            0int
        }) - (if s is Pressed {
            1int
        } else {
            0int
        }),
    decreases inputs.len(),
{
    if inputs.len() > 0 {
        lemma_button_count_delta(button_step(s, inputs[0]), inputs.drop_first());
    }
}

/// Over any balanced trace — one that starts and ends with the machine at
/// rest — the number of `Pressed` to `Unpressed` transitions equals the number
/// of `Unpressed` to `Pressed` transitions.
pub proof fn lemma_button_balanced(s: ButtonState, inputs: Seq<bool>)
    requires
        s.is_finished_spec(),
        button_run(s, inputs).is_finished_spec(),
    ensures
        button_press_count(s, inputs) == button_release_count(s, inputs),
{
    lemma_button_count_delta(s, inputs);
}

/// Feeding the same input twice at one tick changes nothing after the first
/// step: the plain-key machine is idempotent on a repeated input.
pub proof fn lemma_button_step_idempotent(s: ButtonState, pressed: bool)
    ensures
        button_step(button_step(s, pressed), pressed) == button_step(s, pressed),
{
}

} // verus!
