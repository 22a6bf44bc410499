//! The momentary layer-shift machine: while held it keeps its layer promoted
//! on the stack of active layers, on release it takes the layer back off.
//! Layer keys never emit keycodes.

use vstd::prelude::*;
use crate::Layer;
use super::stack::LayerStack;
use super::stack::stack_active;
use super::stack::stack_promote;
use super::stack::stack_remove;
use super::stack::stack_view;

verus! {

/// Resting: the bound layer is not shifted by this key.
#[derive(Debug, Clone, Copy, PartialEq, Eq, Structural)]
pub struct Unpressed {
    pub layer: Layer,
}

/// Held: the bound layer has been promoted and awaits release.
#[derive(Debug, Clone, Copy, PartialEq, Eq, Structural)]
pub struct ShiftedLayer {
    pub layer: Layer,
}

/// State of one layer-shift key.
#[derive(Debug, Clone, Copy, PartialEq, Eq, Structural)]
pub enum LayerState {
    Unpressed(Unpressed),
    Pressed(ShiftedLayer),
}

/// One tick of the layer machine: a press re-promotes the bound layer to the
/// top of the stack, a release removes it (from wherever later activations
/// may have demoted it to); anything else holds both the machine and the
/// stack.
pub open spec fn layer_step(s: LayerState, pressed: bool, stack: Seq<Layer>) -> (
    LayerState,
    Seq<Layer>,
) {
    match s {
        LayerState::Unpressed(u) => if pressed {
            (LayerState::Pressed(ShiftedLayer { layer: u.layer }), stack_promote(stack, u.layer))
        } else {
            (s, stack)
        },
        LayerState::Pressed(p) => if !pressed {
            (LayerState::Unpressed(Unpressed { layer: p.layer }), stack_remove(stack, p.layer))
        } else {
            (s, stack)
        },
    }
}

impl LayerState {
    /// The layer this key is bound to, whatever its state.
    pub open spec fn layer_spec(self) -> Layer {
        match self {
            LayerState::Unpressed(u) => u.layer,
            LayerState::Pressed(p) => p.layer,
        }
    }

    /// The machine rests in `Unpressed`.
    pub open spec fn is_finished_spec(self) -> bool {
        self is Unpressed
    }

    /// A fresh layer key bound to `layer`, at rest.
    pub fn new(layer: Layer) -> (r: Self)
        ensures
            r == LayerState::Unpressed(Unpressed { layer }),
    {
        LayerState::Unpressed(Unpressed { layer })
    }

    /// Advance one tick, promoting or removing the bound layer on the shared
    /// stack as the edge demands.
    pub fn layer_transition(&mut self, pressed: bool, layers: &mut LayerStack)
        requires
            stack_view(*old(layers)).no_duplicates(),
        ensures
            (*final(self), stack_view(*final(layers))) == layer_step(
                *old(self),
                pressed,
                stack_view(*old(layers)),
            ),
    {
        match &self {
            LayerState::Unpressed(state) => {
                if pressed {
                    layers.promote(state.layer);
                    *self = LayerState::Pressed(ShiftedLayer { layer: state.layer });
                }
            },
            LayerState::Pressed(state) => {
                if !pressed {
                    layers.remove(state.layer);
                    *self = LayerState::Unpressed(Unpressed { layer: state.layer });
                }
            },
        }
    }

    /// Whether the machine is back in its resting state.
    pub fn is_finished(&self) -> (r: bool)
        ensures
            r == self.is_finished_spec(),
    {
        match self {
            LayerState::Unpressed(_) => true,
            LayerState::Pressed(_) => false,
        }
    }
}

/// The layer whose bindings currently own every position: the top of the
/// stack of active layers, or layer 0 when nothing is shifted.
pub fn active_layer(layers: &LayerStack) -> (r: Layer)
    ensures
        r == stack_active(stack_view(*layers)),
{
    layers.active()
}

/// Feeding the same input twice at one tick changes nothing after the first
/// step: the layer machine and the stack it works on are idempotent on a
/// repeated input.
pub proof fn lemma_layer_step_idempotent(s: LayerState, pressed: bool, stack: Seq<Layer>)
    ensures
        ({
            let (s1, st1) = layer_step(s, pressed, stack);
            layer_step(s1, pressed, st1) == (s1, st1)
        }),
{
}

} // verus!
