//! The mod-tap machine: one physical key that acts as a modifier when held
//! past a timeout and as a tap key when released quickly, with a double-tap
//! window so a rapid second press continues the tap instead of starting a new
//! mod-tap attempt.

use vstd::prelude::*;
use crate::Duration;
use crate::Instant;
use crate::Keycode;

verus! {

/// The three windows that shape a mod-tap gesture, in ticks.
#[derive(Debug, Clone, Copy, PartialEq, Eq, Structural)]
pub struct ModTapConfig {
    /// Time before a held key becomes the modifier instead of the tap.
    pub mod_timeout: Duration,
    /// Time the tap keycode keeps being emitted after release: only once the
    /// key is up is it known not to be a modifier.
    pub tap_release: Duration,
    /// Time within which another press counts as a multi-tap continuation,
    /// entering the tap state without waiting out `mod_timeout` again.
    pub tap_repeat: Duration,
}

/// Resting: nothing pressed, nothing owed.
#[derive(Debug, Clone, Copy, PartialEq, Eq, Structural)]
pub struct Unpressed {
    pub mod_state: Keycode,
    pub tap_state: Keycode,
}

/// Held, not yet decided: at `tap_timeout` the hold becomes the modifier.
#[derive(Debug, Clone, Copy, PartialEq, Eq, Structural)]
pub struct ModTapWait {
    pub mod_state: Keycode,
    pub tap_state: Keycode,
    pub tap_timeout: Instant,
}

/// Decided for the modifier: the hold keycode is emitted until release.
#[derive(Debug, Clone, Copy, PartialEq, Eq, Structural)]
pub struct Mod {
    pub mod_state: Keycode,
    pub tap_state: Keycode,
}

/// Decided for the tap: the tap keycode is emitted until `release_timeout`,
/// and until `again_timeout` a new press continues the tap.
#[derive(Debug, Clone, Copy, PartialEq, Eq, Structural)]
pub struct Tap {
    pub mod_state: Keycode,
    pub tap_state: Keycode,
    pub release_timeout: Instant,
    pub again_timeout: Instant,
}

/// Between taps: emission has stopped, but until `again_timeout` a press
/// still counts as a continuation.
#[derive(Debug, Clone, Copy, PartialEq, Eq, Structural)]
pub struct DoubleTapWait {
    pub mod_state: Keycode,
    pub tap_state: Keycode,
    pub again_timeout: Instant,
}

/// A continued tap being held: the tap keycode is emitted until release.
#[derive(Debug, Clone, Copy, PartialEq, Eq, Structural)]
pub struct DoubleTap {
    pub mod_state: Keycode,
    pub tap_state: Keycode,
}

/// State of one mod-tap key.
#[derive(Debug, Clone, Copy, PartialEq, Eq, Structural)]
pub enum ModTapState {
    Unpressed(Unpressed),
    Wait(ModTapWait),
    Mod(Mod),
    Tap(Tap),
    DoubleTapWait(DoubleTapWait),
    DoubleTap(DoubleTap),
}

/// One tick of the mod-tap machine. Unlisted (state, input) pairs hold.
pub open spec fn modtap_step(
    s: ModTapState,
    pressed: bool,
    now: Instant,
    cfg: ModTapConfig,
) -> ModTapState {
    match s {
        ModTapState::Unpressed(u) => if pressed {
            ModTapState::Wait(
                ModTapWait {
                    mod_state: u.mod_state,
                    tap_state: u.tap_state,
                    tap_timeout: (now + cfg.mod_timeout) as u64,
                },
            )
        } else {
            s
        },
        ModTapState::Wait(w) => if pressed && w.tap_timeout <= now {
            ModTapState::Mod(Mod { mod_state: w.mod_state, tap_state: w.tap_state })
        } else if !pressed {
            ModTapState::Tap(
                Tap {
                    mod_state: w.mod_state,
                    tap_state: w.tap_state,
                    release_timeout: (now + cfg.tap_release) as u64,
                    again_timeout: (now + cfg.tap_repeat) as u64,
                },
            )
        } else {
            s
        },
        ModTapState::Mod(m) => if !pressed {
            ModTapState::Unpressed(Unpressed { mod_state: m.mod_state, tap_state: m.tap_state })
        } else {
            s
        },
        ModTapState::Tap(t) => if !pressed && t.release_timeout <= now && t.again_timeout <= now {
            ModTapState::Unpressed(Unpressed { mod_state: t.mod_state, tap_state: t.tap_state })
        } else if !pressed && t.release_timeout <= now {
            ModTapState::DoubleTapWait(
                DoubleTapWait {
                    mod_state: t.mod_state,
                    tap_state: t.tap_state,
                    again_timeout: t.again_timeout,
                },
            )
        } else if pressed && t.again_timeout <= now {
            ModTapState::Wait(
                ModTapWait {
                    mod_state: t.mod_state,
                    tap_state: t.tap_state,
                    tap_timeout: (now + cfg.mod_timeout) as u64,
                },
            )
        } else if pressed {
            ModTapState::DoubleTapWait(
                DoubleTapWait {
                    mod_state: t.mod_state,
                    tap_state: t.tap_state,
                    again_timeout: t.again_timeout,
                },
            )
        } else {
            s
        },
        ModTapState::DoubleTapWait(d) => if pressed && d.again_timeout > now {
            ModTapState::DoubleTap(DoubleTap { mod_state: d.mod_state, tap_state: d.tap_state })
        } else if !pressed && d.again_timeout <= now {
            ModTapState::Unpressed(Unpressed { mod_state: d.mod_state, tap_state: d.tap_state })
        } else {
            s
        },
        ModTapState::DoubleTap(d) => if !pressed {
            ModTapState::DoubleTapWait(
                DoubleTapWait {
                    mod_state: d.mod_state,
                    tap_state: d.tap_state,
                    again_timeout: (now + cfg.tap_repeat) as u64,
                },
            )
        } else {
            s
        },
    }
}

/// Whether the machine is emitting its hold (modifier) keycode.
pub open spec fn modtap_emits_hold(s: ModTapState) -> bool {
    s is Mod
}

/// Whether the machine is emitting its tap keycode.
pub open spec fn modtap_emits_tap(s: ModTapState) -> bool {
    s is Tap || s is DoubleTap
}

/// What a mod-tap key contributes to the report: the hold keycode in `Mod`,
/// the tap keycode in `Tap` and `DoubleTap`, nothing elsewhere.
pub open spec fn modtap_emit(s: ModTapState) -> Option<Keycode> {
    match s {
        ModTapState::Mod(m) => Some(m.mod_state),
        ModTapState::Tap(t) => Some(t.tap_state),
        ModTapState::DoubleTap(d) => Some(d.tap_state),
        ModTapState::Unpressed(_) => None,
        ModTapState::Wait(_) => None,
        ModTapState::DoubleTapWait(_) => None,
    }
}

impl ModTapState {
    /// The hold (modifier) keycode this key is bound to.
    pub open spec fn mod_spec(self) -> Keycode {
        match self {
            ModTapState::Unpressed(u) => u.mod_state,
            ModTapState::Wait(w) => w.mod_state,
            ModTapState::Mod(m) => m.mod_state,
            ModTapState::Tap(t) => t.mod_state,
            ModTapState::DoubleTapWait(d) => d.mod_state,
            ModTapState::DoubleTap(d) => d.mod_state,
        }
    }

    /// The tap keycode this key is bound to.
    pub open spec fn tap_spec(self) -> Keycode {
        match self {
            ModTapState::Unpressed(u) => u.tap_state,
            ModTapState::Wait(w) => w.tap_state,
            ModTapState::Mod(m) => m.tap_state,
            ModTapState::Tap(t) => t.tap_state,
            ModTapState::DoubleTapWait(d) => d.tap_state,
            ModTapState::DoubleTap(d) => d.tap_state,
        }
    }

    /// The machine rests in `Unpressed`.
    pub open spec fn is_finished_spec(self) -> bool {
        self is Unpressed
    }

    /// A fresh mod-tap key bound to a hold and a tap keycode, at rest.
    pub fn new(mod_state: Keycode, tap_state: Keycode) -> (r: Self)
        ensures
            r == ModTapState::Unpressed(Unpressed { mod_state, tap_state }),
    {
        ModTapState::Unpressed(Unpressed { mod_state, tap_state })
    }

    /// Advance one tick on a raw pressed/released input at time `now`.
    pub fn modtap_transition(&mut self, pressed: bool, now: Instant, modtap_config: &ModTapConfig)
        requires
            now + modtap_config.mod_timeout <= u64::MAX,
            now + modtap_config.tap_release <= u64::MAX,
            now + modtap_config.tap_repeat <= u64::MAX,
        ensures
            *final(self) == modtap_step(*old(self), pressed, now, *modtap_config),
    {
        match &self {
            ModTapState::Unpressed(state) => {
                if pressed {
                    *self = ModTapState::Wait(
                        ModTapWait {
                            mod_state: state.mod_state,
                            tap_state: state.tap_state,
                            tap_timeout: now + modtap_config.mod_timeout,
                        },
                    );
                }
            },
            ModTapState::Wait(state) => {
                if pressed && state.tap_timeout <= now {
                    *self = ModTapState::Mod(
                        Mod { mod_state: state.mod_state, tap_state: state.tap_state },
                    );
                } else if !pressed {
                    *self = ModTapState::Tap(
                        Tap {
                            mod_state: state.mod_state,
                            tap_state: state.tap_state,
                            release_timeout: now + modtap_config.tap_release,
                            again_timeout: now + modtap_config.tap_repeat,
                        },
                    );
                }
            },
            ModTapState::Mod(state) => {
                if !pressed {
                    *self = ModTapState::Unpressed(
                        Unpressed { mod_state: state.mod_state, tap_state: state.tap_state },
                    );
                }
            },
            ModTapState::Tap(state) => {
                if !pressed && state.release_timeout <= now && state.again_timeout <= now {
                    *self = ModTapState::Unpressed(
                        Unpressed { mod_state: state.mod_state, tap_state: state.tap_state },
                    );
                } else if !pressed && state.release_timeout <= now {
                    *self = ModTapState::DoubleTapWait(
                        DoubleTapWait {
                            mod_state: state.mod_state,
                            tap_state: state.tap_state,
                            again_timeout: state.again_timeout,
                        },
                    );
                } else if pressed && state.again_timeout <= now {
                    *self = ModTapState::Wait(
                        ModTapWait {
                            mod_state: state.mod_state,
                            tap_state: state.tap_state,
                            tap_timeout: now + modtap_config.mod_timeout,
                        },
                    );
                } else if pressed {
                    *self = ModTapState::DoubleTapWait(
                        DoubleTapWait {
                            mod_state: state.mod_state,
                            tap_state: state.tap_state,
                            again_timeout: state.again_timeout,
                        },
                    );
                }
            },
            ModTapState::DoubleTapWait(state) => {
                if pressed && state.again_timeout > now {
                    *self = ModTapState::DoubleTap(
                        DoubleTap { mod_state: state.mod_state, tap_state: state.tap_state },
                    );
                } else if !pressed && state.again_timeout <= now {
                    *self = ModTapState::Unpressed(
                        Unpressed { mod_state: state.mod_state, tap_state: state.tap_state },
                    );
                }
            },
            ModTapState::DoubleTap(state) => {
                if !pressed {
                    *self = ModTapState::DoubleTapWait(
                        DoubleTapWait {
                            mod_state: state.mod_state,
                            tap_state: state.tap_state,
                            again_timeout: now + modtap_config.tap_repeat,
                        },
                    );
                }
            },
        }
    }

    /// The keycode to include in this tick's report, if any.
    pub fn get_key(&self) -> (r: Option<Keycode>)
        ensures
            r == modtap_emit(*self),
    {
        match self {
            ModTapState::Unpressed(_) => None,
            ModTapState::Wait(_) => None,
            ModTapState::DoubleTapWait(_) => None,
            ModTapState::Mod(state) => Some(state.mod_state),
            ModTapState::Tap(state) => Some(state.tap_state),
            ModTapState::DoubleTap(state) => Some(state.tap_state),
        }
    }

    /// Whether the machine is back in its resting state.
    pub fn is_finished(&self) -> (r: bool)
        ensures
            r == self.is_finished_spec(),
    {
        match self {
            ModTapState::Unpressed(_) => true,
            ModTapState::Wait(_) => false,
            ModTapState::Mod(_) => false,
            ModTapState::Tap(_) => false,
            ModTapState::DoubleTapWait(_) => false,
            ModTapState::DoubleTap(_) => false,
        }
    }
}

/// At any tick a mod-tap key offers at most one of its two keycodes: the hold
/// keycode exactly in `Mod`, the tap keycode exactly in `Tap` and `DoubleTap`,
/// nothing anywhere else — never both.
pub proof fn lemma_modtap_emit_exclusive(s: ModTapState)
    ensures
        !(modtap_emits_hold(s) && modtap_emits_tap(s)),
        modtap_emits_hold(s) ==> modtap_emit(s) == Some(s.mod_spec()),
        modtap_emits_tap(s) ==> modtap_emit(s) == Some(s.tap_spec()),
        !modtap_emits_hold(s) && !modtap_emits_tap(s) ==> modtap_emit(s) is None,
{
}

/// Feeding the same input twice at one tick changes nothing after the first
/// step, as long as the three windows are at least one tick wide and the key
/// is not pressed while it sits in `Tap` (a held continuation is meant to
/// walk on through `DoubleTapWait` into `DoubleTap`).
pub proof fn lemma_modtap_step_idempotent(
    s: ModTapState,
    pressed: bool,
    now: Instant,
    cfg: ModTapConfig,
)
    requires
        cfg.mod_timeout >= 1,
        cfg.tap_release >= 1,
        cfg.tap_repeat >= 1,
        now + cfg.mod_timeout <= u64::MAX,
        now + cfg.tap_release <= u64::MAX,
        now + cfg.tap_repeat <= u64::MAX,
        !(s is Tap && pressed),
    ensures
        modtap_step(modtap_step(s, pressed, now, cfg), pressed, now, cfg) == modtap_step(
            s,
            pressed,
            now,
            cfg,
        ),
{
}

} // verus!
