//! Per-position key state machines and the keymap that drives them, one tick
//! at a time: pick the machine the active layer binds to each position, step
//! it, and gather whatever it emits into the outgoing report.

use vstd::prelude::*;

pub mod button;
pub mod layer;
pub mod modtap;
pub mod prelude;
pub mod stack;

use crate::Instant;
use crate::Keycode;
use crate::Layer;
use crate::NO_EVENT;
use crate::report::Report;
use button::ButtonState;
use button::button_emit;
use button::button_step;
use layer::LayerState;
use layer::layer_step;
use modtap::ModTapConfig;
use modtap::ModTapState;
use modtap::modtap_emit;
use modtap::modtap_step;
use stack::LayerStack;
use stack::stack_active;
use stack::stack_view;

verus! {

/// Shorthand for authoring one cell of the keymap table: a plain keycode, a
/// momentary layer shift, or a mod-tap pair of hold and tap keycodes.
#[derive(Debug, Clone, Copy, PartialEq, Eq, Structural)]
pub enum KeyShorthand {
    Kb(Keycode),
    La(Layer),
    MT(Keycode, Keycode),
}

/// One per-position machine, of the variant its bound action demands.
#[derive(Debug, Clone, Copy, PartialEq, Eq, Structural)]
pub enum Key {
    Button(ButtonState),
    Layer(LayerState),
    ModTap(ModTapState),
}

/// Status flags the keymap raises while processing.
#[derive(Debug, Clone, Copy, PartialEq, Eq, Structural)]
pub struct KeymapFlags {
    /// Set when an emitted keycode was dropped because the report was full;
    /// sticky until the caller clears it.
    pub rollover: bool,
}

/// The machine a fresh keymap builds for one table cell: at rest, bound as
/// the shorthand says.
pub open spec fn key_new_spec(ks: KeyShorthand) -> Key {
    match ks {
        KeyShorthand::Kb(k) => Key::Button(ButtonState::Unpressed(button::Unpressed { key: k })),
        KeyShorthand::La(l) => Key::Layer(LayerState::Unpressed(layer::Unpressed { layer: l })),
        KeyShorthand::MT(m, t) => Key::ModTap(
            ModTapState::Unpressed(modtap::Unpressed { mod_state: m, tap_state: t }),
        ),
    }
}

/// Whether a machine rests in its finished state.
pub open spec fn key_is_finished(k: Key) -> bool {
    match k {
        Key::Button(b) => b.is_finished_spec(),
        Key::Layer(l) => l.is_finished_spec(),
        Key::ModTap(m) => m.is_finished_spec(),
    }
}

/// What a machine contributes to this tick's report. Layer keys never emit.
pub open spec fn key_emit(k: Key) -> Option<Keycode> {
    match k {
        Key::Button(b) => button_emit(b),
        Key::Layer(_) => None,
        Key::ModTap(m) => modtap_emit(m),
    }
}

/// One machine stepped for one tick: the new machine and the layer stack as
/// the machine leaves it (only layer keys move the stack).
pub open spec fn key_step(
    k: Key,
    pressed: bool,
    now: Instant,
    cfg: ModTapConfig,
    stack: Seq<Layer>,
) -> (Key, Seq<Layer>) {
    match k {
        Key::Button(b) => (Key::Button(button_step(b, pressed)), stack),
        Key::Layer(l) => {
            let (l2, stack2) = layer_step(l, pressed, stack);
            (Key::Layer(l2), stack2)
        },
        Key::ModTap(m) => (Key::ModTap(modtap_step(m, pressed, now, cfg)), stack),
    }
}

/// A machine is valid for a keymap of `layers` layers: a layer key may only
/// name a layer that exists.
pub open spec fn key_wf(k: Key, layers: int) -> bool {
    match k {
        Key::Layer(l) => l.layer_spec() < layers,
        Key::Button(_) => true,
        Key::ModTap(_) => true,
    }
}

/// Stepping a machine keeps the layer stack and the machine itself well
/// formed: the stack stays duplicate-free with every entry below `bound`, and
/// a layer key keeps naming a layer that exists.
pub proof fn lemma_key_step_wf(
    k: Key,
    pressed: bool,
    now: Instant,
    cfg: ModTapConfig,
    stack: Seq<Layer>,
    bound: int,
)
    requires
        stack.no_duplicates(),
        forall|i: int| 0 <= i < stack.len() ==> stack[i] < bound,
        key_wf(k, bound),
        0 <= bound <= 256,
    ensures
        ({
            let (k2, stack2) = key_step(k, pressed, now, cfg, stack);
            &&& stack2.no_duplicates()
            &&& forall|i: int| 0 <= i < stack2.len() ==> stack2[i] < bound
            &&& key_wf(k2, bound)
        }),
{
    match k {
        Key::Layer(l) => {
            match l {
                LayerState::Unpressed(u) => {
                    if pressed {
                        stack::lemma_promote_wf(stack, u.layer, bound);
                    }
                },
                LayerState::Pressed(p) => {
                    if !pressed {
                        stack::lemma_remove_wf(stack, p.layer, bound);
                    }
                },
            }
        },
        Key::Button(_) => {},
        Key::ModTap(_) => {},
    }
}

/// Process one position `p` of a tick: gate the position's current layer —
/// it may move to the active layer only while the machine that owns the
/// position is finished — step the selected machine, and gather its emission
/// into the report if it is not `NO_EVENT` and fits under `cap`; otherwise
/// raise the rollover flag and drop it.
pub open spec fn tick_position(
    keys: Seq<Key>,
    current: Seq<Layer>,
    stack: Seq<Layer>,
    report: Seq<Keycode>,
    rollover: bool,
    n_layers: int,
    cfg: ModTapConfig,
    pressed: bool,
    now: Instant,
    cap: int,
    p: int,
) -> (Seq<Key>, Seq<Layer>, Seq<Layer>, Seq<Keycode>, bool) {
    let cur0 = current[p];
    let cur = if key_is_finished(keys[p * n_layers + cur0]) {
        stack_active(stack)
    } else {
        cur0
    };
    let idx = p * n_layers + cur;
    let (k2, stack2) = key_step(keys[idx], pressed, now, cfg, stack);
    let keys2 = keys.update(idx, k2);
    let current2 = current.update(p, cur);
    match key_emit(k2) {
        Some(k) => if k != NO_EVENT {
            if report.len() < cap {
                (keys2, current2, stack2, report.push(k), rollover)
            } else {
                (keys2, current2, stack2, report, true)
            }
        } else {
            (keys2, current2, stack2, report, rollover)
        },
        None => (keys2, current2, stack2, report, rollover),
    }
}

/// Process the first `p` positions of a tick, in row-major order, threading
/// the machines, the per-position current layers, the layer stack, the report
/// and the rollover flag from one position to the next.
pub open spec fn tick_positions(
    keys: Seq<Key>,
    current: Seq<Layer>,
    stack: Seq<Layer>,
    report: Seq<Keycode>,
    rollover: bool,
    n_layers: int,
    cfg: ModTapConfig,
    presses: Seq<bool>,
    now: Instant,
    cap: int,
    p: int,
) -> (Seq<Key>, Seq<Layer>, Seq<Layer>, Seq<Keycode>, bool)
    decreases p,
{
    if p <= 0 {
        (keys, current, stack, report, rollover)
    } else {
        let (keys1, current1, stack1, report1, rollover1) = tick_positions(
            keys,
            current,
            stack,
            report,
            rollover,
            n_layers,
            cfg,
            presses,
            now,
            cap,
            p - 1,
        );
        tick_position(
            keys1,
            current1,
            stack1,
            report1,
            rollover1,
            n_layers,
            cfg,
            presses[p - 1],
            now,
            cap,
            p - 1,
        )
    }
}

/// The whole engine for one half of a keyboard: the mod-tap windows, the
/// stack of active layers, one machine per position and layer, and the
/// per-position record of which layer currently owns the position.
pub struct Keymap {
    /// The mod-tap windows shared by every mod-tap key.
    modtap_config: ModTapConfig,
    /// The stack of active layers, mutated only by layer keys.
    layers: LayerStack,
    /// For each position, the layer whose machine currently owns it.
    current: Vec<Layer>,
    /// All machines, row-major: position `p`'s machine for layer `l` sits at
    /// `p * n_layers + l`.
    keys: Vec<Key>,
    /// Number of positions.
    size: usize,
    /// Number of layers.
    n_layers: usize,
    /// Status flags, readable by the caller.
    pub flags: KeymapFlags,
}

impl Keymap {
    /// Everything `process` preserves: the arrays have their advertised
    /// shapes, every current layer and every stack entry names a layer that
    /// exists, the stack is duplicate-free, and every layer key is bound to a
    /// layer that exists.
    pub closed spec fn wf(self) -> bool {
        &&& self.current@.len() == self.size
        &&& self.keys@.len() == self.size * self.n_layers
        &&& 1 <= self.n_layers <= 256
        &&& forall|p: int| 0 <= p < self.size ==> (#[trigger] self.current@[p]) < self.n_layers
        &&& stack_view(self.layers).no_duplicates()
        &&& forall|i: int|
            0 <= i < stack_view(self.layers).len() ==> (#[trigger] stack_view(self.layers)[i])
                < self.n_layers
        &&& forall|i: int|
            0 <= i < self.keys@.len() ==> key_wf(#[trigger] self.keys@[i], self.n_layers as int)
    }

    /// Number of positions this keymap drives.
    pub closed spec fn size_spec(self) -> int {
        self.size as int
    }

    /// Number of layers in the table.
    pub closed spec fn layers_spec(self) -> int {
        self.n_layers as int
    }

    /// The mod-tap windows this keymap was built with.
    pub closed spec fn config_spec(self) -> ModTapConfig {
        self.modtap_config
    }

    /// The machines, row-major as in `keys`.
    pub closed spec fn keys_view(self) -> Seq<Key> {
        self.keys@
    }

    /// The per-position current layers.
    pub closed spec fn current_view(self) -> Seq<Layer> {
        self.current@
    }

    /// The stack of active layers, bottom first.
    pub closed spec fn stack_spec(self) -> Seq<Layer> {
        stack_view(self.layers)
    }

    /// The status flags.
    pub closed spec fn flags_spec(self) -> KeymapFlags {
        self.flags
    }

    /// Build the engine from an action table laid out `table[layer][position]`
    /// and the three mod-tap windows. Every position starts owned by layer 0
    /// with all its machines at rest, the stack empty, the flags clear.
    pub fn new(
        table: &Vec<Vec<KeyShorthand>>,
        mod_timeout: crate::Duration,
        tap_release: crate::Duration,
        tap_repeat: crate::Duration,
    ) -> (r: Self)
        requires
            1 <= table@.len() <= 256,
            forall|l: int| 0 <= l < table@.len() ==> (#[trigger] table@[l]).len() == table@[0].len(),
            forall|l: int, p: int|
                0 <= l < table@.len() && 0 <= p < table@[0].len() ==> ((#[trigger] table@[l][p])
                    matches KeyShorthand::La(layer) ==> layer < table@.len()),
            table@.len() * table@[0].len() <= usize::MAX,
        ensures
            r.wf(),
            r.size_spec() == table@[0].len(),
            r.layers_spec() == table@.len(),
            r.config_spec() == (ModTapConfig { mod_timeout, tap_release, tap_repeat }),
            r.stack_spec() == Seq::<Layer>::empty(),
            r.flags_spec() == (KeymapFlags { rollover: false }),
            forall|p: int| 0 <= p < r.size_spec() ==> (#[trigger] r.current_view()[p]) == 0,
            forall|l: int, p: int|
                0 <= l < table@.len() && 0 <= p < table@[0].len() ==> r.keys_view()[p * table@.len()
                    + l] == key_new_spec(#[trigger] table@[l][p]),
    {
        let n_layers: usize = table.len();
        let size: usize = table[0].len();
        let mut keys: Vec<Key> = Vec::new();
        let mut current: Vec<Layer> = Vec::new();
        let mut p: usize = 0;
        while p < size
            invariant
                p <= size,
                n_layers == table@.len(),
                size == table@[0].len(),
                1 <= n_layers <= 256,
                table@.len() * table@[0].len() <= usize::MAX,
                forall|l: int|
                    0 <= l < table@.len() ==> (#[trigger] table@[l]).len() == table@[0].len(),
                forall|l: int, pp: int|
                    0 <= l < table@.len() && 0 <= pp < table@[0].len() ==> ((
                    #[trigger] table@[l][pp]) matches KeyShorthand::La(layer) ==> layer
                        < table@.len()),
                current@.len() == p,
                forall|pp: int| 0 <= pp < p ==> (#[trigger] current@[pp]) == 0,
                keys@.len() == p * n_layers,
                forall|l: int, pp: int|
                    0 <= l < n_layers && 0 <= pp < p ==> keys@[pp * n_layers + l] == key_new_spec(
                        #[trigger] table@[l][pp],
                    ),
                forall|i: int| 0 <= i < keys@.len() ==> key_wf(#[trigger] keys@[i], n_layers as int),
            decreases size - p,
        {
            proof {
                assert((p + 1) * n_layers == p * n_layers + n_layers) by (nonlinear_arith);
                assert((p + 1) * n_layers <= size * n_layers) by (nonlinear_arith)
                    requires
                        p < size,
                        n_layers >= 1,
                ;
                assert(size * n_layers <= usize::MAX) by (nonlinear_arith)
                    requires
                        table@.len() * table@[0].len() <= usize::MAX,
                        size == table@[0].len(),
                        n_layers == table@.len(),
                ;
            }
            let mut l: usize = 0;
            while l < n_layers
                invariant
                    l <= n_layers,
                    p < size,
                    n_layers == table@.len(),
                    size == table@[0].len(),
                    1 <= n_layers <= 256,
                    p * n_layers + n_layers <= usize::MAX,
                    forall|ll: int|
                        0 <= ll < table@.len() ==> (#[trigger] table@[ll]).len() == table@[0].len(),
                    forall|ll: int, pp: int|
                        0 <= ll < table@.len() && 0 <= pp < table@[0].len() ==> ((
                        #[trigger] table@[ll][pp]) matches KeyShorthand::La(layer) ==> layer
                            < table@.len()),
                    keys@.len() == p * n_layers + l,
                    forall|ll: int, pp: int|
                        0 <= ll < n_layers && 0 <= pp < p ==> keys@[pp * n_layers + ll]
                            == key_new_spec(#[trigger] table@[ll][pp]),
                    forall|ll: int|
                        0 <= ll < l ==> keys@[p * n_layers + ll] == key_new_spec(
                            #[trigger] table@[ll][p as int],
                        ),
                    forall|i: int|
                        0 <= i < keys@.len() ==> key_wf(#[trigger] keys@[i], n_layers as int),
                decreases n_layers - l,
            {
                let cell = table[l][p];
                let machine = Key::new(cell);
                keys.push(machine);
                proof {
                    assert forall|ll2: int, pp2: int| #![trigger table@[ll2][pp2]]
                        0 <= ll2 < n_layers && 0 <= pp2 < p implies keys@[pp2 * n_layers + ll2]
                        == key_new_spec(table@[ll2][pp2]) by {
                        assert(pp2 * n_layers + ll2 < p * n_layers + l) by (nonlinear_arith)
                            requires
                                0 <= ll2 < n_layers,
                                0 <= pp2 < p,
                                0 <= l,
                        ;
                    }
                }
                l = l + 1;
            }
            current.push(0);
            p = p + 1;
            proof {
                assert forall|ll: int, pp: int|
                    0 <= ll < n_layers && 0 <= pp < p implies keys@[pp * n_layers + ll]
                    == key_new_spec(#[trigger] table@[ll][pp]) by {
                    if pp < p - 1 {
                        assert(pp * n_layers + ll < (p - 1) * n_layers + n_layers) by (
                        nonlinear_arith)
                            requires
                                pp < p - 1,
                                0 <= ll < n_layers,
                        ;
                    }
                }
            }
        }
        proof {
            assert(size * n_layers == table@[0].len() * table@.len()) by (nonlinear_arith)
                requires
                    size == table@[0].len(),
                    n_layers == table@.len(),
            ;
        }
        Keymap {
            modtap_config: ModTapConfig { mod_timeout, tap_release, tap_repeat },
            layers: LayerStack::new(),
            current,
            keys,
            size,
            n_layers,
            flags: KeymapFlags { rollover: false },
        }
    }

    /// Drive one tick: clear the report, then for each position in row-major
    /// order let the active layer claim the position if its machine is
    /// finished, step the machine the position's current layer binds, and
    /// gather what it emits.
    ///
    /// The exact result is the `tick_positions` fold of the starting state.
    /// On top of it: the keymap stays well formed — in particular the layer
    /// stack keeps no duplicates and at most one entry per layer — the report
    /// never holds `NO_EVENT`, and a position's current layer moves only
    /// while the machine that owned the position was finished, so one machine
    /// sees both edges of any press/release pair.
    pub fn process(&mut self, keypresses: &Vec<bool>, keys: &mut Report, now: Instant)
        requires
            old(self).wf(),
            keypresses@.len() == old(self).size_spec(),
            now + old(self).config_spec().mod_timeout <= u64::MAX,
            now + old(self).config_spec().tap_release <= u64::MAX,
            now + old(self).config_spec().tap_repeat <= u64::MAX,
        ensures
            final(self).wf(),
            final(self).size_spec() == old(self).size_spec(),
            final(self).layers_spec() == old(self).layers_spec(),
            final(self).config_spec() == old(self).config_spec(),
            final(keys).capacity == old(keys).capacity,
            ({
                let (keys2, current2, stack2, report2, rollover2) = tick_positions(
                    old(self).keys_view(),
                    old(self).current_view(),
                    old(self).stack_spec(),
                    Seq::<Keycode>::empty(),
                    old(self).flags_spec().rollover,
                    old(self).layers_spec(),
                    old(self).config_spec(),
                    keypresses@,
                    now,
                    old(keys).capacity as int,
                    old(self).size_spec(),
                );
                &&& final(self).keys_view() == keys2
                &&& final(self).current_view() == current2
                &&& final(self).stack_spec() == stack2
                &&& final(keys).keys@ == report2
                &&& final(self).flags_spec().rollover == rollover2
            }),
            forall|i: int| 0 <= i < final(keys).keys@.len() ==> final(keys).keys@[i] != NO_EVENT,
            final(self).stack_spec().no_duplicates(),
            final(self).stack_spec().len() <= final(self).layers_spec(),
            forall|p: int|
                0 <= p < old(self).size_spec() && final(self).current_view()[p] != old(
                    self,
                ).current_view()[p] ==> key_is_finished(
                    old(self).keys_view()[p * old(self).layers_spec() + old(self).current_view()[p]],
                ),
    {
        keys.clear();
        let size = self.size;
        let n_layers = self.n_layers;
        let ghost cfg = self.modtap_config;
        let ghost cap = keys.capacity as int;
        let mut p: usize = 0;
        while p < size
            invariant
                p <= size,
                self.size == size,
                self.n_layers == n_layers,
                size == old(self).size,
                n_layers == old(self).n_layers,
                1 <= n_layers <= 256,
                self.modtap_config == old(self).modtap_config,
                self.modtap_config == cfg,
                keypresses@.len() == size,
                now + cfg.mod_timeout <= u64::MAX,
                now + cfg.tap_release <= u64::MAX,
                now + cfg.tap_repeat <= u64::MAX,
                self.current@.len() == size,
                self.keys@.len() == size * n_layers,
                old(self).current@.len() == size,
                old(self).keys@.len() == size * n_layers,
                keys.capacity == old(keys).capacity,
                cap == old(keys).capacity as int,
                forall|pp: int|
                    0 <= pp < size ==> (#[trigger] self.current@[pp]) < n_layers,
                stack_view(self.layers).no_duplicates(),
                forall|i: int|
                    0 <= i < stack_view(self.layers).len() ==> (#[trigger] stack_view(
                        self.layers,
                    )[i]) < n_layers,
                forall|i: int|
                    0 <= i < self.keys@.len() ==> key_wf(#[trigger] self.keys@[i], n_layers as int),
                ({
                    let (keys2, current2, stack2, report2, rollover2) = tick_positions(
                        old(self).keys@,
                        old(self).current@,
                        stack_view(old(self).layers),
                        Seq::<Keycode>::empty(),
                        old(self).flags.rollover,
                        n_layers as int,
                        cfg,
                        keypresses@,
                        now,
                        cap,
                        p as int,
                    );
                    &&& self.keys@ == keys2
                    &&& self.current@ == current2
                    &&& stack_view(self.layers) == stack2
                    &&& keys.keys@ == report2
                    &&& self.flags.rollover == rollover2
                }),
                forall|i: int| 0 <= i < keys.keys@.len() ==> keys.keys@[i] != NO_EVENT,
                forall|i: int|
                    p * n_layers <= i < size * n_layers ==> self.keys@[i] == old(self).keys@[i],
                forall|pp: int| p <= pp < size ==> self.current@[pp] == old(self).current@[pp],
                forall|pp: int|
                    0 <= pp < p && self.current@[pp] != old(self).current@[pp]
                        ==> key_is_finished(
                        old(self).keys@[pp * n_layers + old(self).current@[pp]],
                    ),
            decreases size - p,
        {
            proof {
                assert((p + 1) * n_layers == p * n_layers + n_layers) by (nonlinear_arith);
                assert((p + 1) * n_layers <= size * n_layers) by (nonlinear_arith)
                    requires
                        p < size,
                        n_layers >= 1,
                ;
            }
            let pressed = keypresses[p];
            let cur0: Layer = self.current[p];
            let total: usize = self.keys.len();
            assert(p * n_layers + (cur0 as usize) < total);
            let idx0: usize = p * n_layers + (cur0 as usize);
            let machine0 = self.keys[idx0];
            let finished = machine0.is_finished();
            let cur: Layer = if finished {
                self.layers.active()
            } else {
                cur0
            };
            self.current.set(p, cur);
            let idx: usize = p * n_layers + (cur as usize);
            let machine = self.keys[idx];
            let ghost stack_before = stack_view(self.layers);
            proof {
                lemma_key_step_wf(
                    machine,
                    pressed,
                    now,
                    cfg,
                    stack_before,
                    n_layers as int,
                );
            }
            let emitted: Option<Keycode> = match machine {
                Key::Button(mut b) => {
                    b.key_transition(pressed);
                    self.keys.set(idx, Key::Button(b));
                    b.get_key()
                },
                Key::Layer(mut l) => {
                    l.layer_transition(pressed, &mut self.layers);
                    self.keys.set(idx, Key::Layer(l));
                    None
                },
                Key::ModTap(mut m) => {
                    m.modtap_transition(pressed, now, &self.modtap_config);
                    self.keys.set(idx, Key::ModTap(m));
                    m.get_key()
                },
            };
            if let Some(k) = emitted {
                if k != NO_EVENT {
                    if !keys.push(k) {
                        self.flags.rollover = true;
                    }
                }
            }
            p = p + 1;
        }
        proof {
            stack::lemma_distinct_bytes_len(stack_view(self.layers), n_layers as int);
        }
    }

    /// How many positions the keymap drives.
    pub fn size(&self) -> (n: usize)
        ensures
            n == self.size_spec(),
    {
        self.size
    }

    /// How many layers the table has.
    pub fn layer_count(&self) -> (n: usize)
        ensures
            n == self.layers_spec(),
    {
        self.n_layers
    }

    /// The layer whose machine currently owns position `p`.
    pub fn current_layer(&self, p: usize) -> (l: Layer)
        requires
            self.wf(),
            p < self.size_spec(),
        ensures
            l == self.current_view()[p as int],
    {
        self.current[p]
    }

    /// The machine bound to position `p` on layer `l`.
    pub fn machine(&self, p: usize, l: usize) -> (k: Key)
        requires
            self.wf(),
            p < self.size_spec(),
            l < self.layers_spec(),
        ensures
            k == self.keys_view()[p * self.layers_spec() + l],
    {
        proof {
            assert((p + 1) * self.n_layers <= self.size * self.n_layers) by (nonlinear_arith)
                requires
                    p < self.size,
                    self.n_layers >= 1,
            ;
            assert((p + 1) * self.n_layers == p * self.n_layers + self.n_layers) by (
            nonlinear_arith);
        }
        let total: usize = self.keys.len();
        assert(p * self.n_layers + l < total);
        self.keys[p * self.n_layers + l]
    }

    /// The stack of active layers, bottom first.
    pub fn active_layers(&self) -> (r: Vec<Layer>)
        ensures
            r@ == self.stack_spec(),
    {
        self.layers.to_vec()
    }
}

impl Key {
    /// A fresh machine for one table cell, at rest.
    pub fn new(ks: KeyShorthand) -> (r: Self)
        ensures
            r == key_new_spec(ks),
    {
        match ks {
            KeyShorthand::Kb(k) => Key::Button(ButtonState::new(k)),
            KeyShorthand::La(l) => Key::Layer(LayerState::new(l)),
            KeyShorthand::MT(m, t) => Key::ModTap(ModTapState::new(m, t)),
        }
    }

    /// Whether the machine rests in its finished state.
    pub fn is_finished(&self) -> (r: bool)
        ensures
            r == key_is_finished(*self),
    {
        match self {
            Key::Button(b) => b.is_finished(),
            Key::Layer(l) => l.is_finished(),
            Key::ModTap(m) => m.is_finished(),
        }
    }
}

} // verus!
