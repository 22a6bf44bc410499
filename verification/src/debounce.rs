//! Schmitt-trigger debouncer: one saturating integrator per key plus a latched
//! clean state with two thresholds, so that bounce near either edge cannot make
//! the clean state ring.

use vstd::prelude::*;

verus! {

/// Per-key debouncer state and its configuration.
///
/// Each raw sample drives `key_value[i]` up or down by `increment`
/// (saturating); `key_state[i]` latches `true` above `lo_to_hi`, `false` below
/// `hi_to_lo`, and holds in between. The window between the two thresholds is
/// the hysteresis. The usual thresholds are `lo_to_hi = 155`, `hi_to_lo = 100`.
pub struct SchmittDebouncer {
    /// Saturating integrator, one per key.
    pub key_value: Vec<u8>,
    /// Latched clean state, one per key.
    pub key_state: Vec<bool>,
    /// Amount added to or taken from an integrator on each tick.
    pub increment: u8,
    /// The clean state latches `true` when the integrator exceeds this.
    pub lo_to_hi: u8,
    /// The clean state latches `false` when the integrator drops below this.
    pub hi_to_lo: u8,
}

/// Integrator update for one tick: a saturating step toward 255 while the raw
/// sample is high, toward 0 while it is low.
pub open spec fn integrate(value: u8, raw: bool, increment: u8) -> u8 {
    if raw {
        if value + increment > 255 {
            255u8
        } else {
            (value + increment) as u8
        }
    } else {
        if value < increment {
            0u8
        } else {
            (value - increment) as u8
        }
    }
}

/// Threshold decision for one tick: latch high above `lo_to_hi`, low below
/// `hi_to_lo`, hold the previous state in between.
pub open spec fn latch(value: u8, prev: bool, lo_to_hi: u8, hi_to_lo: u8) -> bool {
    if value > lo_to_hi {
        true
    } else if value < hi_to_lo {
        false
    } else {
        prev
    }
}

/// The integrator after `n` ticks of a constant raw level.
pub open spec fn integrate_n(value: u8, raw: bool, increment: u8, n: nat) -> u8
    decreases n,
{
    if n == 0 {
        value
    } else {
        integrate(integrate_n(value, raw, increment, (n - 1) as nat), raw, increment)
    }
}

/// The clean state after `n` ticks of a constant raw level.
pub open spec fn clean_n(
    value: u8,
    state: bool,
    raw: bool,
    increment: u8,
    lo_to_hi: u8,
    hi_to_lo: u8,
    n: nat,
) -> bool
    decreases n,
{
    if n == 0 {
        state
    } else {
        latch(
            integrate_n(value, raw, increment, n),
            clean_n(value, state, raw, increment, lo_to_hi, hi_to_lo, (n - 1) as nat),
            lo_to_hi,
            hi_to_lo,
        )
    }
}

/// The number of ticks that is always enough to saturate an integrator:
/// `ceil(256 / increment)`.
pub open spec fn saturation_ticks(increment: u8) -> int
    recommends
        increment >= 1,
{
    (256 + increment - 1) / (increment as int)
}

impl SchmittDebouncer {
    /// The two per-key arrays walk in lockstep.
    pub open spec fn wf(self) -> bool {
        self.key_value@.len() == self.key_state@.len()
    }

    /// Number of keys this debouncer tracks.
    pub open spec fn keys(self) -> nat {
        self.key_value@.len()
    }

    /// A fresh debouncer: every integrator at 0, every clean state low.
    pub fn new(keys: usize, increment: u8, lo_to_hi: u8, hi_to_lo: u8) -> (r: Self)
        ensures
            r.wf(),
            r.keys() == keys,
            r.increment == increment,
            r.lo_to_hi == lo_to_hi,
            r.hi_to_lo == hi_to_lo,
            forall|i: int| 0 <= i < keys ==> r.key_value@[i] == 0u8 && !r.key_state@[i],
    {
        let mut key_value: Vec<u8> = Vec::new();
        let mut key_state: Vec<bool> = Vec::new();
        let mut i: usize = 0;
        while i < keys
            invariant
                i <= keys,
                key_value@.len() == i,
                key_state@.len() == i,
                forall|j: int| 0 <= j < i ==> key_value@[j] == 0u8 && !key_state@[j],
            decreases keys - i,
        {
            key_value.push(0);
            key_state.push(false);
            i = i + 1;
        }
        SchmittDebouncer { key_value, key_state, increment, lo_to_hi, hi_to_lo }
    }

    /// Integrate one raw sample per key, rewrite `presses` with the cleaned
    /// state, and report whether any clean state changed.
    pub fn debounce(&mut self, presses: &mut Vec<bool>) -> (changed: bool)
        requires
            old(self).wf(),
            old(presses)@.len() == old(self).keys(),
        ensures
            final(self).wf(),
            final(self).keys() == old(self).keys(),
            final(self).increment == old(self).increment,
            final(self).lo_to_hi == old(self).lo_to_hi,
            final(self).hi_to_lo == old(self).hi_to_lo,
            forall|i: int|
                0 <= i < old(self).keys() ==> final(self).key_value@[i] == integrate(
                    old(self).key_value@[i],
                    old(presses)@[i],
                    old(self).increment,
                ),
            forall|i: int|
                0 <= i < old(self).keys() ==> final(self).key_state@[i] == latch(
                    final(self).key_value@[i],
                    old(self).key_state@[i],
                    old(self).lo_to_hi,
                    old(self).hi_to_lo,
                ),
            final(presses)@ == final(self).key_state@,
            changed == exists|i: int|
                0 <= i < old(self).keys() && final(self).key_state@[i] != old(self).key_state@[i],
    {
        let mut changed = false;
        let n: usize = presses.len();
        let mut i: usize = 0;
        while i < n
            invariant
                i <= n,
                n == old(self).keys(),
                self.wf(),
                self.keys() == n,
                presses@.len() == n,
                self.increment == old(self).increment,
                self.lo_to_hi == old(self).lo_to_hi,
                self.hi_to_lo == old(self).hi_to_lo,
                forall|j: int| i <= j < n ==> self.key_value@[j] == old(self).key_value@[j],
                forall|j: int| i <= j < n ==> self.key_state@[j] == old(self).key_state@[j],
                forall|j: int| i <= j < n ==> presses@[j] == old(presses)@[j],
                forall|j: int|
                    0 <= j < i ==> self.key_value@[j] == integrate(
                        old(self).key_value@[j],
                        old(presses)@[j],
                        old(self).increment,
                    ),
                forall|j: int|
                    0 <= j < i ==> self.key_state@[j] == latch(
                        self.key_value@[j],
                        old(self).key_state@[j],
                        old(self).lo_to_hi,
                        old(self).hi_to_lo,
                    ),
                forall|j: int| 0 <= j < i ==> presses@[j] == self.key_state@[j],
                changed == exists|j: int|
                    0 <= j < i && self.key_state@[j] != old(self).key_state@[j],
            decreases n - i,
        {
            let raw = presses[i];
            let value: u8 = self.key_value[i];
            let next_value: u8 = if raw {
                if value > 255 - self.increment {
                    255
                } else {
                    value + self.increment
                }
            } else {
                if value < self.increment {
                    0
                } else {
                    value - self.increment
                }
            };
            self.key_value.set(i, next_value);

            let prev_state = self.key_state[i];
            let next_state: bool = if next_value > self.lo_to_hi {
                true
            } else if next_value < self.hi_to_lo {
                false
            } else {
                prev_state
            };
            self.key_state.set(i, next_state);

            changed = changed || (prev_state != next_state);
            presses.set(i, next_state);
            i = i + 1;
        }
        changed
    }
}

/// A constant raw level drives the integrator to its saturating closed form:
/// `min(255, value + n * increment)` when high, `max(0, value - n * increment)`
/// when low.
pub proof fn lemma_integrate_n_closed_form(value: u8, raw: bool, increment: u8, n: nat)
    ensures
        raw ==> integrate_n(value, raw, increment, n) == if value + n * increment >= 255 {
            255int
        } else {
            value + n * increment
        },
        !raw ==> integrate_n(value, raw, increment, n) == if value - n * increment <= 0 {
            0int
        } else {
            value - n * increment
        },
    decreases n,
{
    if n > 0 {
        lemma_integrate_n_closed_form(value, raw, increment, (n - 1) as nat);
        assert((n - 1) * increment + increment == n * increment) by (nonlinear_arith);
    }
}

/// Debouncer monotonicity, rising edge: however the integrator starts, a raw
/// level held high for `ceil(256 / increment)` ticks saturates it and latches
/// the clean state high (the rising threshold must be reachable, and the
/// increment nonzero).
pub proof fn lemma_debounce_rises(
    value: u8,
    state: bool,
    increment: u8,
    lo_to_hi: u8,
    hi_to_lo: u8,
    n: nat,
)
    requires
        increment >= 1,
        lo_to_hi < 255,
        n >= saturation_ticks(increment),
    ensures
        clean_n(value, state, true, increment, lo_to_hi, hi_to_lo, n),
{
    lemma_saturation_ticks_suffice(increment, n);
    assert(n >= 1) by {
        if n == 0 {
            assert(n * increment == 0);
        }
    }
    lemma_integrate_n_closed_form(value, true, increment, n);
    assert(integrate_n(value, true, increment, n) == 255);
    assert(clean_n(value, state, true, increment, lo_to_hi, hi_to_lo, n) == latch(
        integrate_n(value, true, increment, n),
        clean_n(value, state, true, increment, lo_to_hi, hi_to_lo, (n - 1) as nat),
        lo_to_hi,
        hi_to_lo,
    ));
}

/// Debouncer monotonicity, falling edge: a raw level held low for
/// `ceil(256 / increment)` ticks drains the integrator and latches the clean
/// state low (the falling threshold must be above zero, and the increment
/// nonzero).
pub proof fn lemma_debounce_falls(
    value: u8,
    state: bool,
    increment: u8,
    lo_to_hi: u8,
    hi_to_lo: u8,
    n: nat,
)
    requires
        increment >= 1,
        hi_to_lo > 0,
        n >= saturation_ticks(increment),
    ensures
        !clean_n(value, state, false, increment, lo_to_hi, hi_to_lo, n),
{
    lemma_saturation_ticks_suffice(increment, n);
    assert(n >= 1) by {
        if n == 0 {
            assert(n * increment == 0);
        }
    }
    lemma_integrate_n_closed_form(value, false, increment, n);
    assert(integrate_n(value, false, increment, n) == 0);
    assert(clean_n(value, state, false, increment, lo_to_hi, hi_to_lo, n) == latch(
        integrate_n(value, false, increment, n),
        clean_n(value, state, false, increment, lo_to_hi, hi_to_lo, (n - 1) as nat),
        lo_to_hi,
        hi_to_lo,
    ));
}

/// `ceil(256 / increment)` steps of size `increment` cover the whole range of
/// the integrator.
proof fn lemma_saturation_ticks_suffice(increment: u8, n: nat)
    requires
        increment >= 1,
        n >= saturation_ticks(increment),
    ensures
        n * increment >= 256,
{
    let d = saturation_ticks(increment);
    vstd::arithmetic::div_mod::lemma_fundamental_div_mod(256 + increment - 1, increment as int);
    assert(d * increment >= 256);
    assert(n * increment >= d * increment) by (nonlinear_arith)
        requires
            n >= d,
            d >= 0,
            increment >= 1,
    ;
}

} // verus!
