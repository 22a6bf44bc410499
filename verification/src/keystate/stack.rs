//! The stack of active layers: an ordered, duplicate-free LIFO of layer
//! indices, most recently activated last. The active layer is the top of the
//! stack, or layer 0 when nothing is shifted.
//!
//! The stack lives in a fixed-capacity `heapless` vector so the scan loop
//! stays heap-free; the vector itself is opaque to the verifier and is reached
//! only through the trusted wrappers below, whose contracts state what the
//! `heapless` source shows.

use vstd::prelude::*;
use crate::Layer;

verus! {

/// Capacity of the backing vector: one more than the number of distinct `u8`
/// layer indices, so promoting onto a duplicate-free stack can never overflow.
pub const STACK_CAP: usize = 257;

/// Ordered collection of the active layers.
#[verifier::external_body]
pub struct LayerStack {
    inner: heapless::Vec<Layer, STACK_CAP>,
}

/// What the stack holds, bottom first. The backing vector is opaque to the
/// verifier; this names its contents, and the trusted wrappers state how each
/// operation moves them.
pub uninterp spec fn stack_view(s: LayerStack) -> Seq<Layer>;

/// The active layer under a given stack: its top, or 0 when it is empty.
pub open spec fn stack_active(s: Seq<Layer>) -> Layer {
    if s.len() == 0 {
        0
    } else {
        s.last()
    }
}

/// A stack after removing every occurrence of `layer`, order kept.
pub open spec fn stack_remove(s: Seq<Layer>, layer: Layer) -> Seq<Layer>
    decreases s.len(),
{
    if s.len() == 0 {
        s
    } else {
        let rest = stack_remove(s.drop_last(), layer);
        if s.last() == layer {
            rest
        } else {
            rest.push(s.last())
        }
    }
}

/// A stack after re-promoting `layer`: any occurrence removed, then pushed on
/// top.
pub open spec fn stack_promote(s: Seq<Layer>, layer: Layer) -> Seq<Layer> {
    stack_remove(s, layer).push(layer)
}

/// Whether `element` survives a removal of `removed`.
fn keeps(element: Layer, removed: Layer) -> (r: bool)
    ensures
        r == (element != removed),
{
    element != removed
}

impl LayerStack {
    /// Relies on `heapless::Vec::new`: a fresh vector is empty.
    #[verifier::external_body]
    pub fn new() -> (s: Self)
        ensures
            stack_view(s) == Seq::<Layer>::empty(),
    {
        LayerStack { inner: heapless::Vec::new() }
    }

    /// Relies on `<[Layer]>::last`, reached through the vector's slice view:
    /// the last element, or `None` of an empty vector.
    #[verifier::external_body]
    pub(crate) fn last(&self) -> (r: Option<Layer>)
        ensures
            match r {
                Option::Some(l) => stack_view(*self).len() > 0 && l == stack_view(*self).last(),
                Option::None => stack_view(*self).len() == 0,
            },
    {
        self.inner.last().copied()
    }

    /// Relies on `heapless::Vec::push`: appends while the vector is below its
    /// capacity of `STACK_CAP`, and rejects the element when it is full.
    #[verifier::external_body]
    fn push(&mut self, layer: Layer) -> (r: bool)
        ensures
            r == (stack_view(*old(self)).len() < STACK_CAP),
            r ==> stack_view(*final(self)) == stack_view(*old(self)).push(layer),
            !r ==> stack_view(*final(self)) == stack_view(*old(self)),
    {
        self.inner.push(layer).is_ok()
    }

    /// Relies on `heapless::Vec::retain`: keeps, in their order, exactly the
    /// elements the predicate accepts — here, those that differ from `layer`.
    #[verifier::external_body]
    pub(crate) fn remove(&mut self, layer: Layer)
        ensures
            stack_view(*final(self)) == stack_remove(stack_view(*old(self)), layer),
    {
        self.inner.retain(|l| keeps(*l, layer));
    }

    /// Relies on `heapless::Vec::iter` over the vector's slice view: hands the
    /// stack out as a plain vector, bottom first.
    #[verifier::external_body]
    pub fn to_vec(&self) -> (r: Vec<Layer>)
        ensures
            r@ == stack_view(*self),
    {
        self.inner.iter().copied().collect()
    }

    /// The active layer: the top of the stack, or 0 when nothing is shifted.
    pub fn active(&self) -> (r: Layer)
        ensures
            r == stack_active(stack_view(*self)),
    {
        match self.last() {
            Option::Some(l) => l,
            Option::None => 0,
        }
    }

    /// Promote `layer` to the top: drop any current occurrence, then push it.
    /// A duplicate-free stack of bytes always has room for this, so the push
    /// cannot be rejected.
    pub fn promote(&mut self, layer: Layer)
        requires
            stack_view(*old(self)).no_duplicates(),
        ensures
            stack_view(*final(self)) == stack_promote(stack_view(*old(self)), layer),
    {
        self.remove(layer);
        proof {
            lemma_remove_no_duplicates(stack_view(*old(self)), layer);
            lemma_distinct_bytes_len(stack_remove(stack_view(*old(self)), layer), 256);
        }
        let _ = self.push(layer);
    }
}

/// Re-promoting always wins: whatever the stack held and in whatever order
/// layers were activated before, the layer promoted last is the active one.
pub proof fn lemma_promote_makes_active(s: Seq<Layer>, layer: Layer)
    ensures
        stack_active(stack_promote(s, layer)) == layer,
{
}

/// A removal keeps exactly the other elements — no more than were there, none
/// equal to the removed layer, and none invented.
pub proof fn lemma_remove_membership(s: Seq<Layer>, layer: Layer)
    ensures
        stack_remove(s, layer).len() <= s.len(),
        forall|l: Layer|
            #[trigger] stack_remove(s, layer).contains(l) <==> (s.contains(l) && l != layer),
    decreases s.len(),
{
    if s.len() > 0 {
        let rest = s.drop_last();
        lemma_remove_membership(rest, layer);
        assert forall|l: Layer| #[trigger] s.contains(l) implies rest.contains(l) || l == s.last() by {
            let i = choose|i: int| 0 <= i < s.len() && s[i] == l;
            if i < s.len() - 1 {
                assert(rest[i] == l);
            }
        }
        assert forall|l: Layer| rest.contains(l) implies s.contains(l) by {
            let i = choose|i: int| 0 <= i < rest.len() && rest[i] == l;
            assert(s[i] == l);
        }
        assert(s.contains(s.last()));
        let out = stack_remove(s, layer);
        let rout = stack_remove(rest, layer);
        if s.last() != layer {
            assert forall|l: Layer| #[trigger] out.contains(l) implies rout.contains(l) || l
                == s.last() by {
                let i = choose|i: int| 0 <= i < out.len() && out[i] == l;
                if i < out.len() - 1 {
                    assert(rout[i] == l);
                }
            }
            assert forall|l: Layer| rout.contains(l) implies out.contains(l) by {
                let i = choose|i: int| 0 <= i < rout.len() && rout[i] == l;
                assert(out[i] == l);
            }
            assert(out.contains(s.last())) by {
                assert(out[out.len() - 1] == s.last());
            }
        }
    }
}

/// Removing a layer keeps a duplicate-free stack duplicate-free.
pub proof fn lemma_remove_no_duplicates(s: Seq<Layer>, layer: Layer)
    requires
        s.no_duplicates(),
    ensures
        stack_remove(s, layer).no_duplicates(),
    decreases s.len(),
{
    if s.len() > 0 {
        let rest = s.drop_last();
        lemma_remove_no_duplicates(rest, layer);
        lemma_remove_membership(rest, layer);
        let rout = stack_remove(rest, layer);
        if s.last() != layer {
            assert(!rest.contains(s.last())) by {
                if rest.contains(s.last()) {
                    let i = choose|i: int| 0 <= i < rest.len() && rest[i] == s.last();
                    assert(s[i] == s[s.len() - 1]);
                }
            }
            assert(!rout.contains(s.last()));
            assert forall|i: int, j: int|
                0 <= i < j < rout.push(s.last()).len() implies rout.push(s.last())[i] != rout.push(
                s.last(),
            )[j] by {
                if j < rout.len() {
                    assert(rout[i] != rout[j]);
                } else {
                    assert(rout.contains(rout[i])) by {
                        assert(rout[i] == rout[i]);
                    }
                }
            }
        }
    }
}

/// Pushing a fresh element keeps a duplicate-free stack duplicate-free.
proof fn lemma_push_no_duplicates(s: Seq<Layer>, x: Layer)
    requires
        s.no_duplicates(),
        !s.contains(x),
    ensures
        s.push(x).no_duplicates(),
{
    assert forall|i: int, j: int| 0 <= i < j < s.push(x).len() implies s.push(x)[i] != s.push(
        x,
    )[j] by {
        if j < s.len() {
            assert(s[i] != s[j]);
        } else {
            assert(s.contains(s[i])) by {
                assert(s[i] == s[i]);
            }
        }
    }
}

/// A removal keeps the stack well formed: still duplicate-free, every element
/// still below `bound`.
pub proof fn lemma_remove_wf(s: Seq<Layer>, layer: Layer, bound: int)
    requires
        s.no_duplicates(),
        forall|i: int| 0 <= i < s.len() ==> s[i] < bound,
    ensures
        stack_remove(s, layer).no_duplicates(),
        forall|i: int| 0 <= i < stack_remove(s, layer).len() ==> stack_remove(s, layer)[i] < bound,
{
    lemma_remove_no_duplicates(s, layer);
    lemma_remove_membership(s, layer);
    let out = stack_remove(s, layer);
    assert forall|i: int| 0 <= i < out.len() implies out[i] < bound by {
        assert(out.contains(out[i])) by {
            assert(out[i] == out[i]);
        }
        let j = choose|j: int| 0 <= j < s.len() && s[j] == out[i];
    }
}

/// A promotion of a layer below `bound` keeps the stack well formed: still
/// duplicate-free, every element still below `bound`.
pub proof fn lemma_promote_wf(s: Seq<Layer>, layer: Layer, bound: int)
    requires
        s.no_duplicates(),
        forall|i: int| 0 <= i < s.len() ==> s[i] < bound,
        layer < bound,
    ensures
        stack_promote(s, layer).no_duplicates(),
        forall|i: int|
            0 <= i < stack_promote(s, layer).len() ==> stack_promote(s, layer)[i] < bound,
{
    lemma_remove_wf(s, layer, bound);
    lemma_remove_membership(s, layer);
    let rem = stack_remove(s, layer);
    assert(!rem.contains(layer));
    lemma_push_no_duplicates(rem, layer);
    assert forall|i: int| 0 <= i < stack_promote(s, layer).len() implies stack_promote(
        s,
        layer,
    )[i] < bound by {
        if i < rem.len() {
            assert(stack_promote(s, layer)[i] == rem[i]);
        }
    }
}

/// Pigeonhole for layer stacks: a duplicate-free sequence of bytes below
/// `bound` has at most `bound` entries.
pub proof fn lemma_distinct_bytes_len(s: Seq<Layer>, bound: int)
    requires
        s.no_duplicates(),
        forall|i: int| 0 <= i < s.len() ==> s[i] < bound,
        0 <= bound <= 256,
    ensures
        s.len() <= bound,
{
    let cast = |l: Layer| l as int;
    let t = s.map_values(cast);
    assert(vstd::relations::injective(cast)) by {
        assert(forall|a: Layer, b: Layer| #[trigger] cast(a) == #[trigger] cast(b) ==> a == b);
    }
    s.lemma_no_duplicates_injective(cast);
    t.unique_seq_to_set();
    let range = vstd::set_lib::set_int_range(0, bound);
    vstd::set_lib::lemma_int_range(0, bound);
    assert(t.to_set().subset_of(range)) by {
        assert forall|e: int| t.to_set().contains(e) implies range.contains(e) by {
            let i = choose|i: int| 0 <= i < t.len() && t[i] == e;
            assert(t[i] == cast(s[i]));
        }
    }
    vstd::set_lib::lemma_len_subset(t.to_set(), range);
}

} // verus!
