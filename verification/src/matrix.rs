//! Decoding of a keyboard matrix scan: position `(row, col)` of the switch
//! matrix maps to index `row * cols + col` of the flat key vector.
//!
//! Driving the row strobes and sampling the column inputs is GPIO work that
//! stays with the caller; this module owns the pure half of a scan, folding
//! the samples of one strobed row into the flat vector.

use vstd::prelude::*;

verus! {

/// Record the column samples taken while row `row` was strobed: sample `c`
/// lands at `row * cols + c`, and every other key is left alone.
///
/// `active` is the electrical level that means "switch closed"; a sample is a
/// press exactly when it reads that level.
pub fn record_row(
    keys: &mut Vec<bool>,
    row: usize,
    cols: usize,
    samples: &Vec<bool>,
    active: bool,
)
    requires
        samples@.len() == cols,
        row * cols + cols <= old(keys)@.len(),
    ensures
        final(keys)@.len() == old(keys)@.len(),
        forall|c: int|
            0 <= c < cols ==> final(keys)@[row * cols + c] == (samples@[c] == active),
        forall|i: int|
            0 <= i < old(keys)@.len() && !(row * cols <= i < row * cols + cols)
                ==> final(keys)@[i] == old(keys)@[i],
{
    let total: usize = keys.len();
    assert(row * cols <= total);
    let base: usize = row * cols;
    let mut c: usize = 0;
    while c < cols
        invariant
            c <= cols,
            samples@.len() == cols,
            base == row * cols,
            base + cols <= keys@.len(),
            keys@.len() <= usize::MAX,
            keys@.len() == old(keys)@.len(),
            forall|j: int| 0 <= j < c ==> keys@[base + j] == (samples@[j] == active),
            forall|i: int|
                0 <= i < old(keys)@.len() && !(base <= i < base + c) ==> keys@[i] == old(
                    keys,
                )@[i],
        decreases cols - c,
    {
        let sample = samples[c];
        keys.set(base + c, sample == active);
        c = c + 1;
    }
}

} // verus!
