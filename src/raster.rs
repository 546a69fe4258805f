//! Row-major layout of a frame: pixel `(i, j)` sits at `j * width + i`.
use vstd::prelude::*;

verus! {

/// Fills row `j` of a frame: entry `i` of `row` becomes `pixel(i, j)`. Rows do
/// not depend on each other, so a frame's rows may be filled in any order.
pub fn fill_row<F: Fn(usize, usize) -> u32>(row: &mut [u32], j: usize, pixel: &F)
    requires
        forall|i: usize| i < old(row)@.len() ==> pixel.requires((i, j)),
    ensures
        final(row)@.len() == old(row)@.len(),
        forall|i: usize| i < final(row)@.len() ==> pixel.ensures((i, j), #[trigger] final(row)@[i as int]),
{
    let n = row.len();
    let mut i: usize = 0;
    while i < n
        invariant
            n == row@.len(),
            i <= n,
            forall|k: usize| k < n ==> pixel.requires((k, j)),
            forall|k: usize| k < i ==> pixel.ensures((k, j), #[trigger] row@[k as int]),
        decreases n - i,
    {
        let v = pixel(i, j);
        row[i] = v;
        i += 1;
    }
}

} // verus!
