//! Element-wise interpolation between two sequences.
use crate::fraction::Fraction;
use crate::interpolate::Interpolate;
use vstd::prelude::*;

verus! {

/// The number of elements that `interpolate_array` writes: the length of the
/// shortest of the three sequences.
pub open spec fn overlap_len(a: int, b: int, out: int) -> int {
    if a <= b && a <= out {
        a
    } else if b <= out {
        b
    } else {
        out
    }
}

/// Writes `lerp([input[0][i], input[1][i]], x)` into `output[i]` for every index
/// that all three sequences have. Elements of `output` past the shortest input
/// are left as they were.
pub fn interpolate_array<T: Interpolate>(input: [&[T]; 2], output: &mut [T], x: Fraction)
    requires
        x.wf(),
    ensures
        final(output)@.len() == old(output)@.len(),
        forall|i: int|
            0 <= i < overlap_len(input[0]@.len() as int, input[1]@.len() as int, old(output)@.len() as int)
                ==> #[trigger] final(output)@[i] == T::lerp_spec(input[0]@[i], input[1]@[i], x),
        forall|i: int|
            overlap_len(input[0]@.len() as int, input[1]@.len() as int, old(output)@.len() as int) <= i
                < old(output)@.len() ==> #[trigger] final(output)@[i] == old(output)@[i],
{
    let a = input[0];
    let b = input[1];
    let mut n: usize = a.len();
    if b.len() < n {
        n = b.len();
    }
    if output.len() < n {
        n = output.len();
    }
    let mut i: usize = 0;
    while i < n
        invariant
            n == overlap_len(a@.len() as int, b@.len() as int, old(output)@.len() as int),
            a == input[0],
            b == input[1],
            i <= n,
            x.wf(),
            output@.len() == old(output)@.len(),
            forall|k: int| 0 <= k < i ==> #[trigger] output@[k] == T::lerp_spec(a@[k], b@[k], x),
            forall|k: int| i <= k < output@.len() ==> #[trigger] output@[k] == old(output)@[k],
        decreases n - i,
    {
        output[i] = T::lerp([a[i], b[i]], x);
        i = i + 1;
    }
}

} // verus!
