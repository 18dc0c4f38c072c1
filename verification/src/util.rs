//! **util** provides the coordinate helpers that prepare data for plotting.

use vstd::prelude::*;

verus! {

/// The error returned by [`zip2`] when the two coordinate sequences do not
/// have the same length. It carries both lengths so that a caller can report
/// which side was short.
#[derive(Clone, Copy, PartialEq, Eq, Structural, Debug)]
pub struct LengthMismatch {
    pub xs_len: usize,
    pub ys_len: usize,
}

/// Pairs the elements of two equal-length sequences into one sequence of
/// coordinate points, index by index.
///
/// Policy for unequal lengths: the call fails with a [`LengthMismatch`]
/// carrying both lengths; nothing is truncated.
pub fn zip2<T: Copy>(xs: &Vec<T>, ys: &Vec<T>) -> (r: Result<Vec<(T, T)>, LengthMismatch>)
    ensures
        match r {
            Ok(ps) => xs@.len() == ys@.len() && ps@.len() == xs@.len() && (forall|i: int|
                0 <= i < ps@.len() ==> ps@[i] == (xs@[i], ys@[i])),
            Err(e) => xs@.len() != ys@.len() && e.xs_len == xs@.len() && e.ys_len == ys@.len(),
        },
{
    if xs.len() != ys.len() {
        return Err(LengthMismatch { xs_len: xs.len(), ys_len: ys.len() });
    }
    let mut ps: Vec<(T, T)> = Vec::new();
    let mut i: usize = 0;
    while i < xs.len()
        invariant
            i <= xs@.len(),
            xs@.len() == ys@.len(),
            ps@.len() == i,
            forall|j: int| 0 <= j < i ==> ps@[j] == (xs@[j], ys@[j]),
        decreases xs@.len() - i,
    {
        ps.push((xs[i], ys[i]));
        i = i + 1;
    }
    Ok(ps)
}

} // verus!
