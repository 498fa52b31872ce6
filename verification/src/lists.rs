//! Moving the items of a vector.

use vstd::prelude::*;

verus! {

/// Moves the items of `v` into a new vector, the last item first.
pub fn reversed<T>(v: Vec<T>) -> (r: Vec<T>)
    ensures
        r@ == v@.reverse(),
{
    let mut rest = v;
    let mut out: Vec<T> = Vec::new();
    while rest.len() > 0
        invariant
            rest@.len() + out@.len() == v@.len(),
            rest@ == v@.take(rest@.len() as int),
            forall|j: int| 0 <= j < out@.len() ==> out@[j] == v@[v@.len() - 1 - j],
        decreases rest.len(),
    {
        let x = rest.pop().unwrap();
        out.push(x);
    }
    assert(out@ =~= v@.reverse());
    out
}

} // verus!
