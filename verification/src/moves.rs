//! Moving the elements of one vector into another without copying them.

use vstd::prelude::*;

verus! {

/// Moves every element of `from` to the end of `into`, last element first.
pub(crate) fn pour_reversed<T>(from: &mut Vec<T>, into: &mut Vec<T>)
    ensures
        final(from)@.len() == 0,
        final(into)@ == old(into)@ + old(from)@.reverse(),
{
    let ghost start = into@;
    let ghost all = from@;
    while from.len() > 0
        invariant
            from@ == all.take(from@.len() as int),
            from@.len() <= all.len(),
            into@ == start + all.skip(from@.len() as int).reverse(),
        decreases from@.len(),
    {
        let ghost n = from@.len() as int;
        let d = from.pop().unwrap();
        into.push(d);
        assert(into@ == start + all.skip(n - 1).reverse()) by {
            let a = all.skip(n).reverse().push(all[n - 1]);
            let b = all.skip(n - 1).reverse();
            assert(a.len() == b.len());
            assert forall|i: int| 0 <= i < a.len() implies a[i] == b[i] by {}
            assert(a == b);
        }
        assert(from@ == all.take(n - 1));
    }
    assert(all.skip(0) == all);
}

} // verus!
