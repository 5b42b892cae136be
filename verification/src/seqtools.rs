//! Small lemmas about filtered sequences, used to relate the queue's
//! snapshot queries and the resolver's scans to their loop bodies.

use vstd::prelude::*;

verus! {

/// Extending a prefix by one element extends its filtered view by that
/// element exactly when the predicate holds of it.
pub proof fn lemma_filter_take_step<A>(s: Seq<A>, i: int, pred: spec_fn(A) -> bool)
    requires
        0 <= i < s.len(),
    ensures
        pred(s[i]) ==> s.take(i + 1).filter(pred) == s.take(i).filter(pred).push(s[i]),
        !pred(s[i]) ==> s.take(i + 1).filter(pred) == s.take(i).filter(pred),
{
    reveal(Seq::filter);
    assert(s.take(i + 1).drop_last() =~= s.take(i));
    assert(s.take(i + 1).last() == s[i]);
    assert(s.take(i + 1).filter(pred) == if pred(s.take(i + 1).last()) {
        s.take(i + 1).drop_last().filter(pred).push(s.take(i + 1).last())
    } else {
        s.take(i + 1).drop_last().filter(pred)
    });
}

} // verus!
