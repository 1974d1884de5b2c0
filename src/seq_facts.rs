//! Small facts about sequences that the modules share.

use vstd::prelude::*;

verus! {

/// An element is in a sequence with one more pushed exactly when it was there
/// before or is the one pushed.
pub proof fn lemma_push_contains<T>(q: Seq<T>, x: T, e: T)
    ensures
        q.push(x).contains(e) <==> (q.contains(e) || x == e),
{
    let p = q.push(x);
    if p.contains(e) {
        let k = choose|k: int| 0 <= k < p.len() && p[k] == e;
        if k < q.len() {
            assert(q[k] == e);
        }
    }
    if q.contains(e) {
        let k = choose|k: int| 0 <= k < q.len() && q[k] == e;
        assert(p[k] == e);
    }
    assert(p[q.len() as int] == x);
}

} // verus!
