//! What holds of sequences that laws speak of.

use vstd::prelude::*;

verus! {

/// The filter of a sequence is its first element, where that is kept, and the
/// filter of the others.
pub proof fn filter_of_first<A>(all: Seq<A>, keep: spec_fn(A) -> bool)
    requires
        all.len() > 0,
    ensures
        all.filter(keep) == (if keep(all.first()) {
            seq![all.first()]
        } else {
            Seq::empty()
        }) + all.drop_first().filter(keep),
    decreases all.len(),
{
    reveal(Seq::filter);
    let head = if keep(all.first()) {
        seq![all.first()]
    } else {
        Seq::empty()
    };
    if all.len() == 1 {
        assert(all.drop_first().filter(keep) =~= Seq::empty());
        assert(all.drop_last().filter(keep) =~= Seq::empty());
        assert(all.filter(keep) =~= head + all.drop_first().filter(keep));
    } else {
        filter_of_first(all.drop_last(), keep);
        assert(all.drop_last().drop_first() =~= all.drop_first().drop_last());
        assert(all.drop_first().last() == all.last());
        let middle = all.drop_first().drop_last().filter(keep);
        assert(head + middle.push(all.last()) =~= (head + middle).push(all.last()));
    }
}

} // verus!
