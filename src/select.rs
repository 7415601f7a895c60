use vstd::prelude::*;

use crate::model::Repo;

verus! {

/// The relation between a provider's candidates and the records it returns:
/// the first `limit` candidates that `keep` accepts, in upstream order, each
/// turned into the record at the same position as `made_from` describes.
pub open spec fn selected<T>(
    cands: Seq<T>,
    keep: spec_fn(T) -> bool,
    limit: nat,
    out: Seq<Repo>,
    made_from: spec_fn(Repo, T) -> bool,
) -> bool {
    let sel = cands.filter(keep);
    &&& out.len() == if sel.len() < limit {
        sel.len()
    } else {
        limit
    }
    &&& forall|i: int| 0 <= i < out.len() ==> made_from(#[trigger] out[i], sel[i])
}

/// What `keep` accepts among the first `i` candidates is a prefix of what it
/// accepts among all of them.
pub proof fn lemma_filter_prefix<T>(s: Seq<T>, keep: spec_fn(T) -> bool, i: int)
    requires
        0 <= i <= s.len(),
    ensures
        s.subrange(0, i).filter(keep).len() <= s.filter(keep).len(),
        forall|j: int|
            0 <= j < s.subrange(0, i).filter(keep).len() ==> #[trigger] s.subrange(0, i).filter(keep)[j]
                == s.filter(keep)[j],
    decreases s.len() - i,
{
    if i < s.len() {
        lemma_filter_prefix(s, keep, i + 1);
        reveal(Seq::filter);
        assert(s.subrange(0, i + 1).drop_last() =~= s.subrange(0, i));
        let a = s.subrange(0, i).filter(keep);
        let b = s.subrange(0, i + 1).filter(keep);
        assert forall|j: int| 0 <= j < a.len() implies #[trigger] a[j] == s.filter(keep)[j] by {
            assert(a[j] == b[j]);
        }
    } else {
        assert(s.subrange(0, i) =~= s);
    }
}

/// Every record of a selection meets what `made_from` and `keep` say of the
/// candidate it was made from, and there are at most `limit` of them.
pub proof fn lemma_selected<T>(
    cands: Seq<T>,
    keep: spec_fn(T) -> bool,
    limit: nat,
    out: Seq<Repo>,
    made_from: spec_fn(Repo, T) -> bool,
    i: int,
) -> (c: T)
    requires
        selected(cands, keep, limit, out, made_from),
        0 <= i < out.len(),
    ensures
        out.len() <= limit,
        keep(c),
        made_from(out[i], c),
{
    cands.lemma_filter_pred(keep, i);
    cands.filter(keep)[i]
}

} // verus!
