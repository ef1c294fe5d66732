//! The first element of a sequence of which something holds.

use vstd::prelude::*;

verus! {

/// The position of the first element of `s` of which `wanted` holds; the length of `s`
/// where it holds of none.
pub open spec fn first_where<A>(s: Seq<A>, wanted: spec_fn(A) -> bool) -> int
    decreases s.len(),
{
    if s.len() == 0 {
        0
    } else if wanted(s[0]) {
        0
    } else {
        1 + first_where(s.drop_first(), wanted)
    }
}

/// Where `wanted` holds of none of the first `i` elements and of the next one, if there
/// is one, `i` is the position that `first_where` gives.
pub proof fn lemma_first_where<A>(s: Seq<A>, wanted: spec_fn(A) -> bool, i: int)
    requires
        0 <= i <= s.len(),
        forall|k: int| 0 <= k < i ==> !wanted(#[trigger] s[k]),
        i < s.len() ==> wanted(s[i]),
    ensures
        first_where(s, wanted) == i,
    decreases i,
{
    if i > 0 {
        let rest = s.drop_first();
        assert forall|k: int| 0 <= k < i - 1 implies !wanted(#[trigger] rest[k]) by {
            assert(rest[k] == s[k + 1]);
        }
        lemma_first_where(rest, wanted, i - 1);
    }
}

/// `first_where` gives the first position at which `wanted` holds: it holds of no
/// element before it, and of the one at it, unless it is the length of `s`.
pub proof fn lemma_first_where_is_first<A>(s: Seq<A>, wanted: spec_fn(A) -> bool)
    ensures
        0 <= first_where(s, wanted) <= s.len(),
        forall|k: int| 0 <= k < first_where(s, wanted) ==> !wanted(#[trigger] s[k]),
        first_where(s, wanted) < s.len() ==> wanted(s[first_where(s, wanted)]),
    decreases s.len(),
{
    if s.len() > 0 && !wanted(s[0]) {
        let rest = s.drop_first();
        lemma_first_where_is_first(rest, wanted);
        assert forall|k: int| 0 <= k < first_where(s, wanted) implies !wanted(
            #[trigger] s[k],
        ) by {
            if k > 0 {
                assert(s[k] == rest[k - 1]);
            }
        }
        if first_where(s, wanted) < s.len() {
            assert(s[first_where(s, wanted)] == rest[first_where(rest, wanted)]);
        }
    }
}

} // verus!
