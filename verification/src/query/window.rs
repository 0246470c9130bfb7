//! Where the rows of a range query lie in a collection: the rows that a condition keeps are
//! one stretch of the canonical order.

use vstd::prelude::*;
use vstd::relations::total_ordering;
use crate::conv::AsMaybeStr;
use crate::query::model::{canonical, key_of_row, matcher, row_matches, KeyOrder};
use crate::query::plan::Range;

verus! {

/// The predicate `keep` holds of the items of `s` from `lo` up to `hi`, and of no other.
pub open spec fn keeps_stretch<A>(s: Seq<A>, keep: spec_fn(A) -> bool, lo: int, hi: int) -> bool {
    &&& 0 <= lo <= hi <= s.len()
    &&& forall|i: int| 0 <= i < s.len() ==> (keep(#[trigger] s[i]) <==> lo <= i < hi)
}

/// Whatever lies between two items that `keep` holds of is kept too.
pub open spec fn keeps_between<A>(s: Seq<A>, keep: spec_fn(A) -> bool) -> bool {
    forall|i: int, j: int, k: int|
        0 <= i < j < k < s.len() && keep(#[trigger] s[i]) && keep(#[trigger] s[k]) ==> keep(
            #[trigger] s[j],
        )
}

/// A filter that keeps one stretch of a sequence gives that stretch.
pub proof fn lemma_filter_stretch<A>(s: Seq<A>, keep: spec_fn(A) -> bool, lo: int, hi: int)
    requires
        keeps_stretch(s, keep, lo, hi),
    ensures
        s.filter(keep) == s.subrange(lo, hi),
    decreases s.len(),
{
    reveal(Seq::filter);
    if s.len() == 0 {
        assert(s.filter(keep) =~= s.subrange(lo, hi));
    } else {
        let n = s.len() as int;
        let rest = s.drop_last();
        let lo1 = if lo < n - 1 { lo } else { n - 1 };
        let hi1 = if hi < n - 1 { hi } else { n - 1 };
        assert forall|i: int| 0 <= i < rest.len() implies (keep(#[trigger] rest[i]) <==> lo1 <= i
            < hi1) by {
            assert(rest[i] == s[i]);
        }
        lemma_filter_stretch(rest, keep, lo1, hi1);
        if keep(s.last()) {
            assert(keep(s[n - 1]));
            assert(hi == n && lo <= n - 1);
            assert(rest.subrange(lo1, hi1).push(s.last()) =~= s.subrange(lo, hi));
        } else {
            assert(!keep(s[n - 1]));
            assert(rest.subrange(lo1, hi1) =~= s.subrange(lo, hi));
        }
    }
}

/// A predicate that keeps whatever lies between two kept items keeps one stretch.
pub proof fn lemma_stretch_exists<A>(s: Seq<A>, keep: spec_fn(A) -> bool) -> (span: (int, int))
    requires
        keeps_between(s, keep),
    ensures
        keeps_stretch(s, keep, span.0, span.1),
    decreases s.len(),
{
    if s.len() == 0 {
        (0, 0)
    } else {
        let n = s.len() as int;
        let rest = s.drop_last();
        assert forall|i: int, j: int, k: int|
            0 <= i < j < k < rest.len() && keep(#[trigger] rest[i]) && keep(
                #[trigger] rest[k],
            ) implies keep(#[trigger] rest[j]) by {
            assert(rest[i] == s[i] && rest[j] == s[j] && rest[k] == s[k]);
        }
        let (lo1, hi1) = lemma_stretch_exists(rest, keep);
        assert forall|i: int| 0 <= i < n - 1 implies (keep(#[trigger] s[i]) <==> lo1 <= i
            < hi1) by {
            assert(rest[i] == s[i]);
        }
        if keep(s[n - 1]) {
            if lo1 == hi1 {
                (n - 1, n)
            } else {
                if hi1 < n - 1 {
                    assert(keep(s[lo1]));
                    assert(keep(s[n - 1]));
                    assert(keep(s[hi1]));
                }
                (lo1, n)
            }
        } else {
            (lo1, hi1)
        }
    }
}

/// In a canonical collection, the rows that a range condition keeps are one stretch: the
/// keys fall along the collection, so a row between two rows within the bounds is within
/// them too.
pub proof fn lemma_matching_stretch<T: AsMaybeStr>(
    data: Seq<T>,
    le: KeyOrder,
    cond: Option<Range>,
) -> (span: (int, int))
    requires
        total_ordering(le),
        canonical(data, le),
    ensures
        keeps_stretch(data, matcher::<T>(cond, le), span.0, span.1),
        data.filter(matcher::<T>(cond, le)) == data.subrange(span.0, span.1),
{
    let keep = matcher::<T>(cond, le);
    assert forall|i: int, j: int, k: int|
        0 <= i < j < k < data.len() && keep(#[trigger] data[i]) && keep(
            #[trigger] data[k],
        ) implies keep(#[trigger] data[j]) by {
        let ki = key_of_row(data[i]);
        let kj = key_of_row(data[j]);
        let kk = key_of_row(data[k]);
        assert(le(kj, ki));
        assert(le(kk, kj));
        assert(row_matches(data[i], cond, le));
        assert(row_matches(data[k], cond, le));
        match cond {
            Some(Range::Single(bound)) => {
                assert(bound.admits(ki, le) && bound.admits(kk, le));
                assert(le(kj, bound.key) || le(bound.key, kj));
                assert(bound.admits(kj, le));
            },
            Some(Range::And(upper, lower)) => {
                assert(upper.admits(ki, le) && upper.admits(kk, le));
                assert(lower.admits(ki, le) && lower.admits(kk, le));
                assert(upper.admits(kj, le));
                assert(lower.admits(kj, le));
            },
            None => {},
        }
        assert(row_matches(data[j], cond, le));
    }
    let span = lemma_stretch_exists(data, keep);
    lemma_filter_stretch(data, keep, span.0, span.1);
    span
}

} // verus!
