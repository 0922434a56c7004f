//! Removal passes over entity lists. A frame's collision pass first
//! computes which entities were hit — as a mark per position or a list
//! of positions — and the list is then rebuilt once, keeping the rest.

use vstd::prelude::*;

verus! {

/// The subsequence of `s` at the positions whose mark is false.
pub open spec fn spec_keep_unmarked<T>(s: Seq<T>, m: Seq<bool>) -> Seq<T>
    decreases s.len(),
{
    if s.len() == 0 {
        Seq::empty()
    } else {
        let init = spec_keep_unmarked(s.drop_last(), m.drop_last());
        if m[s.len() - 1] {
            init
        } else {
            init.push(s.last())
        }
    }
}

/// Whether the position list `idx` names position `i`.
pub open spec fn spec_has_index(idx: Seq<usize>, i: int) -> bool {
    exists|j: int| 0 <= j < idx.len() && idx[j] == i
}

/// The subsequence of `s` at the positions that `idx` does not name.
pub open spec fn spec_keep_unindexed<T>(s: Seq<T>, idx: Seq<usize>) -> Seq<T>
    decreases s.len(),
{
    if s.len() == 0 {
        Seq::empty()
    } else {
        let init = spec_keep_unindexed(s.drop_last(), idx);
        if spec_has_index(idx, s.len() - 1) {
            init
        } else {
            init.push(s.last())
        }
    }
}

/// Rebuild a list, dropping every position whose mark is set.
pub fn retain_unmarked<T: Copy>(v: &Vec<T>, marks: &Vec<bool>) -> (r: Vec<T>)
    requires
        marks@.len() == v@.len(),
    ensures
        r@ == spec_keep_unmarked(v@, marks@),
{
    let mut out: Vec<T> = Vec::new();
    let mut i: usize = 0;
    while i < v.len()
        invariant
            marks@.len() == v@.len(),
            i <= v@.len(),
            out@ == spec_keep_unmarked(v@.take(i as int), marks@.take(i as int)),
        decreases v@.len() - i,
    {
        if !marks[i] {
            out.push(v[i]);
        }
        i = i + 1;
        proof {
            assert(v@.take(i as int).drop_last() =~= v@.take(i - 1));
            assert(marks@.take(i as int).drop_last() =~= marks@.take(i - 1));
        }
    }
    proof {
        assert(v@.take(v@.len() as int) =~= v@);
        assert(marks@.take(marks@.len() as int) =~= marks@);
    }
    out
}

/// Whether `indexes` contains the position `i`.
pub fn contains_index(indexes: &Vec<usize>, i: usize) -> (r: bool)
    ensures
        r == spec_has_index(indexes@, i as int),
{
    let mut j: usize = 0;
    while j < indexes.len()
        invariant
            j <= indexes@.len(),
            forall|k: int| 0 <= k < j ==> indexes@[k] != i,
        decreases indexes@.len() - j,
    {
        if indexes[j] == i {
            return true;
        }
        j = j + 1;
    }
    false
}

/// Rebuild a list, dropping every position named by `indexes`.
/// Positions outside the list are ignored, so a stale index cannot
/// fault.
pub fn remove_at_indexes<T: Copy>(v: &Vec<T>, indexes: &Vec<usize>) -> (r: Vec<T>)
    ensures
        r@ == spec_keep_unindexed(v@, indexes@),
{
    let mut out: Vec<T> = Vec::new();
    let mut i: usize = 0;
    while i < v.len()
        invariant
            i <= v@.len(),
            out@ == spec_keep_unindexed(v@.take(i as int), indexes@),
        decreases v@.len() - i,
    {
        if !contains_index(indexes, i) {
            out.push(v[i]);
        }
        i = i + 1;
        proof {
            assert(v@.take(i as int).drop_last() =~= v@.take(i - 1));
        }
    }
    proof {
        assert(v@.take(v@.len() as int) =~= v@);
    }
    out
}

/// Removal is harmless on indices that are already gone: if no named
/// position is still within the list, the pass leaves it unchanged.
pub proof fn lemma_remove_absent_indexes<T>(s: Seq<T>, idx: Seq<usize>)
    requires
        forall|i: int| 0 <= i < s.len() ==> !spec_has_index(idx, i),
    ensures
        spec_keep_unindexed(s, idx) == s,
    decreases s.len(),
{
    if s.len() > 0 {
        lemma_remove_absent_indexes(s.drop_last(), idx);
        assert(spec_keep_unindexed(s, idx) =~= s);
    } else {
        assert(spec_keep_unindexed(s, idx) =~= s);
    }
}

} // verus!
