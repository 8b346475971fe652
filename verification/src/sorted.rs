//! Strictly ascending vectors of indices, used as finite sets.

use vstd::prelude::*;

verus! {

/// Every element is smaller than each element after it.
pub open spec fn strictly_ascending(s: Seq<u32>) -> bool {
    forall|i: int, j: int| 0 <= i < j < s.len() ==> s[i] < s[j]
}

/// In a strictly ascending sequence the element at a position is at least
/// the position, counted from the first element.
pub proof fn lemma_ascending_lower_bound(s: Seq<u32>, i: int)
    requires
        strictly_ascending(s),
        0 <= i < s.len(),
    ensures
        s[i] >= s[0] + i,
    decreases i,
{
    if i > 0 {
        lemma_ascending_lower_bound(s, i - 1);
        assert(s[i - 1] < s[i]);
    }
}

/// A strictly ascending sequence of indices below `bound` has at most
/// `bound` elements.
pub proof fn lemma_ascending_len_bound(s: Seq<u32>, bound: nat)
    requires
        strictly_ascending(s),
        forall|i: int| 0 <= i < s.len() ==> s[i] < bound,
    ensures
        s.len() <= bound,
{
    if s.len() > 0 {
        lemma_ascending_lower_bound(s, s.len() - 1);
        assert(s[s.len() - 1] < bound);
    }
}

/// Tells whether `v` is strictly ascending.
pub fn is_strictly_ascending(v: &Vec<u32>) -> (res: bool)
    ensures
        res == strictly_ascending(v@),
{
    if v.len() < 2 {
        return true;
    }
    let mut k: usize = 1;
    while k < v.len()
        invariant
            1 <= k <= v.len(),
            forall|i: int| 0 < i < k ==> v@[i - 1] < #[trigger] v@[i],
        decreases v.len() - k,
    {
        if v[k - 1] >= v[k] {
            assert(!strictly_ascending(v@)) by {
                if strictly_ascending(v@) {
                    assert(v@[k - 1] < v@[k as int]);
                }
            }
            return false;
        }
        k += 1;
    }
    proof {
        lemma_adjacent_ascending(v@);
    }
    true
}

/// A sequence whose neighbours ascend is strictly ascending.
pub proof fn lemma_adjacent_ascending(s: Seq<u32>)
    requires
        forall|i: int| 0 < i < s.len() ==> s[i - 1] < #[trigger] s[i],
    ensures
        strictly_ascending(s),
{
    assert forall|i: int, j: int| 0 <= i < j < s.len() implies s[i] < s[j] by {
        lemma_adjacent_step(s, i, j);
    }
}

proof fn lemma_adjacent_step(s: Seq<u32>, i: int, j: int)
    requires
        forall|k: int| 0 < k < s.len() ==> s[k - 1] < #[trigger] s[k],
        0 <= i < j < s.len(),
    ensures
        s[i] < s[j],
    decreases j - i,
{
    if j - 1 > i {
        lemma_adjacent_step(s, i, j - 1);
    }
    assert(s[j - 1] < s[j]);
}

/// The number of elements of `s` that are smaller than `x`. In a strictly
/// ascending sequence this is the position of `x`, or the position at which
/// it would be inserted.
pub open spec fn rank(s: Seq<u32>, x: u32) -> nat
    decreases s.len(),
{
    if s.len() == 0 {
        0
    } else {
        rank(s.drop_last(), x) + if s.last() < x {
            1nat
        } else {
            0nat
        }
    }
}

/// The rank is at most the length.
pub proof fn lemma_rank_bound(s: Seq<u32>, x: u32)
    ensures
        rank(s, x) <= s.len(),
    decreases s.len(),
{
    if s.len() > 0 {
        lemma_rank_bound(s.drop_last(), x);
    }
}

/// In a strictly ascending sequence, a position that has only smaller
/// elements before it and no smaller element from it on is the rank.
pub proof fn lemma_rank_is_split(s: Seq<u32>, x: u32, p: int)
    requires
        strictly_ascending(s),
        0 <= p <= s.len(),
        forall|i: int| 0 <= i < p ==> s[i] < x,
        forall|i: int| p <= i < s.len() ==> s[i] >= x,
    ensures
        rank(s, x) == p,
    decreases s.len(),
{
    if s.len() > 0 {
        let t = s.drop_last();
        if p == s.len() {
            lemma_rank_is_split(t, x, p - 1);
        } else {
            lemma_rank_is_split(t, x, p);
        }
    }
}

/// The rank of an element of a strictly ascending sequence is its position.
pub proof fn lemma_rank_of_element(s: Seq<u32>, p: int)
    requires
        strictly_ascending(s),
        0 <= p < s.len(),
    ensures
        rank(s, s[p]) == p,
{
    lemma_rank_is_split(s, s[p], p);
}

/// Finds the rank of `x` in a strictly ascending vector by bisection.
pub fn lower_bound(v: &Vec<u32>, x: u32) -> (p: usize)
    requires
        strictly_ascending(v@),
    ensures
        p == rank(v@, x),
        p <= v.len(),
        forall|i: int| 0 <= i < p ==> v@[i] < x,
        forall|i: int| p <= i < v.len() ==> v@[i] >= x,
        v@.contains(x) <==> (p < v.len() && v@[p as int] == x),
{
    let mut lo: usize = 0;
    let mut hi: usize = v.len();
    while lo < hi
        invariant
            0 <= lo <= hi <= v.len(),
            strictly_ascending(v@),
            forall|i: int| 0 <= i < lo ==> v@[i] < x,
            forall|i: int| hi <= i < v.len() ==> v@[i] >= x,
        decreases hi - lo,
    {
        let mid: usize = lo + (hi - lo) / 2;
        if v[mid] < x {
            assert forall|i: int| 0 <= i < mid + 1 implies v@[i] < x by {
                if i < mid {
                    assert(v@[i] < v@[mid as int]);
                }
            }
            lo = mid + 1;
        } else {
            assert forall|i: int| mid <= i < v.len() implies v@[i] >= x by {
                if mid < i {
                    assert(v@[mid as int] < v@[i]);
                }
            }
            hi = mid;
        }
    }
    proof {
        lemma_rank_is_split(v@, x, lo as int);
        if v@.contains(x) {
            let k = choose|k: int| 0 <= k < v@.len() && v@[k] == x;
            assert(k >= lo);
            if k > lo {
                assert(v@[lo as int] < v@[k]);
            }
        }
    }
    lo
}

/// Tells whether a strictly ascending vector holds `x`.
pub fn holds(v: &Vec<u32>, x: u32) -> (res: bool)
    requires
        strictly_ascending(v@),
    ensures
        res == v@.contains(x),
{
    let p = lower_bound(v, x);
    p < v.len() && v[p] == x
}

/// Puts `x` into a strictly ascending vector, unless it is there already.
pub fn insert_unique(v: &mut Vec<u32>, x: u32)
    requires
        strictly_ascending(old(v)@),
    ensures
        strictly_ascending(final(v)@),
        forall|y: u32| final(v)@.contains(y) <==> (old(v)@.contains(y) || y == x),
        old(v)@.contains(x) ==> final(v)@ == old(v)@,
        !old(v)@.contains(x) ==> final(v)@ == old(v)@.insert(rank(old(v)@, x) as int, x),
{
    let p = lower_bound(v, x);
    if p < v.len() && v[p] == x {
        return ;
    }
    let ghost before = v@;
    v.insert(p, x);
    proof {
        before.insert_ensures(p as int, x);
        let after = v@;
        assert forall|i: int, j: int| 0 <= i < j < after.len() implies after[i] < after[j] by {
            if j < p {
                assert(after[i] == before[i] && after[j] == before[j]);
            } else if j == p {
                assert(after[i] == before[i]);
            } else if i < p {
                assert(after[i] == before[i]);
                assert(after[j] == before[j - 1]);
            } else if i == p {
                assert(after[j] == before[j - 1]);
                if j - 1 > p {
                    assert(before[p as int] < before[j - 1]);
                }
            } else {
                assert(after[i] == before[i - 1]);
                assert(after[j] == before[j - 1]);
            }
        }
        assert forall|y: u32| after.contains(y) <==> (before.contains(y) || y == x) by {
            if after.contains(y) {
                let k = choose|k: int| 0 <= k < after.len() && after[k] == y;
                if k < p {
                    assert(before[k] == y);
                } else if k > p {
                    assert(before[k - 1] == y);
                }
            }
            if before.contains(y) {
                let k = choose|k: int| 0 <= k < before.len() && before[k] == y;
                if k < p {
                    assert(after[k] == y);
                } else {
                    assert(after[k + 1] == y);
                }
            }
            if y == x {
                assert(after[p as int] == y);
            }
        }
    }
}

/// Puts each index of `other` into a strictly ascending vector, unless it
/// is there already.
pub fn insert_all(v: &mut Vec<u32>, other: &Vec<u32>)
    requires
        strictly_ascending(old(v)@),
    ensures
        strictly_ascending(final(v)@),
        forall|y: u32|
            #![trigger final(v)@.contains(y)]
            #![trigger old(v)@.contains(y)]
            #![trigger other@.contains(y)]
            final(v)@.contains(y) <==> (old(v)@.contains(y) || other@.contains(y)),
{
    let ghost given = v@;
    let mut k: usize = 0;
    while k < other.len()
        invariant
            0 <= k <= other.len(),
            given == old(v)@,
            strictly_ascending(v@),
            forall|y: u32|
                #![trigger v@.contains(y)]
                #![trigger given.contains(y)]
                #![trigger other@.subrange(0, k as int).contains(y)]
                v@.contains(y) <==> (given.contains(y) || other@.subrange(0, k as int).contains(y)),
        decreases other.len() - k,
    {
        let ghost before = v@;
        let ghost seen = other@.subrange(0, k as int);
        let ghost next = other@.subrange(0, k + 1);
        insert_unique(v, other[k]);
        proof {
            assert forall|y: u32| v@.contains(y) <==> (given.contains(y) || next.contains(y)) by {
                assert(v@.contains(y) <==> (before.contains(y) || y == other@[k as int]));
                assert(before.contains(y) <==> (given.contains(y) || seen.contains(y)));
                if next.contains(y) {
                    let i = choose|i: int| 0 <= i < next.len() && next[i] == y;
                    if i < k {
                        assert(seen[i] == y);
                    }
                }
                if seen.contains(y) {
                    let i = choose|i: int| 0 <= i < seen.len() && seen[i] == y;
                    assert(next[i] == y);
                }
                if y == other@[k as int] {
                    assert(next[k as int] == y);
                }
            }
        }
        k += 1;
    }
    proof {
        assert(other@.subrange(0, other.len() as int) =~= other@);
    }
}

/// The strictly ascending vector of the indices that `v` holds.
pub fn sort_dedup(v: &Vec<u32>) -> (res: Vec<u32>)
    ensures
        strictly_ascending(res@),
        forall|y: u32| res@.contains(y) <==> v@.contains(y),
{
    let mut res: Vec<u32> = Vec::new();
    insert_all(&mut res, v);
    res
}

/// The strictly ascending vector of the indices that `a` or `b` holds.
pub fn union_sorted(a: &Vec<u32>, b: &Vec<u32>) -> (res: Vec<u32>)
    requires
        strictly_ascending(a@),
        strictly_ascending(b@),
    ensures
        strictly_ascending(res@),
        forall|y: u32| res@.contains(y) <==> (a@.contains(y) || b@.contains(y)),
{
    let mut res: Vec<u32> = Vec::new();
    let mut i: usize = 0;
    let mut j: usize = 0;
    while i < a.len() || j < b.len()
        invariant
            0 <= i <= a.len(),
            0 <= j <= b.len(),
            strictly_ascending(a@),
            strictly_ascending(b@),
            strictly_ascending(res@),
            forall|k: int| 0 <= k < res.len() && i < a.len() ==> #[trigger] res@[k] < a@[i as int],
            forall|k: int| 0 <= k < res.len() && j < b.len() ==> #[trigger] res@[k] < b@[j as int],
            forall|y: u32|
                res@.contains(y) <==> (a@.subrange(0, i as int).contains(y) || b@.subrange(
                    0,
                    j as int,
                ).contains(y)),
        decreases (a.len() - i) + (b.len() - j),
    {
        let ghost old_res = res@;
        let ghost old_i = i;
        let ghost old_j = j;
        let x: u32;
        if j >= b.len() || (i < a.len() && a[i] < b[j]) {
            x = a[i];
            i += 1;
        } else if i >= a.len() || b[j] < a[i] {
            x = b[j];
            j += 1;
        } else {
            x = a[i];
            i += 1;
            j += 1;
        }
        res.push(x);
        proof {
            let pa = a@.subrange(0, old_i as int);
            let pb = b@.subrange(0, old_j as int);
            let na = a@.subrange(0, i as int);
            let nb = b@.subrange(0, j as int);
            assert forall|p: int, q: int| 0 <= p < q < res@.len() implies res@[p] < res@[q] by {
                if q < old_res.len() {
                    assert(res@[p] == old_res[p] && res@[q] == old_res[q]);
                } else {
                    assert(res@[p] == old_res[p]);
                }
            }
            assert forall|k: int| 0 <= k < res.len() && i < a.len() implies #[trigger] res@[k]
                < a@[i as int] by {
                if old_i < i {
                    assert(a@[old_i as int] < a@[i as int]);
                }
                if k < old_res.len() {
                    assert(res@[k] == old_res[k]);
                }
            }
            assert forall|k: int| 0 <= k < res.len() && j < b.len() implies #[trigger] res@[k]
                < b@[j as int] by {
                if old_j < j {
                    assert(b@[old_j as int] < b@[j as int]);
                }
                if k < old_res.len() {
                    assert(res@[k] == old_res[k]);
                }
            }
            assert forall|y: u32| res@.contains(y) <==> (na.contains(y) || nb.contains(y)) by {
                if res@.contains(y) {
                    let k = choose|k: int| 0 <= k < res@.len() && res@[k] == y;
                    if k < old_res.len() {
                        assert(old_res[k] == y);
                        assert(old_res.contains(y));
                        if pa.contains(y) {
                            let m = choose|m: int| 0 <= m < pa.len() && pa[m] == y;
                            assert(na[m] == y);
                        } else {
                            let m = choose|m: int| 0 <= m < pb.len() && pb[m] == y;
                            assert(nb[m] == y);
                        }
                    } else {
                        if old_i < i {
                            assert(na[old_i as int] == y);
                        } else {
                            assert(nb[old_j as int] == y);
                        }
                    }
                }
                if na.contains(y) {
                    let m = choose|m: int| 0 <= m < na.len() && na[m] == y;
                    if m < old_i {
                        assert(pa[m] == y);
                        assert(old_res.contains(y));
                        let k = choose|k: int| 0 <= k < old_res.len() && old_res[k] == y;
                        assert(res@[k] == y);
                    } else {
                        assert(res@[old_res.len() as int] == y);
                    }
                }
                if nb.contains(y) {
                    let m = choose|m: int| 0 <= m < nb.len() && nb[m] == y;
                    if m < old_j {
                        assert(pb[m] == y);
                        assert(old_res.contains(y));
                        let k = choose|k: int| 0 <= k < old_res.len() && old_res[k] == y;
                        assert(res@[k] == y);
                    } else {
                        assert(res@[old_res.len() as int] == y);
                    }
                }
            }
        }
    }
    proof {
        assert(a@.subrange(0, a.len() as int) =~= a@);
        assert(b@.subrange(0, b.len() as int) =~= b@);
    }
    res
}

} // verus!
