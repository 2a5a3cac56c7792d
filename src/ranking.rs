//! Ranking of scored entries: positions ordered by descending score, ties kept in
//! position order (a stable sort).
use vstd::prelude::*;

verus! {

/// Largest number of results that a search returns.
pub const TOP_RESULTS: usize = 50;

/// Order key of a 32-bit IEEE-754 score given by its bits: for scores that are not
/// NaN, keys compare as the scores do, and the two zeros get the same key.
pub open spec fn score_key_spec(bits: u32) -> u32 {
    if bits == 0x8000_0000u32 {
        0x8000_0000u32
    } else if bits & 0x8000_0000u32 != 0 {
        !bits
    } else {
        bits | 0x8000_0000u32
    }
}

/// Computes the order key of a score from its bits.
pub fn score_key(bits: u32) -> (r: u32)
    ensures
        r == score_key_spec(bits),
{
    if bits == 0x8000_0000u32 {
        0x8000_0000u32
    } else if bits & 0x8000_0000u32 != 0 {
        !bits
    } else {
        bits | 0x8000_0000u32
    }
}

/// `r` lists distinct positions of `keys`, by descending key, and positions with
/// equal keys in ascending order.
pub open spec fn ranked_prefix(keys: Seq<u32>, r: Seq<usize>) -> bool {
    &&& forall|i: int| 0 <= i < r.len() ==> #[trigger] r[i] < keys.len()
    &&& forall|i: int, j: int| 0 <= i < r.len() && 0 <= j < r.len() && i != j ==> #[trigger] r[i] != #[trigger] r[j]
    &&& forall|i: int, j: int| 0 <= i < j < r.len() ==> keys[#[trigger] r[i] as int] >= keys[#[trigger] r[j] as int]
    &&& forall|i: int, j: int| 0 <= i < j < r.len() && keys[#[trigger] r[i] as int] == keys[#[trigger] r[j] as int] ==> r[i] < r[j]
}

/// `r` is the stable descending order of all positions of `keys`.
pub open spec fn ranked(keys: Seq<u32>, r: Seq<usize>) -> bool {
    &&& r.len() == keys.len()
    &&& ranked_prefix(keys, r)
    &&& forall|p: int| 0 <= p < keys.len() ==> #[trigger] r.contains(p as usize)
}

/// In a ranking, an entry with a higher key comes before one with a lower key.
pub proof fn lemma_ranked_higher_first(keys: Seq<u32>, r: Seq<usize>, a: usize, b: usize)
    requires
        ranked(keys, r),
        a < keys.len(),
        b < keys.len(),
        keys[a as int] > keys[b as int],
    ensures
        exists|i: int, j: int| 0 <= i < j < r.len() && r[i] == a && r[j] == b,
{
    assert(r.contains((a as int) as usize));
    assert(r.contains((b as int) as usize));
    let i = choose|i: int| 0 <= i < r.len() && r[i] == a;
    let j = choose|j: int| 0 <= j < r.len() && r[j] == b;
    if j < i {
        assert(keys[r[j] as int] >= keys[r[i] as int]);
    }
    assert(i < j);
}

/// Orders the positions of `keys` by descending key; equal keys keep their order.
pub fn rank_descending(keys: &Vec<u32>) -> (r: Vec<usize>)
    ensures
        ranked(keys@, r@),
{
    let n = keys.len();
    let mut r: Vec<usize> = Vec::new();
    let mut i: usize = 0;
    while i < n
        invariant
            n == keys@.len(),
            i <= n,
            r@.len() == i,
            ranked_prefix(keys@.take(i as int), r@),
            forall|q: int| 0 <= q < r@.len() ==> #[trigger] r@[q] < i,
            forall|x: int| 0 <= x < i ==> #[trigger] r@.contains(x as usize),
        decreases n - i,
    {
        let ki = keys[i];
        let mut p: usize = 0;
        while p < r.len() && keys[r[p]] >= ki
            invariant
                n == keys@.len(),
                i < n,
                ki == keys@[i as int],
                r@.len() == i,
                p <= r@.len(),
                forall|q: int| 0 <= q < r@.len() ==> #[trigger] r@[q] < i,
                forall|q: int| 0 <= q < p ==> keys@[#[trigger] r@[q] as int] >= ki,
            decreases r@.len() - p,
        {
            p = p + 1;
        }
        let ghost r0 = r@;
        proof {
            assert forall|a: int, b: int| 0 <= a < b < r0.len() implies keys@[#[trigger] r0[a] as int] >= keys@[#[trigger] r0[b] as int] by {
                assert(keys@.take(i as int)[r0[a] as int] == keys@[r0[a] as int]);
                assert(keys@.take(i as int)[r0[b] as int] == keys@[r0[b] as int]);
            }
            assert forall|a: int, b: int| 0 <= a < b < r0.len() && keys@[#[trigger] r0[a] as int] == keys@[#[trigger] r0[b] as int] implies r0[a] < r0[b] by {
                assert(keys@.take(i as int)[r0[a] as int] == keys@[r0[a] as int]);
                assert(keys@.take(i as int)[r0[b] as int] == keys@[r0[b] as int]);
            }
        }
        r.insert(p, i);
        proof {
            let r1 = r@;
            let ks = keys@.take(i + 1);
            assert forall|q: int| 0 <= q < r1.len() implies #[trigger] r1[q] < i + 1 by {
                if q < p { assert(r1[q] == r0[q]); } else if q > p { assert(r1[q] == r0[q - 1]); }
            }
            assert forall|a: int, b: int| 0 <= a < r1.len() && 0 <= b < r1.len() && a != b implies #[trigger] r1[a] != #[trigger] r1[b] by {
                if a < p { assert(r1[a] == r0[a]); } else if a > p { assert(r1[a] == r0[a - 1]); }
                if b < p { assert(r1[b] == r0[b]); } else if b > p { assert(r1[b] == r0[b - 1]); }
            }
            assert forall|a: int, b: int| 0 <= a < b < r1.len() implies ks[#[trigger] r1[a] as int] >= ks[#[trigger] r1[b] as int] && (ks[r1[a] as int] == ks[r1[b] as int] ==> r1[a] < r1[b]) by {
                if a < p { assert(r1[a] == r0[a]); } else if a > p { assert(r1[a] == r0[a - 1]); }
                if b < p { assert(r1[b] == r0[b]); } else if b > p { assert(r1[b] == r0[b - 1]); }
                assert(ks[r1[a] as int] == keys@[r1[a] as int]);
                assert(ks[r1[b] as int] == keys@[r1[b] as int]);
                if a == p && (p as int) < r0.len() {
                    assert(keys@[r0[p as int] as int] < ki);
                    if b > p + 1 {
                        assert(keys@[r0[p as int] as int] >= keys@[r0[b - 1] as int]);
                    }
                }
            }
            assert forall|x: int| 0 <= x < i + 1 implies #[trigger] r1.contains(x as usize) by {
                if x == i {
                    assert(r1[p as int] == x);
                } else {
                    assert(r0.contains(x as usize));
                    let q0 = choose|q: int| 0 <= q < r0.len() && r0[q] == x as usize;
                    if q0 < p { assert(r1[q0] == x); } else { assert(r1[q0 + 1] == x); }
                }
            }
        }
        i = i + 1;
    }
    proof {
        assert(keys@.take(n as int) =~= keys@);
    }
    r
}

/// The first `limit` positions of the stable descending order of `keys`.
pub fn top_ranked(keys: &Vec<u32>, limit: usize) -> (r: Vec<usize>)
    ensures
        exists|all: Seq<usize>| ranked(keys@, all) && r@ == all.take(r@.len() as int),
        r@.len() == if keys@.len() < limit { keys@.len() } else { limit as nat },
{
    let mut r = rank_descending(keys);
    let ghost all = r@;
    r.truncate(limit);
    proof {
        assert(r@ =~= all.take(r@.len() as int));
    }
    r
}

} // verus!
