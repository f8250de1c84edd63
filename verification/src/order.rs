//! A stable sort of positions by integer keys.
use vstd::prelude::*;

verus! {

/// `perm` lists distinct positions below `n`.
pub open spec fn distinct_below(perm: Seq<usize>, n: nat) -> bool {
    &&& forall|i: int| 0 <= i < perm.len() ==> #[trigger] perm[i] < n
    &&& forall|i: int, j: int| 0 <= i < j < perm.len() ==> #[trigger] perm[i] != #[trigger] perm[j]
}

/// The keys of the listed positions never decrease, and positions with equal
/// keys keep their order in the input.
pub open spec fn stably_sorted(perm: Seq<usize>, keys: Seq<i128>) -> bool {
    forall|i: int, j: int|
        0 <= i < j < perm.len() ==> {
            &&& keys[#[trigger] perm[i] as int] <= keys[#[trigger] perm[j] as int]
            &&& (keys[perm[i] as int] == keys[perm[j] as int] ==> perm[i] < perm[j])
        }
}

/// The positions `0..keys.len()` ordered by key, ties in position order.
pub fn stable_sort_indices(keys: &Vec<i128>) -> (perm: Vec<usize>)
    ensures
        perm@.len() == keys@.len(),
        distinct_below(perm@, keys@.len()),
        stably_sorted(perm@, keys@),
{
    let n = keys.len();
    let mut perm: Vec<usize> = Vec::new();
    let mut k: usize = 0;
    while k < n
        invariant
            n == keys@.len(),
            k <= n,
            perm@.len() == k,
            distinct_below(perm@, k as nat),
            stably_sorted(perm@, keys@),
        decreases n - k,
    {
        let key = keys[k];
        let mut pos: usize = 0;
        while pos < perm.len() && keys[perm[pos]] <= key
            invariant
                n == keys@.len(),
                k < n,
                perm@.len() == k,
                distinct_below(perm@, k as nat),
                pos <= perm@.len(),
                forall|i: int| 0 <= i < pos ==> keys@[#[trigger] perm@[i] as int] <= key,
            decreases perm@.len() - pos,
        {
            pos += 1;
        }
        let ghost old_perm = perm@;
        proof {
            if pos < old_perm.len() {
                assert(keys@[old_perm[pos as int] as int] > key);
            }
            assert forall|i: int| pos <= i < old_perm.len() implies keys@[#[trigger] old_perm[i] as int] > key by {
                if i > pos {
                    assert(keys@[old_perm[pos as int] as int] <= keys@[old_perm[i] as int]);
                }
            }
        }
        perm.insert(pos, k);
        proof {
            let p = perm@;
            assert(p == old_perm.insert(pos as int, k));
            assert forall|i: int| 0 <= i < p.len() implies #[trigger] p[i] < k + 1 by {
                if i < pos {
                    assert(p[i] == old_perm[i]);
                } else if i > pos {
                    assert(p[i] == old_perm[i - 1]);
                }
            }
            assert forall|i: int, j: int| 0 <= i < j < p.len() implies #[trigger] p[i] != #[trigger] p[j] by {
                if i == pos {
                    assert(p[j] == old_perm[j - 1]);
                } else if j == pos {
                    assert(p[i] == old_perm[i]);
                } else {
                    let i2 = if i < pos { i } else { i - 1 };
                    let j2 = if j < pos { j } else { j - 1 };
                    assert(p[i] == old_perm[i2]);
                    assert(p[j] == old_perm[j2]);
                }
            }
            assert forall|i: int, j: int| 0 <= i < j < p.len() implies {
                &&& keys@[#[trigger] p[i] as int] <= keys@[#[trigger] p[j] as int]
                &&& (keys@[p[i] as int] == keys@[p[j] as int] ==> p[i] < p[j])
            } by {
                if i == pos {
                    assert(p[j] == old_perm[j - 1]);
                    assert(keys@[old_perm[j - 1] as int] > key);
                } else if j == pos {
                    assert(p[i] == old_perm[i]);
                    assert(old_perm[i] < k);
                } else {
                    let i2 = if i < pos { i } else { i - 1 };
                    let j2 = if j < pos { j } else { j - 1 };
                    assert(p[i] == old_perm[i2]);
                    assert(p[j] == old_perm[j2]);
                }
            }
        }
        k += 1;
    }
    perm
}

} // verus!
