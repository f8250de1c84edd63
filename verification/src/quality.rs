//! Audio quality levels: the choices offered on the pages, the order in which
//! downloads fall back, and the names shown for a level.
use vstd::prelude::*;
use crate::order::{distinct_below, stable_sort_indices, stably_sorted};
use crate::text::{int_decimal, push_int, push_str, to_owned_string};

verus! {

/// The quality code that stands for "lowest".
pub const LOWEST_QUALITY: i32 = -2;

/// The quality code that stands for "highest".
pub const HIGHEST_QUALITY: i32 = -1;

/// The levels of a provider's (level, name) pairs, as sort keys.
pub open spec fn level_keys(levels: Seq<(i32, String)>) -> Seq<i128> {
    Seq::new(levels.len(), |i: int| levels[i].0 as i128)
}

/// `opts[1..=n]` lists the provider's levels in the order `perm`, as (name, level).
pub open spec fn lists_levels_in_order(opts: Seq<(String, i32)>, levels: Seq<(i32, String)>, perm: Seq<usize>) -> bool {
    forall|i: int|
        0 <= i < levels.len() ==> {
            &&& #[trigger] opts[i + 1].0@ == levels[perm[i] as int].1@
            &&& opts[i + 1].1 == levels[perm[i] as int].0
        }
}

/// `opts` are the quality choices for a provider with `levels`: "lowest",
/// the provider's levels in ascending order (ties in their given order), then
/// "highest".
pub open spec fn quality_options_for(opts: Seq<(String, i32)>, levels: Seq<(i32, String)>) -> bool {
    &&& opts.len() == levels.len() + 2
    &&& opts[0].0@ == "最低"@
    &&& opts[0].1 == LOWEST_QUALITY
    &&& opts[opts.len() - 1].0@ == "最高"@
    &&& opts[opts.len() - 1].1 == HIGHEST_QUALITY
    &&& exists|perm: Seq<usize>|
        {
            &&& perm.len() == levels.len()
            &&& distinct_below(perm, levels.len())
            &&& stably_sorted(perm, level_keys(levels))
            &&& lists_levels_in_order(opts, levels, perm)
        }
}

/// The quality choices offered on a page: "lowest", the provider's levels in
/// ascending order, then "highest", which is the default.
pub fn build_quality_options(levels: &Vec<(i32, String)>) -> (res: Vec<(String, i32)>)
    ensures
        quality_options_for(res@, levels@),
{
    let mut keys: Vec<i128> = Vec::new();
    let mut i: usize = 0;
    while i < levels.len()
        invariant
            i <= levels@.len(),
            keys@ == level_keys(levels@).take(i as int),
        decreases levels.len() - i,
    {
        keys.push(levels[i].0 as i128);
        assert(keys@ =~= level_keys(levels@).take(i + 1));
        i += 1;
    }
    assert(keys@ =~= level_keys(levels@));
    let perm = stable_sort_indices(&keys);
    let mut res: Vec<(String, i32)> = Vec::new();
    let mut lowest = String::new();
    push_str(&mut lowest, "最低");
    res.push((lowest, LOWEST_QUALITY));
    let mut j: usize = 0;
    while j < perm.len()
        invariant
            perm@.len() == levels@.len(),
            distinct_below(perm@, levels@.len()),
            j <= perm@.len(),
            res@.len() == j + 1,
            res@[0].0@ == "最低"@,
            res@[0].1 == LOWEST_QUALITY,
            forall|t: int|
                0 <= t < j ==> {
                    &&& #[trigger] res@[t + 1].0@ == levels@[perm@[t] as int].1@
                    &&& res@[t + 1].1 == levels@[perm@[t] as int].0
                },
        decreases perm.len() - j,
    {
        let p = perm[j];
        let name = to_owned_string(levels[p].1.as_str());
        res.push((name, levels[p].0));
        j += 1;
    }
    let mut highest = String::new();
    push_str(&mut highest, "最高");
    res.push((highest, HIGHEST_QUALITY));
    assert(lists_levels_in_order(res@, levels@, perm@));
    res
}

/// The levels from highest to lowest, the order in which a download falls
/// back when a quality is missing.
pub fn sorted_quality_levels(levels: &Vec<i32>) -> (res: Vec<i32>)
    ensures
        res@.len() == levels@.len(),
        exists|perm: Seq<usize>|
            {
                &&& perm.len() == levels@.len()
                &&& distinct_below(perm, levels@.len())
                &&& forall|i: int| 0 <= i < levels@.len() ==> #[trigger] res@[i] == levels@[perm[i] as int]
            },
        forall|i: int, j: int| 0 <= i < j < res@.len() ==> #[trigger] res@[i] >= #[trigger] res@[j],
{
    let mut keys: Vec<i128> = Vec::new();
    let mut i: usize = 0;
    while i < levels.len()
        invariant
            i <= levels@.len(),
            keys@.len() == i,
            forall|t: int| 0 <= t < i ==> #[trigger] keys@[t] == -(levels@[t] as i128),
        decreases levels.len() - i,
    {
        keys.push(-(levels[i] as i128));
        i += 1;
    }
    let perm = stable_sort_indices(&keys);
    let mut res: Vec<i32> = Vec::new();
    let mut j: usize = 0;
    while j < perm.len()
        invariant
            perm@.len() == levels@.len(),
            distinct_below(perm@, levels@.len()),
            j <= perm@.len(),
            res@.len() == j,
            forall|t: int| 0 <= t < j ==> #[trigger] res@[t] == levels@[perm@[t] as int],
        decreases perm.len() - j,
    {
        res.push(levels[perm[j]]);
        j += 1;
    }
    assert forall|a: int, b: int| 0 <= a < b < res@.len() implies #[trigger] res@[a] >= #[trigger] res@[b] by {
        assert(keys@[perm@[a] as int] <= keys@[perm@[b] as int]);
    }
    res
}

/// `-1` ("highest") becomes the provider's highest level; other codes stay.
pub open spec fn spec_resolve_quality(highest: i32, quality: i32) -> i32 {
    if quality == HIGHEST_QUALITY { highest } else { quality }
}

/// Resolves the "highest" code to the provider's highest level.
pub fn resolve_quality(highest: i32, quality: i32) -> (res: i32)
    ensures
        res == spec_resolve_quality(highest, quality),
{
    if quality == HIGHEST_QUALITY { highest } else { quality }
}

/// Some pair has level `q`.
pub open spec fn has_level(levels: Seq<(i32, String)>, q: i32) -> bool {
    exists|i: int| 0 <= i < levels.len() && #[trigger] levels[i].0 == q
}

/// `i` is the first position whose level is `q`.
pub open spec fn first_with_level(levels: Seq<(i32, String)>, q: i32, i: int) -> bool {
    0 <= i < levels.len() && levels[i].0 == q && forall|j: int| 0 <= j < i ==> levels[j].0 != q
}

/// The first position whose level is `q`, when there is one.
pub open spec fn first_level_index(levels: Seq<(i32, String)>, q: i32) -> int {
    choose|i: int| first_with_level(levels, q, i)
}

/// The name shown for a quality: the provider's name for the resolved level
/// (the first pair with that level), or `品质` followed by the level.
pub open spec fn spec_quality_name(levels: Seq<(i32, String)>, highest: i32, quality: i32) -> Seq<char> {
    let q = spec_resolve_quality(highest, quality);
    if has_level(levels, q) {
        levels[first_level_index(levels, q)].1@
    } else {
        "品质"@ + int_decimal(q as int)
    }
}

/// The display name of a quality for a provider with the given levels.
pub fn quality_name(levels: &Vec<(i32, String)>, highest: i32, quality: i32) -> (res: String)
    ensures
        res@ == spec_quality_name(levels@, highest, quality),
{
    let q = resolve_quality(highest, quality);
    let mut i: usize = 0;
    while i < levels.len()
        invariant
            i <= levels@.len(),
            q == spec_resolve_quality(highest, quality),
            forall|j: int| 0 <= j < i ==> levels@[j].0 != q,
        decreases levels.len() - i,
    {
        if levels[i].0 == q {
            proof {
                assert(first_with_level(levels@, q, i as int));
                assert(has_level(levels@, q));
                let c = first_level_index(levels@, q);
                if c < i {
                    assert(levels@[c].0 != q);
                } else if c > i {
                    assert(levels@[i as int].0 != q);
                }
                assert(c == i);
            }
            return to_owned_string(levels[i].1.as_str());
        }
        i += 1;
    }
    let mut s = String::new();
    push_str(&mut s, "品质");
    push_int(&mut s, q as i64);
    s
}

} // verus!
