//! Drawing the target words: a random draw of distinct positions of the word
//! list, and the words at those positions.

use vstd::prelude::*;

use crate::sys::{new_rng, sample_indices};
use crate::text::string_views;

verus! {

/// `idx` is a valid draw of `count` positions of a pool of `pool_len`
/// entries (all of them when the pool is smaller): that many positions, all
/// distinct and within the pool.
pub open spec fn valid_draw(idx: Seq<usize>, pool_len: nat, count: nat) -> bool {
    &&& idx.len() == if count < pool_len {
        count
    } else {
        pool_len
    }
    &&& idx.no_duplicates()
    &&& forall|k: int| 0 <= k < idx.len() ==> (#[trigger] idx[k]) < pool_len
}

/// The entries of `pool` at the positions `idx`, in that order.
pub open spec fn picks(pool: Seq<Seq<char>>, idx: Seq<usize>) -> Seq<Seq<char>> {
    Seq::new(idx.len(), |k: int| pool[idx[k] as int])
}

/// `chosen` is what some valid draw of `count` positions of `pool` picks.
pub open spec fn is_selection(chosen: Seq<Seq<char>>, pool: Seq<Seq<char>>, count: nat) -> bool {
    exists|idx: Seq<usize>| #[trigger]
        valid_draw(idx, pool.len(), count) && chosen == picks(pool, idx)
}

/// A selection of `count` words has at most `count` words.
pub proof fn lemma_selection_len(chosen: Seq<Seq<char>>, pool: Seq<Seq<char>>, count: nat)
    requires
        is_selection(chosen, pool, count),
    ensures
        chosen.len() <= count,
        chosen.len() <= pool.len(),
{
    let idx = choose|idx: Seq<usize>| #[trigger]
        valid_draw(idx, pool.len(), count) && chosen == picks(pool, idx);
    assert(chosen.len() == idx.len());
}

/// Draws `min(count, pool_len)` distinct positions of a pool of `pool_len`
/// entries at random.
pub fn draw_indices(pool_len: usize, count: usize) -> (r: Vec<usize>)
    ensures
        valid_draw(r@, pool_len as nat, count as nat),
{
    let mut rng = new_rng();
    let amount = if count < pool_len {
        count
    } else {
        pool_len
    };
    sample_indices(&mut rng, pool_len, amount)
}

/// Whether `idx` is a valid draw of `count` positions of a pool of `pool_len` entries.
pub fn check_draw(idx: &Vec<usize>, pool_len: usize, count: usize) -> (r: bool)
    ensures
        r == valid_draw(idx@, pool_len as nat, count as nat),
{
    let want = if count < pool_len {
        count
    } else {
        pool_len
    };
    if idx.len() != want {
        return false;
    }
    let n = idx.len();
    for i in 0..n
        invariant
            n == idx@.len(),
            forall|k: int| 0 <= k < i ==> (#[trigger] idx@[k]) < pool_len,
            forall|a: int, b: int| 0 <= a < b < i ==> idx@[a] != idx@[b],
    {
        if idx[i] >= pool_len {
            return false;
        }
        for j in 0..i
            invariant
                n == idx@.len(),
                i < n,
                forall|b: int| 0 <= b < j ==> idx@[b] != idx@[i as int],
        {
            if idx[j] == idx[i] {
                return false;
            }
        }
    }
    true
}

/// The words of `pool` at the positions `idx`.
pub fn pick_words(pool: &Vec<String>, idx: &Vec<usize>) -> (r: Vec<String>)
    requires
        forall|k: int| 0 <= k < idx@.len() ==> (#[trigger] idx@[k]) < pool@.len(),
    ensures
        string_views(r@) == picks(string_views(pool@), idx@),
{
    let mut r: Vec<String> = Vec::new();
    let n = idx.len();
    for k in 0..n
        invariant
            n == idx@.len(),
            forall|k: int| 0 <= k < idx@.len() ==> (#[trigger] idx@[k]) < pool@.len(),
            string_views(r@) =~= picks(string_views(pool@), idx@).take(k as int),
    {
        let w = pool[idx[k]].clone();
        let ghost before = r@;
        r.push(w);
        assert(string_views(r@) =~= string_views(before).push(w@));
        assert(picks(string_views(pool@), idx@).take(k as int + 1) =~= picks(
            string_views(pool@),
            idx@,
        ).take(k as int).push(pool@[idx@[k as int] as int]@));
    }
    assert(picks(string_views(pool@), idx@).take(n as int) =~= picks(string_views(pool@), idx@));
    r
}

} // verus!
