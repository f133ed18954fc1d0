use vstd::prelude::*;

use crate::text::{chars_equal, string_chars, string_views};

verus! {

/// Number of positions below `k` at which the typed word equals the target word.
pub open spec fn count_matches(typed: Seq<Seq<char>>, target: Seq<Seq<char>>, k: int) -> nat
    decreases k,
{
    if k <= 0 {
        0
    } else {
        count_matches(typed, target, k - 1) + if typed[k - 1] == target[k - 1] {
            1nat
        } else {
            0nat
        }
    }
}

/// The positions below `k`, in increasing order, at which the typed word
/// differs from the target word and that `recorded` does not hold yet.
pub open spec fn new_mismatches(
    recorded: Seq<usize>,
    typed: Seq<Seq<char>>,
    target: Seq<Seq<char>>,
    k: int,
) -> Seq<usize>
    decreases k,
{
    if k <= 0 {
        seq![]
    } else {
        let prev = new_mismatches(recorded, typed, target, k - 1);
        if typed[k - 1] != target[k - 1] && !recorded.contains((k - 1) as usize) {
            prev.push((k - 1) as usize)
        } else {
            prev
        }
    }
}

/// Number of word positions that a typed text and a target text share.
pub open spec fn compared_len(typed: Seq<Seq<char>>, target: Seq<Seq<char>>) -> int {
    if typed.len() < target.len() {
        typed.len() as int
    } else {
        target.len() as int
    }
}

/// The new mismatches lie below `k`, increase strictly, and are not in `recorded`.
pub proof fn lemma_new_mismatches_shape(
    recorded: Seq<usize>,
    typed: Seq<Seq<char>>,
    target: Seq<Seq<char>>,
    k: int,
)
    requires
        0 <= k <= usize::MAX + 1,
    ensures
        forall|i: int|
            0 <= i < new_mismatches(recorded, typed, target, k).len() ==> {
                &&& (#[trigger] new_mismatches(recorded, typed, target, k)[i]) < k
                &&& !recorded.contains(new_mismatches(recorded, typed, target, k)[i])
                &&& {
                    let j = new_mismatches(recorded, typed, target, k)[i];
                    0 <= j && typed[j as int] != target[j as int]
                }
            },
        forall|i: int, j: int|
            0 <= i < j < new_mismatches(recorded, typed, target, k).len() ==> (
            #[trigger] new_mismatches(recorded, typed, target, k)[i]) < (
            #[trigger] new_mismatches(recorded, typed, target, k)[j]),
        new_mismatches(recorded, typed, target, k).len() <= k,
    decreases k,
{
    if k > 0 {
        lemma_new_mismatches_shape(recorded, typed, target, k - 1);
    }
}

/// Adding the new mismatches to a duplicate-free record keeps it duplicate-free.
pub proof fn lemma_record_no_duplicates(
    recorded: Seq<usize>,
    typed: Seq<Seq<char>>,
    target: Seq<Seq<char>>,
    k: int,
)
    requires
        0 <= k <= usize::MAX + 1,
        recorded.no_duplicates(),
    ensures
        (recorded + new_mismatches(recorded, typed, target, k)).no_duplicates(),
{
    lemma_new_mismatches_shape(recorded, typed, target, k);
    let all = recorded + new_mismatches(recorded, typed, target, k);
    let nm = new_mismatches(recorded, typed, target, k);
    assert forall|i: int, j: int| 0 <= i < all.len() && 0 <= j < all.len() && i != j implies all[i]
        != all[j] by {
        if i < recorded.len() && j >= recorded.len() {
            assert(nm[j - recorded.len()] == all[j]);
            assert(!recorded.contains(nm[j - recorded.len()]));
        } else if j < recorded.len() && i >= recorded.len() {
            assert(nm[i - recorded.len()] == all[i]);
            assert(!recorded.contains(nm[i - recorded.len()]));
        } else if i >= recorded.len() && j >= recorded.len() {
            if i < j {
                assert(nm[i - recorded.len()] < nm[j - recorded.len()]);
            } else {
                assert(nm[j - recorded.len()] < nm[i - recorded.len()]);
            }
        }
    }
}

/// Whether `x` occurs in `v`.
pub fn contains_index(v: &Vec<usize>, x: usize) -> (r: bool)
    ensures
        r == v@.contains(x),
{
    let n = v.len();
    for i in 0..n
        invariant
            n == v@.len(),
            forall|j: int| 0 <= j < i ==> v@[j] != x,
    {
        if v[i] == x {
            assert(v@[i as int] == x);
            return true;
        }
    }
    false
}

/// A copy of a list of positions.
pub fn copy_indices(v: &Vec<usize>) -> (r: Vec<usize>)
    ensures
        r@ == v@,
{
    let mut r: Vec<usize> = Vec::new();
    let n = v.len();
    for i in 0..n
        invariant
            n == v@.len(),
            r@ =~= v@.take(i as int),
    {
        r.push(v[i]);
    }
    assert(v@.take(n as int) =~= v@);
    r
}

/// The characters of each string.
pub fn strings_chars(v: &Vec<String>) -> (r: Vec<Vec<char>>)
    ensures
        r.deep_view() == string_views(v@),
{
    let mut r: Vec<Vec<char>> = Vec::new();
    let n = v.len();
    for i in 0..n
        invariant
            n == v@.len(),
            r.deep_view() =~= string_views(v@).take(i as int),
    {
        let w = string_chars(v[i].as_str());
        let ghost before = r.deep_view();
        assert(w.deep_view() =~= w@);
        r.push(w);
        assert(r.deep_view() =~= before.push(w@));
        assert(string_views(v@).take(i as int + 1) =~= string_views(v@).take(i as int).push(
            v@[i as int]@,
        ));
    }
    assert(string_views(v@).take(n as int) =~= string_views(v@));
    r
}

/// Compares typed words with target words position by position: returns the
/// number of equal positions and records, in `recorded`, each differing
/// position that it did not hold yet.
pub fn score_words(typed: &Vec<Vec<char>>, target: &Vec<Vec<char>>, recorded: &mut Vec<usize>) -> (correct: usize)
    ensures
        correct == count_matches(
            typed.deep_view(),
            target.deep_view(),
            compared_len(typed.deep_view(), target.deep_view()),
        ),
        correct <= compared_len(typed.deep_view(), target.deep_view()),
        final(recorded)@ == old(recorded)@ + new_mismatches(
            old(recorded)@,
            typed.deep_view(),
            target.deep_view(),
            compared_len(typed.deep_view(), target.deep_view()),
        ),
{
    let ghost tw = typed.deep_view();
    let ghost tg = target.deep_view();
    let ghost start = recorded@;
    let m = if typed.len() < target.len() {
        typed.len()
    } else {
        target.len()
    };
    let mut correct: usize = 0;
    for i in 0..m
        invariant
            m == compared_len(tw, tg),
            m <= typed@.len(),
            m <= target@.len(),
            tw == typed.deep_view(),
            tg == target.deep_view(),
            correct == count_matches(tw, tg, i as int),
            correct <= i,
            recorded@ == start + new_mismatches(start, tw, tg, i as int),
    {
        proof {
            lemma_new_mismatches_shape(start, tw, tg, i as int);
        }
        let same = chars_equal(&typed[i], &target[i]);
        assert(typed[i as int].deep_view() =~= typed[i as int]@);
        assert(target[i as int].deep_view() =~= target[i as int]@);
        assert(same == (tw[i as int] == tg[i as int]));
        if same {
            correct = correct + 1;
        } else {
            let present = contains_index(recorded, i);
            assert(present == start.contains(i)) by {
                let nm = new_mismatches(start, tw, tg, i as int);
                if nm.contains(i) {
                    let j = choose|j: int| 0 <= j < nm.len() && nm[j] == i;
                    assert(nm[j] < i);
                }
                if start.contains(i) {
                    let j = choose|j: int| 0 <= j < start.len() && start[j] == i;
                    assert(recorded@[j] == i);
                }
                if recorded@.contains(i) {
                    let j = choose|j: int| 0 <= j < recorded@.len() && recorded@[j] == i;
                    if j >= start.len() {
                        assert(nm[j - start.len()] == i);
                    }
                }
            }
            if !present {
                recorded.push(i);
            }
        }
    }
    correct
}

} // verus!
