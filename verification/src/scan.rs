//! The folder scanner's ordering and selection logic.
//!
//! The caller lists the immediate subdirectories of the root, recording
//! for each its path and its age (time elapsed since last modification).
//! This module puts them into scan order — oldest-modified first, that
//! is, largest age first — and keeps the operator-chosen subset of that
//! ordered list, preserving scan order.

use vstd::prelude::*;
use vstd::multiset::Multiset;

verus! {

/// A subdirectory of the scan root, before classification: its path and
/// the time elapsed since it was last modified.
pub struct CandidateFolder {
    pub path: String,
    pub age: u64,
}

/// Scan order: ages never increase along the sequence, so the
/// oldest-modified folder (largest age) comes first and the
/// most-recently-modified (smallest age) comes last.
pub open spec fn oldest_first(s: Seq<CandidateFolder>) -> bool {
    forall|i: int, j: int| 0 <= i < j < s.len() ==> s[i].age >= s[j].age
}

/// Sort the scanned folders into scan order: oldest-modified first.
/// The result is a permutation of the input — the same folders, with
/// paths and ages untouched — arranged so that age never increases.
pub fn order_oldest_first(folders: Vec<CandidateFolder>) -> (r: Vec<CandidateFolder>)
    ensures
        oldest_first(r@),
        r@.to_multiset() == folders@.to_multiset(),
        r@.len() == folders@.len(),
{
    broadcast use vstd::seq_lib::group_to_multiset_ensures, vstd::multiset::group_multiset_axioms;

    let ghost total = folders@.to_multiset();
    let ghost n = folders@.len();
    let mut rest = folders;
    let mut out: Vec<CandidateFolder> = Vec::new();
    proof {
        assert(out@.to_multiset().add(rest@.to_multiset()) =~= total);
    }
    while rest.len() > 0
        invariant
            oldest_first(out@),
            out@.to_multiset().add(rest@.to_multiset()) == total,
            out@.len() + rest@.len() == n,
        decreases rest@.len(),
    {
        let ghost rest_old = rest@;
        let x = rest.remove(0);
        let mut p: usize = 0;
        while p < out.len() && out[p].age >= x.age
            invariant
                p <= out@.len(),
                forall|k: int| 0 <= k < p ==> (#[trigger] out@[k]).age >= x.age,
            decreases out@.len() - p,
        {
            p += 1;
        }
        let ghost out_old = out@;
        out.insert(p, x);
        proof {
            out_old.insert_ensures(p as int, x);
            assert forall|i: int, j: int| 0 <= i < j < out@.len() implies out@[i].age
                >= out@[j].age by {
                if j < p {
                    assert(out@[i] == out_old[i] && out@[j] == out_old[j]);
                } else if j == p {
                    assert(out@[i] == out_old[i]);
                } else if i < p {
                    assert(out@[i] == out_old[i] && out@[j] == out_old[j - 1]);
                    assert(out_old[p as int].age < x.age || p == out_old.len());
                    if i < j - 1 {
                        assert(out_old[i].age >= out_old[j - 1].age);
                    }
                } else if i == p {
                    assert(out@[j] == out_old[j - 1]);
                    assert(out_old[p as int].age < x.age);
                    if p < j - 1 {
                        assert(out_old[p as int].age >= out_old[j - 1].age);
                    }
                } else {
                    assert(out@[i] == out_old[i - 1] && out@[j] == out_old[j - 1]);
                }
            }
            rest_old.to_multiset_ensures();
            out_old.to_multiset_ensures();
            vstd::seq_lib::to_multiset_insert(out_old, p as int, x);
            assert(rest_old.contains(rest_old[0]));
            assert(rest_old.to_multiset().contains(rest_old[0]));
            assert(out@ == out_old.insert(p as int, x));
            assert(out_old.insert(p as int, x).to_multiset() == out_old.to_multiset().insert(x));
            assert(rest@.to_multiset() =~= rest_old.to_multiset().remove(x));
            assert(out@.to_multiset().add(rest@.to_multiset()) =~= out_old.to_multiset().add(
                rest_old.to_multiset(),
            ));
        }
    }
    proof {
        assert(rest@.to_multiset() =~= Multiset::<CandidateFolder>::empty());
        assert(out@.to_multiset().add(Multiset::<CandidateFolder>::empty()) =~= out@.to_multiset());
    }
    out
}

/// Whether the vector of chosen indices contains `x`.
fn contains_index(picks: &Vec<usize>, x: usize) -> (b: bool)
    ensures
        b == picks@.contains(x),
{
    let mut i: usize = 0;
    while i < picks.len()
        invariant
            i <= picks@.len(),
            forall|j: int| 0 <= j < i ==> picks@[j] != x,
        decreases picks@.len() - i,
    {
        if picks[i] == x {
            return true;
        }
        i += 1;
    }
    false
}

/// The subsequence of `folders` kept by the operator's multi-selection,
/// read from position `i` on: position `k` is kept exactly when `k` is
/// among `picks`, and kept folders stay in scan order.
pub open spec fn chosen_from(
    folders: Seq<CandidateFolder>,
    picks: Seq<usize>,
    i: int,
) -> Seq<CandidateFolder>
    decreases folders.len() - i,
{
    if i < 0 || i >= folders.len() {
        Seq::empty()
    } else if picks.contains(i as usize) {
        seq![folders[i]] + chosen_from(folders, picks, i + 1)
    } else {
        chosen_from(folders, picks, i + 1)
    }
}

/// The subset of `folders` whose positions the operator picked, in scan
/// order: folder `i` is kept exactly when `i` is among `picks`, and kept
/// folders stay in their original relative order.
pub fn select_chosen(folders: Vec<CandidateFolder>, picks: &Vec<usize>) -> (r: Vec<CandidateFolder>)
    ensures
        r@ == chosen_from(folders@, picks@, 0),
{
    let ghost orig = folders@;
    let mut rest = folders;
    let n0: usize = rest.len();
    let mut out: Vec<CandidateFolder> = Vec::new();
    let mut i: usize = 0;
    proof {
        assert(rest@ =~= orig.subrange(0, orig.len() as int));
        assert(out@ + chosen_from(orig, picks@, 0) =~= chosen_from(orig, picks@, 0));
    }
    while rest.len() > 0
        invariant
            n0 == orig.len(),
            i + rest@.len() == orig.len(),
            rest@ == orig.subrange(i as int, orig.len() as int),
            chosen_from(orig, picks@, 0) == out@ + chosen_from(orig, picks@, i as int),
        decreases rest@.len(),
    {
        let ghost rest_old = rest@;
        let ghost out_old = out@;
        let x = rest.remove(0);
        proof {
            assert(rest_old[0] == orig[i as int]);
            assert(rest@ =~= orig.subrange(i + 1, orig.len() as int));
        }
        if contains_index(picks, i) {
            out.push(x);
            proof {
                assert(chosen_from(orig, picks@, i as int) =~= seq![orig[i as int]]
                    + chosen_from(orig, picks@, i + 1));
                assert(out_old + chosen_from(orig, picks@, i as int) =~= out@ + chosen_from(
                    orig,
                    picks@,
                    i + 1,
                ));
            }
        }
        i += 1;
    }
    proof {
        assert(chosen_from(orig, picks@, i as int) =~= Seq::<CandidateFolder>::empty());
        assert(out@ + Seq::<CandidateFolder>::empty() =~= out@);
    }
    out
}

} // verus!
