//! Counting correct choices, and why shuffling cannot change the count.
//!
//! The generator builds one correct choice and three distractors, then
//! hands the list to an outside shuffle that promises no more than a
//! multiset-preserving permutation.  These lemmas carry "exactly one
//! choice is correct" across that permutation: the count of correct
//! choices in a sequence equals the size of a filtered multiset, which
//! only depends on the sequence's multiset.

use vstd::prelude::*;
use crate::question::Choice;
use vstd::multiset::Multiset;

verus! {

/// Number of choices in `s` whose correctness flag is set.
pub open spec fn count_correct(s: Seq<Choice>) -> nat
    decreases s.len(),
{
    if s.len() == 0 {
        0
    } else {
        count_correct(s.drop_last()) + if s.last().is_correct {
            1nat
        } else {
            0nat
        }
    }
}

/// The same count, over a multiset of choices.
pub open spec fn ms_count_correct(m: Multiset<Choice>) -> nat {
    m.filter(|c: Choice| c.is_correct).len()
}

/// Appending one choice raises the count by one exactly when that choice
/// is correct.
pub proof fn lemma_count_correct_push(s: Seq<Choice>, c: Choice)
    ensures
        count_correct(s.push(c)) == count_correct(s) + if c.is_correct {
            1nat
        } else {
            0nat
        },
{
    assert(s.push(c).drop_last() =~= s);
}

/// Inserting one choice into a multiset raises the filtered size by one
/// exactly when that choice is correct.
proof fn lemma_ms_count_correct_insert(m: Multiset<Choice>, c: Choice)
    ensures
        ms_count_correct(m.insert(c)) == ms_count_correct(m) + if c.is_correct {
            1nat
        } else {
            0nat
        },
{
    broadcast use vstd::multiset::group_multiset_axioms;

    let f = |ch: Choice| ch.is_correct;
    if c.is_correct {
        assert(m.insert(c).filter(f) =~= m.filter(f).insert(c));
        assert(m.filter(f).insert(c).len() == m.filter(f).len() + 1);
    } else {
        assert(m.insert(c).filter(f) =~= m.filter(f));
    }
}

/// The count over a sequence equals the filtered size of its multiset.
pub proof fn lemma_count_correct_multiset(s: Seq<Choice>)
    ensures
        count_correct(s) == ms_count_correct(s.to_multiset()),
    decreases s.len(),
{
    broadcast use vstd::seq_lib::group_to_multiset_ensures;
    broadcast use vstd::multiset::group_multiset_axioms;

    let f = |ch: Choice| ch.is_correct;
    if s.len() == 0 {
        assert(s.to_multiset().len() == 0);
        assert(s.to_multiset() =~= Multiset::<Choice>::empty());
        assert(s.to_multiset().filter(f) =~= Multiset::<Choice>::empty());
    } else {
        let init = s.drop_last();
        lemma_count_correct_multiset(init);
        lemma_ms_count_correct_insert(init.to_multiset(), s.last());
        assert(init.push(s.last()) =~= s);
        assert(init.push(s.last()).to_multiset() =~= init.to_multiset().insert(s.last()));
    }
}

/// Sequences with equal multisets hold equally many correct choices: a
/// permutation cannot change the count.
pub proof fn lemma_count_correct_permutation(s1: Seq<Choice>, s2: Seq<Choice>)
    requires
        s1.to_multiset() == s2.to_multiset(),
    ensures
        count_correct(s1) == count_correct(s2),
{
    lemma_count_correct_multiset(s1);
    lemma_count_correct_multiset(s2);
}

/// Every element of a sequence occurs in any sequence with the same
/// multiset: a permutation only rearranges elements.
pub proof fn lemma_multiset_perm_elements(s1: Seq<Choice>, s2: Seq<Choice>)
    requires
        s1.to_multiset() == s2.to_multiset(),
    ensures
        forall|i: int| 0 <= i < s2.len() ==> s1.contains(#[trigger] s2[i]),
        s1.len() == s2.len(),
{
    broadcast use vstd::seq_lib::group_to_multiset_ensures;

    assert(s1.to_multiset().len() == s1.len());
    assert(s2.to_multiset().len() == s2.len());
    assert forall|i: int| 0 <= i < s2.len() implies s1.contains(#[trigger] s2[i]) by {
        assert(s2.contains(s2[i]));
        assert(s2.to_multiset().count(s2[i]) > 0);
    }
}

/// A sequence holding exactly one correct choice has a position where it
/// sits, with every other position incorrect.
pub proof fn lemma_one_correct_index(s: Seq<Choice>)
    requires
        count_correct(s) == 1,
    ensures
        exists|i: int|
            0 <= i < s.len() && (#[trigger] s[i]).is_correct && forall|j: int|
                0 <= j < s.len() && j != i ==> !(#[trigger] s[j]).is_correct,
    decreases s.len(),
{
    let init = s.drop_last();
    assert(forall|j: int| 0 <= j < s.len() - 1 ==> s[j] == init[j]);
    if s.last().is_correct {
        lemma_all_incorrect(init);
        let i = s.len() - 1;
        assert(s[i].is_correct && forall|j: int|
            0 <= j < s.len() && j != i ==> !(#[trigger] s[j]).is_correct);
    } else {
        lemma_one_correct_index(init);
        let i = choose|i: int|
            0 <= i < init.len() && (#[trigger] init[i]).is_correct && forall|j: int|
                0 <= j < init.len() && j != i ==> !(#[trigger] init[j]).is_correct;
        assert(s[i].is_correct && forall|j: int|
            0 <= j < s.len() && j != i ==> !(#[trigger] s[j]).is_correct);
    }
}

/// A sequence counting no correct choice has none.
pub proof fn lemma_all_incorrect(s: Seq<Choice>)
    requires
        count_correct(s) == 0,
    ensures
        forall|j: int| 0 <= j < s.len() ==> !(#[trigger] s[j]).is_correct,
    decreases s.len(),
{
    if s.len() > 0 {
        lemma_all_incorrect(s.drop_last());
        assert(forall|j: int| 0 <= j < s.len() - 1 ==> s[j] == s.drop_last()[j]);
    }
}

} // verus!
