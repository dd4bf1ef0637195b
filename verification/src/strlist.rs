//! Verified helpers on lists of strings, shared by the
//! configuration stores.

use vstd::prelude::*;

use crate::platform::str_eq;

verus! {

/// Copies an optional string.
pub fn clone_opt_string(o: &Option<String>) -> (r: Option<String>)
    ensures
        r.deep_view() == o.deep_view(),
{
    match o {
        Some(s) => Some(s.clone()),
        None => None,
    }
}

/// Copies a list of strings.
pub fn clone_string_vec(v: &Vec<String>) -> (r: Vec<String>)
    ensures
        r.deep_view() == v.deep_view(),
{
    let mut r: Vec<String> = Vec::new();
    let mut i: usize = 0;
    while i < v.len()
        invariant
            i <= v.len(),
            r@.len() == i as int,
            forall|k: int| 0 <= k < i ==> (#[trigger] r@[k])@ == v@[k]@,
        decreases v.len() - i,
    {
        r.push(v[i].clone());
        i = i + 1;
    }
    proof {
        assert(r.deep_view() =~= v.deep_view());
    }
    r
}

/// Whether the list holds the given string.
pub fn contains_string(v: &Vec<String>, x: &str) -> (r: bool)
    ensures
        r == v.deep_view().contains(x@),
{
    let mut i: usize = 0;
    while i < v.len()
        invariant
            i <= v.len(),
            forall|j: int| 0 <= j < i ==> v.deep_view()[j] != x@,
        decreases v.len() - i,
    {
        if str_eq(v[i].as_str(), x) {
            assert(v.deep_view()[i as int] == x@);
            return true;
        }
        i = i + 1;
    }
    false
}

/// The list with every occurrence of `x` removed, order kept.
pub open spec fn spec_remove_all(l: Seq<Seq<char>>, x: Seq<char>) -> Seq<Seq<char>>
    decreases l.len(),
{
    if l.len() == 0 {
        Seq::empty()
    } else {
        let kept = spec_remove_all(l.drop_last(), x);
        if l.last() == x {
            kept
        } else {
            kept.push(l.last())
        }
    }
}

/// Removes every occurrence of `x` from the list, keeping the order
/// of the rest.
pub fn remove_string(v: &Vec<String>, x: &str) -> (r: Vec<String>)
    ensures
        r.deep_view() == spec_remove_all(v.deep_view(), x@),
{
    let mut r: Vec<String> = Vec::new();
    let mut i: usize = 0;
    while i < v.len()
        invariant
            i <= v.len(),
            r.deep_view() =~= spec_remove_all(v.deep_view().take(i as int), x@),
        decreases v.len() - i,
    {
        proof {
            assert(v.deep_view().take(i + 1).drop_last() =~= v.deep_view().take(i as int));
        }
        if !str_eq(v[i].as_str(), x) {
            r.push(v[i].clone());
        }
        i = i + 1;
    }
    proof {
        assert(v.deep_view().take(v.len() as int) =~= v.deep_view());
    }
    r
}

/// Removing a string leaves no occurrence of it and keeps every
/// other element.
pub proof fn lemma_remove_all_removes(l: Seq<Seq<char>>, x: Seq<char>)
    ensures
        !spec_remove_all(l, x).contains(x),
        forall|i: int|
            0 <= i < l.len() && l[i] != x ==> spec_remove_all(l, x).contains(#[trigger] l[i]),
    decreases l.len(),
{
    if l.len() > 0 {
        lemma_remove_all_removes(l.drop_last(), x);
        let kept = spec_remove_all(l.drop_last(), x);
        let whole = spec_remove_all(l, x);
        if l.last() != x {
            assert(whole == kept.push(l.last()));
            assert forall|k: int| 0 <= k < whole.len() implies whole[k] != x by {
                if k < kept.len() {
                    assert(whole[k] == kept[k]);
                    assert(!kept.contains(x));
                }
            }
            assert(whole.last() == l.last());
            assert(whole.contains(l.last()));
        }
        assert forall|i: int| 0 <= i < l.len() && l[i] != x implies whole.contains(
            #[trigger] l[i],
        ) by {
            if i < l.len() - 1 {
                assert(l.drop_last()[i] == l[i]);
                assert(kept.contains(l[i]));
                let w = choose|w: int| 0 <= w < kept.len() && kept[w] == l[i];
                if l.last() != x {
                    assert(whole[w] == kept[w]);
                }
            }
        }
    }
}

} // verus!
