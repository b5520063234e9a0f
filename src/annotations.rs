//! Annotation mappings, held as key/value pairs in the mapping's order.

use vstd::prelude::*;

verus! {

/// The value of the last pair whose key is `k`.
pub open spec fn lookup(a: Seq<(String, String)>, k: Seq<char>) -> Option<Seq<char>>
    decreases a.len(),
{
    if a.len() == 0 {
        None
    } else if a.last().0@ == k {
        Some(a.last().1@)
    } else {
        lookup(a.drop_last(), k)
    }
}

/// The pairs of `a` whose key is none of `ks`, in their order.
pub open spec fn without_keys(a: Seq<(String, String)>, ks: Seq<Seq<char>>) -> Seq<(String, String)>
    decreases a.len(),
{
    if a.len() == 0 {
        a
    } else {
        let rest = without_keys(a.drop_last(), ks);
        if ks.contains(a.last().0@) {
            rest
        } else {
            rest.push(a.last())
        }
    }
}

/// Removing no key keeps every pair.
pub proof fn lemma_without_no_keys(a: Seq<(String, String)>)
    ensures
        without_keys(a, seq![]) == a,
    decreases a.len(),
{
    if a.len() > 0 {
        lemma_without_no_keys(a.drop_last());
        assert(a.drop_last().push(a.last()) =~= a);
    }
}

/// Removing the keys `ks`, then `k`, removes the keys `ks.push(k)`.
pub proof fn lemma_without_keys_then(a: Seq<(String, String)>, ks: Seq<Seq<char>>, k: Seq<char>)
    ensures
        without_keys(without_keys(a, ks), seq![k]) == without_keys(a, ks.push(k)),
    decreases a.len(),
{
    if a.len() > 0 {
        lemma_without_keys_then(a.drop_last(), ks, k);
        let x = a.last();
        let rest = without_keys(a.drop_last(), ks);
        assert(ks.push(k).contains(x.0@) == (ks.contains(x.0@) || x.0@ == k)) by {
            if x.0@ == k {
                assert(ks.push(k)[ks.len() as int] == k);
            }
            if ks.contains(x.0@) {
                let i = choose|i: int| 0 <= i < ks.len() && ks[i] == x.0@;
                assert(ks.push(k)[i] == x.0@);
            }
        }
        assert(seq![k].contains(x.0@) == (x.0@ == k)) by {
            if x.0@ == k {
                assert(seq![k][0] == k);
            }
        }
        if !ks.contains(x.0@) {
            assert(rest.push(x).drop_last() =~= rest);
        }
    }
}

/// No pair left by `without_keys` has one of the removed keys.
pub proof fn lemma_without_keys_excludes(a: Seq<(String, String)>, ks: Seq<Seq<char>>, i: int)
    requires
        0 <= i < without_keys(a, ks).len(),
    ensures
        !ks.contains(without_keys(a, ks)[i].0@),
        a.contains(without_keys(a, ks)[i]),
    decreases a.len(),
{
    if a.len() > 0 {
        let rest = without_keys(a.drop_last(), ks);
        if i < rest.len() {
            lemma_without_keys_excludes(a.drop_last(), ks, i);
            assert(without_keys(a, ks)[i] == rest[i]);
            let j = choose|j: int| 0 <= j < a.drop_last().len() && a.drop_last()[j] == rest[i];
            assert(a[j] == rest[i]);
        } else {
            assert(a[a.len() - 1] == a.last());
        }
    }
}

/// Every pair whose key is not removed is kept.
pub proof fn lemma_without_keys_keeps(a: Seq<(String, String)>, ks: Seq<Seq<char>>, i: int)
    requires
        0 <= i < a.len(),
        !ks.contains(a[i].0@),
    ensures
        without_keys(a, ks).contains(a[i]),
    decreases a.len(),
{
    let rest = without_keys(a.drop_last(), ks);
    if i < a.len() - 1 {
        assert(a.drop_last()[i] == a[i]);
        lemma_without_keys_keeps(a.drop_last(), ks, i);
        let j = choose|j: int| 0 <= j < rest.len() && rest[j] == a[i];
        if !ks.contains(a.last().0@) {
            assert(rest.push(a.last())[j] == a[i]);
        }
    } else {
        assert(rest.push(a.last())[rest.len() as int] == a[i]);
    }
}

/// A copy of the pairs.
pub fn copy_pairs(a: &Vec<(String, String)>) -> (r: Vec<(String, String)>)
    ensures
        r@ == a@,
{
    let mut r: Vec<(String, String)> = Vec::new();
    let mut i: usize = 0;
    while i < a.len()
        invariant
            i <= a@.len(),
            r@ == a@.take(i as int),
        decreases a@.len() - i,
    {
        r.push((a[i].0.clone(), a[i].1.clone()));
        assert(a@.take(i as int + 1) =~= a@.take(i as int).push(a@[i as int]));
        i = i + 1;
    }
    assert(a@.take(i as int) =~= a@);
    r
}

/// The value under `k`, as `lookup` reads it.
pub fn lookup_value(a: &Vec<(String, String)>, k: &String) -> (r: Option<String>)
    ensures
        match r {
            Some(v) => lookup(a@, k@) == Some(v@),
            None => lookup(a@, k@) is None,
        },
{
    let mut found: Option<usize> = None;
    let mut i: usize = 0;
    while i < a.len()
        invariant
            i <= a@.len(),
            found matches Some(j) ==> j < i && lookup(a@.take(i as int), k@) == Some(
                a@[j as int].1@,
            ),
            found is None ==> lookup(a@.take(i as int), k@) is None,
        decreases a@.len() - i,
    {
        assert(a@.take(i as int + 1).drop_last() =~= a@.take(i as int));
        if a[i].0 == *k {
            found = Some(i);
        }
        i = i + 1;
    }
    assert(a@.take(i as int) =~= a@);
    match found {
        Some(j) => Some(a[j].1.clone()),
        None => None,
    }
}

/// The pairs of `a` without those whose key is `k`.
pub fn without_key(a: &Vec<(String, String)>, k: &String) -> (r: Vec<(String, String)>)
    ensures
        r@ == without_keys(a@, seq![k@]),
{
    let mut r: Vec<(String, String)> = Vec::new();
    let mut i: usize = 0;
    while i < a.len()
        invariant
            i <= a@.len(),
            r@ == without_keys(a@.take(i as int), seq![k@]),
        decreases a@.len() - i,
    {
        let ghost x = a@[i as int];
        assert(a@.take(i as int + 1).drop_last() =~= a@.take(i as int));
        assert(seq![k@].contains(x.0@) == (x.0@ == k@)) by {
            if x.0@ == k@ {
                assert(seq![k@][0] == k@);
            }
        }
        if a[i].0 != *k {
            r.push((a[i].0.clone(), a[i].1.clone()));
        }
        i = i + 1;
    }
    assert(a@.take(i as int) =~= a@);
    r
}

} // verus!
