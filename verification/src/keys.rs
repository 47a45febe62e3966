//! Duplicate detection over the identifiers of collected items.
use crate::text::views;
use std::collections::HashSet;
use vstd::prelude::*;

verus! {

proof fn lemma_push_no_duplicates<A>(s: Seq<A>, x: A)
    requires
        s.no_duplicates(),
        !s.contains(x),
    ensures
        s.push(x).no_duplicates(),
{
    assert forall|i: int, j: int|
        0 <= i < s.push(x).len() && 0 <= j < s.push(x).len() && i != j implies s.push(x)[i]
        != s.push(x)[j] by {
        if i == s.len() {
            assert(s[j] == s.push(x)[j]);
        } else if j == s.len() {
            assert(s[i] == s.push(x)[i]);
        }
    }
}

proof fn lemma_duplicate_found<A>(s: Seq<A>, ids: Seq<A>, j: int)
    requires
        0 <= j < ids.len(),
        (s + ids.subrange(0, j)).contains(ids[j]),
    ensures
        !(s + ids).no_duplicates(),
{
    let prefix = s + ids.subrange(0, j);
    let k = choose|k: int| 0 <= k < prefix.len() && prefix[k] == ids[j];
    let all = s + ids;
    assert(all[k] == prefix[k]);
    assert(all[s.len() + j] == ids[j]);
}

/// Whether appending `ids` to the identifiers `seen_ids` already collected,
/// held for lookup in the hash set `seen`, keeps every identifier distinct.
pub(crate) fn fresh_u64_ids(seen: &HashSet<u64>, Ghost(seen_ids): Ghost<Seq<u64>>, ids: &Vec<u64>) -> (fresh: bool)
    requires
        seen@ == seen_ids.to_set(),
        seen_ids.no_duplicates(),
    ensures
        fresh == (seen_ids + ids@).no_duplicates(),
{
    broadcast use vstd::std_specs::hash::group_hash_axioms;

    let mut j: usize = 0;
    let mut taken: HashSet<u64> = HashSet::new();
    assert(ids@.subrange(0, 0) =~= Seq::<u64>::empty());
    assert(seen_ids + ids@.subrange(0, 0) =~= seen_ids);
    assert(taken@ =~= ids@.subrange(0, 0).to_set());
    while j < ids.len()
        invariant
            j <= ids@.len(),
            seen@ == seen_ids.to_set(),
            seen_ids.no_duplicates(),
            taken@ == ids@.subrange(0, j as int).to_set(),
            (seen_ids + ids@.subrange(0, j as int)).no_duplicates(),
        decreases ids@.len() - j,
    {
        let x = ids[j];
        let in_seen = seen.contains(&x);
        let in_taken = taken.contains(&x);
        let ghost prefix = seen_ids + ids@.subrange(0, j as int);
        if in_seen || in_taken {
            proof {
                if in_seen {
                    let k = choose|k: int| 0 <= k < seen_ids.len() && seen_ids[k] == x;
                    assert(prefix[k] == x);
                } else {
                    let k = choose|k: int| 0 <= k < j && ids@.subrange(0, j as int)[k] == x;
                    assert(prefix[seen_ids.len() + k] == x);
                }
                lemma_duplicate_found(seen_ids, ids@, j as int);
            }
            return false;
        }
        proof {
            if prefix.contains(x) {
                let k = choose|k: int| 0 <= k < prefix.len() && prefix[k] == x;
                if k < seen_ids.len() {
                    assert(seen_ids.contains(x));
                } else {
                    assert(ids@.subrange(0, j as int)[k - seen_ids.len()] == x);
                    assert(ids@.subrange(0, j as int).contains(x));
                }
            }
            lemma_push_no_duplicates(prefix, x);
            assert(seen_ids + ids@.subrange(0, j + 1) =~= prefix.push(x));
        }
        taken.insert(x);
        proof {
            let before = ids@.subrange(0, j as int);
            let after = ids@.subrange(0, j + 1);
            assert(after =~= before.push(x));
            assert forall|y: u64| taken@.contains(y) <==> after.contains(y) by {
                if before.contains(y) {
                    let k = choose|k: int| 0 <= k < before.len() && before[k] == y;
                    assert(after[k] == y);
                }
                if after.contains(y) {
                    let k = choose|k: int| 0 <= k < after.len() && after[k] == y;
                    if k < before.len() {
                        assert(before[k] == y);
                    }
                }
                assert(after[before.len() as int] == x);
            }
            assert(taken@ =~= after.to_set());
        }
        j = j + 1;
    }
    assert(ids@.subrange(0, ids@.len() as int) =~= ids@);
    true
}

/// Adds `ids` to the hash set `seen` that holds the identifiers `seen_ids`.
pub(crate) fn insert_u64_ids(seen: &mut HashSet<u64>, Ghost(seen_ids): Ghost<Seq<u64>>, ids: &Vec<u64>)
    requires
        old(seen)@ == seen_ids.to_set(),
    ensures
        final(seen)@ == (seen_ids + ids@).to_set(),
{
    broadcast use vstd::std_specs::hash::group_hash_axioms;

    let mut j: usize = 0;
    assert(seen_ids + ids@.subrange(0, 0) =~= seen_ids);
    while j < ids.len()
        invariant
            j <= ids@.len(),
            seen@ == (seen_ids + ids@.subrange(0, j as int)).to_set(),
        decreases ids@.len() - j,
    {
        let x = ids[j];
        let ghost before = seen_ids + ids@.subrange(0, j as int);
        seen.insert(x);
        assert(seen_ids + ids@.subrange(0, j + 1) =~= before.push(x));
        assert(seen@ =~= before.push(x).to_set()) by {
            assert forall|y: u64| seen@.contains(y) <==> before.push(x).contains(y) by {
                if before.contains(y) {
                    let k = choose|k: int| 0 <= k < before.len() && before[k] == y;
                    assert(before.push(x)[k] == y);
                }
                if before.push(x).contains(y) {
                    let k = choose|k: int| 0 <= k < before.len() + 1 && before.push(x)[k] == y;
                    if k < before.len() {
                        assert(before[k] == y);
                    }
                }
                assert(before.push(x)[before.len() as int] == x);
            }
        }
        j = j + 1;
    }
    assert(ids@.subrange(0, ids@.len() as int) =~= ids@);
}

fn contains_string(v: &Vec<String>, x: &String) -> (r: bool)
    ensures
        r == views(v@).contains(x@),
{
    let mut i: usize = 0;
    while i < v.len()
        invariant
            i <= v@.len(),
            forall|k: int| 0 <= k < i ==> v@[k]@ != x@,
        decreases v@.len() - i,
    {
        if v[i] == *x {
            assert(views(v@)[i as int] == x@);
            return true;
        }
        i = i + 1;
    }
    proof {
        if views(v@).contains(x@) {
            let k = choose|k: int| 0 <= k < views(v@).len() && views(v@)[k] == x@;
            assert(v@[k]@ == x@);
        }
    }
    false
}

/// Whether appending `ids` to `seen` keeps every identifier distinct (compared as text).
pub fn fresh_string_ids(seen: &Vec<String>, ids: &Vec<String>) -> (fresh: bool)
    requires
        views(seen@).no_duplicates(),
    ensures
        fresh == (views(seen@) + views(ids@)).no_duplicates(),
{
    let ghost s = views(seen@);
    let ghost all = views(ids@);
    let mut j: usize = 0;
    let mut taken: Vec<String> = Vec::new();
    assert(all.subrange(0, 0) =~= Seq::<Seq<char>>::empty());
    assert(s + all.subrange(0, 0) =~= s);
    while j < ids.len()
        invariant
            j <= ids@.len(),
            s == views(seen@),
            all == views(ids@),
            s.no_duplicates(),
            views(taken@) == all.subrange(0, j as int),
            (s + all.subrange(0, j as int)).no_duplicates(),
        decreases ids@.len() - j,
    {
        let x = &ids[j];
        let in_seen = contains_string(seen, x);
        let in_taken = contains_string(&taken, x);
        let ghost prefix = s + all.subrange(0, j as int);
        assert(all[j as int] == x@);
        if in_seen || in_taken {
            proof {
                if in_seen {
                    let k = choose|k: int| 0 <= k < s.len() && s[k] == x@;
                    assert(prefix[k] == x@);
                } else {
                    let k = choose|k: int| 0 <= k < views(taken@).len() && views(taken@)[k] == x@;
                    assert(prefix[s.len() + k] == x@);
                }
                lemma_duplicate_found(s, all, j as int);
            }
            return false;
        }
        proof {
            if prefix.contains(x@) {
                let k = choose|k: int| 0 <= k < prefix.len() && prefix[k] == x@;
                if k < s.len() {
                    assert(s[k] == x@);
                } else {
                    assert(views(taken@)[k - s.len()] == x@);
                }
            }
            lemma_push_no_duplicates(prefix, x@);
            assert(s + all.subrange(0, j + 1) =~= prefix.push(x@));
        }
        taken.push(x.clone());
        assert(views(taken@) =~= all.subrange(0, j + 1));
        j = j + 1;
    }
    assert(all.subrange(0, all.len() as int) =~= all);
    true
}

} // verus!
