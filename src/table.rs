//! Small association lists of text keyed by text, where a later entry for a
//! key hides the earlier ones.

use vstd::prelude::*;

verus! {

/// The value that `entries` holds last under `name`, if any.
pub open spec fn lookup(entries: Seq<(Seq<char>, Seq<char>)>, name: Seq<char>) -> Option<Seq<char>>
    decreases entries.len(),
{
    if entries.len() == 0 {
        None
    } else if entries.last().0 == name {
        Some(entries.last().1)
    } else {
        lookup(entries.drop_last(), name)
    }
}

/// Whether two lists give the same value, or none, for every name.
pub open spec fn same_lookups(a: Seq<(Seq<char>, Seq<char>)>, b: Seq<(Seq<char>, Seq<char>)>) -> bool {
    forall|name: Seq<char>| #[trigger] lookup(a, name) == lookup(b, name)
}

/// A name with a value stands in some entry.
pub proof fn lemma_lookup_found(entries: Seq<(Seq<char>, Seq<char>)>, name: Seq<char>)
    requires
        lookup(entries, name) is Some,
    ensures
        exists|i: int| 0 <= i < entries.len() && (#[trigger] entries[i]).0 == name,
    decreases entries.len(),
{
    if entries.last().0 != name {
        lemma_lookup_found(entries.drop_last(), name);
        let i = choose|i: int| 0 <= i < entries.drop_last().len() && (#[trigger] entries.drop_last()[i]).0 == name;
        assert(entries[i] == entries.drop_last()[i]);
    }
}

/// The text of each pair.
pub open spec fn text_pairs(entries: Seq<(String, String)>) -> Seq<(Seq<char>, Seq<char>)> {
    entries.map_values(|e: (String, String)| (e.0@, e.1@))
}

/// The index of the last entry under `name`.
pub fn find_last(entries: &Vec<(String, String)>, name: &str) -> (r: Option<usize>)
    ensures
        match r {
            Some(i) => i < entries.len() && lookup(text_pairs(entries@), name@) == Some(
                entries@[i as int].1@,
            ),
            None => lookup(text_pairs(entries@), name@) == None::<Seq<char>>,
        },
{
    let ghost all = text_pairs(entries@);
    let key = String::from_str(name);
    let mut i: usize = entries.len();
    assert(all.subrange(0, i as int) =~= all);
    while i > 0
        invariant
            i <= entries.len(),
            all == text_pairs(entries@),
            key@ == name@,
            lookup(all, name@) == lookup(all.subrange(0, i as int), name@),
        decreases i,
    {
        assert(all.subrange(0, i as int).drop_last() =~= all.subrange(0, i - 1));
        if entries[i - 1].0 == key {
            return Some(i - 1);
        }
        i = i - 1;
    }
    None
}

/// Whether every name that `a` holds has the same value in `b`.
fn agrees_on_names(a: &Vec<(String, String)>, b: &Vec<(String, String)>) -> (r: bool)
    ensures
        r == forall|i: int| 0 <= i < a.len() ==> lookup(text_pairs(a@), (#[trigger] a@[i]).0@) == lookup(text_pairs(b@), a@[i].0@),
{
    let mut i: usize = 0;
    while i < a.len()
        invariant
            i <= a.len(),
            forall|k: int| 0 <= k < i ==> lookup(text_pairs(a@), (#[trigger] a@[k]).0@) == lookup(text_pairs(b@), a@[k].0@),
        decreases a.len() - i,
    {
        let name = a[i].0.as_str();
        let same = match (find_last(a, name), find_last(b, name)) {
            (Some(x), Some(y)) => a[x].1 == b[y].1,
            (None, None) => true,
            _ => false,
        };
        if !same {
            return false;
        }
        i = i + 1;
    }
    true
}

/// Whether the two lists give the same value, or none, for every name.
pub fn same_entries(a: &Vec<(String, String)>, b: &Vec<(String, String)>) -> (r: bool)
    ensures
        r == same_lookups(text_pairs(a@), text_pairs(b@)),
{
    let ghost pa = text_pairs(a@);
    let ghost pb = text_pairs(b@);
    let forward = agrees_on_names(a, b);
    let backward = agrees_on_names(b, a);
    let r = forward && backward;
    proof {
        if r {
            assert forall|name: Seq<char>| #[trigger] lookup(pa, name) == lookup(pb, name) by {
                if lookup(pa, name) is Some {
                    lemma_lookup_found(pa, name);
                    let i = choose|i: int| 0 <= i < pa.len() && (#[trigger] pa[i]).0 == name;
                    assert(a@[i].0@ == name);
                } else if lookup(pb, name) is Some {
                    lemma_lookup_found(pb, name);
                    let i = choose|i: int| 0 <= i < pb.len() && (#[trigger] pb[i]).0 == name;
                    assert(b@[i].0@ == name);
                }
            }
        } else if !forward {
            let i = choose|i: int| 0 <= i < a.len() && !(lookup(pa, (#[trigger] a@[i]).0@) == lookup(pb, a@[i].0@));
            assert(!same_lookups(pa, pb));
        } else {
            let i = choose|i: int| 0 <= i < b.len() && !(lookup(pb, (#[trigger] b@[i]).0@) == lookup(pa, b@[i].0@));
            assert(!same_lookups(pa, pb));
        }
    }
    r
}

} // verus!
