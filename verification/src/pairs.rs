//! Field/value pair sequences: the model behind the `set` methods of the
//! `INSERT` and `UPDATE` builders and the alias table of the `SELECT` builder.

use vstd::prelude::*;

verus! {

/// The views of a sequence of string pairs.
pub open spec fn pair_views(s: Seq<(String, String)>) -> Seq<(Seq<char>, Seq<char>)> {
    s.map_values(|p: (String, String)| (p.0@, p.1@))
}

/// No two entries share a key.
pub open spec fn keys_unique(vs: Seq<(Seq<char>, Seq<char>)>) -> bool {
    forall|i: int, j: int| 0 <= i < j < vs.len() ==> vs[i].0 != vs[j].0
}

/// Some entry has key `f`.
pub open spec fn contains_key(vs: Seq<(Seq<char>, Seq<char>)>, f: Seq<char>) -> bool {
    exists|i: int| 0 <= i < vs.len() && vs[i].0 == f
}

/// The pair sequence after `set(f, v)`: the entry keyed `f` is replaced in
/// place, or a fresh entry is appended when no entry has that key.
pub open spec fn set_pair(
    vs: Seq<(Seq<char>, Seq<char>)>,
    f: Seq<char>,
    v: Seq<char>,
) -> Seq<(Seq<char>, Seq<char>)> {
    if contains_key(vs, f) {
        vs.map_values(|p: (Seq<char>, Seq<char>)| if p.0 == f { (f, v) } else { p })
    } else {
        vs.push((f, v))
    }
}

/// The mapping a pair sequence denotes; on duplicate keys the later entry wins.
pub open spec fn pairs_map(vs: Seq<(Seq<char>, Seq<char>)>) -> Map<Seq<char>, Seq<char>>
    decreases vs.len(),
{
    if vs.len() == 0 {
        Map::<Seq<char>, Seq<char>>::empty()
    } else {
        pairs_map(vs.drop_last()).insert(vs.last().0, vs.last().1)
    }
}

/// `set` keeps the keys pairwise distinct.
pub proof fn lemma_set_pair_keys_unique(vs: Seq<(Seq<char>, Seq<char>)>, f: Seq<char>, v: Seq<char>)
    requires
        keys_unique(vs),
    ensures
        keys_unique(set_pair(vs, f, v)),
{
    let r = set_pair(vs, f, v);
    if contains_key(vs, f) {
        assert forall|i: int, j: int| 0 <= i < j < r.len() implies r[i].0 != r[j].0 by {
            assert(vs[i].0 != vs[j].0);
        }
    }
}

/// The mapping denoted after `set(f, v)` is the old mapping with `f` bound to
/// `v`: pairing of keys to values is preserved, whatever order the entries
/// stand in.
pub proof fn lemma_set_pair_map(vs: Seq<(Seq<char>, Seq<char>)>, f: Seq<char>, v: Seq<char>)
    requires
        keys_unique(vs),
    ensures
        pairs_map(set_pair(vs, f, v)) == pairs_map(vs).insert(f, v),
    decreases vs.len(),
{
    if !contains_key(vs, f) {
        let p = vs.push((f, v));
        assert(p.drop_last() =~= vs);
    } else {
        let g = |p: (Seq<char>, Seq<char>)| if p.0 == f { (f, v) } else { p };
        let m = vs.map_values(g);
        assert(set_pair(vs, f, v) =~= m);
        assert(vs.len() > 0);
        let front = vs.drop_last();
        assert(m.drop_last() =~= front.map_values(g));
        assert(m.last() == g(vs.last()));
        if vs.last().0 == f {
            // By uniqueness no earlier entry has key `f`, so the front maps to
            // itself and only the last binding changes.
            assert forall|i: int| 0 <= i < front.len() implies front.map_values(g)[i] == front[i] by {
                assert(vs[i].0 != vs[vs.len() - 1].0);
            }
            assert(front.map_values(g) =~= front);
            assert(m.drop_last() == front);
            assert(m.last() == (f, v));
            assert(pairs_map(m) == pairs_map(front).insert(f, v));
            assert(pairs_map(vs) == pairs_map(front).insert(f, vs.last().1));
            assert(pairs_map(vs).insert(f, v) =~= pairs_map(front).insert(f, v));
        } else {
            assert(contains_key(front, f)) by {
                let i = choose|i: int| 0 <= i < vs.len() && vs[i].0 == f;
                assert(i < vs.len() - 1);
                assert(front[i] == vs[i]);
            }
            lemma_set_pair_map(front, f, v);
            assert(set_pair(front, f, v) =~= front.map_values(g));
            assert(pairs_map(front.map_values(g)) == pairs_map(front).insert(f, v));
            assert(pairs_map(m) == pairs_map(front).insert(f, v).insert(vs.last().0, vs.last().1));
            // The two keys differ, so the inserts commute.
            assert(pairs_map(front).insert(f, v).insert(vs.last().0, vs.last().1)
                =~= pairs_map(front).insert(vs.last().0, vs.last().1).insert(f, v));
            assert(pairs_map(vs) == pairs_map(front).insert(vs.last().0, vs.last().1));
        }
    }
}

/// Insert or replace the entry keyed `field`, mirroring `set_pair`.
pub fn put_pair(entries: &mut Vec<(String, String)>, field: &str, value: &str)
    requires
        keys_unique(pair_views(old(entries)@)),
    ensures
        pair_views(final(entries)@) == set_pair(pair_views(old(entries)@), field@, value@),
        keys_unique(pair_views(final(entries)@)),
{
    let ghost vs = pair_views(entries@);
    let field_owned = field.to_owned();
    let mut i: usize = 0;
    while i < entries.len()
        invariant
            0 <= i <= entries@.len(),
            entries@ == old(entries)@,
            vs == pair_views(entries@),
            keys_unique(vs),
            field_owned@ == field@,
            forall|j: int| 0 <= j < i ==> vs[j].0 != field@,
        decreases entries@.len() - i,
    {
        if entries[i].0 == field_owned {
            proof {
                assert(vs[i as int] == (entries@[i as int].0@, entries@[i as int].1@));
                assert(contains_key(vs, field@));
            }
            entries.set(i, (field.to_owned(), value.to_owned()));
            proof {
                let g = |p: (Seq<char>, Seq<char>)| if p.0 == field@ { (field@, value@) } else { p };
                assert forall|j: int| 0 <= j < vs.len() implies pair_views(entries@)[j]
                    == vs.map_values(g)[j] by {
                    if j != i {
                        assert(vs[j].0 != vs[i as int].0);
                    }
                }
                assert(pair_views(entries@) =~= set_pair(vs, field@, value@));
                lemma_set_pair_keys_unique(vs, field@, value@);
            }
            return ;
        }
        i = i + 1;
    }
    entries.push((field.to_owned(), value.to_owned()));
    proof {
        assert(!contains_key(vs, field@));
        assert(pair_views(entries@) =~= set_pair(vs, field@, value@));
        lemma_set_pair_keys_unique(vs, field@, value@);
    }
}

/// The value bound to `t`, later entries shadowing earlier ones.
pub open spec fn lookup_key(vs: Seq<(Seq<char>, Seq<char>)>, t: Seq<char>) -> Option<Seq<char>>
    decreases vs.len(),
{
    if vs.len() == 0 {
        None
    } else if vs.last().0 == t {
        Some(vs.last().1)
    } else {
        lookup_key(vs.drop_last(), t)
    }
}

/// Find the value bound to `t`, mirroring `lookup_key`.
pub fn find_key(entries: &Vec<(String, String)>, t: &str) -> (r: Option<String>)
    ensures
        match lookup_key(pair_views(entries@), t@) {
            Some(a) => r is Some && r->0@ == a,
            None => r is None,
        },
{
    let ghost vs = pair_views(entries@);
    let t_owned = t.to_owned();
    let mut r: Option<String> = None;
    let mut i: usize = 0;
    while i < entries.len()
        invariant
            0 <= i <= entries@.len(),
            vs == pair_views(entries@),
            t_owned@ == t@,
            match lookup_key(vs.take(i as int), t@) {
                Some(a) => r is Some && r->0@ == a,
                None => r is None,
            },
        decreases entries@.len() - i,
    {
        if entries[i].0 == t_owned {
            r = Some(entries[i].1.clone());
        }
        proof {
            let tk = vs.take(i as int + 1);
            assert(tk.drop_last() =~= vs.take(i as int));
            assert(tk.last() == vs[i as int]);
        }
        i = i + 1;
    }
    proof {
        assert(vs.take(entries@.len() as int) =~= vs);
    }
    r
}

} // verus!
