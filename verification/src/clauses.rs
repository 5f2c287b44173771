//! Clause sections shared by several builders, and the executable helpers
//! that produce the fragment lists those sections are joined from.

use vstd::prelude::*;

use crate::text::{spec_join, views_of};
use crate::pairs::pair_views;

verus! {

/// The `WHERE` section: empty when no condition was recorded, otherwise
/// ` WHERE ` followed by the conditions joined with ` AND ` in call order.
pub open spec fn where_clause(conditions: Seq<Seq<char>>) -> Seq<char> {
    if conditions.len() == 0 {
        Seq::<char>::empty()
    } else {
        " WHERE "@ + spec_join(conditions, " AND "@)
    }
}

/// The `RETURNING` section: empty when no field was recorded, otherwise
/// ` RETURNING ` followed by the fields joined with `, ` in call order.
pub open spec fn returning_clause(rets: Seq<Seq<char>>) -> Seq<char> {
    if rets.len() == 0 {
        Seq::<char>::empty()
    } else {
        " RETURNING "@ + spec_join(rets, ", "@)
    }
}

/// The field names of a field/value pair sequence, in order.
pub open spec fn keys_of(vs: Seq<(Seq<char>, Seq<char>)>) -> Seq<Seq<char>> {
    vs.map_values(|p: (Seq<char>, Seq<char>)| p.0)
}

/// The value texts of a field/value pair sequence, in order.
pub open spec fn vals_of(vs: Seq<(Seq<char>, Seq<char>)>) -> Seq<Seq<char>> {
    vs.map_values(|p: (Seq<char>, Seq<char>)| p.1)
}

/// The `field = value` assignment text of each pair, in order.
pub open spec fn assignments_of(vs: Seq<(Seq<char>, Seq<char>)>) -> Seq<Seq<char>> {
    vs.map_values(|p: (Seq<char>, Seq<char>)| p.0 + " = "@ + p.1)
}

/// Split a pair list into its field-name list and its value list; the entry
/// at each position of the two lists comes from the pair at that position.
pub fn split_pairs(entries: &Vec<(String, String)>) -> (r: (Vec<String>, Vec<String>))
    ensures
        views_of(r.0@) == keys_of(pair_views(entries@)),
        views_of(r.1@) == vals_of(pair_views(entries@)),
{
    let ghost vs = pair_views(entries@);
    let mut columns: Vec<String> = Vec::new();
    let mut values: Vec<String> = Vec::new();
    let mut i: usize = 0;
    while i < entries.len()
        invariant
            0 <= i <= entries@.len(),
            vs == pair_views(entries@),
            columns@.len() == i,
            values@.len() == i,
            forall|j: int| 0 <= j < i ==> columns@[j]@ == vs[j].0 && values@[j]@ == vs[j].1,
        decreases entries@.len() - i,
    {
        columns.push(entries[i].0.clone());
        values.push(entries[i].1.clone());
        proof {
            assert(vs[i as int] == (entries@[i as int].0@, entries@[i as int].1@));
        }
        i = i + 1;
    }
    proof {
        assert forall|j: int| 0 <= j < vs.len() implies views_of(columns@)[j] == keys_of(vs)[j]
            && views_of(values@)[j] == vals_of(vs)[j] by {
            assert(columns@[j]@ == vs[j].0);
            assert(values@[j]@ == vs[j].1);
        }
        assert(views_of(columns@) =~= keys_of(vs));
        assert(views_of(values@) =~= vals_of(vs));
    }
    (columns, values)
}

/// Turn each field/value pair into its `field = value` assignment text.
pub fn assignment_strs(entries: &Vec<(String, String)>) -> (r: Vec<String>)
    ensures
        views_of(r@) == assignments_of(pair_views(entries@)),
{
    let ghost vs = pair_views(entries@);
    let mut assignments: Vec<String> = Vec::new();
    let mut i: usize = 0;
    while i < entries.len()
        invariant
            0 <= i <= entries@.len(),
            vs == pair_views(entries@),
            assignments@.len() == i,
            forall|j: int| 0 <= j < i ==> assignments@[j]@ == vs[j].0 + " = "@ + vs[j].1,
        decreases entries@.len() - i,
    {
        let mut a = entries[i].0.clone();
        a.append(" = ");
        a.append(entries[i].1.as_str());
        assignments.push(a);
        proof {
            assert(vs[i as int] == (entries@[i as int].0@, entries@[i as int].1@));
        }
        i = i + 1;
    }
    proof {
        assert forall|j: int| 0 <= j < vs.len() implies views_of(assignments@)[j]
            == assignments_of(vs)[j] by {
            assert(assignments@[j]@ == vs[j].0 + " = "@ + vs[j].1);
        }
        assert(views_of(assignments@) =~= assignments_of(vs));
    }
    assignments
}

} // verus!
