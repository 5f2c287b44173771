//! General laws of the builders, proved once and for all inputs.

use vstd::prelude::*;

use crate::clauses::{assignments_of, keys_of, returning_clause, vals_of, where_clause};
use crate::delete::{render_delete, DeleteView};
use crate::insert::{render_insert, InsertView};
use crate::pairs::{contains_key, lookup_key};
use crate::select::{
    alias_clause, empty_select, group_clause, having_clause, join_text, joins_clause,
    limit_clause, offset_clause, order_clause, order_dir_text, order_items_text, render_select,
    Order, JoinClauseView, SelectView,
};
use crate::text::{dec_rep, spec_join, lemma_spec_join_push};
use crate::update::{render_update, UpdateView};

verus! {

/// A `SELECT` with nothing configured renders as `SELECT * FROM <table>;`:
/// fields default to `*` and no other clause appears.
pub proof fn lemma_select_default_render(table: Seq<char>)
    ensures
        render_select(empty_select(table)) == "SELECT * FROM "@ + table + ";"@,
{
    reveal_strlit("SELECT ");
    reveal_strlit("*");
    reveal_strlit(" FROM ");
    reveal_strlit("SELECT * FROM ");
    assert(render_select(empty_select(table)) =~= "SELECT * FROM "@ + table + ";"@);
}

/// Each further `filter` call extends the `WHERE` clause at its end, ` AND `
/// standing between consecutive conditions: the clause holds the conditions
/// in call order.
pub proof fn lemma_where_clause_push(conditions: Seq<Seq<char>>, c: Seq<char>)
    ensures
        where_clause(conditions.push(c)) == if conditions.len() == 0 {
            " WHERE "@ + c
        } else {
            where_clause(conditions) + " AND "@ + c
        },
{
    lemma_spec_join_push(conditions, " AND "@, c);
    if conditions.len() == 0 {
        assert(where_clause(conditions.push(c)) =~= " WHERE "@ + c);
    } else {
        assert(where_clause(conditions.push(c)) =~= where_clause(conditions) + " AND "@ + c);
    }
}

/// The rendered column list and value list of an `INSERT` or `UPDATE` are the
/// two projections of one pair list: the value at any position belongs to the
/// field name at the same position, whatever order the entries stand in.
pub proof fn lemma_columns_values_pairing(vs: Seq<(Seq<char>, Seq<char>)>)
    ensures
        keys_of(vs).len() == vs.len(),
        vals_of(vs).len() == vs.len(),
        forall|i: int| 0 <= i < vs.len() ==> (keys_of(vs)[i], vals_of(vs)[i]) == vs[i],
{
}

/// The `SET` assignments of an `UPDATE` are joined with the literal token
/// ` AND `: each further assignment extends the joined text with ` AND ` and
/// its own `field = value` text.
pub proof fn lemma_update_set_joiner(vs: Seq<(Seq<char>, Seq<char>)>, p: (Seq<char>, Seq<char>))
    ensures
        spec_join(assignments_of(vs.push(p)), " AND "@) == if vs.len() == 0 {
            p.0 + " = "@ + p.1
        } else {
            spec_join(assignments_of(vs), " AND "@) + " AND "@ + (p.0 + " = "@ + p.1)
        },
{
    assert(assignments_of(vs.push(p)) =~= assignments_of(vs).push(p.0 + " = "@ + p.1));
    lemma_spec_join_push(assignments_of(vs), " AND "@, p.0 + " = "@ + p.1);
}

/// A limit or offset of zero, set or left at its default, renders no
/// `LIMIT`/`OFFSET` section; a non-zero one renders the keyword and its
/// decimal value.
pub proof fn lemma_limit_offset_sections(limit: int, offset: int)
    requires
        limit >= 0,
        offset >= 0,
    ensures
        limit == 0 ==> limit_clause(limit) == Seq::<char>::empty(),
        limit != 0 ==> limit_clause(limit) == " LIMIT "@ + dec_rep(limit as nat),
        offset == 0 ==> offset_clause(offset) == Seq::<char>::empty(),
        offset != 0 ==> offset_clause(offset) == " OFFSET "@ + dec_rep(offset as nat),
{
}

/// An alias is looked up under exactly the recorded name: the ` AS ` text
/// appears for `t` if and only if some alias was recorded for `t` itself,
/// and it carries the alias that shadows all earlier ones for `t`.
pub proof fn lemma_alias_exact_match(aliases: Seq<(Seq<char>, Seq<char>)>, t: Seq<char>)
    ensures
        (lookup_key(aliases, t) is Some) <==> contains_key(aliases, t),
        (lookup_key(aliases, t) is None) ==> alias_clause(aliases, t) == Seq::<char>::empty(),
        (lookup_key(aliases, t) is Some) ==> alias_clause(aliases, t) == " AS "@ + lookup_key(
            aliases,
            t,
        )->0,
    decreases aliases.len(),
{
    if aliases.len() == 0 {
    } else if aliases.last().0 == t {
        assert(aliases[aliases.len() - 1].0 == t);
    } else {
        let front = aliases.drop_last();
        lemma_alias_exact_match(front, t);
        if contains_key(aliases, t) {
            let i = choose|i: int| 0 <= i < aliases.len() && aliases[i].0 == t;
            assert(i < aliases.len() - 1);
            assert(front[i] == aliases[i]);
        }
        if contains_key(front, t) {
            let i = choose|i: int| 0 <= i < front.len() && front[i].0 == t;
            assert(aliases[i] == front[i]);
        }
    }
}

/// Joins render in call order: each further `join` call extends the join
/// section at its end with that join's own text.
pub proof fn lemma_joins_in_call_order(
    js: Seq<JoinClauseView>,
    aliases: Seq<(Seq<char>, Seq<char>)>,
    j: JoinClauseView,
)
    ensures
        joins_clause(js.push(j), aliases) == joins_clause(js, aliases) + join_text(j, aliases),
{
    let p = js.push(j);
    assert(p.drop_last() =~= js);
    assert(p.last() == j);
}

/// Order expressions render in call order, each directly followed by its
/// direction keyword and by the next expression with no separator between.
pub proof fn lemma_order_items_no_separator(
    items: Seq<(Seq<char>, Order)>,
    p: (Seq<char>, Order),
)
    ensures
        order_items_text(items.push(p)) == order_items_text(items) + p.0 + order_dir_text(p.1),
{
    let q = items.push(p);
    assert(q.drop_last() =~= items);
    assert(q.last() == p);
}

/// Rendering a `DELETE` is deterministic: what `build` returns is a function
/// of the builder's state alone, so an unmodified builder renders the same
/// text however often it is built.
pub proof fn lemma_delete_build_deterministic(v: DeleteView, r1: Seq<char>, r2: Seq<char>)
    requires
        r1 == render_delete(v),
        r2 == render_delete(v),
    ensures
        r1 == r2,
{
}

/// Rendering an `INSERT` is deterministic in the builder's state.
pub proof fn lemma_insert_build_deterministic(v: InsertView, r1: Seq<char>, r2: Seq<char>)
    requires
        r1 == render_insert(v),
        r2 == render_insert(v),
    ensures
        r1 == r2,
{
}

/// Rendering a `SELECT` is deterministic in the builder's state.
pub proof fn lemma_select_build_deterministic(v: SelectView, r1: Seq<char>, r2: Seq<char>)
    requires
        r1 == render_select(v),
        r2 == render_select(v),
    ensures
        r1 == r2,
{
}

/// Rendering an `UPDATE` is deterministic in the builder's state.
pub proof fn lemma_update_build_deterministic(v: UpdateView, r1: Seq<char>, r2: Seq<char>)
    requires
        r1 == render_update(v),
        r2 == render_update(v),
    ensures
        r1 == r2,
{
}

/// A clause section whose backing collection is empty renders as no text at
/// all.
pub proof fn lemma_empty_sections_absent(aliases: Seq<(Seq<char>, Seq<char>)>)
    ensures
        where_clause(Seq::<Seq<char>>::empty()) == Seq::<char>::empty(),
        returning_clause(Seq::<Seq<char>>::empty()) == Seq::<char>::empty(),
        group_clause(Seq::<Seq<char>>::empty()) == Seq::<char>::empty(),
        having_clause(Seq::<Seq<char>>::empty()) == Seq::<char>::empty(),
        order_clause(Seq::<(Seq<char>, Order)>::empty()) == Seq::<char>::empty(),
        joins_clause(Seq::<JoinClauseView>::empty(), aliases) == Seq::<char>::empty(),
        limit_clause(0) == Seq::<char>::empty(),
        offset_clause(0) == Seq::<char>::empty(),
{
}

/// Every render ends with exactly one `;`: the semicolon is the last
/// character, appended once after all sections.
pub proof fn lemma_renders_terminated(
    d: DeleteView,
    ins: InsertView,
    s: SelectView,
    u: UpdateView,
)
    ensures
        render_delete(d).len() >= 1 && render_delete(d).last() == ';',
        render_insert(ins).len() >= 1 && render_insert(ins).last() == ';',
        render_select(s).len() >= 1 && render_select(s).last() == ';',
        render_update(u).len() >= 1 && render_update(u).last() == ';',
{
    reveal_strlit(";");
    assert(";"@.len() == 1);
    assert(";"@[0] == ';');
}

} // verus!
