//! The `SELECT` statement builder.

use vstd::prelude::*;

use crate::clauses::where_clause;
use crate::pairs::{lookup_key, pair_views, find_key};
use crate::text::{dec_rep, join_strs, spec_join, usize_to_dec, views_of};

verus! {

/// The direction of an `ORDER` clause's expression
#[derive(Debug, Clone, Copy)]
pub enum Order {
    Asc,
    Desc,
}

/// The type of `JOIN` to perform
#[derive(Debug, Clone, Copy)]
pub enum Join {
    Left,
    Inner,
}

/// One joined table of a `SELECT` statement.
#[derive(Debug)]
pub struct JoinClause {
    pub table: String,
    pub on_left: String,
    pub on_right: String,
    pub kind: Join,
}

/// The mathematical state of one `JOIN` clause.
#[verifier::ext_equal]
pub struct JoinClauseView {
    pub table: Seq<char>,
    pub on_left: Seq<char>,
    pub on_right: Seq<char>,
    pub kind: Join,
}

impl View for JoinClause {
    type V = JoinClauseView;

    open spec fn view(&self) -> JoinClauseView {
        JoinClauseView {
            table: self.table@,
            on_left: self.on_left@,
            on_right: self.on_right@,
            kind: self.kind,
        }
    }
}

/// Builder for a `SELECT` statement: target table, aliases, fields, joins,
/// filters, groupings, havings, order list, limit and offset.
///
/// An absent clause is a collection of length zero; a limit or offset of zero
/// means "unset". The alias table keeps every recorded pair, a later alias
/// for the same table shadowing an earlier one.
#[derive(Debug)]
pub struct Select {
    pub table: String,
    pub aliases: Vec<(String, String)>,
    pub fields: Vec<String>,
    pub order: Vec<(String, Order)>,
    pub joins: Vec<JoinClause>,
    pub groupings: Vec<String>,
    pub havings: Vec<String>,
    pub conditions: Vec<String>,
    pub limit: usize,
    pub offset: usize,
}

/// The mathematical state of a `Select` builder.
#[verifier::ext_equal]
pub struct SelectView {
    pub table: Seq<char>,
    pub aliases: Seq<(Seq<char>, Seq<char>)>,
    pub fields: Seq<Seq<char>>,
    pub order: Seq<(Seq<char>, Order)>,
    pub joins: Seq<JoinClauseView>,
    pub groupings: Seq<Seq<char>>,
    pub havings: Seq<Seq<char>>,
    pub conditions: Seq<Seq<char>>,
    pub limit: int,
    pub offset: int,
}

impl View for Select {
    type V = SelectView;

    open spec fn view(&self) -> SelectView {
        SelectView {
            table: self.table@,
            aliases: pair_views(self.aliases@),
            fields: views_of(self.fields@),
            order: self.order@.map_values(|p: (String, Order)| (p.0@, p.1)),
            joins: self.joins@.map_values(|j: JoinClause| j@),
            groupings: views_of(self.groupings@),
            havings: views_of(self.havings@),
            conditions: views_of(self.conditions@),
            limit: self.limit as int,
            offset: self.offset as int,
        }
    }
}

/// The views of a slice of string slices.
pub open spec fn slice_views(s: Seq<&str>) -> Seq<Seq<char>> {
    s.map_values(|x: &str| x@)
}

/// The state of a freshly constructed `SELECT` builder for `table`.
pub open spec fn empty_select(table: Seq<char>) -> SelectView {
    SelectView {
        table,
        aliases: Seq::<(Seq<char>, Seq<char>)>::empty(),
        fields: Seq::<Seq<char>>::empty(),
        order: Seq::<(Seq<char>, Order)>::empty(),
        joins: Seq::<JoinClauseView>::empty(),
        groupings: Seq::<Seq<char>>::empty(),
        havings: Seq::<Seq<char>>::empty(),
        conditions: Seq::<Seq<char>>::empty(),
        limit: 0,
        offset: 0,
    }
}

/// The selected fields joined with `, `, or `*` when none were given.
pub open spec fn fields_clause(fields: Seq<Seq<char>>) -> Seq<char> {
    if fields.len() == 0 {
        "*"@
    } else {
        spec_join(fields, ", "@)
    }
}

/// ` AS <alias>` when an alias is recorded for exactly the name `t`,
/// empty otherwise.
pub open spec fn alias_clause(aliases: Seq<(Seq<char>, Seq<char>)>, t: Seq<char>) -> Seq<char> {
    match lookup_key(aliases, t) {
        Some(a) => " AS "@ + a,
        None => Seq::<char>::empty(),
    }
}

/// The keyword a join kind renders to.
pub open spec fn join_kind_text(k: Join) -> Seq<char> {
    match k {
        Join::Left => " LEFT"@,
        Join::Inner => " INNER"@,
    }
}

/// One join: its kind, the joined table with its alias if one is recorded,
/// and the `ON` equation.
pub open spec fn join_text(j: JoinClauseView, aliases: Seq<(Seq<char>, Seq<char>)>) -> Seq<char> {
    join_kind_text(j.kind) + " JOIN "@ + j.table + alias_clause(aliases, j.table) + " ON "@
        + j.on_left + " = "@ + j.on_right
}

/// All joins, in call order.
pub open spec fn joins_clause(
    js: Seq<JoinClauseView>,
    aliases: Seq<(Seq<char>, Seq<char>)>,
) -> Seq<char>
    decreases js.len(),
{
    if js.len() == 0 {
        Seq::<char>::empty()
    } else {
        joins_clause(js.drop_last(), aliases) + join_text(js.last(), aliases)
    }
}

/// The `GROUP BY` section: empty when no grouping was recorded.
pub open spec fn group_clause(groupings: Seq<Seq<char>>) -> Seq<char> {
    if groupings.len() == 0 {
        Seq::<char>::empty()
    } else {
        " GROUP BY "@ + spec_join(groupings, ", "@)
    }
}

/// The `HAVING` section: empty when no having expression was recorded.
pub open spec fn having_clause(havings: Seq<Seq<char>>) -> Seq<char> {
    if havings.len() == 0 {
        Seq::<char>::empty()
    } else {
        " HAVING "@ + spec_join(havings, " AND "@)
    }
}

/// The keyword an order direction renders to.
pub open spec fn order_dir_text(d: Order) -> Seq<char> {
    match d {
        Order::Asc => " ASC"@,
        Order::Desc => " DESC"@,
    }
}

/// The order expressions in call order, each directly followed by its
/// direction keyword, with no separator between successive items: this
/// reproduces the established textual contract exactly.
pub open spec fn order_items_text(items: Seq<(Seq<char>, Order)>) -> Seq<char>
    decreases items.len(),
{
    if items.len() == 0 {
        Seq::<char>::empty()
    } else {
        order_items_text(items.drop_last()) + items.last().0 + order_dir_text(items.last().1)
    }
}

/// The `ORDER BY` section: empty when no order expression was recorded.
pub open spec fn order_clause(items: Seq<(Seq<char>, Order)>) -> Seq<char> {
    if items.len() == 0 {
        Seq::<char>::empty()
    } else {
        " ORDER BY "@ + order_items_text(items)
    }
}

/// The `LIMIT` section: empty when the limit is zero ("unset").
pub open spec fn limit_clause(limit: int) -> Seq<char> {
    if limit == 0 {
        Seq::<char>::empty()
    } else {
        " LIMIT "@ + dec_rep(limit as nat)
    }
}

/// The `OFFSET` section: empty when the offset is zero ("unset").
pub open spec fn offset_clause(offset: int) -> Seq<char> {
    if offset == 0 {
        Seq::<char>::empty()
    } else {
        " OFFSET "@ + dec_rep(offset as nat)
    }
}

/// The full text a `Select` builder renders to, its sections in fixed order.
pub open spec fn render_select(v: SelectView) -> Seq<char> {
    "SELECT "@ + fields_clause(v.fields) + " FROM "@ + v.table + alias_clause(v.aliases, v.table)
        + joins_clause(v.joins, v.aliases) + where_clause(v.conditions)
        + group_clause(v.groupings) + having_clause(v.havings) + order_clause(v.order)
        + limit_clause(v.limit) + offset_clause(v.offset) + ";"@
}

impl Select {
    /// Construct a new `SELECT` query builder
    pub fn new(table: &str) -> (r: Self)
        ensures
            r@ == empty_select(table@),
    {
        let r = Select {
            table: table.to_owned(),
            aliases: Vec::new(),
            fields: Vec::new(),
            order: Vec::new(),
            joins: Vec::new(),
            groupings: Vec::new(),
            havings: Vec::new(),
            conditions: Vec::new(),
            limit: 0usize,
            offset: 0usize,
        };
        proof {
            assert(r@ =~= empty_select(table@));
        }
        r
    }

    /// Set a table alias (`AS`)
    pub fn alias(self, table: &str, alias: &str) -> (r: Self)
        ensures
            r@ == (SelectView { aliases: self@.aliases.push((table@, alias@)), ..self@ }),
    {
        let mut aliases = self.aliases;
        aliases.push((table.to_owned(), alias.to_owned()));
        let r = Select { aliases, ..self };
        proof {
            assert(r@ =~= (SelectView { aliases: self@.aliases.push((table@, alias@)), ..self@ }));
        }
        r
    }

    /// Specify desired table fields in result set
    pub fn fields(self, fields: &[&str]) -> (r: Self)
        ensures
            r@ == (SelectView { fields: self@.fields + slice_views(fields@), ..self@ }),
    {
        let mut own_fields = self.fields;
        let mut i: usize = 0;
        while i < fields.len()
            invariant
                0 <= i <= fields@.len(),
                own_fields@.len() == self.fields@.len() + i,
                forall|j: int| 0 <= j < self.fields@.len() ==> own_fields@[j] == self.fields@[j],
                forall|j: int|
                    0 <= j < i ==> own_fields@[self.fields@.len() + j]@ == fields@[j]@,
            decreases fields@.len() - i,
        {
            own_fields.push(fields[i].to_owned());
            i = i + 1;
        }
        let r = Select { fields: own_fields, ..self };
        proof {
            assert(r@.fields =~= self@.fields + slice_views(fields@));
            assert(r@ =~= (SelectView { fields: self@.fields + slice_views(fields@), ..self@ }));
        }
        r
    }

    /// Filter result set based on conditions (`WHERE` clause)
    pub fn filter(self, expr: &str) -> (r: Self)
        ensures
            r@ == (SelectView { conditions: self@.conditions.push(expr@), ..self@ }),
    {
        let mut conditions = self.conditions;
        conditions.push(expr.to_owned());
        let r = Select { conditions, ..self };
        proof {
            assert(r@ =~= (SelectView { conditions: self@.conditions.push(expr@), ..self@ }));
        }
        r
    }

    /// Group result set based on common value (`GROUP BY` clause)
    pub fn group_by(self, val: &str) -> (r: Self)
        ensures
            r@ == (SelectView { groupings: self@.groupings.push(val@), ..self@ }),
    {
        let mut groupings = self.groupings;
        groupings.push(val.to_owned());
        let r = Select { groupings, ..self };
        proof {
            assert(r@ =~= (SelectView { groupings: self@.groupings.push(val@), ..self@ }));
        }
        r
    }

    /// Filter result set based on an expression on an aggregate value (`HAVING` clause)
    pub fn having(self, expr: &str) -> (r: Self)
        ensures
            r@ == (SelectView { havings: self@.havings.push(expr@), ..self@ }),
    {
        let mut havings = self.havings;
        havings.push(expr.to_owned());
        let r = Select { havings, ..self };
        proof {
            assert(r@ =~= (SelectView { havings: self@.havings.push(expr@), ..self@ }));
        }
        r
    }

    /// Order result set based on the value of an expression (`ORDER BY` clause)
    pub fn order_by(self, expr: &str, direction: Order) -> (r: Self)
        ensures
            r@ == (SelectView { order: self@.order.push((expr@, direction)), ..self@ }),
    {
        let mut order = self.order;
        order.push((expr.to_owned(), direction));
        let r = Select { order, ..self };
        proof {
            assert(r@ =~= (SelectView { order: self@.order.push((expr@, direction)), ..self@ }));
        }
        r
    }

    /// Join another table (`JOIN` clause)
    pub fn join(self, table: &str, on_left: &str, on_right: &str, kind: Join) -> (r: Self)
        ensures
            r@ == (SelectView {
                joins: self@.joins.push(
                    JoinClauseView {
                        table: table@,
                        on_left: on_left@,
                        on_right: on_right@,
                        kind,
                    },
                ),
                ..self@
            }),
    {
        let mut joins = self.joins;
        joins.push(
            JoinClause {
                table: table.to_owned(),
                on_left: on_left.to_owned(),
                on_right: on_right.to_owned(),
                kind,
            },
        );
        let r = Select { joins, ..self };
        proof {
            assert(r@ =~= (SelectView {
                joins: self@.joins.push(
                    JoinClauseView { table: table@, on_left: on_left@, on_right: on_right@, kind },
                ),
                ..self@
            }));
        }
        r
    }

    /// Limit number of rows in result set (`LIMIT`)
    pub fn limit(self, limit: usize) -> (r: Self)
        ensures
            r@ == (SelectView { limit: limit as int, ..self@ }),
    {
        let r = Select { limit, ..self };
        proof {
            assert(r@ =~= (SelectView { limit: limit as int, ..self@ }));
        }
        r
    }

    /// Offset number of rows in result set (`OFFSET`)
    pub fn offset(self, offset: usize) -> (r: Self)
        ensures
            r@ == (SelectView { offset: offset as int, ..self@ }),
    {
        let r = Select { offset, ..self };
        proof {
            assert(r@ =~= (SelectView { offset: offset as int, ..self@ }));
        }
        r
    }

    /// Render the ` AS ...` text for `t`, empty when `t` has no alias.
    fn alias_text(&self, t: &str) -> (r: String)
        ensures
            r@ == alias_clause(self@.aliases, t@),
    {
        let mut r = String::new();
        match find_key(&self.aliases, t) {
            Some(a) => {
                r.append(" AS ");
                r.append(a.as_str());
            },
            None => {},
        }
        proof {
            assert(r@ =~= alias_clause(self@.aliases, t@));
        }
        r
    }

    /// Render all join clauses in call order.
    fn joins_text(&self) -> (r: String)
        ensures
            r@ == joins_clause(self@.joins, self@.aliases),
    {
        let ghost js = self@.joins;
        let mut r = String::new();
        let mut i: usize = 0;
        proof {
            assert(js.take(0) =~= Seq::<JoinClauseView>::empty());
        }
        while i < self.joins.len()
            invariant
                0 <= i <= self.joins@.len(),
                js == self@.joins,
                r@ == joins_clause(js.take(i as int), self@.aliases),
            decreases self.joins@.len() - i,
        {
            let j = &self.joins[i];
            match j.kind {
                Join::Left => r.append(" LEFT"),
                Join::Inner => r.append(" INNER"),
            }
            r.append(" JOIN ");
            r.append(j.table.as_str());
            let alias = self.alias_text(j.table.as_str());
            r.append(alias.as_str());
            r.append(" ON ");
            r.append(j.on_left.as_str());
            r.append(" = ");
            r.append(j.on_right.as_str());
            proof {
                let t = js.take(i as int + 1);
                assert(t.drop_last() =~= js.take(i as int));
                assert(js[i as int] == self.joins@[i as int]@);
                assert(t.last() == js[i as int]);
                assert(r@ =~= joins_clause(t, self@.aliases));
            }
            i = i + 1;
        }
        proof {
            assert(js.take(self.joins@.len() as int) =~= js);
        }
        r
    }

    /// Render the order expressions in call order.
    fn order_text(&self) -> (r: String)
        ensures
            r@ == order_items_text(self@.order),
    {
        let ghost items = self@.order;
        let mut r = String::new();
        let mut i: usize = 0;
        proof {
            assert(items.take(0) =~= Seq::<(Seq<char>, Order)>::empty());
        }
        while i < self.order.len()
            invariant
                0 <= i <= self.order@.len(),
                items == self@.order,
                r@ == order_items_text(items.take(i as int)),
            decreases self.order@.len() - i,
        {
            r.append(self.order[i].0.as_str());
            match self.order[i].1 {
                Order::Asc => r.append(" ASC"),
                Order::Desc => r.append(" DESC"),
            }
            proof {
                let t = items.take(i as int + 1);
                assert(t.drop_last() =~= items.take(i as int));
                assert(items[i as int] == (self.order@[i as int].0@, self.order@[i as int].1));
                assert(t.last() == items[i as int]);
                assert(r@ =~= order_items_text(t));
            }
            i = i + 1;
        }
        proof {
            assert(items.take(self.order@.len() as int) =~= items);
        }
        r
    }

    /// Render the field list, `*` when no field was given.
    fn fields_text(&self) -> (r: String)
        ensures
            r@ == fields_clause(self@.fields),
    {
        if self.fields.len() > 0 {
            join_strs(&self.fields, ", ")
        } else {
            "*".to_owned()
        }
    }

    /// Render the `WHERE` section.
    fn where_text(&self) -> (r: String)
        ensures
            r@ == where_clause(self@.conditions),
    {
        let mut r = String::new();
        if self.conditions.len() > 0 {
            r.append(" WHERE ");
            let joined = join_strs(&self.conditions, " AND ");
            r.append(joined.as_str());
        }
        proof {
            assert(r@ =~= where_clause(self@.conditions));
        }
        r
    }

    /// Render the `GROUP BY` section.
    fn group_text(&self) -> (r: String)
        ensures
            r@ == group_clause(self@.groupings),
    {
        let mut r = String::new();
        if self.groupings.len() > 0 {
            r.append(" GROUP BY ");
            let joined = join_strs(&self.groupings, ", ");
            r.append(joined.as_str());
        }
        proof {
            assert(r@ =~= group_clause(self@.groupings));
        }
        r
    }

    /// Render the `HAVING` section.
    fn having_text(&self) -> (r: String)
        ensures
            r@ == having_clause(self@.havings),
    {
        let mut r = String::new();
        if self.havings.len() > 0 {
            r.append(" HAVING ");
            let joined = join_strs(&self.havings, " AND ");
            r.append(joined.as_str());
        }
        proof {
            assert(r@ =~= having_clause(self@.havings));
        }
        r
    }

    /// Render the `ORDER BY` section.
    fn order_clause_text(&self) -> (r: String)
        ensures
            r@ == order_clause(self@.order),
    {
        let mut r = String::new();
        if self.order.len() > 0 {
            r.append(" ORDER BY ");
            let items = self.order_text();
            r.append(items.as_str());
        }
        proof {
            assert(r@ =~= order_clause(self@.order));
        }
        r
    }

    /// Render the `LIMIT` section.
    fn limit_text(&self) -> (r: String)
        ensures
            r@ == limit_clause(self@.limit),
    {
        let mut r = String::new();
        if self.limit != 0 {
            r.append(" LIMIT ");
            let dec = usize_to_dec(self.limit);
            r.append(dec.as_str());
        }
        proof {
            assert(r@ =~= limit_clause(self@.limit));
        }
        r
    }

    /// Render the `OFFSET` section.
    fn offset_text(&self) -> (r: String)
        ensures
            r@ == offset_clause(self@.offset),
    {
        let mut r = String::new();
        if self.offset != 0 {
            r.append(" OFFSET ");
            let dec = usize_to_dec(self.offset);
            r.append(dec.as_str());
        }
        proof {
            assert(r@ =~= offset_clause(self@.offset));
        }
        r
    }

    /// Generate SQL query (`String`) from subsequent method calls
    #[verifier::rlimit(50)]
    pub fn build(&self) -> (r: String)
        ensures
            r@ == render_select(self@),
    {
        let mut query = "SELECT ".to_owned();
        let fields = self.fields_text();
        query.append(fields.as_str());
        query.append(" FROM ");
        query.append(self.table.as_str());
        let alias = self.alias_text(self.table.as_str());
        query.append(alias.as_str());
        let joins = self.joins_text();
        query.append(joins.as_str());
        let wheres = self.where_text();
        query.append(wheres.as_str());
        let groups = self.group_text();
        query.append(groups.as_str());
        let havings = self.having_text();
        query.append(havings.as_str());
        let orders = self.order_clause_text();
        query.append(orders.as_str());
        let limits = self.limit_text();
        query.append(limits.as_str());
        let offsets = self.offset_text();
        query.append(offsets.as_str());
        query.append(";");
        proof {
            assert(query@ =~= render_select(self@));
        }
        query
    }
}

} // verus!
