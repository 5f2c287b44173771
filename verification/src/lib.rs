//! A library to create SQL-based queries programmatically.
//!
//! Four builder types assemble `DELETE`, `INSERT`, `SELECT` and `UPDATE`
//! statements from chained method calls and render them to a query string.
//! Each builder's render operation carries a contract pinning the produced
//! text down exactly, over a mathematical view of the builder's state.

use vstd::prelude::*;

pub mod clauses;
pub mod delete;
pub mod insert;
pub mod laws;
pub mod pairs;
pub mod select;
pub mod text;
pub mod update;

pub use delete::Delete;
pub use insert::Insert;
pub use select::{Join, JoinClause, Order, Select};
pub use update::Update;

verus! {

/// Helper function to construct new `DELETE` query builder
pub fn delete(table: &str) -> (r: Delete)
    ensures
        r@.table == table@,
        r@.conditions == Seq::<Seq<char>>::empty(),
{
    Delete::new(table)
}

/// Helper function to construct new `INSERT` query builder
pub fn insert(table: &str) -> (r: Insert)
    ensures
        r@.table == table@,
        r@.values == Seq::<(Seq<char>, Seq<char>)>::empty(),
        r@.returns == Seq::<Seq<char>>::empty(),
        r.wf(),
{
    Insert::new(table)
}

/// Helper function to construct new `SELECT` query builder
pub fn select(table: &str) -> (r: Select)
    ensures
        r@ == select::empty_select(table@),
{
    Select::new(table)
}

/// Helper function to construct new `UPDATE` query builder
pub fn update(table: &str) -> (r: Update)
    ensures
        r@.table == table@,
        r@.values == Seq::<(Seq<char>, Seq<char>)>::empty(),
        r@.conditions == Seq::<Seq<char>>::empty(),
        r@.returns == Seq::<Seq<char>>::empty(),
        r.wf(),
{
    Update::new(table)
}

} // verus!
