//! Tables: the statement that alters one, and the statement that creates one
//! with its two audit columns.

use crate::builder::column::{column_view, current_timestamp_expr, set_default};
use crate::builder::statement::{
    alter_table_on, alter_table_view, create_table_col, create_table_rest, create_table_view,
    new_alter_table,
};
use crate::col::timestamptz;
use crate::ddl::create_table;
use crate::laws::lemma_audit_columns;
use crate::model::{
    AlterTableView, ColumnKind, ColumnView, CreateTableRest, CreateTableView, DefaultExpr,
};
use sea_orm::sea_query::{ColumnDef, TableAlterStatement, TableCreateStatement};
use vstd::prelude::*;

verus! {

/// The name of the column that records when a row was created.
pub open spec fn created_at() -> Seq<char> {
    "created_at"@
}

/// The name of the column that records when a row was last updated.
pub open spec fn updated_at() -> Seq<char> {
    "updated_at"@
}

/// An audit column: a `NOT NULL` timestamp with time zone that defaults to
/// the current timestamp.
pub open spec fn audit_column(name: Seq<char>) -> ColumnView {
    ColumnView::required(name, ColumnKind::TimestampWithTimeZone).with_default(
        DefaultExpr::CurrentTimestamp,
    )
}

/// Whether `after` is `before` with the audit columns added: the table and
/// the `IF NOT EXISTS` flag as they were, the columns that were there first
/// and unchanged, and after them exactly two more, `created_at` and then
/// `updated_at`, each a timestamp with time zone that says `NOT NULL`, does
/// not admit `NULL`, and defaults to the current timestamp and to nothing
/// else.
pub open spec fn audited(before: CreateTableView, after: CreateTableView) -> bool {
    let n = before.columns.len() as int;
    &&& after.table == before.table
    &&& after.if_not_exists == before.if_not_exists
    &&& after.columns.len() == n + 2
    &&& after.columns.subrange(0, n) == before.columns
    &&& after.columns[n].name == created_at()
    &&& after.columns[n + 1].name == updated_at()
    &&& forall|i: int|
        #![trigger after.columns[i]]
        n <= i < n + 2 ==> {
            &&& after.columns[i].kind == Some(ColumnKind::TimestampWithTimeZone)
            &&& after.columns[i].is_required()
            &&& !after.columns[i].is_nullable()
            &&& forall|default: DefaultExpr|
                #![trigger after.columns[i].defaults_to(default)]
                after.columns[i].defaults_to(default) == (default
                    == DefaultExpr::CurrentTimestamp)
        }
}

/// An `ALTER TABLE` statement for the table `name`, with no changes yet.
pub fn alter(name: &str) -> (stmt: TableAlterStatement)
    ensures
        alter_table_view(stmt) == AlterTableView::empty().on(name@),
{
    let mut stmt = new_alter_table();
    alter_table_on(&mut stmt, name);
    stmt
}

/// A `CREATE TABLE IF NOT EXISTS` statement for the table `name` whose
/// columns are the two audit columns, `created_at` and `updated_at`, and
/// which holds nothing else: no index, no foreign key, no check, no option.
pub fn table_auto_tz(name: &str) -> (stmt: TableCreateStatement)
    ensures
        create_table_view(stmt) == CreateTableView::empty().on(name@).guarded().with_column(
            audit_column(created_at()),
        ).with_column(audit_column(updated_at())),
        audited(CreateTableView::empty().on(name@).guarded(), create_table_view(stmt)),
        create_table_rest(stmt) == CreateTableRest::empty(),
{
    timestamps_tz(create_table(name))
}

/// Adds the two audit columns, `created_at` and then `updated_at`, after the
/// columns that the statement has. Only the columns change: the table, the
/// `IF NOT EXISTS` flag, and the statement's options, indexes, foreign keys,
/// checks, comment, extra text and temporary flag stay as they are.
#[must_use]
pub fn timestamps_tz(t: TableCreateStatement) -> (stmt: TableCreateStatement)
    ensures
        create_table_view(stmt) == create_table_view(t).with_column(
            audit_column(created_at()),
        ).with_column(audit_column(updated_at())),
        audited(create_table_view(t), create_table_view(stmt)),
        create_table_rest(stmt) == create_table_rest(t),
{
    let ghost before = create_table_view(t);
    let mut t = t;
    create_table_col(&mut t, audit("created_at"));
    create_table_col(&mut t, audit("updated_at"));
    proof {
        lemma_audit_columns(before);
    }
    t
}

/// The audit column of the given name.
fn audit(name: &str) -> (def: ColumnDef)
    ensures
        column_view(def) == audit_column(name@),
{
    let mut col = timestamptz(name);
    set_default(&mut col, current_timestamp_expr());
    col
}

} // verus!
