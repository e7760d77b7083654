//! Schema statements.
//!
//! The name of a table or a column is handed to sea-query as an `Alias` of
//! the text; the name of an index or a constraint as the text itself, which
//! is what sea-query asks for.

use crate::builder::column::column_view;
use crate::model::{
    AlterOption, AlterTableView, CreateForeignKeyView, CreateIndexView, CreateTableRest,
    CreateTableView, DropForeignKeyView, DropIndexView, DropTableView, RenameTableView,
};
use sea_orm::sea_query::{
    Alias, ColumnDef, ForeignKey, ForeignKeyCreateStatement, ForeignKeyDropStatement, Index,
    IndexCreateStatement, IndexDropStatement, Table, TableAlterStatement, TableCreateStatement,
    TableDropStatement, TableRenameStatement,
};
use vstd::prelude::*;

verus! {

/// sea-query's `TableCreateStatement`: a `CREATE TABLE` statement under
/// construction. Opaque to the verifier.
#[verifier::external_type_specification]
#[verifier::external_body]
pub struct ExTableCreateStatement(TableCreateStatement);

/// sea-query's `TableAlterStatement`: an `ALTER TABLE` statement under
/// construction. Opaque to the verifier.
#[verifier::external_type_specification]
#[verifier::external_body]
pub struct ExTableAlterStatement(TableAlterStatement);

/// sea-query's `TableDropStatement`: a `DROP TABLE` statement under
/// construction. Opaque to the verifier.
#[verifier::external_type_specification]
#[verifier::external_body]
pub struct ExTableDropStatement(TableDropStatement);

/// sea-query's `TableRenameStatement`: a rename-table statement under
/// construction. Opaque to the verifier.
#[verifier::external_type_specification]
#[verifier::external_body]
pub struct ExTableRenameStatement(TableRenameStatement);

/// sea-query's `IndexCreateStatement`: a `CREATE INDEX` statement under
/// construction. Opaque to the verifier.
#[verifier::external_type_specification]
#[verifier::external_body]
pub struct ExIndexCreateStatement(IndexCreateStatement);

/// sea-query's `IndexDropStatement`: a `DROP INDEX` statement under
/// construction. Opaque to the verifier.
#[verifier::external_type_specification]
#[verifier::external_body]
pub struct ExIndexDropStatement(IndexDropStatement);

/// sea-query's `ForeignKeyCreateStatement`: a statement that adds a foreign
/// key, under construction. Opaque to the verifier.
#[verifier::external_type_specification]
#[verifier::external_body]
pub struct ExForeignKeyCreateStatement(ForeignKeyCreateStatement);

/// sea-query's `ForeignKeyDropStatement`: a statement that drops a foreign
/// key, under construction. Opaque to the verifier.
#[verifier::external_type_specification]
#[verifier::external_body]
pub struct ExForeignKeyDropStatement(ForeignKeyDropStatement);

/// What a `TableCreateStatement` holds of its table.
pub uninterp spec fn create_table_view(stmt: TableCreateStatement) -> CreateTableView;

/// What a `TableCreateStatement` holds besides that.
pub uninterp spec fn create_table_rest(stmt: TableCreateStatement) -> CreateTableRest;

/// What a `TableAlterStatement` holds.
pub uninterp spec fn alter_table_view(stmt: TableAlterStatement) -> AlterTableView;

/// What a `TableDropStatement` holds of its tables.
pub uninterp spec fn drop_table_view(stmt: TableDropStatement) -> DropTableView;

/// What a `TableRenameStatement` holds.
pub uninterp spec fn rename_table_view(stmt: TableRenameStatement) -> RenameTableView;

/// What an `IndexCreateStatement` holds of its target.
pub uninterp spec fn create_index_view(stmt: IndexCreateStatement) -> CreateIndexView;

/// What an `IndexDropStatement` holds.
pub uninterp spec fn drop_index_view(stmt: IndexDropStatement) -> DropIndexView;

/// What a `ForeignKeyCreateStatement` holds of its ends.
pub uninterp spec fn create_foreign_key_view(
    stmt: ForeignKeyCreateStatement,
) -> CreateForeignKeyView;

/// What a `ForeignKeyDropStatement` holds.
pub uninterp spec fn drop_foreign_key_view(stmt: ForeignKeyDropStatement) -> DropForeignKeyView;

/// `Table::create`: a statement with no table, no `IF NOT EXISTS`, no
/// columns and nothing else set.
#[verifier::external_body]
pub(crate) fn new_create_table() -> (stmt: TableCreateStatement)
    ensures
        create_table_view(stmt) == CreateTableView::empty(),
        create_table_rest(stmt) == CreateTableRest::empty(),
{
    Table::create()
}

/// `TableCreateStatement::table`: sets the table's name. The flag, the
/// columns and the rest stay.
#[verifier::external_body]
pub(crate) fn create_table_on(stmt: &mut TableCreateStatement, name: &str)
    ensures
        create_table_view(*final(stmt)) == create_table_view(*old(stmt)).on(name@),
        create_table_rest(*final(stmt)) == create_table_rest(*old(stmt)),
{
    stmt.table(Alias::new(name));
}

/// `TableCreateStatement::if_not_exists`: sets the `IF NOT EXISTS` flag. The
/// table, the columns and the rest stay.
#[verifier::external_body]
pub(crate) fn create_table_if_not_exists(stmt: &mut TableCreateStatement)
    ensures
        create_table_view(*final(stmt)) == create_table_view(*old(stmt)).guarded(),
        create_table_rest(*final(stmt)) == create_table_rest(*old(stmt)),
{
    stmt.if_not_exists();
}

/// `TableCreateStatement::col`: appends the column to the statement's
/// columns. The table, the flag and the rest stay. (sea-query also notes the
/// statement's table inside the column, which is no part of a column's
/// view.)
#[verifier::external_body]
pub(crate) fn create_table_col(stmt: &mut TableCreateStatement, column: ColumnDef)
    ensures
        create_table_view(*final(stmt)) == create_table_view(*old(stmt)).with_column(
            column_view(column),
        ),
        create_table_rest(*final(stmt)) == create_table_rest(*old(stmt)),
{
    stmt.col(column);
}

/// `Table::alter`: a statement with no table and no changes.
#[verifier::external_body]
pub(crate) fn new_alter_table() -> (stmt: TableAlterStatement)
    ensures
        alter_table_view(stmt) == AlterTableView::empty(),
{
    Table::alter()
}

/// `TableAlterStatement::table`: sets the table's name. The changes stay.
#[verifier::external_body]
pub(crate) fn alter_table_on(stmt: &mut TableAlterStatement, name: &str)
    ensures
        alter_table_view(*final(stmt)) == alter_table_view(*old(stmt)).on(name@),
{
    stmt.table(Alias::new(name));
}

/// `TableAlterStatement::add_column`: appends the change that adds the
/// column, without `IF NOT EXISTS`. The table stays.
#[verifier::external_body]
pub(crate) fn alter_table_add_column(stmt: &mut TableAlterStatement, column: ColumnDef)
    ensures
        alter_table_view(*final(stmt)) == alter_table_view(*old(stmt)).with(
            AlterOption::AddColumn { column: column_view(column), if_not_exists: false },
        ),
{
    stmt.add_column(column);
}

/// `TableAlterStatement::drop_column`: appends the change that drops the
/// column of that name. The table stays.
#[verifier::external_body]
pub(crate) fn alter_table_drop_column(stmt: &mut TableAlterStatement, column: &str)
    ensures
        alter_table_view(*final(stmt)) == alter_table_view(*old(stmt)).with(
            AlterOption::DropColumn(column@),
        ),
{
    stmt.drop_column(Alias::new(column));
}

/// `TableAlterStatement::rename_column`: appends the change that renames the
/// column `from` to `to`. The table stays.
#[verifier::external_body]
pub(crate) fn alter_table_rename_column(stmt: &mut TableAlterStatement, from: &str, to: &str)
    ensures
        alter_table_view(*final(stmt)) == alter_table_view(*old(stmt)).with(
            AlterOption::RenameColumn(from@, to@),
        ),
{
    stmt.rename_column(Alias::new(from), Alias::new(to));
}

/// `Table::drop`: a statement with no tables, no `IF EXISTS` and no
/// options.
#[verifier::external_body]
pub(crate) fn new_drop_table() -> (stmt: TableDropStatement)
    ensures
        drop_table_view(stmt) == DropTableView::empty(),
{
    Table::drop()
}

/// `TableDropStatement::table`: appends the table to those that the
/// statement drops. The flag and the options stay.
#[verifier::external_body]
pub(crate) fn drop_table_on(stmt: &mut TableDropStatement, name: &str)
    ensures
        drop_table_view(*final(stmt)) == drop_table_view(*old(stmt)).on(name@),
{
    stmt.table(Alias::new(name));
}

/// `Table::rename`: a statement with neither name set.
#[verifier::external_body]
pub(crate) fn new_rename_table() -> (stmt: TableRenameStatement)
    ensures
        rename_table_view(stmt) == (RenameTableView { from: None, to: None }),
{
    Table::rename()
}

/// `TableRenameStatement::table`: sets the old name and the new one.
#[verifier::external_body]
pub(crate) fn rename_table_names(stmt: &mut TableRenameStatement, from: &str, to: &str)
    ensures
        rename_table_view(*final(stmt)) == (RenameTableView { from: Some(from@), to: Some(to@) }),
{
    stmt.table(Alias::new(from), Alias::new(to));
}

/// `Index::create`: a statement with no table, no name and no columns.
#[verifier::external_body]
pub(crate) fn new_create_index() -> (stmt: IndexCreateStatement)
    ensures
        create_index_view(stmt) == (CreateIndexView {
            table: None,
            name: None,
            columns: Seq::empty(),
        }),
{
    Index::create()
}

/// `IndexCreateStatement::table`: sets the table. The name and the columns
/// stay.
#[verifier::external_body]
pub(crate) fn create_index_on(stmt: &mut IndexCreateStatement, table: &str)
    ensures
        create_index_view(*final(stmt)) == (CreateIndexView {
            table: Some(table@),
            ..create_index_view(*old(stmt))
        }),
{
    stmt.table(Alias::new(table));
}

/// `Index::drop`: a statement with no table, no name and no `IF EXISTS`.
#[verifier::external_body]
pub(crate) fn new_drop_index() -> (stmt: IndexDropStatement)
    ensures
        drop_index_view(stmt) == DropIndexView::empty(),
{
    Index::drop()
}

/// `IndexDropStatement::table`: sets the table. The name and the flag stay.
#[verifier::external_body]
pub(crate) fn drop_index_on(stmt: &mut IndexDropStatement, table: &str)
    ensures
        drop_index_view(*final(stmt)) == (DropIndexView {
            table: Some(table@),
            ..drop_index_view(*old(stmt))
        }),
{
    stmt.table(Alias::new(table));
}

/// `IndexDropStatement::name`: sets the index's name. The table and the flag
/// stay.
#[verifier::external_body]
pub(crate) fn drop_index_named(stmt: &mut IndexDropStatement, name: &str)
    ensures
        drop_index_view(*final(stmt)) == (DropIndexView {
            name: Some(name@),
            ..drop_index_view(*old(stmt))
        }),
{
    stmt.name(name);
}

/// `ForeignKey::create`: a statement with nothing set.
#[verifier::external_body]
pub(crate) fn new_create_foreign_key() -> (stmt: ForeignKeyCreateStatement)
    ensures
        create_foreign_key_view(stmt) == CreateForeignKeyView::empty(),
{
    ForeignKey::create()
}

/// `ForeignKeyCreateStatement::from` with one column: sets the referencing
/// table and appends the column to the referencing columns. The rest stays.
#[verifier::external_body]
pub(crate) fn foreign_key_from(stmt: &mut ForeignKeyCreateStatement, table: &str, column: &str)
    ensures
        create_foreign_key_view(*final(stmt)) == (CreateForeignKeyView {
            table: Some(table@),
            columns: create_foreign_key_view(*old(stmt)).columns.push(column@),
            ..create_foreign_key_view(*old(stmt))
        }),
{
    stmt.from(Alias::new(table), Alias::new(column));
}

/// `ForeignKeyCreateStatement::to` with one column: sets the referenced
/// table and appends the column to the referenced columns. The rest stays.
#[verifier::external_body]
pub(crate) fn foreign_key_to(stmt: &mut ForeignKeyCreateStatement, table: &str, column: &str)
    ensures
        create_foreign_key_view(*final(stmt)) == (CreateForeignKeyView {
            ref_table: Some(table@),
            ref_columns: create_foreign_key_view(*old(stmt)).ref_columns.push(column@),
            ..create_foreign_key_view(*old(stmt))
        }),
{
    stmt.to(Alias::new(table), Alias::new(column));
}

/// `ForeignKey::drop`: a statement with no table and no name.
#[verifier::external_body]
pub(crate) fn new_drop_foreign_key() -> (stmt: ForeignKeyDropStatement)
    ensures
        drop_foreign_key_view(stmt) == (DropForeignKeyView { table: None, name: None }),
{
    ForeignKey::drop()
}

/// `ForeignKeyDropStatement::table`: sets the table. The name stays.
#[verifier::external_body]
pub(crate) fn drop_foreign_key_on(stmt: &mut ForeignKeyDropStatement, table: &str)
    ensures
        drop_foreign_key_view(*final(stmt)) == (DropForeignKeyView {
            table: Some(table@),
            ..drop_foreign_key_view(*old(stmt))
        }),
{
    stmt.table(Alias::new(table));
}

/// `ForeignKeyDropStatement::name`: sets the constraint's name. The table
/// stays.
#[verifier::external_body]
pub(crate) fn drop_foreign_key_named(stmt: &mut ForeignKeyDropStatement, name: &str)
    ensures
        drop_foreign_key_view(*final(stmt)) == (DropForeignKeyView {
            name: Some(name@),
            ..drop_foreign_key_view(*old(stmt))
        }),
{
    stmt.name(name);
}

} // verus!
