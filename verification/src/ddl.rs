//! The statements of the common schema changes, each from the names it
//! concerns. Running a statement against a database is the caller's part.

use crate::builder::column::column_view;
use crate::builder::statement::{
    alter_table_add_column, alter_table_drop_column, alter_table_rename_column,
    alter_table_view, create_foreign_key_view, create_index_on, create_index_view,
    create_table_if_not_exists, create_table_on, create_table_rest, create_table_view,
    drop_foreign_key_named, drop_foreign_key_on, drop_foreign_key_view, drop_index_named,
    drop_index_on, drop_index_view, drop_table_on, drop_table_view, foreign_key_from,
    foreign_key_to, new_create_foreign_key, new_create_index, new_create_table,
    new_drop_foreign_key, new_drop_index, new_drop_table, new_rename_table, rename_table_names,
    rename_table_view,
};
use crate::model::{
    AlterOption, AlterTableView, CreateForeignKeyView, CreateIndexView, CreateTableRest,
    CreateTableView, DropForeignKeyView, DropIndexView, DropTableView, RenameTableView,
};
use crate::table::alter;
use sea_orm::sea_query::{
    ColumnDef, ForeignKeyCreateStatement, ForeignKeyDropStatement, IndexCreateStatement,
    IndexDropStatement, TableAlterStatement, TableCreateStatement, TableDropStatement,
    TableRenameStatement,
};
use vstd::prelude::*;

verus! {

/// A `CREATE TABLE IF NOT EXISTS` statement for `table_name`, with no
/// columns and nothing else yet: the caller adds them before running it.
/// Thanks to the guard, running it twice is no error.
pub fn create_table(table_name: &str) -> (stmt: TableCreateStatement)
    ensures
        create_table_view(stmt) == CreateTableView::empty().on(table_name@).guarded(),
        create_table_rest(stmt) == CreateTableRest::empty(),
{
    let mut stmt = new_create_table();
    create_table_on(&mut stmt, table_name);
    create_table_if_not_exists(&mut stmt);
    stmt
}

/// A `DROP TABLE` statement for `table_name` alone, without `IF EXISTS` and
/// without options.
pub fn drop_table(table_name: &str) -> (stmt: TableDropStatement)
    ensures
        drop_table_view(stmt) == DropTableView::empty().on(table_name@),
{
    let mut stmt = new_drop_table();
    drop_table_on(&mut stmt, table_name);
    stmt
}

/// An `ALTER TABLE` statement that adds `column` to `table_name`, without
/// `IF NOT EXISTS`.
pub fn add_column(table_name: &str, column: ColumnDef) -> (stmt: TableAlterStatement)
    ensures
        alter_table_view(stmt) == AlterTableView::empty().on(table_name@).with(
            AlterOption::AddColumn { column: column_view(column), if_not_exists: false },
        ),
{
    let mut stmt = alter(table_name);
    alter_table_add_column(&mut stmt, column);
    stmt
}

/// An `ALTER TABLE` statement that drops the column `column_name` from
/// `table_name`.
pub fn remove_column(table_name: &str, column_name: &str) -> (stmt: TableAlterStatement)
    ensures
        alter_table_view(stmt) == AlterTableView::empty().on(table_name@).with(
            AlterOption::DropColumn(column_name@),
        ),
{
    let mut stmt = alter(table_name);
    alter_table_drop_column(&mut stmt, column_name);
    stmt
}

/// An `ALTER TABLE` statement that renames the column `old_name` of
/// `table_name` to `new_name`.
pub fn rename_column(table_name: &str, old_name: &str, new_name: &str) -> (stmt:
    TableAlterStatement)
    ensures
        alter_table_view(stmt) == AlterTableView::empty().on(table_name@).with(
            AlterOption::RenameColumn(old_name@, new_name@),
        ),
{
    let mut stmt = alter(table_name);
    alter_table_rename_column(&mut stmt, old_name, new_name);
    stmt
}

/// A `CREATE INDEX` statement on `table_name`, with no name and no columns
/// yet: the caller gives them before running it.
pub fn add_index(table_name: &str) -> (stmt: IndexCreateStatement)
    ensures
        create_index_view(stmt) == (CreateIndexView {
            table: Some(table_name@),
            name: None,
            columns: Seq::empty(),
        }),
{
    let mut stmt = new_create_index();
    create_index_on(&mut stmt, table_name);
    stmt
}

/// A `DROP INDEX` statement for the index `index_name` of `table_name`,
/// without `IF EXISTS`.
pub fn remove_index(table_name: &str, index_name: &str) -> (stmt: IndexDropStatement)
    ensures
        drop_index_view(stmt) == (DropIndexView {
            table: Some(table_name@),
            name: Some(index_name@),
            if_exists: false,
        }),
{
    let mut stmt = new_drop_index();
    drop_index_on(&mut stmt, table_name);
    drop_index_named(&mut stmt, index_name);
    stmt
}

/// A statement that adds a foreign key from `from_table` to `to_table`.
/// Each side starts with one column of the empty name; the caller names the
/// constraint and gives the columns before running it.
pub fn add_foreign_key(from_table: &str, to_table: &str) -> (stmt: ForeignKeyCreateStatement)
    ensures
        create_foreign_key_view(stmt) == (CreateForeignKeyView {
            name: None,
            table: Some(from_table@),
            ref_table: Some(to_table@),
            columns: seq![Seq::<char>::empty()],
            ref_columns: seq![Seq::<char>::empty()],
            on_delete: None,
            on_update: None,
        }),
{
    let mut stmt = new_create_foreign_key();
    foreign_key_from(&mut stmt, from_table, "");
    foreign_key_to(&mut stmt, to_table, "");
    proof {
        reveal_strlit("");
        assert(""@ =~= Seq::<char>::empty());
        assert(Seq::<Seq<char>>::empty().push(""@) =~= seq![Seq::<char>::empty()]);
    }
    stmt
}

/// A statement that drops the foreign key `fk_name` of `from_table`.
pub fn remove_foreign_key(from_table: &str, fk_name: &str) -> (stmt: ForeignKeyDropStatement)
    ensures
        drop_foreign_key_view(stmt) == (DropForeignKeyView {
            table: Some(from_table@),
            name: Some(fk_name@),
        }),
{
    let mut stmt = new_drop_foreign_key();
    drop_foreign_key_on(&mut stmt, from_table);
    drop_foreign_key_named(&mut stmt, fk_name);
    stmt
}

/// A statement that renames the table `old_name` to `new_name`.
pub fn rename_table(old_name: &str, new_name: &str) -> (stmt: TableRenameStatement)
    ensures
        rename_table_view(stmt) == (RenameTableView {
            from: Some(old_name@),
            to: Some(new_name@),
        }),
{
    let mut stmt = new_rename_table();
    rename_table_names(&mut stmt, old_name, new_name);
    stmt
}

} // verus!
