//! The mathematical model of what the statement builders hold.
//!
//! Nothing here is executable: these types say, as plain data, what a
//! column definition or a schema statement contains, so that contracts can
//! speak of it.

use sea_orm::sea_query::{
    ForeignKeyCreateStatement, IndexCreateStatement, PgInterval, SimpleExpr,
};
use vstd::prelude::*;

verus! {

/// The SQL type of a column, with its bounds.
pub enum ColumnKind {
    /// Fixed-length text; `None` leaves the length to the backend.
    Char(Option<u32>),
    /// Variable-length text; `None` leaves the length to the backend.
    String(Option<u32>),
    Text,
    Blob,
    SmallInteger,
    Integer,
    BigInteger,
    SmallUnsigned,
    Unsigned,
    BigUnsigned,
    Float,
    Double,
    /// Fixed-point number, with its precision and scale where they are given.
    Decimal(Option<(u32, u32)>),
    DateTime,
    TimestampWithTimeZone,
    Time,
    Date,
    /// Time span, with the fields it is restricted to and its precision.
    Interval(Option<PgInterval>, Option<u32>),
    /// Fixed-length bytes.
    Binary(u32),
    /// Variable-length bytes, with the maximum length.
    VarBinary(u32),
    /// Variable-length bit string, with the maximum length.
    VarBit(u32),
    Boolean,
    /// Monetary amount, with its precision and scale where they are given.
    Money(Option<(u32, u32)>),
    Json,
    JsonBinary,
    Uuid,
    /// A database-level enumerated type, by name, with the values listed for it.
    Enum { name: Seq<char>, variants: Seq<Seq<char>> },
    /// An array of elements of one type.
    Array(Box<ColumnKind>),
}

/// A literal value.
pub enum ValueView {
    Bool(bool),
    SmallInt(i16),
    Int(i32),
    BigInt(i64),
    SmallUnsigned(u16),
    Unsigned(u32),
    BigUnsigned(u64),
    /// A single-precision number, by its IEEE 754 bit pattern.
    Float(u32),
    /// A double-precision number, by its IEEE 754 bit pattern.
    Double(u64),
    Char(char),
    String(Seq<char>),
}

/// The expression behind a `DEFAULT` keyword.
pub enum DefaultExpr {
    /// A literal, which the backend quotes and escapes as its type demands.
    Value(ValueView),
    /// SQL text that is handed to the backend as it stands.
    Custom(Seq<char>),
    /// The keyword `CURRENT_TIMESTAMP`.
    CurrentTimestamp,
}

/// One keyword of a column definition.
pub enum ColumnKeyword {
    Null,
    NotNull,
    Default(DefaultExpr),
    AutoIncrement,
    UniqueKey,
    PrimaryKey,
}

/// A length or a precision that a column type carries.
pub enum Bound {
    Length(u32),
    Precision(u32),
    PrecisionScale(u32, u32),
}

/// What a column definition holds: its name, its type once one is set, and
/// its keywords in the order in which they were added.
pub struct ColumnView {
    pub name: Seq<char>,
    pub kind: Option<ColumnKind>,
    pub keywords: Seq<ColumnKeyword>,
}

impl ColumnKind {
    /// The enumerated type of the given name, with no values listed for it.
    pub open spec fn enum_named(name: Seq<char>) -> ColumnKind {
        ColumnKind::Enum { name, variants: Seq::empty() }
    }

    /// The length or precision that this type carries, if it carries one.
    pub open spec fn bound(self) -> Option<Bound> {
        match self {
            ColumnKind::Char(Some(n)) => Some(Bound::Length(n)),
            ColumnKind::String(Some(n)) => Some(Bound::Length(n)),
            ColumnKind::Decimal(Some((p, s))) => Some(Bound::PrecisionScale(p, s)),
            ColumnKind::Interval(_, Some(p)) => Some(Bound::Precision(p)),
            ColumnKind::Binary(n) => Some(Bound::Length(n)),
            ColumnKind::VarBinary(n) => Some(Bound::Length(n)),
            ColumnKind::VarBit(n) => Some(Bound::Length(n)),
            ColumnKind::Money(Some((p, s))) => Some(Bound::PrecisionScale(p, s)),
            _ => None,
        }
    }
}

impl ColumnView {
    /// A column that has a name and nothing else.
    pub open spec fn named(name: Seq<char>) -> ColumnView {
        ColumnView { name, kind: None, keywords: Seq::empty() }
    }

    /// The same column with its type set to `kind`.
    pub open spec fn typed(self, kind: ColumnKind) -> ColumnView {
        ColumnView { kind: Some(kind), ..self }
    }

    /// The same column with `keyword` added after the keywords it has.
    pub open spec fn with(self, keyword: ColumnKeyword) -> ColumnView {
        ColumnView { keywords: self.keywords.push(keyword), ..self }
    }

    /// The same column with a `DEFAULT` keyword added.
    pub open spec fn with_default(self, default: DefaultExpr) -> ColumnView {
        self.with(ColumnKeyword::Default(default))
    }

    /// The same column with a `DEFAULT` keyword added, for a literal.
    pub open spec fn with_value(self, value: ValueView) -> ColumnView {
        self.with_default(DefaultExpr::Value(value))
    }

    /// A `NOT NULL` column of the given type.
    pub open spec fn required(name: Seq<char>, kind: ColumnKind) -> ColumnView {
        ColumnView::named(name).typed(kind).with(ColumnKeyword::NotNull)
    }

    /// A `NULL` column of the given type.
    pub open spec fn optional(name: Seq<char>, kind: ColumnKind) -> ColumnView {
        ColumnView::named(name).typed(kind).with(ColumnKeyword::Null)
    }

    /// A `NOT NULL UNIQUE` column of the given type.
    pub open spec fn unique(name: Seq<char>, kind: ColumnKind) -> ColumnView {
        ColumnView::required(name, kind).with(ColumnKeyword::UniqueKey)
    }

    /// Whether the column admits `NULL`: it says `NULL` and does not say
    /// `NOT NULL`.
    pub open spec fn is_nullable(self) -> bool {
        self.keywords.contains(ColumnKeyword::Null) && !self.keywords.contains(
            ColumnKeyword::NotNull,
        )
    }

    /// Whether the column says `NOT NULL`.
    pub open spec fn is_required(self) -> bool {
        self.keywords.contains(ColumnKeyword::NotNull)
    }

    /// Whether the column carries a uniqueness constraint.
    pub open spec fn is_unique(self) -> bool {
        self.keywords.contains(ColumnKeyword::UniqueKey)
    }

    /// Whether the column is the primary key.
    pub open spec fn is_primary_key(self) -> bool {
        self.keywords.contains(ColumnKeyword::PrimaryKey)
    }

    /// Whether the column's values are assigned by counting up.
    pub open spec fn is_auto_increment(self) -> bool {
        self.keywords.contains(ColumnKeyword::AutoIncrement)
    }

    /// Whether the column defaults to `default`.
    pub open spec fn defaults_to(self, default: DefaultExpr) -> bool {
        self.keywords.contains(ColumnKeyword::Default(default))
    }

    /// Whether the column has any default.
    pub open spec fn has_default(self) -> bool {
        exists|i: int| 0 <= i < self.keywords.len() && #[trigger] self.keywords[i] is Default
    }
}

/// What a `CREATE TABLE` statement holds of its table: the table's name
/// once one is set, whether it says `IF NOT EXISTS`, and its columns in
/// order. What else it holds is its [`CreateTableRest`].
pub struct CreateTableView {
    pub table: Option<Seq<char>>,
    pub if_not_exists: bool,
    pub columns: Seq<ColumnView>,
}

/// One option of a table.
pub enum TableOption {
    Engine(Seq<char>),
    Collate(Seq<char>),
    CharacterSet(Seq<char>),
}

/// What a `CREATE TABLE` statement holds besides its table's name, its
/// `IF NOT EXISTS` flag and its columns: the table's options, indexes,
/// foreign keys and checks in order, its comment and its extra text where
/// they are set, and whether the table is temporary. The indexes, foreign
/// keys and checks are sea-query's own values, carried as they are. With
/// the view this is all of a statement: sea-query keeps a list of
/// partitions too, but has no partition to put there.
pub struct CreateTableRest {
    pub options: Seq<TableOption>,
    pub indexes: Seq<IndexCreateStatement>,
    pub foreign_keys: Seq<ForeignKeyCreateStatement>,
    pub checks: Seq<SimpleExpr>,
    pub comment: Option<Seq<char>>,
    pub extra: Option<Seq<char>>,
    pub temporary: bool,
}

/// One change that an `ALTER TABLE` statement asks for, of the kinds that
/// this crate makes.
pub enum AlterOption {
    /// A column to add, and whether the change says `IF NOT EXISTS`.
    AddColumn { column: ColumnView, if_not_exists: bool },
    DropColumn(Seq<char>),
    /// A column's old name and its new one.
    RenameColumn(Seq<char>, Seq<char>),
}

/// What an `ALTER TABLE` statement holds: the table's name once one is set,
/// and the changes in order.
pub struct AlterTableView {
    pub table: Option<Seq<char>>,
    pub options: Seq<AlterOption>,
}

/// What happens to the objects that depend on a dropped table.
pub enum DropOption {
    Restrict,
    Cascade,
}

/// What a `DROP TABLE` statement holds: the names of its tables in order,
/// whether it says `IF EXISTS`, and its options in order.
pub struct DropTableView {
    pub tables: Seq<Seq<char>>,
    pub if_exists: bool,
    pub options: Seq<DropOption>,
}

/// What a rename-table statement holds: the old name and the new one, once
/// they are set.
pub struct RenameTableView {
    pub from: Option<Seq<char>>,
    pub to: Option<Seq<char>>,
}

/// What a `CREATE INDEX` statement holds of its target: the table and the
/// index's name once they are set, and the names of the indexed columns.
pub struct CreateIndexView {
    pub table: Option<Seq<char>>,
    pub name: Option<Seq<char>>,
    pub columns: Seq<Seq<char>>,
}

/// What a `DROP INDEX` statement holds: the table and the index's name once
/// they are set, and whether it says `IF EXISTS`. (sea-query keeps a list of
/// columns in such a statement too, which none of its calls can fill.)
pub struct DropIndexView {
    pub table: Option<Seq<char>>,
    pub name: Option<Seq<char>>,
    pub if_exists: bool,
}

/// What a foreign key does when the row it refers to is deleted or updated.
pub enum KeyAction {
    Restrict,
    Cascade,
    SetNull,
    NoAction,
    SetDefault,
}

/// What a statement that adds a foreign key holds: the constraint's name,
/// the referencing table and the referenced table once they are set, the
/// columns on both sides in order, and the actions where they are set.
pub struct CreateForeignKeyView {
    pub name: Option<Seq<char>>,
    pub table: Option<Seq<char>>,
    pub ref_table: Option<Seq<char>>,
    pub columns: Seq<Seq<char>>,
    pub ref_columns: Seq<Seq<char>>,
    pub on_delete: Option<KeyAction>,
    pub on_update: Option<KeyAction>,
}

/// What a statement that drops a foreign key holds: the table and the
/// constraint's name, once they are set. (sea-query keeps the other parts of
/// a foreign key in such a statement too, which none of its calls can set.)
pub struct DropForeignKeyView {
    pub table: Option<Seq<char>>,
    pub name: Option<Seq<char>>,
}

impl CreateTableView {
    /// A statement with nothing set.
    pub open spec fn empty() -> CreateTableView {
        CreateTableView { table: None, if_not_exists: false, columns: Seq::empty() }
    }

    /// The same statement for the table `name`.
    pub open spec fn on(self, name: Seq<char>) -> CreateTableView {
        CreateTableView { table: Some(name), ..self }
    }

    /// The same statement with `IF NOT EXISTS`.
    pub open spec fn guarded(self) -> CreateTableView {
        CreateTableView { if_not_exists: true, ..self }
    }

    /// The same statement with `column` added after the columns it has.
    pub open spec fn with_column(self, column: ColumnView) -> CreateTableView {
        CreateTableView { columns: self.columns.push(column), ..self }
    }
}

impl CreateTableRest {
    /// Nothing set.
    pub open spec fn empty() -> CreateTableRest {
        CreateTableRest {
            options: Seq::empty(),
            indexes: Seq::empty(),
            foreign_keys: Seq::empty(),
            checks: Seq::empty(),
            comment: None,
            extra: None,
            temporary: false,
        }
    }
}

impl AlterTableView {
    /// A statement with nothing set.
    pub open spec fn empty() -> AlterTableView {
        AlterTableView { table: None, options: Seq::empty() }
    }

    /// The same statement for the table `name`.
    pub open spec fn on(self, name: Seq<char>) -> AlterTableView {
        AlterTableView { table: Some(name), ..self }
    }

    /// The same statement with `option` added after the changes it has.
    pub open spec fn with(self, option: AlterOption) -> AlterTableView {
        AlterTableView { options: self.options.push(option), ..self }
    }
}

impl CreateForeignKeyView {
    /// A statement with nothing set.
    pub open spec fn empty() -> CreateForeignKeyView {
        CreateForeignKeyView {
            name: None,
            table: None,
            ref_table: None,
            columns: Seq::empty(),
            ref_columns: Seq::empty(),
            on_delete: None,
            on_update: None,
        }
    }
}

impl DropTableView {
    /// A statement with nothing set.
    pub open spec fn empty() -> DropTableView {
        DropTableView { tables: Seq::empty(), if_exists: false, options: Seq::empty() }
    }

    /// The same statement with the table `name` added after those it has.
    pub open spec fn on(self, name: Seq<char>) -> DropTableView {
        DropTableView { tables: self.tables.push(name), ..self }
    }
}

impl DropIndexView {
    /// A statement with nothing set.
    pub open spec fn empty() -> DropIndexView {
        DropIndexView { table: None, name: None, if_exists: false }
    }
}

} // verus!
