//! Whether a database-level enumerated type exists.
//!
//! Only PostgreSQL has named enumerated types, and only its catalog can say
//! whether one exists. The decision is made in two steps, with the query to
//! the database between them: [`check_enum_exists`] looks at the backend and
//! either answers or says what to ask; [`enum_exists_in_reply`] reads the
//! answer off what came back. A failure on the way, of the query or of
//! reading its answer, is handed back to the caller as it is.

use vstd::prelude::*;

verus! {

/// The database backends.
#[derive(Clone, Copy, Debug, PartialEq, Eq, Structural)]
pub enum Backend {
    MySql,
    Postgres,
    Sqlite,
}

/// The outcome of looking at the backend.
#[derive(Debug)]
pub enum EnumCheck {
    /// Whether the type exists is known without asking the database.
    Known(bool),
    /// The database must be asked: `sql` is the query to run on it, with
    /// `name` bound to its one placeholder. The name is never made part of
    /// the query's text, so no character in it can change what is asked.
    Query { sql: String, name: String },
}

/// What came back from the catalog query.
#[derive(Debug)]
pub enum CatalogReply<E> {
    /// The query gave no row.
    NoRow,
    /// The query gave a row, with this in its `exists` column.
    Exists(bool),
    /// The query gave a row whose `exists` column could not be read as a
    /// boolean: this is the failure that the driver reported.
    Unreadable(E),
}

/// The name of the column in which the catalog query hands back its answer.
pub const EXISTS_COLUMN: &'static str = "exists";

impl Backend {
    /// Whether the backend has named enumerated types.
    pub open spec fn has_native_enums(self) -> bool {
        self == Backend::Postgres
    }
}

/// The text of the catalog query: whether `pg_type` has an entry that is an
/// enumeration (`typtype = 'e'`) and whose name is the value bound to `$1`.
/// A table, a domain or a composite type of that name is no such entry.
pub open spec fn enum_exists_sql() -> Seq<char> {
    "SELECT EXISTS (SELECT 1 FROM pg_type WHERE typname = $1 AND typtype = 'e')"@
}

/// Decides from the backend how to find out whether the enumerated type
/// `enum_name` exists. On PostgreSQL the catalog must be asked, for exactly
/// that name; on a backend without named enumerated types the type does not
/// exist, whatever the database holds.
pub fn check_enum_exists(backend: Backend, enum_name: &str) -> (check: EnumCheck)
    ensures
        backend.has_native_enums() ==> (check matches EnumCheck::Query { sql, name } && sql@
            == enum_exists_sql() && name@ == enum_name@),
        !backend.has_native_enums() ==> check == EnumCheck::Known(false),
{
    match backend {
        Backend::Postgres => EnumCheck::Query {
            sql: "SELECT EXISTS (SELECT 1 FROM pg_type WHERE typname = $1 AND typtype = 'e')"
                .to_owned(),
            name: enum_name.to_owned(),
        },
        Backend::Sqlite => EnumCheck::Known(false),
        Backend::MySql => EnumCheck::Known(false),
    }
}

/// Reads off the outcome of the catalog query whether the type exists: it
/// does if the query gave a row that says so, and it does not if the row
/// says otherwise or there is no row. A failure is never taken for an
/// answer: where the query failed, or its row could not be read, the
/// failure is handed on unchanged.
pub fn enum_exists_in_reply<E>(reply: Result<CatalogReply<E>, E>) -> (exists: Result<bool, E>)
    ensures
        match reply {
            Ok(CatalogReply::NoRow) => exists == Ok::<bool, E>(false),
            Ok(CatalogReply::Exists(flag)) => exists == Ok::<bool, E>(flag),
            Ok(CatalogReply::Unreadable(error)) => exists == Err::<bool, E>(error),
            Err(error) => exists == Err::<bool, E>(error),
        },
{
    match reply {
        Ok(CatalogReply::NoRow) => Ok(false),
        Ok(CatalogReply::Exists(flag)) => Ok(flag),
        Ok(CatalogReply::Unreadable(error)) => Err(error),
        Err(error) => Err(error),
    }
}

} // verus!
