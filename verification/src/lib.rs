//! Helpers for writing schema migrations tersely: column definitions from a
//! compact column-type tag, tables with audit timestamps, and the statements
//! of the common schema changes.
//!
//! The statements and column definitions are sea-query's. What this crate
//! puts into them is stated over a plain model of their contents (see
//! [`model`]) and proved; the calls into sea-query themselves are trusted
//! (see [`builder`]).

pub mod builder;
pub mod col;
pub mod ddl;
pub mod enums;
pub mod laws;
pub mod model;
pub mod table;

pub use crate::col::{
    enum_type, enum_type_null, enum_type_null_with_default, enum_type_with_default, timestamptz,
    timestamptz_null, ArrayColType, ColType,
};
pub use crate::enums::{
    check_enum_exists, enum_exists_in_reply, Backend, CatalogReply, EnumCheck,
};
pub use crate::table::{alter, table_auto_tz, timestamps_tz};
