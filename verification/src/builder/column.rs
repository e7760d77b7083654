//! Column definitions, column types and default expressions.
//!
//! A column's name is handed to sea-query as an `Alias` of the text. The
//! methods of `ColumnDef` stand in the order of sea-query's source.

use crate::model::{ColumnKeyword, ColumnKind, ColumnView, DefaultExpr, ValueView};
use sea_orm::sea_query::{Alias, ColumnDef, ColumnType, Expr, PgInterval, SimpleExpr, Value};
use vstd::prelude::*;

verus! {

/// sea-query's `ColumnDef`: a column definition under construction. Opaque to
/// the verifier.
#[verifier::external_type_specification]
#[verifier::external_body]
pub struct ExColumnDef(ColumnDef);

/// sea-query's `ColumnType`: a column type. Opaque to the verifier.
#[verifier::external_type_specification]
#[verifier::external_body]
pub struct ExColumnType(ColumnType);

/// sea-query's `PgInterval`: the fields that an interval is restricted to.
/// Opaque to the verifier.
#[verifier::external_type_specification]
#[verifier::external_body]
pub struct ExPgInterval(PgInterval);

/// sea-query's `SimpleExpr`: an SQL expression. Opaque to the verifier.
#[verifier::external_type_specification]
#[verifier::external_body]
pub struct ExSimpleExpr(SimpleExpr);

/// sea-query's `Value`: a literal value. Opaque to the verifier.
#[verifier::external_type_specification]
#[verifier::external_body]
pub struct ExValue(Value);

/// What a `ColumnDef` holds: the text of its name, its type and its list of
/// `ColumnSpec` keywords. The table that a statement attaches to a column is
/// no part of the view.
pub uninterp spec fn column_view(col: ColumnDef) -> ColumnView;

/// The type that a `ColumnType` stands for.
pub uninterp spec fn type_view(ty: ColumnType) -> ColumnKind;

/// The literal that a `Value` holds.
pub uninterp spec fn value_view(value: Value) -> ValueView;

/// The expression that a `SimpleExpr` stands for.
pub uninterp spec fn expr_view(expr: SimpleExpr) -> DefaultExpr;

/// `ColumnDef::new` on an `Alias` of `name`: a column of that name, with no
/// type and no keywords.
#[verifier::external_body]
pub(crate) fn new_column(name: &str) -> (col: ColumnDef)
    ensures
        column_view(col) == ColumnView::named(name@),
{
    ColumnDef::new(Alias::new(name))
}

/// `ColumnDef::not_null`: `ColumnSpec::NotNull` is appended to the keywords;
/// the name and the type stay.
#[verifier::external_body]
pub(crate) fn mark_not_null(col: &mut ColumnDef)
    ensures
        column_view(*final(col)) == column_view(*old(col)).with(ColumnKeyword::NotNull),
{
    col.not_null();
}

/// `ColumnDef::null`: `ColumnSpec::Null` is appended to the keywords; the
/// name and the type stay.
#[verifier::external_body]
pub(crate) fn mark_null(col: &mut ColumnDef)
    ensures
        column_view(*final(col)) == column_view(*old(col)).with(ColumnKeyword::Null),
{
    col.null();
}

/// `ColumnDef::default`: `ColumnSpec::Default` with the given expression is
/// appended to the keywords; the name and the type stay.
#[verifier::external_body]
pub(crate) fn set_default(col: &mut ColumnDef, default: SimpleExpr)
    ensures
        column_view(*final(col)) == column_view(*old(col)).with_default(expr_view(default)),
{
    col.default(default);
}

/// `ColumnDef::auto_increment`: `ColumnSpec::AutoIncrement` is appended to
/// the keywords; the name and the type stay.
#[verifier::external_body]
pub(crate) fn mark_auto_increment(col: &mut ColumnDef)
    ensures
        column_view(*final(col)) == column_view(*old(col)).with(ColumnKeyword::AutoIncrement),
{
    col.auto_increment();
}

/// `ColumnDef::unique_key`: `ColumnSpec::UniqueKey` is appended to the
/// keywords; the name and the type stay.
#[verifier::external_body]
pub(crate) fn mark_unique_key(col: &mut ColumnDef)
    ensures
        column_view(*final(col)) == column_view(*old(col)).with(ColumnKeyword::UniqueKey),
{
    col.unique_key();
}

/// `ColumnDef::primary_key`: `ColumnSpec::PrimaryKey` is appended to the
/// keywords; the name and the type stay.
#[verifier::external_body]
pub(crate) fn mark_primary_key(col: &mut ColumnDef)
    ensures
        column_view(*final(col)) == column_view(*old(col)).with(ColumnKeyword::PrimaryKey),
{
    col.primary_key();
}

/// `ColumnDef::char_len`: the type becomes `Char` of the given length; the
/// name and the keywords stay.
#[verifier::external_body]
pub(crate) fn set_char_len(col: &mut ColumnDef, length: u32)
    ensures
        column_view(*final(col)) == column_view(*old(col)).typed(ColumnKind::Char(Some(length))),
{
    col.char_len(length);
}

/// `ColumnDef::char`: the type becomes `Char` without a length; the name and
/// the keywords stay.
#[verifier::external_body]
pub(crate) fn set_char(col: &mut ColumnDef)
    ensures
        column_view(*final(col)) == column_view(*old(col)).typed(ColumnKind::Char(None)),
{
    col.char();
}

/// `ColumnDef::string_len`: the type becomes `String` of the given length
/// (`StringLen::N`); the name and the keywords stay.
#[verifier::external_body]
pub(crate) fn set_string_len(col: &mut ColumnDef, length: u32)
    ensures
        column_view(*final(col)) == column_view(*old(col)).typed(ColumnKind::String(Some(length))),
{
    col.string_len(length);
}

/// `ColumnDef::string`: the type becomes `String` with the length left open
/// (`StringLen::None`); the name and the keywords stay.
#[verifier::external_body]
pub(crate) fn set_string(col: &mut ColumnDef)
    ensures
        column_view(*final(col)) == column_view(*old(col)).typed(ColumnKind::String(None)),
{
    col.string();
}

/// `ColumnDef::text`: the type becomes `Text`; the name and the keywords
/// stay.
#[verifier::external_body]
pub(crate) fn set_text(col: &mut ColumnDef)
    ensures
        column_view(*final(col)) == column_view(*old(col)).typed(ColumnKind::Text),
{
    col.text();
}

/// `ColumnDef::small_integer`: the type becomes `SmallInteger`; the name and
/// the keywords stay.
#[verifier::external_body]
pub(crate) fn set_small_integer(col: &mut ColumnDef)
    ensures
        column_view(*final(col)) == column_view(*old(col)).typed(ColumnKind::SmallInteger),
{
    col.small_integer();
}

/// `ColumnDef::integer`: the type becomes `Integer`; the name and the
/// keywords stay.
#[verifier::external_body]
pub(crate) fn set_integer(col: &mut ColumnDef)
    ensures
        column_view(*final(col)) == column_view(*old(col)).typed(ColumnKind::Integer),
{
    col.integer();
}

/// `ColumnDef::big_integer`: the type becomes `BigInteger`; the name and the
/// keywords stay.
#[verifier::external_body]
pub(crate) fn set_big_integer(col: &mut ColumnDef)
    ensures
        column_view(*final(col)) == column_view(*old(col)).typed(ColumnKind::BigInteger),
{
    col.big_integer();
}

/// `ColumnDef::small_unsigned`: the type becomes `SmallUnsigned`; the name
/// and the keywords stay.
#[verifier::external_body]
pub(crate) fn set_small_unsigned(col: &mut ColumnDef)
    ensures
        column_view(*final(col)) == column_view(*old(col)).typed(ColumnKind::SmallUnsigned),
{
    col.small_unsigned();
}

/// `ColumnDef::unsigned`: the type becomes `Unsigned`; the name and the
/// keywords stay.
#[verifier::external_body]
pub(crate) fn set_unsigned(col: &mut ColumnDef)
    ensures
        column_view(*final(col)) == column_view(*old(col)).typed(ColumnKind::Unsigned),
{
    col.unsigned();
}

/// `ColumnDef::big_unsigned`: the type becomes `BigUnsigned`; the name and
/// the keywords stay.
#[verifier::external_body]
pub(crate) fn set_big_unsigned(col: &mut ColumnDef)
    ensures
        column_view(*final(col)) == column_view(*old(col)).typed(ColumnKind::BigUnsigned),
{
    col.big_unsigned();
}

/// `ColumnDef::float`: the type becomes `Float`; the name and the keywords
/// stay.
#[verifier::external_body]
pub(crate) fn set_float(col: &mut ColumnDef)
    ensures
        column_view(*final(col)) == column_view(*old(col)).typed(ColumnKind::Float),
{
    col.float();
}

/// `ColumnDef::double`: the type becomes `Double`; the name and the keywords
/// stay.
#[verifier::external_body]
pub(crate) fn set_double(col: &mut ColumnDef)
    ensures
        column_view(*final(col)) == column_view(*old(col)).typed(ColumnKind::Double),
{
    col.double();
}

/// `ColumnDef::decimal_len`: the type becomes `Decimal` with the given
/// precision and scale; the name and the keywords stay.
#[verifier::external_body]
pub(crate) fn set_decimal_len(col: &mut ColumnDef, precision: u32, scale: u32)
    ensures
        column_view(*final(col)) == column_view(*old(col)).typed(
            ColumnKind::Decimal(Some((precision, scale))),
        ),
{
    col.decimal_len(precision, scale);
}

/// `ColumnDef::decimal`: the type becomes `Decimal` without precision and
/// scale; the name and the keywords stay.
#[verifier::external_body]
pub(crate) fn set_decimal(col: &mut ColumnDef)
    ensures
        column_view(*final(col)) == column_view(*old(col)).typed(ColumnKind::Decimal(None)),
{
    col.decimal();
}

/// `ColumnDef::date_time`: the type becomes `DateTime`; the name and the
/// keywords stay.
#[verifier::external_body]
pub(crate) fn set_date_time(col: &mut ColumnDef)
    ensures
        column_view(*final(col)) == column_view(*old(col)).typed(ColumnKind::DateTime),
{
    col.date_time();
}

/// `ColumnDef::interval`: the type becomes `Interval` with the given fields
/// and precision; the name and the keywords stay.
#[verifier::external_body]
pub(crate) fn set_interval(col: &mut ColumnDef, fields: &Option<PgInterval>, precision: Option<u32>)
    ensures
        column_view(*final(col)) == column_view(*old(col)).typed(
            ColumnKind::Interval(*fields, precision),
        ),
{
    col.interval(fields.clone(), precision);
}

/// `ColumnDef::timestamp_with_time_zone`: the type becomes
/// `TimestampWithTimeZone`; the name and the keywords stay.
#[verifier::external_body]
pub(crate) fn set_timestamp_with_time_zone(col: &mut ColumnDef)
    ensures
        column_view(*final(col)) == column_view(*old(col)).typed(ColumnKind::TimestampWithTimeZone),
{
    col.timestamp_with_time_zone();
}

/// `ColumnDef::time`: the type becomes `Time`; the name and the keywords
/// stay.
#[verifier::external_body]
pub(crate) fn set_time(col: &mut ColumnDef)
    ensures
        column_view(*final(col)) == column_view(*old(col)).typed(ColumnKind::Time),
{
    col.time();
}

/// `ColumnDef::date`: the type becomes `Date`; the name and the keywords
/// stay.
#[verifier::external_body]
pub(crate) fn set_date(col: &mut ColumnDef)
    ensures
        column_view(*final(col)) == column_view(*old(col)).typed(ColumnKind::Date),
{
    col.date();
}

/// `ColumnDef::binary_len`: the type becomes `Binary` of the given length;
/// the name and the keywords stay.
#[verifier::external_body]
pub(crate) fn set_binary_len(col: &mut ColumnDef, length: u32)
    ensures
        column_view(*final(col)) == column_view(*old(col)).typed(ColumnKind::Binary(length)),
{
    col.binary_len(length);
}

/// `ColumnDef::binary`: the type becomes `Binary` of length 1, the length
/// that sea-query gives a binary column for which none is named; the name and
/// the keywords stay.
#[verifier::external_body]
pub(crate) fn set_binary(col: &mut ColumnDef)
    ensures
        column_view(*final(col)) == column_view(*old(col)).typed(ColumnKind::Binary(1)),
{
    col.binary();
}

/// `ColumnDef::var_binary`: the type becomes `VarBinary` of the given length
/// (`StringLen::N`); the name and the keywords stay.
#[verifier::external_body]
pub(crate) fn set_var_binary(col: &mut ColumnDef, length: u32)
    ensures
        column_view(*final(col)) == column_view(*old(col)).typed(ColumnKind::VarBinary(length)),
{
    col.var_binary(length);
}

/// `ColumnDef::varbit`: the type becomes `VarBit` of the given length; the
/// name and the keywords stay.
#[verifier::external_body]
pub(crate) fn set_varbit(col: &mut ColumnDef, length: u32)
    ensures
        column_view(*final(col)) == column_view(*old(col)).typed(ColumnKind::VarBit(length)),
{
    col.varbit(length);
}

/// `ColumnDef::blob`: the type becomes `Blob`; the name and the keywords
/// stay.
#[verifier::external_body]
pub(crate) fn set_blob(col: &mut ColumnDef)
    ensures
        column_view(*final(col)) == column_view(*old(col)).typed(ColumnKind::Blob),
{
    col.blob();
}

/// `ColumnDef::boolean`: the type becomes `Boolean`; the name and the
/// keywords stay.
#[verifier::external_body]
pub(crate) fn set_boolean(col: &mut ColumnDef)
    ensures
        column_view(*final(col)) == column_view(*old(col)).typed(ColumnKind::Boolean),
{
    col.boolean();
}

/// `ColumnDef::money`: the type becomes `Money` without precision and scale;
/// the name and the keywords stay.
#[verifier::external_body]
pub(crate) fn set_money(col: &mut ColumnDef)
    ensures
        column_view(*final(col)) == column_view(*old(col)).typed(ColumnKind::Money(None)),
{
    col.money();
}

/// `ColumnDef::json`: the type becomes `Json`; the name and the keywords
/// stay.
#[verifier::external_body]
pub(crate) fn set_json(col: &mut ColumnDef)
    ensures
        column_view(*final(col)) == column_view(*old(col)).typed(ColumnKind::Json),
{
    col.json();
}

/// `ColumnDef::json_binary`: the type becomes `JsonBinary`; the name and the
/// keywords stay.
#[verifier::external_body]
pub(crate) fn set_json_binary(col: &mut ColumnDef)
    ensures
        column_view(*final(col)) == column_view(*old(col)).typed(ColumnKind::JsonBinary),
{
    col.json_binary();
}

/// `ColumnDef::uuid`: the type becomes `Uuid`; the name and the keywords
/// stay.
#[verifier::external_body]
pub(crate) fn set_uuid(col: &mut ColumnDef)
    ensures
        column_view(*final(col)) == column_view(*old(col)).typed(ColumnKind::Uuid),
{
    col.uuid();
}

/// `ColumnDef::enumeration`: sets the type to the enumerated type `name`,
/// listing `variants` as its values; the name and the keywords stay.
#[verifier::external_body]
pub(crate) fn set_enumeration(col: &mut ColumnDef, name: &str, variants: Vec<String>)
    ensures
        column_view(*final(col)) == column_view(*old(col)).typed(
            ColumnKind::Enum { name: name@, variants: variants@.map_values(|v: String| v@) },
        ),
{
    col.enumeration(Alias::new(name), variants.into_iter().map(Alias::new));
}

/// `ColumnDef::array`: the type becomes an array of `element`. The name and
/// the keywords stay; the name and the keywords stay.
#[verifier::external_body]
pub(crate) fn set_array(col: &mut ColumnDef, element: &ColumnType)
    ensures
        column_view(*final(col)) == column_view(*old(col)).typed(
            ColumnKind::Array(Box::new(type_view(*element))),
        ),
{
    col.array(element.clone());
}

/// `ColumnType::string`: the type `String`, of the given length or with the
/// length left open.
#[verifier::external_body]
pub(crate) fn string_type(length: Option<u32>) -> (ty: ColumnType)
    ensures
        type_view(ty) == ColumnKind::String(length),
{
    ColumnType::string(length)
}

/// The variant `ColumnType::Integer`.
#[verifier::external_body]
pub(crate) fn integer_type() -> (ty: ColumnType)
    ensures
        type_view(ty) == ColumnKind::Integer,
{
    ColumnType::Integer
}

/// The variant `ColumnType::BigInteger`.
#[verifier::external_body]
pub(crate) fn big_integer_type() -> (ty: ColumnType)
    ensures
        type_view(ty) == ColumnKind::BigInteger,
{
    ColumnType::BigInteger
}

/// The variant `ColumnType::Float`.
#[verifier::external_body]
pub(crate) fn float_type() -> (ty: ColumnType)
    ensures
        type_view(ty) == ColumnKind::Float,
{
    ColumnType::Float
}

/// The variant `ColumnType::Double`.
#[verifier::external_body]
pub(crate) fn double_type() -> (ty: ColumnType)
    ensures
        type_view(ty) == ColumnKind::Double,
{
    ColumnType::Double
}

/// The variant `ColumnType::Boolean`.
#[verifier::external_body]
pub(crate) fn boolean_type() -> (ty: ColumnType)
    ensures
        type_view(ty) == ColumnKind::Boolean,
{
    ColumnType::Boolean
}

/// `Value::from` on a `bool`: `Value::Bool` of it.
#[verifier::external_body]
pub(crate) fn bool_value(v: bool) -> (value: Value)
    ensures
        value_view(value) == ValueView::Bool(v),
{
    Value::from(v)
}

/// `Value::from` on an `i16`: `Value::SmallInt` of it.
#[verifier::external_body]
pub(crate) fn small_int_value(v: i16) -> (value: Value)
    ensures
        value_view(value) == ValueView::SmallInt(v),
{
    Value::from(v)
}

/// `Value::from` on an `i32`: `Value::Int` of it.
#[verifier::external_body]
pub(crate) fn int_value(v: i32) -> (value: Value)
    ensures
        value_view(value) == ValueView::Int(v),
{
    Value::from(v)
}

/// `Value::from` on an `i64`: `Value::BigInt` of it.
#[verifier::external_body]
pub(crate) fn big_int_value(v: i64) -> (value: Value)
    ensures
        value_view(value) == ValueView::BigInt(v),
{
    Value::from(v)
}

/// `Value::from` on a `u16`: `Value::SmallUnsigned` of it.
#[verifier::external_body]
pub(crate) fn small_unsigned_value(v: u16) -> (value: Value)
    ensures
        value_view(value) == ValueView::SmallUnsigned(v),
{
    Value::from(v)
}

/// `Value::from` on a `u32`: `Value::Unsigned` of it.
#[verifier::external_body]
pub(crate) fn unsigned_value(v: u32) -> (value: Value)
    ensures
        value_view(value) == ValueView::Unsigned(v),
{
    Value::from(v)
}

/// `Value::from` on a `u64`: `Value::BigUnsigned` of it.
#[verifier::external_body]
pub(crate) fn big_unsigned_value(v: u64) -> (value: Value)
    ensures
        value_view(value) == ValueView::BigUnsigned(v),
{
    Value::from(v)
}

/// `Value::from` on a `char`: `Value::Char` of it.
#[verifier::external_body]
pub(crate) fn char_value(v: char) -> (value: Value)
    ensures
        value_view(value) == ValueView::Char(v),
{
    Value::from(v)
}

/// `Value::from` on a `&str`: `Value::String` of a copy of the text.
#[verifier::external_body]
pub(crate) fn string_value(v: &str) -> (value: Value)
    ensures
        value_view(value) == ValueView::String(v@),
{
    Value::from(v)
}

/// `SimpleExpr::from` on a `Value`: `SimpleExpr::Value` of it.
#[verifier::external_body]
pub(crate) fn value_expr(value: &Value) -> (expr: SimpleExpr)
    ensures
        expr_view(expr) == DefaultExpr::Value(value_view(*value)),
{
    SimpleExpr::from(value.clone())
}

/// `Expr::cust`: `SimpleExpr::Custom` of the text, which the backends write
/// out as it stands.
#[verifier::external_body]
pub(crate) fn custom_expr(sql: &str) -> (expr: SimpleExpr)
    ensures
        expr_view(expr) == DefaultExpr::Custom(sql@),
{
    Expr::cust(sql)
}

/// `Expr::current_timestamp`, as a `SimpleExpr`: the keyword
/// `CURRENT_TIMESTAMP`.
#[verifier::external_body]
pub(crate) fn current_timestamp_expr() -> (expr: SimpleExpr)
    ensures
        expr_view(expr) == DefaultExpr::CurrentTimestamp,
{
    SimpleExpr::from(Expr::current_timestamp())
}

} // verus!
