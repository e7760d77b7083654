//! Column-type tags and the column definitions they stand for.
//!
//! A [`ColType`] names a column's type together with its modifiers: whether
//! it admits `NULL`, whether it is unique, and what it defaults to.
//! [`ColType::to_def`] turns a tag and a name into a sea-query column
//! definition; [`ColType::definition`] says, as plain data, which one.

use crate::builder::column::{
    big_int_value, big_integer_type, big_unsigned_value, bool_value, boolean_type, char_value,
    column_view, custom_expr, double_type, expr_view, float_type, int_value, integer_type,
    mark_auto_increment, mark_not_null, mark_null, mark_primary_key, mark_unique_key, new_column,
    set_array, set_big_integer, set_big_unsigned, set_binary, set_binary_len, set_blob,
    set_boolean, set_char, set_char_len, set_date, set_date_time, set_decimal, set_decimal_len,
    set_default, set_double, set_enumeration, set_float, set_integer, set_interval, set_json,
    set_json_binary, set_money, set_small_integer, set_small_unsigned, set_string,
    set_string_len, set_text, set_time, set_timestamp_with_time_zone, set_unsigned, set_uuid,
    set_var_binary, set_varbit, small_int_value, small_unsigned_value, string_type,
    string_value, type_view, unsigned_value, value_expr, value_view,
};
use crate::laws::{lemma_bound_round_trip, lemma_default_round_trip, lemma_flags_follow_name};
use crate::model::{Bound, ColumnKeyword, ColumnKind, ColumnView, DefaultExpr, ValueView};
use sea_orm::sea_query::{ColumnDef, ColumnType, PgInterval, SimpleExpr, Value};
use vstd::prelude::*;

verus! {

/// The element types that [`ColType::array`] and its siblings offer.
pub enum ArrayColType {
    String,
    Int,
    BigInt,
    Float,
    Double,
    Bool,
}

/// A column's type together with its modifiers.
///
/// The suffix of a variant's name gives the modifiers: `Null` admits `NULL`,
/// `Uniq` adds a uniqueness constraint, `WithDefault` carries the default as
/// its last field; a variant without `Null` is `NOT NULL`. A default that is
/// not an exact value (of a decimal, floating-point or monetary column) is
/// carried as a sea-query `Value`, which the caller makes from the number.
#[derive(Debug)]
pub enum ColType {
    /// An integer primary key whose values are assigned by counting up.
    PkAuto,
    /// A UUID primary key.
    PkUuid,
    CharLen(u32),
    CharLenWithDefault(u32, char),
    CharLenNull(u32),
    CharLenUniq(u32),
    Char,
    CharWithDefault(char),
    CharNull,
    CharUniq,
    StringLen(u32),
    StringLenWithDefault(u32, String),
    StringLenNull(u32),
    StringLenUniq(u32),
    String,
    StringWithDefault(String),
    StringNull,
    StringUniq,
    Text,
    TextWithDefault(String),
    TextNull,
    TextUniq,
    Integer,
    IntegerWithDefault(i32),
    IntegerNull,
    IntegerUniq,
    Unsigned,
    UnsignedWithDefault(u32),
    UnsignedNull,
    UnsignedUniq,
    SmallUnsigned,
    SmallUnsignedWithDefault(u16),
    SmallUnsignedNull,
    SmallUnsignedUniq,
    BigUnsigned,
    BigUnsignedWithDefault(u64),
    BigUnsignedNull,
    BigUnsignedUniq,
    SmallInteger,
    SmallIntegerWithDefault(i16),
    SmallIntegerNull,
    SmallIntegerUniq,
    BigInteger,
    BigIntegerWithDefault(i64),
    BigIntegerNull,
    BigIntegerUniq,
    Decimal,
    /// The default is carried as a `Value`.
    DecimalWithDefault(Value),
    DecimalNull,
    DecimalUniq,
    /// Precision and scale.
    DecimalLen(u32, u32),
    /// Precision and scale; the default is carried as a `Value`.
    DecimalLenWithDefault(u32, u32, Value),
    DecimalLenNull(u32, u32),
    DecimalLenUniq(u32, u32),
    Float,
    /// The default is carried as a `Value`.
    FloatWithDefault(Value),
    FloatNull,
    FloatUniq,
    Double,
    /// The default is carried as a `Value`.
    DoubleWithDefault(Value),
    DoubleNull,
    DoubleUniq,
    Boolean,
    BooleanWithDefault(bool),
    BooleanNull,
    Date,
    DateWithDefault(String),
    DateNull,
    DateUniq,
    DateTime,
    DateTimeWithDefault(String),
    DateTimeNull,
    DateTimeUniq,
    Time,
    TimeWithDefault(String),
    TimeNull,
    TimeUniq,
    /// The fields that the interval is restricted to, and its precision.
    Interval(Option<PgInterval>, Option<u32>),
    IntervalNull(Option<PgInterval>, Option<u32>),
    IntervalUniq(Option<PgInterval>, Option<u32>),
    /// Bytes of the length that sea-query gives where none is named.
    Binary,
    BinaryNull,
    BinaryUniq,
    BinaryLen(u32),
    BinaryLenNull(u32),
    BinaryLenUniq(u32),
    VarBinary(u32),
    VarBinaryNull(u32),
    VarBinaryUniq(u32),
    TimestampWithTimeZone,
    TimestampWithTimeZoneWithDefault(String),
    TimestampWithTimeZoneNull,
    Json,
    JsonNull,
    JsonUniq,
    JsonBinary,
    JsonBinaryNull,
    JsonBinaryUniq,
    Blob,
    BlobNull,
    BlobUniq,
    Money,
    /// The default is carried as a `Value`.
    MoneyWithDefault(Value),
    MoneyNull,
    MoneyUniq,
    Uuid,
    UuidNull,
    UuidUniq,
    /// The default is SQL text, such as a call of the backend's function
    /// that makes a UUID: it is handed to the backend as it stands.
    UuidWithDefault(String),
    /// The default is SQL text, as for [`ColType::UuidWithDefault`].
    UuidUniqWithDefault(String),
    VarBitLen(u32),
    VarBitLenNull(u32),
    VarBitLenUniq(u32),
    /// An array, with the type of its elements.
    Array(ColumnType),
    ArrayNull(ColumnType),
    ArrayUniq(ColumnType),
    /// A database-level enumerated type, by its name, with its values. The
    /// column definition refers to the type by name and lists no values.
    Enum(String, Vec<String>),
    EnumNull(String, Vec<String>),
    /// Name, values and the default value.
    EnumWithDefault(String, Vec<String>, String),
    EnumNullWithDefault(String, Vec<String>, String),
}

impl ArrayColType {
    /// The column type of one element.
    pub open spec fn element(self) -> ColumnKind {
        match self {
            ArrayColType::String => ColumnKind::String(None),
            ArrayColType::Int => ColumnKind::Integer,
            ArrayColType::BigInt => ColumnKind::BigInteger,
            ArrayColType::Float => ColumnKind::Float,
            ArrayColType::Double => ColumnKind::Double,
            ArrayColType::Bool => ColumnKind::Boolean,
        }
    }
}

impl ColType {
    /// A `NOT NULL` array column with elements of the given type.
    #[must_use]
    pub fn array(kind: ArrayColType) -> (tag: Self)
        ensures
            tag matches ColType::Array(ty) && type_view(ty) == kind.element(),
    {
        ColType::Array(Self::array_col_type(&kind))
    }

    /// A `NOT NULL UNIQUE` array column with elements of the given type.
    #[must_use]
    pub fn array_uniq(kind: ArrayColType) -> (tag: Self)
        ensures
            tag matches ColType::ArrayUniq(ty) && type_view(ty) == kind.element(),
    {
        ColType::ArrayUniq(Self::array_col_type(&kind))
    }

    /// A `NULL` array column with elements of the given type.
    #[must_use]
    pub fn array_null(kind: ArrayColType) -> (tag: Self)
        ensures
            tag matches ColType::ArrayNull(ty) && type_view(ty) == kind.element(),
    {
        ColType::ArrayNull(Self::array_col_type(&kind))
    }

    /// The sea-query type of one element.
    fn array_col_type(kind: &ArrayColType) -> (ty: ColumnType)
        ensures
            type_view(ty) == kind.element(),
    {
        match kind {
            ArrayColType::String => string_type(None),
            ArrayColType::Int => integer_type(),
            ArrayColType::BigInt => big_integer_type(),
            ArrayColType::Float => float_type(),
            ArrayColType::Double => double_type(),
            ArrayColType::Bool => boolean_type(),
        }
    }

    /// The column definition that this tag stands for, under the given name:
    /// one row for each variant.
    pub open spec fn definition(&self, name: Seq<char>) -> ColumnView {
        match self {
            ColType::PkAuto => {
                ColumnView::required(name, ColumnKind::Integer)
                    .with(ColumnKeyword::AutoIncrement)
                    .with(ColumnKeyword::PrimaryKey)
            },
            ColType::PkUuid => {
                ColumnView::required(name, ColumnKind::Uuid).with(ColumnKeyword::PrimaryKey)
            },
            ColType::CharLen(len) => ColumnView::required(name, ColumnKind::Char(Some(*len))),
            ColType::CharLenWithDefault(len, default) => {
                ColumnView::required(name, ColumnKind::Char(Some(*len)))
                    .with_value(ValueView::Char(*default))
            },
            ColType::CharLenNull(len) => ColumnView::optional(name, ColumnKind::Char(Some(*len))),
            ColType::CharLenUniq(len) => ColumnView::unique(name, ColumnKind::Char(Some(*len))),
            ColType::Char => ColumnView::required(name, ColumnKind::Char(None)),
            ColType::CharWithDefault(default) => {
                ColumnView::required(name, ColumnKind::Char(None))
                    .with_value(ValueView::Char(*default))
            },
            ColType::CharNull => ColumnView::optional(name, ColumnKind::Char(None)),
            ColType::CharUniq => ColumnView::unique(name, ColumnKind::Char(None)),
            ColType::StringLen(len) => ColumnView::required(name, ColumnKind::String(Some(*len))),
            ColType::StringLenWithDefault(len, default) => {
                ColumnView::required(name, ColumnKind::String(Some(*len)))
                    .with_value(ValueView::String(default@))
            },
            ColType::StringLenNull(len) => {
                ColumnView::optional(name, ColumnKind::String(Some(*len)))
            },
            ColType::StringLenUniq(len) => ColumnView::unique(name, ColumnKind::String(Some(*len))),
            ColType::String => ColumnView::required(name, ColumnKind::String(None)),
            ColType::StringWithDefault(default) => {
                ColumnView::required(name, ColumnKind::String(None))
                    .with_value(ValueView::String(default@))
            },
            ColType::StringNull => ColumnView::optional(name, ColumnKind::String(None)),
            ColType::StringUniq => ColumnView::unique(name, ColumnKind::String(None)),
            ColType::Text => ColumnView::required(name, ColumnKind::Text),
            ColType::TextWithDefault(default) => {
                ColumnView::required(name, ColumnKind::Text)
                    .with_value(ValueView::String(default@))
            },
            ColType::TextNull => ColumnView::optional(name, ColumnKind::Text),
            ColType::TextUniq => ColumnView::unique(name, ColumnKind::Text),
            ColType::Integer => ColumnView::required(name, ColumnKind::Integer),
            ColType::IntegerWithDefault(default) => {
                ColumnView::required(name, ColumnKind::Integer)
                    .with_value(ValueView::Int(*default))
            },
            ColType::IntegerNull => ColumnView::optional(name, ColumnKind::Integer),
            ColType::IntegerUniq => ColumnView::unique(name, ColumnKind::Integer),
            ColType::Unsigned => ColumnView::required(name, ColumnKind::Unsigned),
            ColType::UnsignedWithDefault(default) => {
                ColumnView::required(name, ColumnKind::Unsigned)
                    .with_value(ValueView::Unsigned(*default))
            },
            ColType::UnsignedNull => ColumnView::optional(name, ColumnKind::Unsigned),
            ColType::UnsignedUniq => ColumnView::unique(name, ColumnKind::Unsigned),
            ColType::SmallUnsigned => ColumnView::required(name, ColumnKind::SmallUnsigned),
            ColType::SmallUnsignedWithDefault(default) => {
                ColumnView::required(name, ColumnKind::SmallUnsigned)
                    .with_value(ValueView::SmallUnsigned(*default))
            },
            ColType::SmallUnsignedNull => ColumnView::optional(name, ColumnKind::SmallUnsigned),
            ColType::SmallUnsignedUniq => ColumnView::unique(name, ColumnKind::SmallUnsigned),
            ColType::BigUnsigned => ColumnView::required(name, ColumnKind::BigUnsigned),
            ColType::BigUnsignedWithDefault(default) => {
                ColumnView::required(name, ColumnKind::BigUnsigned)
                    .with_value(ValueView::BigUnsigned(*default))
            },
            ColType::BigUnsignedNull => ColumnView::optional(name, ColumnKind::BigUnsigned),
            ColType::BigUnsignedUniq => ColumnView::unique(name, ColumnKind::BigUnsigned),
            ColType::SmallInteger => ColumnView::required(name, ColumnKind::SmallInteger),
            ColType::SmallIntegerWithDefault(default) => {
                ColumnView::required(name, ColumnKind::SmallInteger)
                    .with_value(ValueView::SmallInt(*default))
            },
            ColType::SmallIntegerNull => ColumnView::optional(name, ColumnKind::SmallInteger),
            ColType::SmallIntegerUniq => ColumnView::unique(name, ColumnKind::SmallInteger),
            ColType::BigInteger => ColumnView::required(name, ColumnKind::BigInteger),
            ColType::BigIntegerWithDefault(default) => {
                ColumnView::required(name, ColumnKind::BigInteger)
                    .with_value(ValueView::BigInt(*default))
            },
            ColType::BigIntegerNull => ColumnView::optional(name, ColumnKind::BigInteger),
            ColType::BigIntegerUniq => ColumnView::unique(name, ColumnKind::BigInteger),
            ColType::Decimal => ColumnView::required(name, ColumnKind::Decimal(None)),
            ColType::DecimalWithDefault(default) => {
                ColumnView::required(name, ColumnKind::Decimal(None))
                    .with_value(value_view(*default))
            },
            ColType::DecimalNull => ColumnView::optional(name, ColumnKind::Decimal(None)),
            ColType::DecimalUniq => ColumnView::unique(name, ColumnKind::Decimal(None)),
            ColType::DecimalLen(precision, scale) => {
                ColumnView::required(name, ColumnKind::Decimal(Some((*precision, *scale))))
            },
            ColType::DecimalLenWithDefault(precision, scale, default) => {
                ColumnView::required(name, ColumnKind::Decimal(Some((*precision, *scale))))
                    .with_value(value_view(*default))
            },
            ColType::DecimalLenNull(precision, scale) => {
                ColumnView::optional(name, ColumnKind::Decimal(Some((*precision, *scale))))
            },
            ColType::DecimalLenUniq(precision, scale) => {
                ColumnView::unique(name, ColumnKind::Decimal(Some((*precision, *scale))))
            },
            ColType::Float => ColumnView::required(name, ColumnKind::Float),
            ColType::FloatWithDefault(default) => {
                ColumnView::required(name, ColumnKind::Float)
                    .with_value(value_view(*default))
            },
            ColType::FloatNull => ColumnView::optional(name, ColumnKind::Float),
            ColType::FloatUniq => ColumnView::unique(name, ColumnKind::Float),
            ColType::Double => ColumnView::required(name, ColumnKind::Double),
            ColType::DoubleWithDefault(default) => {
                ColumnView::required(name, ColumnKind::Double)
                    .with_value(value_view(*default))
            },
            ColType::DoubleNull => ColumnView::optional(name, ColumnKind::Double),
            ColType::DoubleUniq => ColumnView::unique(name, ColumnKind::Double),
            ColType::Boolean => ColumnView::required(name, ColumnKind::Boolean),
            ColType::BooleanWithDefault(default) => {
                ColumnView::required(name, ColumnKind::Boolean)
                    .with_value(ValueView::Bool(*default))
            },
            ColType::BooleanNull => ColumnView::optional(name, ColumnKind::Boolean),
            ColType::Date => ColumnView::required(name, ColumnKind::Date),
            ColType::DateWithDefault(default) => {
                ColumnView::required(name, ColumnKind::Date)
                    .with_value(ValueView::String(default@))
            },
            ColType::DateNull => ColumnView::optional(name, ColumnKind::Date),
            ColType::DateUniq => ColumnView::unique(name, ColumnKind::Date),
            ColType::DateTime => ColumnView::required(name, ColumnKind::DateTime),
            ColType::DateTimeWithDefault(default) => {
                ColumnView::required(name, ColumnKind::DateTime)
                    .with_value(ValueView::String(default@))
            },
            ColType::DateTimeNull => ColumnView::optional(name, ColumnKind::DateTime),
            ColType::DateTimeUniq => ColumnView::unique(name, ColumnKind::DateTime),
            ColType::Time => ColumnView::required(name, ColumnKind::Time),
            ColType::TimeWithDefault(default) => {
                ColumnView::required(name, ColumnKind::Time)
                    .with_value(ValueView::String(default@))
            },
            ColType::TimeNull => ColumnView::optional(name, ColumnKind::Time),
            ColType::TimeUniq => ColumnView::unique(name, ColumnKind::Time),
            ColType::Interval(fields, precision) => {
                ColumnView::required(name, ColumnKind::Interval(*fields, *precision))
            },
            ColType::IntervalNull(fields, precision) => {
                ColumnView::optional(name, ColumnKind::Interval(*fields, *precision))
            },
            ColType::IntervalUniq(fields, precision) => {
                ColumnView::unique(name, ColumnKind::Interval(*fields, *precision))
            },
            ColType::Binary => ColumnView::required(name, ColumnKind::Binary(1)),
            ColType::BinaryNull => ColumnView::optional(name, ColumnKind::Binary(1)),
            ColType::BinaryUniq => ColumnView::unique(name, ColumnKind::Binary(1)),
            ColType::BinaryLen(len) => ColumnView::required(name, ColumnKind::Binary(*len)),
            ColType::BinaryLenNull(len) => ColumnView::optional(name, ColumnKind::Binary(*len)),
            ColType::BinaryLenUniq(len) => ColumnView::unique(name, ColumnKind::Binary(*len)),
            ColType::VarBinary(len) => ColumnView::required(name, ColumnKind::VarBinary(*len)),
            ColType::VarBinaryNull(len) => ColumnView::optional(name, ColumnKind::VarBinary(*len)),
            ColType::VarBinaryUniq(len) => ColumnView::unique(name, ColumnKind::VarBinary(*len)),
            ColType::TimestampWithTimeZone => {
                ColumnView::required(name, ColumnKind::TimestampWithTimeZone)
            },
            ColType::TimestampWithTimeZoneWithDefault(default) => {
                ColumnView::required(name, ColumnKind::TimestampWithTimeZone)
                    .with_value(ValueView::String(default@))
            },
            ColType::TimestampWithTimeZoneNull => {
                ColumnView::optional(name, ColumnKind::TimestampWithTimeZone)
            },
            ColType::Json => ColumnView::required(name, ColumnKind::Json),
            ColType::JsonNull => ColumnView::optional(name, ColumnKind::Json),
            ColType::JsonUniq => ColumnView::unique(name, ColumnKind::Json),
            ColType::JsonBinary => ColumnView::required(name, ColumnKind::JsonBinary),
            ColType::JsonBinaryNull => ColumnView::optional(name, ColumnKind::JsonBinary),
            ColType::JsonBinaryUniq => ColumnView::unique(name, ColumnKind::JsonBinary),
            ColType::Blob => ColumnView::required(name, ColumnKind::Blob),
            ColType::BlobNull => ColumnView::optional(name, ColumnKind::Blob),
            ColType::BlobUniq => ColumnView::unique(name, ColumnKind::Blob),
            ColType::Money => ColumnView::required(name, ColumnKind::Money(None)),
            ColType::MoneyWithDefault(default) => {
                ColumnView::required(name, ColumnKind::Money(None))
                    .with_value(value_view(*default))
            },
            ColType::MoneyNull => ColumnView::optional(name, ColumnKind::Money(None)),
            ColType::MoneyUniq => ColumnView::unique(name, ColumnKind::Money(None)),
            ColType::Uuid => ColumnView::required(name, ColumnKind::Uuid),
            ColType::UuidNull => ColumnView::optional(name, ColumnKind::Uuid),
            ColType::UuidUniq => ColumnView::unique(name, ColumnKind::Uuid),
            ColType::UuidWithDefault(default) => {
                ColumnView::required(name, ColumnKind::Uuid)
                    .with_default(DefaultExpr::Custom(default@))
            },
            ColType::UuidUniqWithDefault(default) => {
                ColumnView::unique(name, ColumnKind::Uuid)
                    .with_default(DefaultExpr::Custom(default@))
            },
            ColType::VarBitLen(len) => ColumnView::required(name, ColumnKind::VarBit(*len)),
            ColType::VarBitLenNull(len) => ColumnView::optional(name, ColumnKind::VarBit(*len)),
            ColType::VarBitLenUniq(len) => ColumnView::unique(name, ColumnKind::VarBit(*len)),
            ColType::Array(ty) => {
                ColumnView::required(name, ColumnKind::Array(Box::new(type_view(*ty))))
            },
            ColType::ArrayNull(ty) => {
                ColumnView::optional(name, ColumnKind::Array(Box::new(type_view(*ty))))
            },
            ColType::ArrayUniq(ty) => {
                ColumnView::unique(name, ColumnKind::Array(Box::new(type_view(*ty))))
            },
            ColType::Enum(enum_name, _) => {
                ColumnView::required(name, ColumnKind::enum_named(enum_name@))
            },
            ColType::EnumNull(enum_name, _) => {
                ColumnView::optional(name, ColumnKind::enum_named(enum_name@))
            },
            ColType::EnumWithDefault(enum_name, _, default) => {
                ColumnView::required(name, ColumnKind::enum_named(enum_name@))
                    .with_value(ValueView::String(default@))
            },
            ColType::EnumNullWithDefault(enum_name, _, default) => {
                ColumnView::optional(name, ColumnKind::enum_named(enum_name@))
                    .with_value(ValueView::String(default@))
            },
        }
    }

    /// The column type that this tag stands for.
    pub open spec fn kind(&self) -> ColumnKind {
        self.definition(Seq::empty()).kind->0
    }

    /// Whether the variant's name says `Pk`.
    pub open spec fn named_pk(&self) -> bool {
        self is PkAuto || self is PkUuid
    }

    /// Whether the variant's name says `Null`.
    pub open spec fn named_null(&self) -> bool {
        match self {
            ColType::CharLenNull(_) | ColType::CharNull | ColType::StringLenNull(_)
            | ColType::StringNull | ColType::TextNull | ColType::IntegerNull | ColType::UnsignedNull
            | ColType::SmallUnsignedNull | ColType::BigUnsignedNull | ColType::SmallIntegerNull
            | ColType::BigIntegerNull | ColType::DecimalNull | ColType::DecimalLenNull(_, _)
            | ColType::FloatNull | ColType::DoubleNull | ColType::BooleanNull | ColType::DateNull
            | ColType::DateTimeNull | ColType::TimeNull | ColType::IntervalNull(_, _)
            | ColType::BinaryNull | ColType::BinaryLenNull(_) | ColType::VarBinaryNull(_)
            | ColType::TimestampWithTimeZoneNull | ColType::JsonNull | ColType::JsonBinaryNull
            | ColType::BlobNull | ColType::MoneyNull | ColType::UuidNull | ColType::VarBitLenNull(_)
            | ColType::ArrayNull(_) | ColType::EnumNull(_, _)
            | ColType::EnumNullWithDefault(_, _, _) => true,
            _ => false,
        }
    }

    /// Whether the variant's name says `Uniq`.
    pub open spec fn named_uniq(&self) -> bool {
        match self {
            ColType::CharLenUniq(_) | ColType::CharUniq | ColType::StringLenUniq(_)
            | ColType::StringUniq | ColType::TextUniq | ColType::IntegerUniq | ColType::UnsignedUniq
            | ColType::SmallUnsignedUniq | ColType::BigUnsignedUniq | ColType::SmallIntegerUniq
            | ColType::BigIntegerUniq | ColType::DecimalUniq | ColType::DecimalLenUniq(_, _)
            | ColType::FloatUniq | ColType::DoubleUniq | ColType::DateUniq | ColType::DateTimeUniq
            | ColType::TimeUniq | ColType::IntervalUniq(_, _) | ColType::BinaryUniq
            | ColType::BinaryLenUniq(_) | ColType::VarBinaryUniq(_) | ColType::JsonUniq
            | ColType::JsonBinaryUniq | ColType::BlobUniq | ColType::MoneyUniq | ColType::UuidUniq
            | ColType::UuidUniqWithDefault(_) | ColType::VarBitLenUniq(_)
            | ColType::ArrayUniq(_) => {
                true
            },
            _ => false,
        }
    }

    /// The default that the variant carries, if it carries one.
    pub open spec fn declared_default(&self) -> Option<DefaultExpr> {
        match self {
            ColType::CharLenWithDefault(_, default) | ColType::CharWithDefault(default) => {
                Some(DefaultExpr::Value(ValueView::Char(*default)))
            },
            ColType::StringLenWithDefault(_, default) | ColType::StringWithDefault(default)
            | ColType::TextWithDefault(default) | ColType::DateWithDefault(default)
            | ColType::DateTimeWithDefault(default) | ColType::TimeWithDefault(default)
            | ColType::TimestampWithTimeZoneWithDefault(default) => {
                Some(DefaultExpr::Value(ValueView::String(default@)))
            },
            ColType::IntegerWithDefault(default) => {
                Some(DefaultExpr::Value(ValueView::Int(*default)))
            },
            ColType::UnsignedWithDefault(default) => {
                Some(DefaultExpr::Value(ValueView::Unsigned(*default)))
            },
            ColType::SmallUnsignedWithDefault(default) => {
                Some(DefaultExpr::Value(ValueView::SmallUnsigned(*default)))
            },
            ColType::BigUnsignedWithDefault(default) => {
                Some(DefaultExpr::Value(ValueView::BigUnsigned(*default)))
            },
            ColType::SmallIntegerWithDefault(default) => {
                Some(DefaultExpr::Value(ValueView::SmallInt(*default)))
            },
            ColType::BigIntegerWithDefault(default) => {
                Some(DefaultExpr::Value(ValueView::BigInt(*default)))
            },
            ColType::DecimalWithDefault(default) | ColType::DecimalLenWithDefault(_, _, default)
            | ColType::FloatWithDefault(default) | ColType::DoubleWithDefault(default)
            | ColType::MoneyWithDefault(default) => Some(DefaultExpr::Value(value_view(*default))),
            ColType::BooleanWithDefault(default) => {
                Some(DefaultExpr::Value(ValueView::Bool(*default)))
            },
            ColType::UuidWithDefault(default) | ColType::UuidUniqWithDefault(default) => {
                Some(DefaultExpr::Custom(default@))
            },
            ColType::EnumWithDefault(_, _, default)
            | ColType::EnumNullWithDefault(_, _, default) => {
                Some(DefaultExpr::Value(ValueView::String(default@)))
            },
            _ => None,
        }
    }

    /// The length, the precision, or the precision and scale that the variant
    /// carries, if it carries one.
    pub open spec fn bound(&self) -> Option<Bound> {
        match self {
            ColType::CharLen(len) | ColType::CharLenWithDefault(len, _) | ColType::CharLenNull(len)
            | ColType::CharLenUniq(len) => Some(Bound::Length(*len)),
            ColType::StringLen(len) | ColType::StringLenWithDefault(len, _)
            | ColType::StringLenNull(len) | ColType::StringLenUniq(len) => {
                Some(Bound::Length(*len))
            },
            ColType::DecimalLen(precision, scale)
            | ColType::DecimalLenWithDefault(precision, scale, _)
            | ColType::DecimalLenNull(precision, scale)
            | ColType::DecimalLenUniq(precision, scale) => {
                Some(Bound::PrecisionScale(*precision, *scale))
            },
            ColType::BinaryLen(len) | ColType::BinaryLenNull(len) | ColType::BinaryLenUniq(len) => {
                Some(Bound::Length(*len))
            },
            ColType::VarBinary(len) | ColType::VarBinaryNull(len) | ColType::VarBinaryUniq(len) => {
                Some(Bound::Length(*len))
            },
            ColType::VarBitLen(len) | ColType::VarBitLenNull(len) | ColType::VarBitLenUniq(len) => {
                Some(Bound::Length(*len))
            },
            ColType::Interval(_, Some(precision)) | ColType::IntervalNull(_, Some(precision))
            | ColType::IntervalUniq(_, Some(precision)) => Some(Bound::Precision(*precision)),
            _ => None,
        }
    }

    /// Whether the column admits `NULL`.
    pub fn is_nullable(&self) -> (nullable: bool)
        ensures
            nullable == self.named_null(),
    {
        match self {
            ColType::CharLenNull(_) | ColType::CharNull | ColType::StringLenNull(_)
            | ColType::StringNull | ColType::TextNull | ColType::IntegerNull | ColType::UnsignedNull
            | ColType::SmallUnsignedNull | ColType::BigUnsignedNull | ColType::SmallIntegerNull
            | ColType::BigIntegerNull | ColType::DecimalNull | ColType::DecimalLenNull(_, _)
            | ColType::FloatNull | ColType::DoubleNull | ColType::BooleanNull | ColType::DateNull
            | ColType::DateTimeNull | ColType::TimeNull | ColType::IntervalNull(_, _)
            | ColType::BinaryNull | ColType::BinaryLenNull(_) | ColType::VarBinaryNull(_)
            | ColType::TimestampWithTimeZoneNull | ColType::JsonNull | ColType::JsonBinaryNull
            | ColType::BlobNull | ColType::MoneyNull | ColType::UuidNull | ColType::VarBitLenNull(_)
            | ColType::ArrayNull(_) | ColType::EnumNull(_, _)
            | ColType::EnumNullWithDefault(_, _, _) => true,
            _ => false,
        }
    }

    /// Whether the column carries a uniqueness constraint.
    pub fn is_unique(&self) -> (unique: bool)
        ensures
            unique == self.named_uniq(),
    {
        match self {
            ColType::CharLenUniq(_) | ColType::CharUniq | ColType::StringLenUniq(_)
            | ColType::StringUniq | ColType::TextUniq | ColType::IntegerUniq | ColType::UnsignedUniq
            | ColType::SmallUnsignedUniq | ColType::BigUnsignedUniq | ColType::SmallIntegerUniq
            | ColType::BigIntegerUniq | ColType::DecimalUniq | ColType::DecimalLenUniq(_, _)
            | ColType::FloatUniq | ColType::DoubleUniq | ColType::DateUniq | ColType::DateTimeUniq
            | ColType::TimeUniq | ColType::IntervalUniq(_, _) | ColType::BinaryUniq
            | ColType::BinaryLenUniq(_) | ColType::VarBinaryUniq(_) | ColType::JsonUniq
            | ColType::JsonBinaryUniq | ColType::BlobUniq | ColType::MoneyUniq | ColType::UuidUniq
            | ColType::UuidUniqWithDefault(_) | ColType::VarBitLenUniq(_)
            | ColType::ArrayUniq(_) => {
                true
            },
            _ => false,
        }
    }

    /// Sets the type of `col` to the one this tag stands for.
    fn set_kind(&self, col: &mut ColumnDef)
        ensures
            column_view(*final(col)) == column_view(*old(col)).typed(self.kind()),
    {
        match self {
            ColType::PkAuto => set_integer(col),
            ColType::PkUuid => set_uuid(col),
            ColType::CharLen(len) | ColType::CharLenWithDefault(len, _) | ColType::CharLenNull(len)
            | ColType::CharLenUniq(len) => set_char_len(col, *len),
            ColType::Char | ColType::CharWithDefault(_) | ColType::CharNull | ColType::CharUniq => {
                set_char(col)
            },
            ColType::StringLen(len) | ColType::StringLenWithDefault(len, _)
            | ColType::StringLenNull(len) | ColType::StringLenUniq(len) => {
                set_string_len(col, *len)
            },
            ColType::String | ColType::StringWithDefault(_) | ColType::StringNull
            | ColType::StringUniq => set_string(col),
            ColType::Text | ColType::TextWithDefault(_) | ColType::TextNull | ColType::TextUniq => {
                set_text(col)
            },
            ColType::Integer | ColType::IntegerWithDefault(_) | ColType::IntegerNull
            | ColType::IntegerUniq => set_integer(col),
            ColType::Unsigned | ColType::UnsignedWithDefault(_) | ColType::UnsignedNull
            | ColType::UnsignedUniq => set_unsigned(col),
            ColType::SmallUnsigned | ColType::SmallUnsignedWithDefault(_)
            | ColType::SmallUnsignedNull | ColType::SmallUnsignedUniq => set_small_unsigned(col),
            ColType::BigUnsigned | ColType::BigUnsignedWithDefault(_) | ColType::BigUnsignedNull
            | ColType::BigUnsignedUniq => set_big_unsigned(col),
            ColType::SmallInteger | ColType::SmallIntegerWithDefault(_) | ColType::SmallIntegerNull
            | ColType::SmallIntegerUniq => set_small_integer(col),
            ColType::BigInteger | ColType::BigIntegerWithDefault(_) | ColType::BigIntegerNull
            | ColType::BigIntegerUniq => set_big_integer(col),
            ColType::Decimal | ColType::DecimalWithDefault(_) | ColType::DecimalNull
            | ColType::DecimalUniq => set_decimal(col),
            ColType::DecimalLen(precision, scale)
            | ColType::DecimalLenWithDefault(precision, scale, _)
            | ColType::DecimalLenNull(precision, scale)
            | ColType::DecimalLenUniq(precision, scale) => {
                set_decimal_len(col, *precision, *scale)
            },
            ColType::Float | ColType::FloatWithDefault(_) | ColType::FloatNull
            | ColType::FloatUniq => {
                set_float(col)
            },
            ColType::Double | ColType::DoubleWithDefault(_) | ColType::DoubleNull
            | ColType::DoubleUniq => set_double(col),
            ColType::Boolean | ColType::BooleanWithDefault(_) | ColType::BooleanNull => {
                set_boolean(col)
            },
            ColType::Date | ColType::DateWithDefault(_) | ColType::DateNull | ColType::DateUniq => {
                set_date(col)
            },
            ColType::DateTime | ColType::DateTimeWithDefault(_) | ColType::DateTimeNull
            | ColType::DateTimeUniq => set_date_time(col),
            ColType::Time | ColType::TimeWithDefault(_) | ColType::TimeNull | ColType::TimeUniq => {
                set_time(col)
            },
            ColType::Interval(fields, precision) | ColType::IntervalNull(fields, precision)
            | ColType::IntervalUniq(fields, precision) => set_interval(col, fields, *precision),
            ColType::Binary | ColType::BinaryNull | ColType::BinaryUniq => set_binary(col),
            ColType::BinaryLen(len) | ColType::BinaryLenNull(len) | ColType::BinaryLenUniq(len) => {
                set_binary_len(col, *len)
            },
            ColType::VarBinary(len) | ColType::VarBinaryNull(len) | ColType::VarBinaryUniq(len) => {
                set_var_binary(col, *len)
            },
            ColType::TimestampWithTimeZone | ColType::TimestampWithTimeZoneWithDefault(_)
            | ColType::TimestampWithTimeZoneNull => set_timestamp_with_time_zone(col),
            ColType::Json | ColType::JsonNull | ColType::JsonUniq => set_json(col),
            ColType::JsonBinary | ColType::JsonBinaryNull | ColType::JsonBinaryUniq => {
                set_json_binary(col)
            },
            ColType::Blob | ColType::BlobNull | ColType::BlobUniq => set_blob(col),
            ColType::Money | ColType::MoneyWithDefault(_) | ColType::MoneyNull
            | ColType::MoneyUniq => {
                set_money(col)
            },
            ColType::Uuid | ColType::UuidNull | ColType::UuidUniq | ColType::UuidWithDefault(_)
            | ColType::UuidUniqWithDefault(_) => set_uuid(col),
            ColType::VarBitLen(len) | ColType::VarBitLenNull(len) | ColType::VarBitLenUniq(len) => {
                set_varbit(col, *len)
            },
            ColType::Array(ty) | ColType::ArrayNull(ty) | ColType::ArrayUniq(ty) => {
                set_array(col, ty)
            },
            ColType::Enum(enum_name, _) | ColType::EnumNull(enum_name, _)
            | ColType::EnumWithDefault(enum_name, _, _)
            | ColType::EnumNullWithDefault(enum_name, _, _) => {
                set_enum_kind(col, enum_name.as_str())
            },
        }
    }

    /// The expression of the default that the variant carries, if it carries
    /// one.
    fn default_expr(&self) -> (expr: Option<SimpleExpr>)
        ensures
            match expr {
                Some(e) => self.declared_default() == Some(expr_view(e)),
                None => self.declared_default() is None,
            },
    {
        match self {
            ColType::CharLenWithDefault(_, default) | ColType::CharWithDefault(default) => {
                Some(value_expr(&char_value(*default)))
            },
            ColType::StringLenWithDefault(_, default) | ColType::StringWithDefault(default)
            | ColType::TextWithDefault(default) | ColType::DateWithDefault(default)
            | ColType::DateTimeWithDefault(default) | ColType::TimeWithDefault(default)
            | ColType::TimestampWithTimeZoneWithDefault(default) => {
                Some(value_expr(&string_value(default.as_str())))
            },
            ColType::IntegerWithDefault(default) => Some(value_expr(&int_value(*default))),
            ColType::UnsignedWithDefault(default) => Some(value_expr(&unsigned_value(*default))),
            ColType::SmallUnsignedWithDefault(default) => {
                Some(value_expr(&small_unsigned_value(*default)))
            },
            ColType::BigUnsignedWithDefault(default) => {
                Some(value_expr(&big_unsigned_value(*default)))
            },
            ColType::SmallIntegerWithDefault(default) => {
                Some(value_expr(&small_int_value(*default)))
            },
            ColType::BigIntegerWithDefault(default) => Some(value_expr(&big_int_value(*default))),
            ColType::DecimalWithDefault(default) | ColType::DecimalLenWithDefault(_, _, default)
            | ColType::FloatWithDefault(default) | ColType::DoubleWithDefault(default)
            | ColType::MoneyWithDefault(default) => Some(value_expr(default)),
            ColType::BooleanWithDefault(default) => Some(value_expr(&bool_value(*default))),
            ColType::UuidWithDefault(default) | ColType::UuidUniqWithDefault(default) => {
                Some(custom_expr(default.as_str()))
            },
            ColType::EnumWithDefault(_, _, default)
            | ColType::EnumNullWithDefault(_, _, default) => {
                Some(value_expr(&string_value(default.as_str())))
            },
            _ => None,
        }
    }

    /// Builds the column definition that this tag stands for, under the
    /// given name.
    ///
    /// The definition is the one that [`ColType::definition`] gives. Its
    /// flags follow the variant's name: it admits `NULL` exactly when the
    /// name says `Null`, says `NOT NULL` otherwise, is unique exactly when
    /// the name says `Uniq`, is the primary key exactly when the name says
    /// `Pk`, and counts up exactly for `PkAuto`. A length or precision that
    /// the variant carries is the one of the definition's type, and a
    /// default that it carries is the definition's only default.
    pub fn to_def(&self, name: &str) -> (def: ColumnDef)
        ensures
            column_view(def) == self.definition(name@),
            column_view(def).is_nullable() == self.named_null(),
            column_view(def).is_required() == !self.named_null(),
            column_view(def).is_unique() == self.named_uniq(),
            column_view(def).is_primary_key() == self.named_pk(),
            column_view(def).is_auto_increment() == (self is PkAuto),
            column_view(def).kind == Some(self.kind()),
            self.bound() is Some ==> self.kind().bound() == self.bound(),
            match self.declared_default() {
                Some(default) => forall|other: DefaultExpr|
                    column_view(def).defaults_to(other) == (other == default),
                None => !column_view(def).has_default(),
            },
    {
        let mut col = new_column(name);
        self.set_kind(&mut col);
        if self.is_nullable() {
            mark_null(&mut col);
        } else {
            mark_not_null(&mut col);
        }
        match self {
            ColType::PkAuto => {
                mark_auto_increment(&mut col);
                mark_primary_key(&mut col);
            },
            ColType::PkUuid => {
                mark_primary_key(&mut col);
            },
            _ => {},
        }
        if self.is_unique() {
            mark_unique_key(&mut col);
        }
        match self.default_expr() {
            Some(expr) => {
                set_default(&mut col, expr);
            },
            None => {},
        }
        proof {
            lemma_flags_follow_name(*self, name@);
            lemma_bound_round_trip(*self, name@);
            lemma_default_round_trip(*self, name@);
        }
        col
    }
}

/// A `NULL` timestamp-with-time-zone column.
pub fn timestamptz_null(name: &str) -> (def: ColumnDef)
    ensures
        column_view(def) == ColumnView::optional(name@, ColumnKind::TimestampWithTimeZone),
{
    let mut col = new_column(name);
    set_timestamp_with_time_zone(&mut col);
    mark_null(&mut col);
    col
}

/// A `NOT NULL` timestamp-with-time-zone column.
pub fn timestamptz(name: &str) -> (def: ColumnDef)
    ensures
        column_view(def) == ColumnView::required(name@, ColumnKind::TimestampWithTimeZone),
{
    let mut col = new_column(name);
    set_timestamp_with_time_zone(&mut col);
    mark_not_null(&mut col);
    col
}

/// A `NOT NULL` column of the enumerated type `enum_name`. The type is
/// referred to by its name: the definition lists none of its values.
pub fn enum_type(name: &str, enum_name: &str) -> (def: ColumnDef)
    ensures
        column_view(def) == ColumnView::required(name@, ColumnKind::enum_named(enum_name@)),
{
    let mut col = new_column(name);
    set_enum_kind(&mut col, enum_name);
    mark_not_null(&mut col);
    col
}

/// A `NULL` column of the enumerated type `enum_name`.
pub fn enum_type_null(name: &str, enum_name: &str) -> (def: ColumnDef)
    ensures
        column_view(def) == ColumnView::optional(name@, ColumnKind::enum_named(enum_name@)),
{
    let mut col = new_column(name);
    set_enum_kind(&mut col, enum_name);
    mark_null(&mut col);
    col
}

/// A `NOT NULL` column of the enumerated type `enum_name` that defaults to
/// the value `default_value`.
pub fn enum_type_with_default(name: &str, enum_name: &str, default_value: &str) -> (def: ColumnDef)
    ensures
        column_view(def) == ColumnView::required(name@, ColumnKind::enum_named(enum_name@))
            .with_value(ValueView::String(default_value@)),
{
    let mut col = new_column(name);
    set_enum_kind(&mut col, enum_name);
    mark_not_null(&mut col);
    set_default(&mut col, value_expr(&string_value(default_value)));
    col
}

/// A `NULL` column of the enumerated type `enum_name` that defaults to the
/// value `default_value`.
pub fn enum_type_null_with_default(name: &str, enum_name: &str, default_value: &str) -> (def:
    ColumnDef)
    ensures
        column_view(def) == ColumnView::optional(name@, ColumnKind::enum_named(enum_name@))
            .with_value(ValueView::String(default_value@)),
{
    let mut col = new_column(name);
    set_enum_kind(&mut col, enum_name);
    mark_null(&mut col);
    set_default(&mut col, value_expr(&string_value(default_value)));
    col
}

/// Sets the type of `col` to the enumerated type `enum_name`, with no values
/// listed for it.
fn set_enum_kind(col: &mut ColumnDef, enum_name: &str)
    ensures
        column_view(*final(col)) == column_view(*old(col)).typed(
            ColumnKind::enum_named(enum_name@),
        ),
{
    let variants: Vec<String> = Vec::new();
    assert(variants@.map_values(|v: String| v@) =~= Seq::<Seq<char>>::empty());
    set_enumeration(col, enum_name, variants);
}

} // verus!
