//! What holds of every column definition and of every table with audit
//! columns, stated over the model and proved. The functions that build them
//! promise the same of what they return.

use crate::col::ColType;
use crate::model::{ColumnKeyword, ColumnKind, ColumnView, CreateTableView, DefaultExpr};
use crate::table::{audit_column, audited, created_at, updated_at};
use vstd::prelude::*;

verus! {

/// A column that has only a name has no keyword, and a column to which a
/// keyword was added has that keyword beside those it had.
proof fn lemma_keywords_of(view: ColumnView, added: ColumnKeyword, keyword: ColumnKeyword)
    ensures
        !ColumnView::named(view.name).keywords.contains(keyword),
        view.with(added).keywords.contains(keyword) == (view.keywords.contains(keyword) || added
            == keyword),
{
    let after = view.with(added).keywords;
    if view.keywords.contains(keyword) {
        let i = choose|i: int| 0 <= i < view.keywords.len() && view.keywords[i] == keyword;
        assert(after[i] == keyword);
    }
    if added == keyword {
        assert(after[after.len() - 1] == keyword);
    }
}

/// The same, of all columns and keywords at once.
proof fn lemma_keywords()
    ensures
        forall|name: Seq<char>, keyword: ColumnKeyword|
            !(#[trigger] ColumnView::named(name).keywords.contains(keyword)),
        forall|view: ColumnView, added: ColumnKeyword, keyword: ColumnKeyword|
            #[trigger] view.with(added).keywords.contains(keyword) == (view.keywords.contains(
                keyword,
            ) || added == keyword),
{
    assert forall|name: Seq<char>, keyword: ColumnKeyword|
        !(#[trigger] ColumnView::named(name).keywords.contains(keyword)) by {
        lemma_keywords_of(ColumnView::named(name), keyword, keyword);
    }
    assert forall|view: ColumnView, added: ColumnKeyword, keyword: ColumnKeyword|
        #[trigger] view.with(added).keywords.contains(keyword) == (view.keywords.contains(keyword)
            || added == keyword) by {
        lemma_keywords_of(view, added, keyword);
    }
}

/// The flags of a definition follow the variant's name: the column admits
/// `NULL` exactly when the name says `Null`, it says `NOT NULL` exactly when
/// the name does not, it carries a uniqueness constraint exactly when the
/// name says `Uniq`, it is the primary key exactly when the name says `Pk`,
/// and its values are assigned by counting up exactly for `PkAuto`. No name
/// says two of `Null`, `Uniq` and `Pk`.
pub proof fn lemma_flags_follow_name(tag: ColType, name: Seq<char>)
    ensures
        tag.definition(name).is_nullable() == tag.named_null(),
        tag.definition(name).is_required() == !tag.named_null(),
        tag.definition(name).is_unique() == tag.named_uniq(),
        tag.definition(name).is_primary_key() == tag.named_pk(),
        tag.definition(name).is_auto_increment() == (tag is PkAuto),
        !(tag.named_null() && tag.named_uniq()),
        !(tag.named_null() && tag.named_pk()),
        !(tag.named_uniq() && tag.named_pk()),
{
    lemma_keywords();
}

/// A bound goes through unchanged: where a variant carries a length, a
/// precision, or a precision and scale, the type in its definition carries
/// the same.
pub proof fn lemma_bound_round_trip(tag: ColType, name: Seq<char>)
    ensures
        tag.definition(name).kind == Some(tag.kind()),
        tag.bound() is Some ==> tag.kind().bound() == tag.bound(),
{
}

/// A default goes through unchanged: where a variant carries a default, its
/// definition defaults to that and to nothing else; where it carries none,
/// the definition has no default.
pub proof fn lemma_default_round_trip(tag: ColType, name: Seq<char>)
    ensures
        match tag.declared_default() {
            Some(default) => forall|other: DefaultExpr|
                tag.definition(name).defaults_to(other) == (other == default),
            None => !tag.definition(name).has_default(),
        },
{
    lemma_keywords();
    let definition = tag.definition(name);
    if definition.has_default() {
        let i = choose|i: int|
            0 <= i < definition.keywords.len() && #[trigger] definition.keywords[i] is Default;
        assert(definition.keywords.contains(definition.keywords[i]));
    }
}

/// An audit column has the keywords `NOT NULL` and `DEFAULT
/// CURRENT_TIMESTAMP`, and no other.
proof fn lemma_audit_column_keywords(name: Seq<char>, keyword: ColumnKeyword)
    ensures
        audit_column(name).keywords.contains(keyword) == (keyword == ColumnKeyword::NotNull
            || keyword == ColumnKeyword::Default(DefaultExpr::CurrentTimestamp)),
{
    let typed = ColumnView::named(name).typed(ColumnKind::TimestampWithTimeZone);
    let required = typed.with(ColumnKeyword::NotNull);
    lemma_keywords_of(ColumnView::named(name), keyword, keyword);
    lemma_keywords_of(typed, ColumnKeyword::NotNull, keyword);
    lemma_keywords_of(required, ColumnKeyword::Default(DefaultExpr::CurrentTimestamp), keyword);
}

/// Adding the audit columns to a table does what [`audited`] says.
pub proof fn lemma_audit_columns(table: CreateTableView)
    ensures
        audited(
            table,
            table.with_column(audit_column(created_at())).with_column(audit_column(updated_at())),
        ),
{
    let after = table.with_column(audit_column(created_at())).with_column(
        audit_column(updated_at()),
    );
    let n = table.columns.len() as int;
    assert(after.columns.subrange(0, n) =~= table.columns);
    assert forall|name: Seq<char>|
        #![trigger audit_column(name)]
        audit_column(name).is_required() && !audit_column(name).is_nullable() by {
        lemma_audit_column_keywords(name, ColumnKeyword::NotNull);
        lemma_audit_column_keywords(name, ColumnKeyword::Null);
    }
    assert forall|name: Seq<char>, default: DefaultExpr|
        #![trigger audit_column(name).defaults_to(default)]
        audit_column(name).defaults_to(default) == (default == DefaultExpr::CurrentTimestamp) by {
        lemma_audit_column_keywords(name, ColumnKeyword::Default(default));
    }
    assert(after.columns[n] == audit_column(created_at()));
    assert(after.columns[n + 1] == audit_column(updated_at()));
}

} // verus!
