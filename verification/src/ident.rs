//! Derives every identifier that the emitted declarations use.

use crate::model::{field_views, FieldDefinition, FieldView};
use vstd::prelude::*;

verus! {

/// The snake_case form that `heck::AsSnakeCase` gives a text.
pub uninterp spec fn snake_case_text(s: Seq<char>) -> Seq<char>;

/// The PascalCase form that `heck::AsPascalCase` gives a text.
pub uninterp spec fn pascal_case_text(s: Seq<char>) -> Seq<char>;

/// Formats `heck::AsSnakeCase(s)`. The conversion splits the text into words
/// at every character that is not an ASCII letter or digit and at case
/// changes, lowers each word and joins the words with `_`. It reads nothing
/// but `s`, so the result is named rather than spelled out.
#[verifier::external_body]
fn snake_case(s: &str) -> (out: String)
    ensures
        out@ == snake_case_text(s@),
{
    heck::AsSnakeCase(s).to_string()
}

/// Formats `heck::AsPascalCase(s)`. The conversion splits the text into words
/// as the snake_case one does, capitalizes each word and joins the words with
/// nothing between them. It reads nothing but `s`, so the result is named
/// rather than spelled out.
#[verifier::external_body]
fn pascal_case(s: &str) -> (out: String)
    ensures
        out@ == pascal_case_text(s@),
{
    heck::AsPascalCase(s).to_string()
}

/// An identifier without the `r#` that marks it as raw.
pub open spec fn without_raw_prefix(name: Seq<char>) -> Seq<char> {
    if name.len() >= 2 && name[0] == 'r' && name[1] == '#' {
        name.skip(2)
    } else {
        name
    }
}

/// The identifier of a record's private namespace, given the snake_case form
/// of the record's name.
pub open spec fn namespace_of(snake: Seq<char>) -> Seq<char> {
    "_"@ + snake
}

/// A record's name, raw marking removed, followed by a fixed suffix.
pub open spec fn suffixed(record: Seq<char>, suffix: Seq<char>) -> Seq<char> {
    without_raw_prefix(record) + suffix
}

/// Removes a leading `r#` from an identifier, if there is one.
pub fn strip_raw_prefix(name: &str) -> (out: String)
    ensures
        out@ == without_raw_prefix(name@),
{
    let len = name.unicode_len();
    if len >= 2 && name.get_char(0) == 'r' && name.get_char(1) == '#' {
        name.substring_char(2, len).to_owned()
    } else {
        name.to_owned()
    }
}

/// Puts the namespace identifier together from the snake_case form of the
/// record's name.
pub fn namespace_from_snake(snake: &str) -> (out: String)
    ensures
        out@ == namespace_of(snake@),
{
    let mut out = "_".to_owned();
    out.append(snake);
    out
}

/// The identifier of the namespace that holds a record's declarations: `_`
/// followed by the snake_case form of the record's name.
pub fn namespace_ident(record: &str) -> (out: String)
    ensures
        out@ == namespace_of(snake_case_text(record@)),
{
    let snake = snake_case(record);
    namespace_from_snake(snake.as_str())
}

/// The record's name followed by `suffix`.
pub fn suffixed_ident(record: &str, suffix: &str) -> (out: String)
    ensures
        out@ == suffixed(record@, suffix@),
{
    let mut out = strip_raw_prefix(record);
    out.append(suffix);
    out
}

/// The identifier under which a field's wrapper is reached from the record:
/// the PascalCase form of the field's name.
pub fn accessor_ident(field: &str) -> (out: String)
    ensures
        out@ == pascal_case_text(field@),
{
    pascal_case(field)
}

/// The identifiers that belong to a record decomposed into components.
#[derive(Clone, Debug, PartialEq, Eq)]
pub struct RecordNames {
    /// The namespace that holds the declarations.
    pub namespace: String,
    /// The wrapper family, of which each field's wrapper is one instance.
    pub family: String,
    /// The aggregate type.
    pub aggregate: String,
    /// The marker type.
    pub marker: String,
}

pub struct RecordNamesView {
    pub namespace: Seq<char>,
    pub family: Seq<char>,
    pub aggregate: Seq<char>,
    pub marker: Seq<char>,
}

impl View for RecordNames {
    type V = RecordNamesView;

    open spec fn view(&self) -> RecordNamesView {
        RecordNamesView {
            namespace: self.namespace@,
            family: self.family@,
            aggregate: self.aggregate@,
            marker: self.marker@,
        }
    }
}

/// A field together with its accessor identifier.
#[derive(Clone, Debug, PartialEq, Eq)]
pub struct NamedField {
    pub name: String,
    pub ty: String,
    pub accessor: String,
}

pub struct NamedFieldView {
    pub name: Seq<char>,
    pub ty: Seq<char>,
    pub accessor: Seq<char>,
}

impl View for NamedField {
    type V = NamedFieldView;

    open spec fn view(&self) -> NamedFieldView {
        NamedFieldView { name: self.name@, ty: self.ty@, accessor: self.accessor@ }
    }
}

/// The views of a list of named fields, in order.
pub open spec fn named_field_views(fields: Seq<NamedField>) -> Seq<NamedFieldView> {
    Seq::new(fields.len(), |i: int| fields[i]@)
}

/// The identifiers of a record that is decomposed into components.
pub open spec fn component_names(record: Seq<char>) -> RecordNamesView {
    RecordNamesView {
        namespace: namespace_of(snake_case_text(record)),
        family: suffixed(record, "FieldComponent"@),
        aggregate: suffixed(record, "Bundle"@),
        marker: suffixed(record, "Marker"@),
    }
}

/// The wrapper family, the aggregate and the marker of a record never share
/// an identifier.
pub proof fn lemma_component_names_distinct(record: Seq<char>)
    ensures
        component_names(record).family != component_names(record).aggregate,
        component_names(record).family != component_names(record).marker,
        component_names(record).aggregate != component_names(record).marker,
{
    reveal_strlit("FieldComponent");
    reveal_strlit("Bundle");
    reveal_strlit("Marker");
    let base = without_raw_prefix(record);
    let aggregate = base + "Bundle"@;
    let marker = base + "Marker"@;
    assert((base + "FieldComponent"@).len() == base.len() + 14);
    assert(aggregate.len() == base.len() + 6);
    assert(marker.len() == base.len() + 6);
    assert(aggregate[base.len() as int + 5] == 'e');
    assert(marker[base.len() as int + 5] == 'r');
}

/// Each field with the accessor identifier that belongs to its name.
pub open spec fn named_fields(fields: Seq<FieldView>) -> Seq<NamedFieldView> {
    Seq::new(
        fields.len(),
        |i: int|
            NamedFieldView {
                name: fields[i].name,
                ty: fields[i].ty,
                accessor: pascal_case_text(fields[i].name),
            },
    )
}

/// Derives the identifiers of a record that is decomposed into components.
pub fn derive_component_names(record: &str) -> (names: RecordNames)
    ensures
        names@ == component_names(record@),
{
    RecordNames {
        namespace: namespace_ident(record),
        family: suffixed_ident(record, "FieldComponent"),
        aggregate: suffixed_ident(record, "Bundle"),
        marker: suffixed_ident(record, "Marker"),
    }
}

/// Derives the accessor identifier of every field, keeping the fields' order.
pub fn derive_fields(fields: &Vec<FieldDefinition>) -> (named: Vec<NamedField>)
    ensures
        named_field_views(named@) == named_fields(field_views(fields@)),
{
    let mut named: Vec<NamedField> = Vec::new();
    let mut i: usize = 0;
    while i < fields.len()
        invariant
            i <= fields.len(),
            named.len() == i,
            forall|k: int|
                0 <= k < i ==> (#[trigger] named[k])@ == named_fields(field_views(fields@))[k],
        decreases fields.len() - i,
    {
        let field = &fields[i];
        named.push(
            NamedField {
                name: field.name.clone(),
                ty: field.ty.clone(),
                accessor: accessor_ident(field.name.as_str()),
            },
        );
        i += 1;
    }
    assert(named_field_views(named@) =~= named_fields(field_views(fields@)));
    named
}

} // verus!
