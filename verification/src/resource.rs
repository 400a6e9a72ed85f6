//! Decomposes a record into resources: one wrapper per field, each stored on
//! its own, and the insertions that hand an instance to a registry.

use crate::attrs::{effective_mode, resolve_mode};
use crate::decl::{ResourceDeclarations, ResourceView};
use crate::error::GenerationError;
use crate::ident::{
    derive_fields, named_field_views, named_fields, namespace_ident, namespace_of,
    snake_case_text, suffixed, suffixed_ident, NamedField, NamedFieldView,
};
use crate::model::{BodyView, RecordBody, RecordDefinition, RecordView};
use crate::wrappers::{aliases_of, build_aliases, build_wrappings, wrappings_of};
use vstd::prelude::*;

verus! {

/// The declarations for a record with the given identifiers and fields.
pub open spec fn assembled_resources(
    record: Seq<char>,
    namespace: Seq<char>,
    family: Seq<char>,
    fields: Seq<NamedFieldView>,
) -> ResourceView {
    ResourceView {
        record,
        namespace,
        family,
        aliases: aliases_of(family, fields),
        insertions: wrappings_of(fields),
    }
}

/// What generation yields for a record: the conflict of the two flags is
/// reported first, then a body with no named field, and every other record
/// gets its declarations. No marker is declared, whatever the flags.
pub open spec fn generated_resources(record: RecordView) -> Result<ResourceView, GenerationError> {
    match effective_mode(record.attrs) {
        Err(e) => Err(e),
        Ok(_) => match record.body {
            BodyView::Named(fields) if fields.len() > 0 => Ok(
                assembled_resources(
                    record.name,
                    namespace_of(snake_case_text(record.name)),
                    suffixed(record.name, "FieldResource"@),
                    named_fields(fields),
                ),
            ),
            _ => Err(GenerationError::UnsupportedShape),
        },
    }
}

/// The outcome `out` is what generation yields for `record`.
pub open spec fn is_resource_outcome(
    record: RecordView,
    out: Result<ResourceDeclarations, GenerationError>,
) -> bool {
    match out {
        Ok(decls) => generated_resources(record) == Ok::<ResourceView, GenerationError>(decls@),
        Err(e) => generated_resources(record) == Err::<ResourceView, GenerationError>(e),
    }
}

/// Assembles the declarations for a record from its identifiers and its
/// fields: the field at position `i` gets the tag `i`, an alias and an
/// insertion.
pub fn assemble_resources(
    record: &str,
    namespace: &str,
    family: &str,
    fields: &Vec<NamedField>,
) -> (decls: ResourceDeclarations)
    ensures
        decls@ == assembled_resources(record@, namespace@, family@, named_field_views(fields@)),
{
    ResourceDeclarations {
        record: record.to_owned(),
        namespace: namespace.to_owned(),
        family: family.to_owned(),
        aliases: build_aliases(family, fields),
        insertions: build_wrappings(fields),
    }
}

/// Generates the declarations that decompose `record` into resources.
///
/// A record that is both `marked` and `unmarked` is refused, whatever its
/// body. A record with no named field is refused. For every other
/// record the declarations are those of `generated_resources`: one wrapper,
/// alias and insertion per field, in field order.
pub fn resource_bundle(record: &RecordDefinition) -> (out: Result<
    ResourceDeclarations,
    GenerationError,
>)
    ensures
        is_resource_outcome(record@, out),
{
    match resolve_mode(&record.attrs) {
        Ok(_) => {},
        Err(e) => {
            return Err(e);
        },
    }
    match &record.body {
        RecordBody::Named(fields) if fields.len() > 0 => {
            let namespace = namespace_ident(record.name.as_str());
            let family = suffixed_ident(record.name.as_str(), "FieldResource");
            let named = derive_fields(fields);
            Ok(
                assemble_resources(
                    record.name.as_str(),
                    namespace.as_str(),
                    family.as_str(),
                    &named,
                ),
            )
        },
        _ => Err(GenerationError::UnsupportedShape),
    }
}

} // verus!
