//! Decomposes a record into components: one wrapper per field, an optional
//! marker, the aggregate that holds them, and the conversion from the record
//! to the aggregate.

use crate::attrs::{effective_mode, resolve_mode};
use crate::decl::{BundleDeclarations, BundleView};
use crate::error::GenerationError;
use crate::ident::{
    component_names, derive_component_names, derive_fields, named_field_views, named_fields,
    NamedField, NamedFieldView, RecordNames, RecordNamesView,
};
use crate::model::{BodyView, RecordBody, RecordDefinition, RecordView};
use crate::wrappers::{
    aliases_of, build_aliases, build_members, build_wrappings, members_of, wrappings_of,
};
use vstd::prelude::*;

verus! {

/// The declarations for a record with the given identifiers and fields. The
/// marker is declared exactly when `marked` holds.
pub open spec fn assembled_bundle(
    record: Seq<char>,
    names: RecordNamesView,
    fields: Seq<NamedFieldView>,
    marked: bool,
) -> BundleView {
    BundleView {
        record,
        namespace: names.namespace,
        family: names.family,
        aggregate: names.aggregate,
        marker: if marked {
            Some(names.marker)
        } else {
            None
        },
        aliases: aliases_of(names.family, fields),
        members: members_of(names.family, fields),
        conversion: wrappings_of(fields),
    }
}

/// What generation yields for a record: the conflict of the two flags is
/// reported first, then a body with no named field, and every other record
/// gets its declarations.
pub open spec fn generated_bundle(record: RecordView) -> Result<BundleView, GenerationError> {
    match effective_mode(record.attrs) {
        Err(e) => Err(e),
        Ok(marked) => match record.body {
            BodyView::Named(fields) if fields.len() > 0 => Ok(
                assembled_bundle(
                    record.name,
                    component_names(record.name),
                    named_fields(fields),
                    marked,
                ),
            ),
            _ => Err(GenerationError::UnsupportedShape),
        },
    }
}

/// The outcome `out` is what generation yields for `record`.
pub open spec fn is_bundle_outcome(
    record: RecordView,
    out: Result<BundleDeclarations, GenerationError>,
) -> bool {
    match out {
        Ok(decls) => generated_bundle(record) == Ok::<BundleView, GenerationError>(decls@),
        Err(e) => generated_bundle(record) == Err::<BundleView, GenerationError>(e),
    }
}

/// Assembles the declarations for a record from its identifiers and its
/// fields: the field at position `i` gets the tag `i`, an alias, a member of
/// the aggregate and a step of the conversion. With `marked` the marker is
/// declared too.
pub fn assemble_bundle(
    record: &str,
    names: &RecordNames,
    fields: &Vec<NamedField>,
    marked: bool,
) -> (decls: BundleDeclarations)
    ensures
        decls@ == assembled_bundle(record@, names@, named_field_views(fields@), marked),
{
    let aliases = build_aliases(names.family.as_str(), fields);
    let members = build_members(names.family.as_str(), fields);
    let conversion = build_wrappings(fields);
    let marker = if marked {
        Some(names.marker.clone())
    } else {
        None
    };
    BundleDeclarations {
        record: record.to_owned(),
        namespace: names.namespace.clone(),
        family: names.family.clone(),
        aggregate: names.aggregate.clone(),
        marker,
        aliases,
        members,
        conversion,
    }
}

/// Generates the declarations that decompose `record` into components.
///
/// A record that is both `marked` and `unmarked` is refused, whatever its
/// body. A record with no named field is refused. For every other
/// record the declarations are those of `generated_bundle`: a marker unless
/// the record is `unmarked`, and one wrapper, alias, aggregate member and
/// conversion step per field, in field order.
pub fn bundle(record: &RecordDefinition) -> (out: Result<BundleDeclarations, GenerationError>)
    ensures
        is_bundle_outcome(record@, out),
{
    let marked = match resolve_mode(&record.attrs) {
        Ok(marked) => marked,
        Err(e) => {
            return Err(e);
        },
    };
    match &record.body {
        RecordBody::Named(fields) if fields.len() > 0 => {
            let names = derive_component_names(record.name.as_str());
            let named = derive_fields(fields);
            Ok(assemble_bundle(record.name.as_str(), &names, &named, marked))
        },
        _ => Err(GenerationError::UnsupportedShape),
    }
}

} // verus!
