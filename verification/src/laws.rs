//! What holds of every record's declarations.

use crate::attrs::{effective_mode, has_flag};
use crate::component::{generated_bundle, is_bundle_outcome};
use crate::decl::{BundleDeclarations, BundleView, ResourceDeclarations, WrapperView};
use crate::error::GenerationError;
use crate::ident::{namespace_of, pascal_case_text, snake_case_text, suffixed};
use crate::model::{BodyView, FieldView, RecordView};
use crate::render::{
    bundle_text, lemma_wrapper_texts_distinct, resource_text, wrapper_type_text,
};
use crate::resource::{generated_resources, is_resource_outcome};
use vstd::prelude::*;

verus! {

/// A value inside the wrapper that holds it.
pub struct Wrapped<V> {
    pub wrapper: WrapperView,
    pub value: V,
}

/// The position of the field called `name`.
pub open spec fn field_named(fields: Seq<FieldView>, name: Seq<char>) -> int {
    choose|p: int| 0 <= p < fields.len() && fields[p].name == name
}

/// The aggregate that the conversion builds from an instance of the record.
/// Every step looks its field up by name, moves the field's value into the
/// wrapper with the step's tag, and so fixes the wrapper's type: the family,
/// the tag, and the type of the field.
pub open spec fn decomposed<V>(d: BundleView, fields: Seq<FieldView>, values: Seq<V>) -> Seq<
    Wrapped<V>,
> {
    Seq::new(
        d.conversion.len(),
        |k: int|
            {
                let p = field_named(fields, d.conversion[k].field);
                Wrapped {
                    wrapper: WrapperView {
                        family: d.family,
                        tag: d.conversion[k].tag,
                        inner: fields[p].ty,
                    },
                    value: values[p],
                }
            },
    )
}

/// The value that an aggregate holds under a wrapper type, if it holds one.
pub open spec fn read_through<V>(aggregate: Seq<Wrapped<V>>, wrapper: WrapperView) -> Option<V> {
    if exists|k: int| 0 <= k < aggregate.len() && aggregate[k].wrapper == wrapper {
        Some(
            aggregate[choose|k: int| 0 <= k < aggregate.len() && aggregate[k].wrapper
                == wrapper].value,
        )
    } else {
        None
    }
}

/// Decomposing an instance and reading every field back through its alias
/// gives the instance's values, in field order: the conversion fills the
/// aggregate's member `i` with a wrapper of that member's type around the
/// value of field `i`, and the alias of field `i` reads exactly that value.
pub proof fn lemma_round_trip<V>(record: RecordView, values: Seq<V>)
    requires
        generated_bundle(record) is Ok,
        record.distinct_field_names(),
        values.len() == record.body->Named_0.len(),
    ensures
        ({
            let d = generated_bundle(record)->Ok_0;
            let fields = record.body->Named_0;
            let aggregate = decomposed(d, fields, values);
            &&& aggregate.len() == fields.len()
            &&& forall|i: int|
                0 <= i < fields.len() ==> {
                    &&& (#[trigger] aggregate[i]).wrapper == d.members[i].wrapper
                    &&& aggregate[i].value == values[i]
                    &&& read_through(aggregate, d.aliases[i].wrapper) == Some(values[i])
                }
        }),
{
    let d = generated_bundle(record)->Ok_0;
    let fields = record.body->Named_0;
    let aggregate = decomposed(d, fields, values);
    assert forall|i: int| 0 <= i < fields.len() implies {
        &&& (#[trigger] aggregate[i]).wrapper == d.members[i].wrapper
        &&& aggregate[i].value == values[i]
        &&& read_through(aggregate, d.aliases[i].wrapper) == Some(values[i])
    } by {
        lemma_field_named(fields, i);
        let w = d.aliases[i].wrapper;
        assert(aggregate[i].wrapper == w);
        let k = choose|k: int| 0 <= k < aggregate.len() && aggregate[k].wrapper == w;
        lemma_field_named(fields, k);
        assert(aggregate[k].wrapper.tag == k);
    }
}

/// Where no two fields share a name, a field's name leads back to its
/// position.
proof fn lemma_field_named(fields: Seq<FieldView>, i: int)
    requires
        0 <= i < fields.len(),
        forall|a: int, b: int|
            0 <= a < b < fields.len() ==> (#[trigger] fields[a]).name != (#[trigger] fields[b]).name,
    ensures
        field_named(fields, fields[i].name) == i,
{
    let p = field_named(fields, fields[i].name);
    assert(0 <= p < fields.len() && fields[p].name == fields[i].name);
    if p < i {
        assert(fields[p].name != fields[i].name);
    } else if i < p {
        assert(fields[i].name != fields[p].name);
    }
}

/// Tagging is enabled for a record: its flags are accepted and do not turn
/// the marker off.
pub open spec fn tagging_enabled(record: RecordView) -> bool {
    effective_mode(record.attrs) == Ok::<bool, GenerationError>(true)
}

/// As many wrappers are declared as the record has fields, and the marker is
/// declared beside them exactly when tagging is enabled. The aggregate has
/// one entry for each of these, and the conversion one step per field.
pub proof fn lemma_wrapper_count(record: RecordView)
    ensures
        generated_bundle(record) matches Ok(d) ==> {
            let fields = record.body->Named_0;
            &&& record.has_named_fields()
            &&& d.aliases.len() == fields.len()
            &&& d.members.len() == fields.len()
            &&& d.conversion.len() == fields.len()
            &&& d.marker is Some <==> tagging_enabled(record)
            &&& d.wrapper_count() == fields.len() + if tagging_enabled(record) {
                1nat
            } else {
                0nat
            }
            &&& d.aggregate_len() == d.wrapper_count()
        },
        generated_resources(record) matches Ok(d) ==> {
            let fields = record.body->Named_0;
            &&& record.has_named_fields()
            &&& d.aliases.len() == fields.len()
            &&& d.insertions.len() == fields.len()
        },
{
}

/// Every field appears exactly once in each part of the declarations, at its
/// own position: the field at position `i` has the tag `i`, the aggregate's
/// member `i` carries its name and holds its wrapper, step `i` of the
/// conversion moves it into that wrapper, and alias `i` is its PascalCase
/// name and stands for that wrapper.
pub proof fn lemma_field_order(record: RecordView)
    ensures
        generated_bundle(record) matches Ok(d) ==> {
            let fields = record.body->Named_0;
            &&& d.record == record.name
            &&& d.namespace == namespace_of(snake_case_text(record.name))
            &&& d.family == suffixed(record.name, "FieldComponent"@)
            &&& d.aggregate == suffixed(record.name, "Bundle"@)
            &&& d.marker is Some ==> d.marker->0 == suffixed(record.name, "Marker"@)
            &&& forall|i: int|
                0 <= i < fields.len() ==> {
                    &&& (#[trigger] d.members[i]).field == fields[i].name
                    &&& d.members[i].wrapper == WrapperView {
                        family: d.family,
                        tag: i as nat,
                        inner: fields[i].ty,
                    }
                    &&& d.conversion[i].field == fields[i].name
                    &&& d.conversion[i].tag == i
                    &&& d.aliases[i].alias == pascal_case_text(fields[i].name)
                    &&& d.aliases[i].wrapper == d.members[i].wrapper
                }
        },
        generated_resources(record) matches Ok(d) ==> {
            let fields = record.body->Named_0;
            &&& d.record == record.name
            &&& d.namespace == namespace_of(snake_case_text(record.name))
            &&& d.family == suffixed(record.name, "FieldResource"@)
            &&& forall|i: int|
                0 <= i < fields.len() ==> {
                    &&& (#[trigger] d.aliases[i]).alias == pascal_case_text(fields[i].name)
                    &&& d.aliases[i].wrapper == WrapperView {
                        family: d.family,
                        tag: i as nat,
                        inner: fields[i].ty,
                    }
                    &&& d.insertions[i].field == fields[i].name
                    &&& d.insertions[i].tag == i
                }
        },
{
}

/// No two fields of a record get the same wrapper type, whatever their own
/// types are: the wrappers of different fields differ in their tags, and are
/// written as different types.
pub proof fn lemma_wrappers_distinct(record: RecordView)
    ensures
        generated_bundle(record) matches Ok(d) ==> forall|i: int, j: int|
            0 <= i < d.members.len() && 0 <= j < d.members.len() && i != j ==> {
                &&& (#[trigger] d.members[i]).wrapper != (#[trigger] d.members[j]).wrapper
                &&& d.members[i].wrapper.tag != d.members[j].wrapper.tag
                &&& d.aliases[i].wrapper == d.members[i].wrapper
                &&& wrapper_type_text(d.members[i].wrapper) != wrapper_type_text(
                    d.members[j].wrapper,
                )
            },
        generated_resources(record) matches Ok(d) ==> forall|i: int, j: int|
            0 <= i < d.aliases.len() && 0 <= j < d.aliases.len() && i != j ==> {
                &&& (#[trigger] d.aliases[i]).wrapper != (#[trigger] d.aliases[j]).wrapper
                &&& d.insertions[i].tag != d.insertions[j].tag
                &&& d.aliases[i].wrapper.tag == d.insertions[i].tag
                &&& wrapper_type_text(d.aliases[i].wrapper) != wrapper_type_text(
                    d.aliases[j].wrapper,
                )
            },
{
    if let Ok(d) = generated_bundle(record) {
        assert forall|i: int, j: int|
            0 <= i < d.members.len() && 0 <= j < d.members.len() && i != j implies wrapper_type_text(
            (#[trigger] d.members[i]).wrapper,
        ) != wrapper_type_text((#[trigger] d.members[j]).wrapper) by {
            lemma_wrapper_texts_distinct(d.members[i].wrapper, d.members[j].wrapper);
        }
    }
    if let Ok(d) = generated_resources(record) {
        assert forall|i: int, j: int|
            0 <= i < d.aliases.len() && 0 <= j < d.aliases.len() && i != j implies wrapper_type_text(
            (#[trigger] d.aliases[i]).wrapper,
        ) != wrapper_type_text((#[trigger] d.aliases[j]).wrapper) by {
            lemma_wrapper_texts_distinct(d.aliases[i].wrapper, d.aliases[j].wrapper);
        }
    }
}

/// A record that is both `marked` and `unmarked` is refused by both
/// decomposers, whatever else it holds. A record that is neither has tagging
/// enabled, and with named fields it gets a marker.
pub proof fn lemma_flag_resolution(record: RecordView)
    ensures
        has_flag(record.attrs, "marked"@) && has_flag(record.attrs, "unmarked"@) ==> {
            &&& generated_bundle(record) == Err::<BundleView, GenerationError>(
                GenerationError::ConflictingFlags,
            )
            &&& generated_resources(record) is Err
            &&& generated_resources(record)->Err_0 == GenerationError::ConflictingFlags
        },
        !has_flag(record.attrs, "marked"@) && !has_flag(record.attrs, "unmarked"@) ==> {
            &&& tagging_enabled(record)
            &&& record.has_named_fields() ==> generated_bundle(record) is Ok && generated_bundle(
                record,
            )->Ok_0.marker is Some
        },
{
}

/// Each refusal comes on its own inputs and on no others: the conflict of
/// the two flags whenever both are present, the unsupported shape whenever
/// they are not both present and the record has no named field. Every other
/// record gets its declarations, from both decomposers.
pub proof fn lemma_refusals(record: RecordView)
    ensures
        ({
            let conflict = has_flag(record.attrs, "marked"@) && has_flag(
                record.attrs,
                "unmarked"@,
            );
            let components = generated_bundle(record);
            let resources = generated_resources(record);
            &&& components == Err::<BundleView, GenerationError>(GenerationError::ConflictingFlags)
                <==> conflict
            &&& components == Err::<BundleView, GenerationError>(GenerationError::UnsupportedShape)
                <==> !conflict && !record.has_named_fields()
            &&& components is Ok <==> !conflict && record.has_named_fields()
            &&& resources is Ok <==> components is Ok
            &&& resources is Err ==> components is Err && resources->Err_0 == components->Err_0
        }),
{
}

/// Generation is a function of the record: two runs on the same record end
/// alike, with the same error or with declarations that agree in every part
/// and are written out as the same text.
pub proof fn lemma_bundle_deterministic(
    record: RecordView,
    first: Result<BundleDeclarations, GenerationError>,
    second: Result<BundleDeclarations, GenerationError>,
)
    requires
        is_bundle_outcome(record, first),
        is_bundle_outcome(record, second),
    ensures
        match (first, second) {
            (Ok(a), Ok(b)) => a@ == b@ && bundle_text(a@) == bundle_text(b@),
            (Err(a), Err(b)) => a == b,
            _ => false,
        },
{
}

/// Generation of resources is a function of the record: two runs on the same
/// record end alike, with the same error or with declarations that agree in
/// every part and are written out as the same text.
pub proof fn lemma_resources_deterministic(
    record: RecordView,
    first: Result<ResourceDeclarations, GenerationError>,
    second: Result<ResourceDeclarations, GenerationError>,
)
    requires
        is_resource_outcome(record, first),
        is_resource_outcome(record, second),
    ensures
        match (first, second) {
            (Ok(a), Ok(b)) => a@ == b@ && resource_text(a@) == resource_text(b@),
            (Err(a), Err(b)) => a == b,
            _ => false,
        },
{
}

} // verus!
