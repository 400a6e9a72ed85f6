//! What both decomposers make of every field: its wrapper, the alias of that
//! wrapper, and the step that moves the field into it.

use crate::decl::{
    alias_views, member_views, wrapping_views, AccessorAlias, AggregateMember, AliasView,
    MemberView, WrapperType, WrapperView, Wrapping, WrappingView,
};
use crate::ident::{named_field_views, NamedField, NamedFieldView};
use crate::tags::{assign_tags, ordinal_tags, tag_values};
use vstd::prelude::*;

verus! {

/// The wrapper of the field at position `i`: the instance of the family that
/// has the field's tag and wraps the field's type.
pub open spec fn wrapper_at(family: Seq<char>, fields: Seq<NamedFieldView>, i: int) -> WrapperView {
    WrapperView { family, tag: ordinal_tags(fields.len())[i], inner: fields[i].ty }
}

/// The alias of the field at position `i`: its accessor identifier stands for
/// the field's wrapper.
pub open spec fn alias_at(family: Seq<char>, fields: Seq<NamedFieldView>, i: int) -> AliasView {
    AliasView { alias: fields[i].accessor, wrapper: wrapper_at(family, fields, i) }
}

/// The aggregate's member for the field at position `i`: it has the field's
/// name and holds the field's wrapper.
pub open spec fn member_at(family: Seq<char>, fields: Seq<NamedFieldView>, i: int) -> MemberView {
    MemberView { field: fields[i].name, wrapper: wrapper_at(family, fields, i) }
}

/// The wrapper construction for the field at position `i`: the field is moved
/// into the wrapper that has its tag.
pub open spec fn wrapping_at(fields: Seq<NamedFieldView>, i: int) -> WrappingView {
    WrappingView { field: fields[i].name, tag: ordinal_tags(fields.len())[i] }
}

/// One alias per field, in field order.
pub open spec fn aliases_of(family: Seq<char>, fields: Seq<NamedFieldView>) -> Seq<AliasView> {
    Seq::new(fields.len(), |i: int| alias_at(family, fields, i))
}

/// One aggregate member per field, in field order.
pub open spec fn members_of(family: Seq<char>, fields: Seq<NamedFieldView>) -> Seq<MemberView> {
    Seq::new(fields.len(), |i: int| member_at(family, fields, i))
}

/// One wrapper construction per field, in field order.
pub open spec fn wrappings_of(fields: Seq<NamedFieldView>) -> Seq<WrappingView> {
    Seq::new(fields.len(), |i: int| wrapping_at(fields, i))
}

/// Declares the accessor alias of every field, in field order.
pub fn build_aliases(family: &str, fields: &Vec<NamedField>) -> (aliases: Vec<AccessorAlias>)
    ensures
        alias_views(aliases@) == aliases_of(family@, named_field_views(fields@)),
{
    let tags = assign_tags(fields.len());
    let ghost views = named_field_views(fields@);
    let mut aliases: Vec<AccessorAlias> = Vec::new();
    let mut i: usize = 0;
    while i < fields.len()
        invariant
            i <= fields.len(),
            views == named_field_views(fields@),
            tags.len() == fields.len(),
            tag_values(tags@) == ordinal_tags(fields.len() as nat),
            aliases.len() == i,
            forall|k: int| 0 <= k < i ==> (#[trigger] aliases[k])@ == alias_at(family@, views, k),
        decreases fields.len() - i,
    {
        let field = &fields[i];
        let tag = tags[i];
        assert(tag_values(tags@)[i as int] == tag as nat);
        assert(views[i as int] == field@);
        aliases.push(
            AccessorAlias {
                alias: field.accessor.clone(),
                wrapper: WrapperType { family: family.to_owned(), tag, inner: field.ty.clone() },
            },
        );
        i += 1;
    }
    assert(alias_views(aliases@) =~= aliases_of(family@, views));
    aliases
}

/// Declares the aggregate's member for every field, in field order.
pub fn build_members(family: &str, fields: &Vec<NamedField>) -> (members: Vec<AggregateMember>)
    ensures
        member_views(members@) == members_of(family@, named_field_views(fields@)),
{
    let tags = assign_tags(fields.len());
    let ghost views = named_field_views(fields@);
    let mut members: Vec<AggregateMember> = Vec::new();
    let mut i: usize = 0;
    while i < fields.len()
        invariant
            i <= fields.len(),
            views == named_field_views(fields@),
            tags.len() == fields.len(),
            tag_values(tags@) == ordinal_tags(fields.len() as nat),
            members.len() == i,
            forall|k: int| 0 <= k < i ==> (#[trigger] members[k])@ == member_at(family@, views, k),
        decreases fields.len() - i,
    {
        let field = &fields[i];
        let tag = tags[i];
        assert(tag_values(tags@)[i as int] == tag as nat);
        assert(views[i as int] == field@);
        members.push(
            AggregateMember {
                field: field.name.clone(),
                wrapper: WrapperType { family: family.to_owned(), tag, inner: field.ty.clone() },
            },
        );
        i += 1;
    }
    assert(member_views(members@) =~= members_of(family@, views));
    members
}

/// Lists the wrapper construction of every field, in field order.
pub fn build_wrappings(fields: &Vec<NamedField>) -> (steps: Vec<Wrapping>)
    ensures
        wrapping_views(steps@) == wrappings_of(named_field_views(fields@)),
{
    let tags = assign_tags(fields.len());
    let ghost views = named_field_views(fields@);
    let mut steps: Vec<Wrapping> = Vec::new();
    let mut i: usize = 0;
    while i < fields.len()
        invariant
            i <= fields.len(),
            views == named_field_views(fields@),
            tags.len() == fields.len(),
            tag_values(tags@) == ordinal_tags(fields.len() as nat),
            steps.len() == i,
            forall|k: int| 0 <= k < i ==> (#[trigger] steps[k])@ == wrapping_at(views, k),
        decreases fields.len() - i,
    {
        let field = &fields[i];
        let tag = tags[i];
        assert(tag_values(tags@)[i as int] == tag as nat);
        assert(views[i as int] == field@);
        steps.push(Wrapping { field: field.name.clone(), tag });
        i += 1;
    }
    assert(wrapping_views(steps@) =~= wrappings_of(views));
    steps
}

} // verus!
