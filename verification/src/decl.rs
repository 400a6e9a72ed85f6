//! The declarations that generation produces for a record.

use vstd::prelude::*;

verus! {

/// The type of one field's wrapper: the instance `family<tag, inner>` of the
/// record's wrapper family. The tag belongs to the type's identity.
#[derive(Clone, Debug, PartialEq, Eq)]
pub struct WrapperType {
    pub family: String,
    pub tag: usize,
    pub inner: String,
}

/// The alias under which a field's wrapper type is reached from the record.
#[derive(Clone, Debug, PartialEq, Eq)]
pub struct AccessorAlias {
    pub alias: String,
    pub wrapper: WrapperType,
}

/// One member of the aggregate: it is named after the field and holds the
/// field's wrapper.
#[derive(Clone, Debug, PartialEq, Eq)]
pub struct AggregateMember {
    pub field: String,
    pub wrapper: WrapperType,
}

/// One wrapper construction: the record's field `field` is moved into the
/// wrapper with tag `tag`.
#[derive(Clone, Debug, PartialEq, Eq)]
pub struct Wrapping {
    pub field: String,
    pub tag: usize,
}

/// Everything that is declared for a record decomposed into components.
#[derive(Clone, Debug, PartialEq, Eq)]
pub struct BundleDeclarations {
    /// The record's own name.
    pub record: String,
    /// The namespace that holds the declarations.
    pub namespace: String,
    /// The wrapper family.
    pub family: String,
    /// The aggregate type.
    pub aggregate: String,
    /// The marker type, where tagging is enabled.
    pub marker: Option<String>,
    /// One alias per field, in field order.
    pub aliases: Vec<AccessorAlias>,
    /// The aggregate's members, in field order. The marker, where there is
    /// one, follows them.
    pub members: Vec<AggregateMember>,
    /// The conversion from the record to the aggregate, in field order.
    pub conversion: Vec<Wrapping>,
}

/// Everything that is declared for a record decomposed into resources.
#[derive(Clone, Debug, PartialEq, Eq)]
pub struct ResourceDeclarations {
    /// The record's own name.
    pub record: String,
    /// The namespace that holds the declarations.
    pub namespace: String,
    /// The wrapper family.
    pub family: String,
    /// One alias per field, in field order.
    pub aliases: Vec<AccessorAlias>,
    /// The insertions that hand a record to a registry, in field order.
    pub insertions: Vec<Wrapping>,
}

pub struct WrapperView {
    pub family: Seq<char>,
    pub tag: nat,
    pub inner: Seq<char>,
}

pub struct AliasView {
    pub alias: Seq<char>,
    pub wrapper: WrapperView,
}

pub struct MemberView {
    pub field: Seq<char>,
    pub wrapper: WrapperView,
}

pub struct WrappingView {
    pub field: Seq<char>,
    pub tag: nat,
}

pub struct BundleView {
    pub record: Seq<char>,
    pub namespace: Seq<char>,
    pub family: Seq<char>,
    pub aggregate: Seq<char>,
    pub marker: Option<Seq<char>>,
    pub aliases: Seq<AliasView>,
    pub members: Seq<MemberView>,
    pub conversion: Seq<WrappingView>,
}

pub struct ResourceView {
    pub record: Seq<char>,
    pub namespace: Seq<char>,
    pub family: Seq<char>,
    pub aliases: Seq<AliasView>,
    pub insertions: Seq<WrappingView>,
}

impl View for WrapperType {
    type V = WrapperView;

    open spec fn view(&self) -> WrapperView {
        WrapperView { family: self.family@, tag: self.tag as nat, inner: self.inner@ }
    }
}

impl View for AccessorAlias {
    type V = AliasView;

    open spec fn view(&self) -> AliasView {
        AliasView { alias: self.alias@, wrapper: self.wrapper@ }
    }
}

impl View for AggregateMember {
    type V = MemberView;

    open spec fn view(&self) -> MemberView {
        MemberView { field: self.field@, wrapper: self.wrapper@ }
    }
}

impl View for Wrapping {
    type V = WrappingView;

    open spec fn view(&self) -> WrappingView {
        WrappingView { field: self.field@, tag: self.tag as nat }
    }
}

/// The views of a list of aliases, in order.
pub open spec fn alias_views(aliases: Seq<AccessorAlias>) -> Seq<AliasView> {
    Seq::new(aliases.len(), |i: int| aliases[i]@)
}

/// The views of a list of members, in order.
pub open spec fn member_views(members: Seq<AggregateMember>) -> Seq<MemberView> {
    Seq::new(members.len(), |i: int| members[i]@)
}

/// The views of a list of wrapper constructions, in order.
pub open spec fn wrapping_views(steps: Seq<Wrapping>) -> Seq<WrappingView> {
    Seq::new(steps.len(), |i: int| steps[i]@)
}

/// The view of an optional identifier.
pub open spec fn optional_text(name: Option<String>) -> Option<Seq<char>> {
    match name {
        Some(s) => Some(s@),
        None => None,
    }
}

impl View for BundleDeclarations {
    type V = BundleView;

    open spec fn view(&self) -> BundleView {
        BundleView {
            record: self.record@,
            namespace: self.namespace@,
            family: self.family@,
            aggregate: self.aggregate@,
            marker: optional_text(self.marker),
            aliases: alias_views(self.aliases@),
            members: member_views(self.members@),
            conversion: wrapping_views(self.conversion@),
        }
    }
}

impl View for ResourceDeclarations {
    type V = ResourceView;

    open spec fn view(&self) -> ResourceView {
        ResourceView {
            record: self.record@,
            namespace: self.namespace@,
            family: self.family@,
            aliases: alias_views(self.aliases@),
            insertions: wrapping_views(self.insertions@),
        }
    }
}

impl BundleView {
    /// The number of wrapper types that are declared: one per field, and the
    /// marker where there is one.
    pub open spec fn wrapper_count(self) -> nat {
        self.aliases.len() + if self.marker is Some {
            1nat
        } else {
            0nat
        }
    }

    /// The number of entries of the aggregate: its members, and the marker
    /// where there is one.
    pub open spec fn aggregate_len(self) -> nat {
        self.members.len() + if self.marker is Some {
            1nat
        } else {
            0nat
        }
    }
}

} // verus!
