//! Writes declarations out as source text.

use crate::decl::{
    alias_views, member_views, optional_text, wrapping_views, AccessorAlias, AggregateMember,
    AliasView, BundleDeclarations, BundleView, MemberView, ResourceDeclarations, ResourceView,
    WrapperType, WrapperView, Wrapping, WrappingView,
};
use crate::text::{
    concat_all, decimal, decimal_text, is_digit, lemma_concat_all_step, lemma_decimal_digits,
    lemma_decimal_injective,
};
use vstd::prelude::*;

verus! {

/// A wrapper type as it is written where a type is expected.
pub open spec fn wrapper_type_text(w: WrapperView) -> Seq<char> {
    w.family + "<"@ + decimal_text(w.tag) + "usize, "@ + w.inner + ">"@
}

/// The constructor of the wrapper with tag `tag`, which leaves the wrapped
/// type to inference.
pub open spec fn constructor_text(family: Seq<char>, tag: nat) -> Seq<char> {
    family + "::<"@ + decimal_text(tag) + "usize, _>"@
}

/// Two wrappers of one family with different tags are written as different
/// types, whatever they wrap.
pub proof fn lemma_wrapper_texts_distinct(a: WrapperView, b: WrapperView)
    requires
        a.family == b.family,
        a.tag != b.tag,
    ensures
        wrapper_type_text(a) != wrapper_type_text(b),
{
    let text_a = wrapper_type_text(a);
    let text_b = wrapper_type_text(b);
    let digits_a = decimal_text(a.tag);
    let digits_b = decimal_text(b.tag);
    let start = (a.family + "<"@).len() as int;
    reveal_strlit("usize, ");
    lemma_decimal_digits(a.tag);
    lemma_decimal_digits(b.tag);
    if text_a == text_b {
        if digits_a.len() == digits_b.len() {
            assert(digits_a =~= text_a.subrange(start, start + digits_a.len()));
            assert(digits_b =~= text_b.subrange(start, start + digits_b.len()));
            lemma_decimal_injective(a.tag, b.tag);
        } else if digits_a.len() < digits_b.len() {
            assert(text_a[start + digits_a.len()] == 'u');
            assert(text_b[start + digits_a.len()] == digits_b[digits_a.len() as int]);
            assert(is_digit(digits_b[digits_a.len() as int]));
        } else {
            assert(text_b[start + digits_b.len()] == 'u');
            assert(text_a[start + digits_b.len()] == digits_a[digits_b.len() as int]);
            assert(is_digit(digits_a[digits_b.len() as int]));
        }
    }
}

/// The declaration of one accessor alias on the record.
pub open spec fn alias_line(namespace: Seq<char>, a: AliasView) -> Seq<char> {
    "    pub type "@ + a.alias + " = "@ + namespace + "::"@ + wrapper_type_text(a.wrapper) + ";\n"@
}

/// The declarations of all accessor aliases, in order.
pub open spec fn alias_lines(namespace: Seq<char>, aliases: Seq<AliasView>) -> Seq<char> {
    concat_all(Seq::new(aliases.len(), |i: int| alias_line(namespace, aliases[i])))
}

/// The declaration of one member of the aggregate.
pub open spec fn member_line(m: MemberView) -> Seq<char> {
    "        "@ + m.field + ": "@ + wrapper_type_text(m.wrapper) + ",\n"@
}

/// The declarations of all members of the aggregate, in order.
pub open spec fn member_lines(members: Seq<MemberView>) -> Seq<char> {
    concat_all(Seq::new(members.len(), |i: int| member_line(members[i])))
}

/// One step of the conversion: the member named after the field is built
/// from the record's field by move.
pub open spec fn conversion_line(family: Seq<char>, step: WrappingView) -> Seq<char> {
    "                "@ + step.field + ": "@ + constructor_text(family, step.tag) + "(item."@
        + step.field + "),\n"@
}

/// All steps of the conversion, in order.
pub open spec fn conversion_lines(family: Seq<char>, steps: Seq<WrappingView>) -> Seq<char> {
    concat_all(Seq::new(steps.len(), |i: int| conversion_line(family, steps[i])))
}

/// The alias of the marker type on the record, where there is a marker.
pub open spec fn marker_alias_text(namespace: Seq<char>, marker: Option<Seq<char>>) -> Seq<char> {
    match marker {
        Some(name) => "    pub type Marker = "@ + namespace + "::"@ + name + ";\n"@,
        None => Seq::empty(),
    }
}

/// The declaration of the marker type, where there is a marker.
pub open spec fn marker_declaration_text(marker: Option<Seq<char>>) -> Seq<char> {
    match marker {
        Some(name) => "    #[derive(bevy::ecs::component::Component)]\n    pub struct "@ + name
            + ";\n"@,
        None => Seq::empty(),
    }
}

/// The aggregate's last member, where there is a marker.
pub open spec fn marker_member_text(marker: Option<Seq<char>>) -> Seq<char> {
    match marker {
        Some(name) => "        marker: "@ + name + ",\n"@,
        None => Seq::empty(),
    }
}

/// The conversion's last step, where there is a marker: the marker holds no
/// data and is built as it is.
pub open spec fn marker_conversion_text(marker: Option<Seq<char>>) -> Seq<char> {
    match marker {
        Some(name) => "                marker: "@ + name + ",\n"@,
        None => Seq::empty(),
    }
}

/// What is declared on the record itself: the aliases of the wrappers, of the
/// aggregate and of the marker, and the operation that decomposes an instance.
pub open spec fn bundle_impl_text(d: BundleView) -> Seq<char> {
    "#[automatically_derived]\nimpl "@ + d.record + " {\n"@ + alias_lines(d.namespace, d.aliases)
        + "    pub type Bundled = "@ + d.namespace + "::"@ + d.aggregate + ";\n"@
        + marker_alias_text(d.namespace, d.marker)
        + "    pub fn bundled(self) -> Self::Bundled {\n        self.into()\n    }\n}\n"@
}

/// The declaration of the aggregate.
pub open spec fn aggregate_text(d: BundleView) -> Seq<char> {
    "    #[derive(bevy::ecs::bundle::Bundle)]\n    pub struct "@ + d.aggregate + " {\n"@
        + member_lines(d.members) + marker_member_text(d.marker) + "    }\n"@
}

/// The conversion from the record to the aggregate.
pub open spec fn conversion_text(d: BundleView) -> Seq<char> {
    "    #[automatically_derived]\n    impl From<super::"@ + d.record + "> for "@ + d.aggregate
        + " {\n        fn from(item: super::"@ + d.record + ") -> "@ + d.aggregate
        + " {\n            "@ + d.aggregate + " {\n"@ + conversion_lines(d.family, d.conversion)
        + marker_conversion_text(d.marker) + "            }\n        }\n    }\n"@
}

/// The declaration of the component wrapper family: a transparent container
/// of one value, with the tag as a constant parameter.
pub open spec fn component_family_text(family: Seq<char>) -> Seq<char> {
    "    #[derive(bevy::prelude::Deref, bevy::prelude::DerefMut, bevy::ecs::component::Component)]\n    pub struct "@
        + family + "<const FIELD: usize, T>(pub(super) T);\n"@
}

/// The namespace with the marker, the aggregate, the conversion and the
/// wrapper family.
pub open spec fn bundle_module_text(d: BundleView) -> Seq<char> {
    "pub mod "@ + d.namespace + " {\n    use super::*;\n"@ + marker_declaration_text(d.marker)
        + aggregate_text(d) + conversion_text(d) + component_family_text(d.family) + "}\n"@
}

/// The source text of all declarations for a record decomposed into
/// components.
pub open spec fn bundle_text(d: BundleView) -> Seq<char> {
    bundle_impl_text(d) + bundle_module_text(d)
}

fn wrapper_type_source(w: &WrapperType) -> (out: String)
    ensures
        out@ == wrapper_type_text(w@),
{
    let mut out = w.family.clone();
    out.append("<");
    out.append(decimal(w.tag).as_str());
    out.append("usize, ");
    out.append(w.inner.as_str());
    out.append(">");
    out
}

fn constructor_source(family: &str, tag: usize) -> (out: String)
    ensures
        out@ == constructor_text(family@, tag as nat),
{
    let mut out = family.to_owned();
    out.append("::<");
    out.append(decimal(tag).as_str());
    out.append("usize, _>");
    out
}

fn alias_source(namespace: &str, aliases: &Vec<AccessorAlias>) -> (out: String)
    ensures
        out@ == alias_lines(namespace@, alias_views(aliases@)),
{
    let ghost lines = Seq::new(
        aliases.len() as nat,
        |i: int| alias_line(namespace@, alias_views(aliases@)[i]),
    );
    let mut out = String::new();
    let mut i: usize = 0;
    assert(lines.take(0).len() == 0);
    while i < aliases.len()
        invariant
            i <= aliases.len(),
            lines.len() == aliases.len(),
            forall|k: int|
                0 <= k < aliases.len() ==> #[trigger] lines[k] == alias_line(
                    namespace@,
                    aliases[k]@,
                ),
            out@ == concat_all(lines.take(i as int)),
        decreases aliases.len() - i,
    {
        let a = &aliases[i];
        proof {
            lemma_concat_all_step(lines, i as int);
        }
        let mut line = "    pub type ".to_owned();
        line.append(a.alias.as_str());
        line.append(" = ");
        line.append(namespace);
        line.append("::");
        line.append(wrapper_type_source(&a.wrapper).as_str());
        line.append(";\n");
        out.append(line.as_str());
        i += 1;
    }
    assert(lines.take(i as int) =~= lines);
    assert(lines =~= Seq::new(
        alias_views(aliases@).len(),
        |i: int| alias_line(namespace@, alias_views(aliases@)[i]),
    ));
    out
}

fn member_source(members: &Vec<AggregateMember>) -> (out: String)
    ensures
        out@ == member_lines(member_views(members@)),
{
    let ghost lines = Seq::new(
        members.len() as nat,
        |i: int| member_line(member_views(members@)[i]),
    );
    let mut out = String::new();
    let mut i: usize = 0;
    assert(lines.take(0).len() == 0);
    while i < members.len()
        invariant
            i <= members.len(),
            lines.len() == members.len(),
            forall|k: int| 0 <= k < members.len() ==> #[trigger] lines[k] == member_line(members[k]@),
            out@ == concat_all(lines.take(i as int)),
        decreases members.len() - i,
    {
        let m = &members[i];
        proof {
            lemma_concat_all_step(lines, i as int);
        }
        let mut line = "        ".to_owned();
        line.append(m.field.as_str());
        line.append(": ");
        line.append(wrapper_type_source(&m.wrapper).as_str());
        line.append(",\n");
        out.append(line.as_str());
        i += 1;
    }
    assert(lines.take(i as int) =~= lines);
    assert(lines =~= Seq::new(
        member_views(members@).len(),
        |i: int| member_line(member_views(members@)[i]),
    ));
    out
}

fn conversion_source(family: &str, steps: &Vec<Wrapping>) -> (out: String)
    ensures
        out@ == conversion_lines(family@, wrapping_views(steps@)),
{
    let ghost lines = Seq::new(
        steps.len() as nat,
        |i: int| conversion_line(family@, wrapping_views(steps@)[i]),
    );
    let mut out = String::new();
    let mut i: usize = 0;
    assert(lines.take(0).len() == 0);
    while i < steps.len()
        invariant
            i <= steps.len(),
            lines.len() == steps.len(),
            forall|k: int|
                0 <= k < steps.len() ==> #[trigger] lines[k] == conversion_line(
                    family@,
                    steps[k]@,
                ),
            out@ == concat_all(lines.take(i as int)),
        decreases steps.len() - i,
    {
        let step = &steps[i];
        proof {
            lemma_concat_all_step(lines, i as int);
        }
        let mut line = "                ".to_owned();
        line.append(step.field.as_str());
        line.append(": ");
        line.append(constructor_source(family, step.tag).as_str());
        line.append("(item.");
        line.append(step.field.as_str());
        line.append("),\n");
        out.append(line.as_str());
        i += 1;
    }
    assert(lines.take(i as int) =~= lines);
    assert(lines =~= Seq::new(
        wrapping_views(steps@).len(),
        |i: int| conversion_line(family@, wrapping_views(steps@)[i]),
    ));
    out
}

fn marker_alias_source(namespace: &str, marker: &Option<String>) -> (out: String)
    ensures
        out@ == marker_alias_text(namespace@, optional_text(*marker)),
{
    match marker {
        Some(name) => {
            let mut out = "    pub type Marker = ".to_owned();
            out.append(namespace);
            out.append("::");
            out.append(name.as_str());
            out.append(";\n");
            out
        },
        None => String::new(),
    }
}

fn marker_declaration_source(marker: &Option<String>) -> (out: String)
    ensures
        out@ == marker_declaration_text(optional_text(*marker)),
{
    match marker {
        Some(name) => {
            let mut out = "    #[derive(bevy::ecs::component::Component)]\n    pub struct ".to_owned();
            out.append(name.as_str());
            out.append(";\n");
            out
        },
        None => String::new(),
    }
}

fn marker_member_source(marker: &Option<String>) -> (out: String)
    ensures
        out@ == marker_member_text(optional_text(*marker)),
{
    match marker {
        Some(name) => {
            let mut out = "        marker: ".to_owned();
            out.append(name.as_str());
            out.append(",\n");
            out
        },
        None => String::new(),
    }
}

fn marker_conversion_source(marker: &Option<String>) -> (out: String)
    ensures
        out@ == marker_conversion_text(optional_text(*marker)),
{
    match marker {
        Some(name) => {
            let mut out = "                marker: ".to_owned();
            out.append(name.as_str());
            out.append(",\n");
            out
        },
        None => String::new(),
    }
}

fn bundle_impl_source(d: &BundleDeclarations) -> (out: String)
    ensures
        out@ == bundle_impl_text(d@),
{
    let mut out = "#[automatically_derived]\nimpl ".to_owned();
    out.append(d.record.as_str());
    out.append(" {\n");
    out.append(alias_source(d.namespace.as_str(), &d.aliases).as_str());
    out.append("    pub type Bundled = ");
    out.append(d.namespace.as_str());
    out.append("::");
    out.append(d.aggregate.as_str());
    out.append(";\n");
    out.append(marker_alias_source(d.namespace.as_str(), &d.marker).as_str());
    out.append("    pub fn bundled(self) -> Self::Bundled {\n        self.into()\n    }\n}\n");
    out
}

fn aggregate_source(d: &BundleDeclarations) -> (out: String)
    ensures
        out@ == aggregate_text(d@),
{
    let mut out = "    #[derive(bevy::ecs::bundle::Bundle)]\n    pub struct ".to_owned();
    out.append(d.aggregate.as_str());
    out.append(" {\n");
    out.append(member_source(&d.members).as_str());
    out.append(marker_member_source(&d.marker).as_str());
    out.append("    }\n");
    out
}

fn conversion_impl_source(d: &BundleDeclarations) -> (out: String)
    ensures
        out@ == conversion_text(d@),
{
    let mut out = "    #[automatically_derived]\n    impl From<super::".to_owned();
    out.append(d.record.as_str());
    out.append("> for ");
    out.append(d.aggregate.as_str());
    out.append(" {\n        fn from(item: super::");
    out.append(d.record.as_str());
    out.append(") -> ");
    out.append(d.aggregate.as_str());
    out.append(" {\n            ");
    out.append(d.aggregate.as_str());
    out.append(" {\n");
    out.append(conversion_source(d.family.as_str(), &d.conversion).as_str());
    out.append(marker_conversion_source(&d.marker).as_str());
    out.append("            }\n        }\n    }\n");
    out
}

fn component_family_source(family: &str) -> (out: String)
    ensures
        out@ == component_family_text(family@),
{
    let mut out =
        "    #[derive(bevy::prelude::Deref, bevy::prelude::DerefMut, bevy::ecs::component::Component)]\n    pub struct ".to_owned();
    out.append(family);
    out.append("<const FIELD: usize, T>(pub(super) T);\n");
    out
}

fn bundle_module_source(d: &BundleDeclarations) -> (out: String)
    ensures
        out@ == bundle_module_text(d@),
{
    let mut out = "pub mod ".to_owned();
    out.append(d.namespace.as_str());
    out.append(" {\n    use super::*;\n");
    out.append(marker_declaration_source(&d.marker).as_str());
    out.append(aggregate_source(d).as_str());
    out.append(conversion_impl_source(d).as_str());
    out.append(component_family_source(d.family.as_str()).as_str());
    out.append("}\n");
    out
}

impl BundleDeclarations {
    /// Writes the declarations out as source text: first what is declared on
    /// the record itself, then the namespace with the marker, the aggregate,
    /// the conversion and the wrapper family.
    pub fn render(&self) -> (out: String)
        ensures
            out@ == bundle_text(self@),
    {
        let mut out = bundle_impl_source(self);
        out.append(bundle_module_source(self).as_str());
        out
    }
}

/// One insertion into a registry: the field is moved into its wrapper, and
/// the wrapper is stored under its own type.
pub open spec fn registry_insertion_line(
    namespace: Seq<char>,
    family: Seq<char>,
    step: WrappingView,
) -> Seq<char> {
    "            .insert_resource("@ + namespace + "::"@ + constructor_text(family, step.tag)
        + "(self."@ + step.field + "))\n"@
}

/// The insertions into a registry, in order.
pub open spec fn registry_insertion_lines(
    namespace: Seq<char>,
    family: Seq<char>,
    steps: Seq<WrappingView>,
) -> Seq<char> {
    concat_all(Seq::new(steps.len(), |i: int| registry_insertion_line(namespace, family, steps[i])))
}

/// One insertion staged in a command buffer.
pub open spec fn buffer_insertion_line(
    namespace: Seq<char>,
    family: Seq<char>,
    step: WrappingView,
) -> Seq<char> {
    "        commands.insert_resource("@ + namespace + "::"@ + constructor_text(family, step.tag)
        + "(self."@ + step.field + "));\n"@
}

/// The insertions staged in a command buffer, in order.
pub open spec fn buffer_insertion_lines(
    namespace: Seq<char>,
    family: Seq<char>,
    steps: Seq<WrappingView>,
) -> Seq<char> {
    concat_all(Seq::new(steps.len(), |i: int| buffer_insertion_line(namespace, family, steps[i])))
}

/// What is declared on the record itself: the aliases of the wrappers.
pub open spec fn resource_impl_text(d: ResourceView) -> Seq<char> {
    "#[automatically_derived]\nimpl "@ + d.record + " {\n"@ + alias_lines(d.namespace, d.aliases)
        + "}\n"@
}

/// The two operations that hand an instance to the host: one inserts every
/// wrapper into a registry at once, the other stages the same insertions in a
/// command buffer. Both take the instance by value.
pub open spec fn dispatcher_text(d: ResourceView) -> Seq<char> {
    "#[automatically_derived]\nimpl bevy_bundled::ResourceBundle for "@ + d.record
        + " {\n    fn insert_self_app(self, app: &mut bevy::prelude::App) {\n        app\n"@
        + registry_insertion_lines(d.namespace, d.family, d.insertions)
        + "        ;\n    }\n    fn insert_self_commands(self, commands: &mut bevy::prelude::Commands) {\n"@
        + buffer_insertion_lines(d.namespace, d.family, d.insertions) + "    }\n}\n"@
}

/// The declaration of the resource wrapper family: a transparent container
/// of one value, with the tag as a constant parameter.
pub open spec fn resource_family_text(family: Seq<char>) -> Seq<char> {
    "    #[derive(bevy::prelude::Deref, bevy::prelude::DerefMut, bevy::ecs::prelude::Resource)]\n    pub struct "@
        + family + "<const FIELD: usize, T>(pub(super) T);\n"@
}

/// The namespace with the wrapper family.
pub open spec fn resource_module_text(d: ResourceView) -> Seq<char> {
    "pub mod "@ + d.namespace + " {\n    use super::*;\n"@ + resource_family_text(d.family)
        + "}\n"@
}

/// The source text of all declarations for a record decomposed into
/// resources.
pub open spec fn resource_text(d: ResourceView) -> Seq<char> {
    resource_impl_text(d) + dispatcher_text(d) + resource_module_text(d)
}

fn registry_insertion_source(namespace: &str, family: &str, steps: &Vec<Wrapping>) -> (out: String)
    ensures
        out@ == registry_insertion_lines(namespace@, family@, wrapping_views(steps@)),
{
    let ghost lines = Seq::new(
        steps.len() as nat,
        |i: int| registry_insertion_line(namespace@, family@, wrapping_views(steps@)[i]),
    );
    let mut out = String::new();
    let mut i: usize = 0;
    assert(lines.take(0).len() == 0);
    while i < steps.len()
        invariant
            i <= steps.len(),
            lines.len() == steps.len(),
            forall|k: int|
                0 <= k < steps.len() ==> #[trigger] lines[k] == registry_insertion_line(
                    namespace@,
                    family@,
                    steps[k]@,
                ),
            out@ == concat_all(lines.take(i as int)),
        decreases steps.len() - i,
    {
        let step = &steps[i];
        proof {
            lemma_concat_all_step(lines, i as int);
        }
        let mut line = "            .insert_resource(".to_owned();
        line.append(namespace);
        line.append("::");
        line.append(constructor_source(family, step.tag).as_str());
        line.append("(self.");
        line.append(step.field.as_str());
        line.append("))\n");
        out.append(line.as_str());
        i += 1;
    }
    assert(lines.take(i as int) =~= lines);
    assert(lines =~= Seq::new(
        wrapping_views(steps@).len(),
        |i: int| registry_insertion_line(namespace@, family@, wrapping_views(steps@)[i]),
    ));
    out
}

fn buffer_insertion_source(namespace: &str, family: &str, steps: &Vec<Wrapping>) -> (out: String)
    ensures
        out@ == buffer_insertion_lines(namespace@, family@, wrapping_views(steps@)),
{
    let ghost lines = Seq::new(
        steps.len() as nat,
        |i: int| buffer_insertion_line(namespace@, family@, wrapping_views(steps@)[i]),
    );
    let mut out = String::new();
    let mut i: usize = 0;
    assert(lines.take(0).len() == 0);
    while i < steps.len()
        invariant
            i <= steps.len(),
            lines.len() == steps.len(),
            forall|k: int|
                0 <= k < steps.len() ==> #[trigger] lines[k] == buffer_insertion_line(
                    namespace@,
                    family@,
                    steps[k]@,
                ),
            out@ == concat_all(lines.take(i as int)),
        decreases steps.len() - i,
    {
        let step = &steps[i];
        proof {
            lemma_concat_all_step(lines, i as int);
        }
        let mut line = "        commands.insert_resource(".to_owned();
        line.append(namespace);
        line.append("::");
        line.append(constructor_source(family, step.tag).as_str());
        line.append("(self.");
        line.append(step.field.as_str());
        line.append("));\n");
        out.append(line.as_str());
        i += 1;
    }
    assert(lines.take(i as int) =~= lines);
    assert(lines =~= Seq::new(
        wrapping_views(steps@).len(),
        |i: int| buffer_insertion_line(namespace@, family@, wrapping_views(steps@)[i]),
    ));
    out
}

fn resource_impl_source(d: &ResourceDeclarations) -> (out: String)
    ensures
        out@ == resource_impl_text(d@),
{
    let mut out = "#[automatically_derived]\nimpl ".to_owned();
    out.append(d.record.as_str());
    out.append(" {\n");
    out.append(alias_source(d.namespace.as_str(), &d.aliases).as_str());
    out.append("}\n");
    out
}

fn dispatcher_source(d: &ResourceDeclarations) -> (out: String)
    ensures
        out@ == dispatcher_text(d@),
{
    let mut out = "#[automatically_derived]\nimpl bevy_bundled::ResourceBundle for ".to_owned();
    out.append(d.record.as_str());
    out.append(" {\n    fn insert_self_app(self, app: &mut bevy::prelude::App) {\n        app\n");
    out.append(
        registry_insertion_source(d.namespace.as_str(), d.family.as_str(), &d.insertions).as_str(),
    );
    out.append(
        "        ;\n    }\n    fn insert_self_commands(self, commands: &mut bevy::prelude::Commands) {\n",
    );
    out.append(
        buffer_insertion_source(d.namespace.as_str(), d.family.as_str(), &d.insertions).as_str(),
    );
    out.append("    }\n}\n");
    out
}

fn resource_family_source(family: &str) -> (out: String)
    ensures
        out@ == resource_family_text(family@),
{
    let mut out =
        "    #[derive(bevy::prelude::Deref, bevy::prelude::DerefMut, bevy::ecs::prelude::Resource)]\n    pub struct ".to_owned();
    out.append(family);
    out.append("<const FIELD: usize, T>(pub(super) T);\n");
    out
}

fn resource_module_source(d: &ResourceDeclarations) -> (out: String)
    ensures
        out@ == resource_module_text(d@),
{
    let mut out = "pub mod ".to_owned();
    out.append(d.namespace.as_str());
    out.append(" {\n    use super::*;\n");
    out.append(resource_family_source(d.family.as_str()).as_str());
    out.append("}\n");
    out
}

impl ResourceDeclarations {
    /// Writes the declarations out as source text: first what is declared on
    /// the record itself, then the two operations that hand an instance to
    /// the host, then the namespace with the wrapper family.
    pub fn render(&self) -> (out: String)
        ensures
            out@ == resource_text(self@),
    {
        let mut out = resource_impl_source(self);
        out.append(dispatcher_source(self).as_str());
        out.append(resource_module_source(self).as_str());
        out
    }
}

} // verus!
