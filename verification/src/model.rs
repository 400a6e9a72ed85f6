//! The record definition that generation starts from.

use vstd::prelude::*;

verus! {

/// The syntactic form of a struct-level attribute.
#[derive(Clone, Copy, Debug, PartialEq, Eq, Structural)]
pub enum AttributeForm {
    /// A bare path, as in `#[marked]`.
    Path,
    /// A path with a delimited argument list, as in `#[derive(Clone)]`.
    List,
    /// A path with a value, as in `#[doc = "text"]`.
    NameValue,
}

/// One attribute written on the record.
#[derive(Clone, Debug, PartialEq, Eq)]
pub struct StructAttribute {
    pub form: AttributeForm,
    /// The attribute's path, if that path is a single plain identifier.
    pub ident: Option<String>,
}

/// One named field of a record. The type is carried through unchanged.
#[derive(Clone, Debug, PartialEq, Eq)]
pub struct FieldDefinition {
    pub name: String,
    pub ty: String,
}

/// The shape of a record's body.
#[derive(Clone, Debug, PartialEq, Eq)]
pub enum RecordBody {
    /// Named fields in declaration order.
    Named(Vec<FieldDefinition>),
    /// Positional fields, as in `struct P(u8, u8);`.
    Positional,
    /// No body at all, as in `struct U;`.
    Unit,
}

/// A record as its author wrote it.
#[derive(Clone, Debug, PartialEq, Eq)]
pub struct RecordDefinition {
    pub name: String,
    pub attrs: Vec<StructAttribute>,
    pub body: RecordBody,
}

pub struct AttributeView {
    pub form: AttributeForm,
    pub ident: Option<Seq<char>>,
}

pub struct FieldView {
    pub name: Seq<char>,
    pub ty: Seq<char>,
}

pub enum BodyView {
    Named(Seq<FieldView>),
    Positional,
    Unit,
}

pub struct RecordView {
    pub name: Seq<char>,
    pub attrs: Seq<AttributeView>,
    pub body: BodyView,
}

impl View for StructAttribute {
    type V = AttributeView;

    open spec fn view(&self) -> AttributeView {
        AttributeView {
            form: self.form,
            ident: match self.ident {
                Some(s) => Some(s@),
                None => None,
            },
        }
    }
}

impl View for FieldDefinition {
    type V = FieldView;

    open spec fn view(&self) -> FieldView {
        FieldView { name: self.name@, ty: self.ty@ }
    }
}

/// The views of a list of attributes, in order.
pub open spec fn attr_views(attrs: Seq<StructAttribute>) -> Seq<AttributeView> {
    Seq::new(attrs.len(), |i: int| attrs[i]@)
}

/// The views of a list of fields, in order.
pub open spec fn field_views(fields: Seq<FieldDefinition>) -> Seq<FieldView> {
    Seq::new(fields.len(), |i: int| fields[i]@)
}

impl View for RecordBody {
    type V = BodyView;

    open spec fn view(&self) -> BodyView {
        match self {
            RecordBody::Named(fields) => BodyView::Named(field_views(fields@)),
            RecordBody::Positional => BodyView::Positional,
            RecordBody::Unit => BodyView::Unit,
        }
    }
}

impl View for RecordDefinition {
    type V = RecordView;

    open spec fn view(&self) -> RecordView {
        RecordView { name: self.name@, attrs: attr_views(self.attrs@), body: self.body@ }
    }
}

impl RecordView {
    /// The record has at least one field, and its fields are named.
    pub open spec fn has_named_fields(self) -> bool {
        self.body matches BodyView::Named(fields) && fields.len() > 0
    }

    /// No two fields of the record share a name.
    pub open spec fn distinct_field_names(self) -> bool {
        self.body matches BodyView::Named(fields) ==> forall|i: int, j: int|
            0 <= i < j < fields.len() ==> (#[trigger] fields[i]).name != (#[trigger] fields[j]).name
    }
}

} // verus!
