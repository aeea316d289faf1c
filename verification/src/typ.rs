//! The type model: the shape of data that a schema describes.

use vstd::prelude::*;
use vstd::string::*;
use crate::error::{Error, ErrorView, Result};
use crate::text::same_text;

verus! {

/// One field of a record. A field that is not required may be absent.
#[derive(Debug, PartialEq)]
pub struct Field {
    pub name: String,
    pub typ: Typ,
    pub required: bool,
}

/// The shape of a value: a primitive, a sequence, a record, a named type or
/// anything at all.
#[derive(Debug, PartialEq)]
pub enum Typ {
    String,
    F64,
    I64,
    Bool,
    Array(Box<Typ>),
    Struct(Vec<Field>),
    Any,
    Named(String),
}

/// A type under the name that the document gives it.
#[derive(Debug, PartialEq)]
pub struct TypeDef {
    pub name: String,
    pub typ: Typ,
}

/// A [`TypeDef`] as contracts speak of it.
pub struct TypeDefView {
    pub name: Seq<char>,
    pub typ: TypView,
}

impl View for TypeDef {
    type V = TypeDefView;

    open spec fn view(&self) -> TypeDefView {
        TypeDefView { name: self.name@, typ: self.typ@ }
    }
}

/// The entries of a table of types, each by its view.
pub open spec fn defs_view(defs: Seq<TypeDef>) -> Seq<TypeDefView> {
    Seq::new(defs.len(), |i: int| defs[i]@)
}

/// A [`Field`] as contracts speak of it.
pub struct FieldView {
    pub name: Seq<char>,
    pub typ: TypView,
    pub required: bool,
}

/// A [`Typ`] as contracts speak of it: two types with the same view are
/// structurally equal.
pub enum TypView {
    String,
    F64,
    I64,
    Bool,
    Array(Box<TypView>),
    Struct(Seq<FieldView>),
    Any,
    Named(Seq<char>),
}

/// The view of a type, by recursion on its structure.
pub open spec fn typ_view(t: Typ) -> TypView
    decreases t,
{
    match t {
        Typ::String => TypView::String,
        Typ::F64 => TypView::F64,
        Typ::I64 => TypView::I64,
        Typ::Bool => TypView::Bool,
        Typ::Array(elem) => TypView::Array(Box::new(typ_view(*elem))),
        Typ::Struct(fields) => TypView::Struct(
            Seq::new(
                fields@.len(),
                |i: int|
                    if 0 <= i < fields@.len() {
                        FieldView {
                            name: fields@[i].name@,
                            typ: typ_view(fields@[i].typ),
                            required: fields@[i].required,
                        }
                    } else {
                        arbitrary()
                    },
            ),
        ),
        Typ::Any => TypView::Any,
        Typ::Named(name) => TypView::Named(name@),
    }
}

impl View for Typ {
    type V = TypView;

    open spec fn view(&self) -> TypView {
        typ_view(*self)
    }
}

impl View for Field {
    type V = FieldView;

    open spec fn view(&self) -> FieldView {
        FieldView { name: self.name@, typ: self.typ@, required: self.required }
    }
}

/// The fields of a record, each by its view.
pub open spec fn fields_view(fields: Seq<Field>) -> Seq<FieldView> {
    Seq::new(fields.len(), |i: int| fields[i]@)
}

/// Whether one of the fields has this name.
pub open spec fn has_field(fields: Seq<FieldView>, name: Seq<char>) -> bool {
    exists|i: int| 0 <= i < fields.len() && (#[trigger] fields[i]).name == name
}

/// Whether the type of every field has a name.
pub open spec fn all_named(fields: Seq<FieldView>) -> bool {
    forall|i: int| 0 <= i < fields.len() ==> name_of((#[trigger] fields[i]).typ) is Some
}

/// The view of an optional type.
pub open spec fn typ_option_view(typ: Option<Typ>) -> Option<TypView> {
    match typ {
        Some(t) => Some(t@),
        None => None,
    }
}

/// Whether an optional type, where there is one, has a name.
pub open spec fn option_named(typ: Option<TypView>) -> bool {
    match typ {
        Some(t) => name_of(t) is Some,
        None => true,
    }
}

/// The view of a record is the views of its fields.
pub proof fn lemma_struct_view(fields: Vec<Field>)
    ensures
        Typ::Struct(fields)@ == TypView::Struct(fields_view(fields@)),
{
    assert(Typ::Struct(fields)@->Struct_0 =~= fields_view(fields@));
}

/// What a type holds once every layer of sequence is taken off.
pub open spec fn element(t: TypView) -> TypView
    decreases t,
{
    match t {
        TypView::Array(elem) => element(*elem),
        _ => t,
    }
}

/// The name under which a type is written in emitted declarations. A record
/// has none, and neither has a sequence of something that has none.
pub open spec fn name_of(t: TypView) -> Option<Seq<char>>
    decreases t,
{
    match t {
        TypView::String => Some("String"@),
        TypView::F64 => Some("f64"@),
        TypView::I64 => Some("i64"@),
        TypView::Bool => Some("bool"@),
        TypView::Array(elem) => match name_of(*elem) {
            Some(inner) => Some("Vec<"@ + inner + ">"@),
            None => None,
        },
        TypView::Struct(_) => None,
        TypView::Any => Some("Any"@),
        TypView::Named(name) => Some(name),
    }
}

/// The type under which a field or a parameter is declared: the name of its
/// type, inside `Option` where it may be absent.
pub open spec fn slot_name(f: FieldView) -> Option<Seq<char>> {
    match name_of(f.typ) {
        Some(name) => if f.required {
            Some(name)
        } else {
            Some("Option<"@ + name + ">"@)
        },
        None => None,
    }
}

/// A type has a name exactly when no record is left after taking off its
/// layers of sequence.
pub proof fn lemma_named_iff_simple(t: TypView)
    ensures
        name_of(t) is Some <==> !(element(t) is Struct),
    decreases t,
{
    match t {
        TypView::Array(elem) => lemma_named_iff_simple(*elem),
        _ => {},
    }
}

/// Whether one of the fields has this name.
pub fn field_named(fields: &Vec<Field>, name: &str) -> (found: bool)
    ensures
        found == has_field(fields_view(fields@), name@),
{
    let mut i: usize = 0;
    while i < fields.len()
        invariant
            i <= fields.len(),
            forall|j: int| 0 <= j < i ==> (#[trigger] fields_view(fields@)[j]).name != name@,
        decreases fields.len() - i,
    {
        if same_text(fields[i].name.as_str(), name) {
            assert(fields_view(fields@)[i as int].name == name@);
            return true;
        }
        i += 1;
    }
    false
}

/// The name of a type that has one.
pub(crate) fn type_text(typ: &Typ) -> (name: String)
    requires
        name_of(typ@) is Some,
    ensures
        name@ == name_of(typ@)->0,
{
    match typ.to_string() {
        Ok(s) => s,
        Err(_) => vstd::pervasive::unreached(),
    }
}

/// The type under which a field is declared, where its type has a name.
pub(crate) fn slot_text(field: &Field) -> (name: String)
    requires
        name_of(field@.typ) is Some,
    ensures
        name@ == slot_name(field@)->0,
{
    match field.type_string() {
        Ok(s) => s,
        Err(_) => vstd::pervasive::unreached(),
    }
}

impl Field {
    /// The type under which the field is declared, or `NotStructurallyTyped`
    /// where its type has no name.
    pub fn type_string(&self) -> (name: Result<String>)
        ensures
            match name {
                Ok(s) => slot_name(self@) == Some(s@),
                Err(e) => slot_name(self@) is None && e@ == ErrorView::NotStructurallyTyped,
            },
    {
        let name = self.typ.to_string()?;
        if self.required {
            Ok(name)
        } else {
            let mut s = String::from_str("Option<");
            s.append(name.as_str());
            s.append(">");
            Ok(s)
        }
    }
}

impl Typ {
    /// Whether the type is a record or a sequence, however deep, of records.
    pub fn is_complex(&self) -> (complex: bool)
        ensures
            complex == (element(self@) is Struct),
        decreases self,
    {
        proof {
            reveal_with_fuel(typ_view, 3);
            reveal_with_fuel(element, 3);
        }
        match self {
            Typ::Array(typ) => match &**typ {
                Typ::Array(inner) => inner.is_complex(),
                Typ::Struct(_) => true,
                _ => false,
            },
            Typ::Struct(_) => true,
            _ => false,
        }
    }

    /// The name of the type, or `NotStructurallyTyped` where it has none.
    pub fn to_string(&self) -> (name: Result<String>)
        ensures
            match name {
                Ok(s) => name_of(self@) == Some(s@),
                Err(e) => name_of(self@) is None && e@ == ErrorView::NotStructurallyTyped,
            },
        decreases self,
    {
        let s = match self {
            Typ::String => String::from_str("String"),
            Typ::F64 => String::from_str("f64"),
            Typ::I64 => String::from_str("i64"),
            Typ::Bool => String::from_str("bool"),
            Typ::Array(elem) => {
                let inner = elem.to_string()?;
                let mut s = String::from_str("Vec<");
                s.append(inner.as_str());
                s.append(">");
                s
            },
            Typ::Named(name) => name.clone(),
            Typ::Any => String::from_str("Any"),
            Typ::Struct(_) => return Err(Error::NotStructurallyTyped),
        };
        Ok(s)
    }
}

} // verus!
