//! Type declarations: the text that declares each named type of a document.
//! A record becomes a struct with one line per field; every other type
//! becomes an alias of its name.

use vstd::prelude::*;
use vstd::string::*;
use crate::error::{Error, ErrorView, Result};
use crate::table::{ascending, TypeTable};
use crate::typ::{
    all_named, defs_view, element, fields_view, lemma_named_iff_simple, lemma_struct_view, name_of,
    slot_name, Field, FieldView, Typ, TypView, TypeDef, TypeDefView,
};

verus! {

/// The line that declares one field.
pub open spec fn field_line(f: FieldView) -> Option<Seq<char>> {
    match slot_name(f) {
        Some(typ) => Some("    "@ + f.name + ": "@ + typ + ",\n"@),
        None => None,
    }
}

/// The lines that declare the first `n` fields, if each of them has a type
/// with a name.
pub open spec fn field_lines(fields: Seq<FieldView>, n: nat) -> Option<Seq<char>>
    decreases n,
{
    if n == 0 || n > fields.len() {
        Some(Seq::empty())
    } else {
        match field_lines(fields, (n - 1) as nat) {
            None => None,
            Some(head) => match field_line(fields[n - 1]) {
                None => None,
                Some(line) => Some(head + line),
            },
        }
    }
}

/// The declaration of a record under a name. A record without fields cannot
/// be declared, nor one with a field whose type has no name.
pub open spec fn struct_text(name: Seq<char>, fields: Seq<FieldView>) -> core::result::Result<
    Seq<char>,
    ErrorView,
> {
    if fields.len() == 0 {
        Err(ErrorView::EmptyStruct)
    } else {
        match field_lines(fields, fields.len()) {
            None => Err(ErrorView::NotStructurallyTyped),
            Some(body) => Ok("struct "@ + name + " {\n"@ + body + "}"@),
        }
    }
}

/// The declaration of one named type: a struct for a record, an alias for
/// anything else. An alias needs a target that has a name.
pub open spec fn definition_text(def: TypeDefView) -> core::result::Result<Seq<char>, ErrorView> {
    match def.typ {
        TypView::Struct(fields) => struct_text(def.name, fields),
        _ => match name_of(def.typ) {
            Some(target) => Ok("type "@ + def.name + " = "@ + target + ";"@),
            None => Err(ErrorView::NotStructurallyTyped),
        },
    }
}

/// The declarations of the first `n` types of a table, each followed by an
/// empty line, or the first failure among them.
pub open spec fn definitions_text(defs: Seq<TypeDefView>, n: nat) -> core::result::Result<
    Seq<char>,
    ErrorView,
>
    decreases n,
{
    if n == 0 || n > defs.len() {
        Ok(Seq::empty())
    } else {
        match definitions_text(defs, (n - 1) as nat) {
            Err(e) => Err(e),
            Ok(head) => match definition_text(defs[n - 1]) {
                Err(e) => Err(e),
                Ok(text) => Ok(head + text + "\n\n"@),
            },
        }
    }
}

/// A text or a failure as contracts speak of it.
pub open spec fn text_result_view(r: Result<String>) -> core::result::Result<Seq<char>, ErrorView> {
    match r {
        Ok(s) => Ok(s@),
        Err(e) => Err(e@),
    }
}

/// Once a field has no line, the lines stay undefined.
pub proof fn lemma_field_lines_none_stays(fields: Seq<FieldView>, k: nat, n: nat)
    requires
        k <= n <= fields.len(),
        field_lines(fields, k) is None,
    ensures
        field_lines(fields, n) is None,
    decreases n,
{
    if k < n {
        lemma_field_lines_none_stays(fields, k, (n - 1) as nat);
    }
}

/// Once a declaration has failed, the declarations stay failed with the same
/// error.
pub proof fn lemma_definitions_error_stays(defs: Seq<TypeDefView>, k: nat, n: nat)
    requires
        k <= n <= defs.len(),
        definitions_text(defs, k) is Err,
    ensures
        definitions_text(defs, n) == definitions_text(defs, k),
    decreases n,
{
    if k < n {
        lemma_definitions_error_stays(defs, k, (n - 1) as nat);
    }
}

/// A record with at least one field, and a name for the type of each, can be
/// declared.
pub proof fn lemma_struct_text_exists(name: Seq<char>, fields: Seq<FieldView>)
    requires
        fields.len() > 0,
        all_named(fields),
    ensures
        struct_text(name, fields) is Ok,
{
    lemma_field_lines_exist(fields, fields.len());
}

/// Fields whose types all have names all have lines.
pub proof fn lemma_field_lines_exist(fields: Seq<FieldView>, n: nat)
    requires
        n <= fields.len(),
        all_named(fields),
    ensures
        field_lines(fields, n) is Some,
    decreases n,
{
    if n > 0 {
        lemma_field_lines_exist(fields, (n - 1) as nat);
        assert(name_of(fields[n - 1].typ) is Some);
    }
}

/// A record without fields is declared nowhere: the declaration fails with
/// `EmptyStruct`, whatever its name.
pub proof fn lemma_empty_record_is_refused(name: Seq<char>)
    ensures
        struct_text(name, Seq::empty()) == Err::<Seq<char>, ErrorView>(ErrorView::EmptyStruct),
        definition_text(TypeDefView { name, typ: TypView::Struct(Seq::empty()) }) == Err::<
            Seq<char>,
            ErrorView,
        >(ErrorView::EmptyStruct),
{
}

/// An alias cannot point at a record written in place: where a named type is
/// a sequence, however deep, of such a record, its declaration fails with
/// `NotStructurallyTyped`.
pub proof fn lemma_alias_of_record_is_refused(def: TypeDefView)
    requires
        !(def.typ is Struct),
        element(def.typ) is Struct,
    ensures
        definition_text(def) == Err::<Seq<char>, ErrorView>(ErrorView::NotStructurallyTyped),
{
    lemma_named_iff_simple(def.typ);
}

/// Declares a record under a name, one line per field.
///
/// Fails with `EmptyStruct` where there is no field, and with
/// `NotStructurallyTyped` where the type of a field has no name.
pub fn define_struct(name: &str, elems: &Vec<Field>) -> (text: Result<String>)
    ensures
        text_result_view(text) == struct_text(name@, fields_view(elems@)),
{
    if elems.len() == 0 {
        return Err(Error::EmptyStruct);
    }
    let ghost views = fields_view(elems@);
    let mut fields = String::new();
    let mut i: usize = 0;
    while i < elems.len()
        invariant
            i <= elems.len(),
            views == fields_view(elems@),
            field_lines(views, i as nat) == Some(fields@),
        decreases elems.len() - i,
    {
        let elem = &elems[i];
        assert(views[i as int] == elem@);
        let typ = match elem.type_string() {
            Ok(t) => t,
            Err(e) => {
                proof {
                    lemma_field_lines_none_stays(views, (i + 1) as nat, views.len());
                }
                return Err(e);
            },
        };
        let mut line = String::from_str("    ");
        line.append(elem.name.as_str());
        line.append(": ");
        line.append(typ.as_str());
        line.append(",\n");
        fields.append(line.as_str());
        i += 1;
    }
    let mut text = String::from_str("struct ");
    text.append(name);
    text.append(" {\n");
    text.append(fields.as_str());
    text.append("}");
    Ok(text)
}

/// Declares one named type.
fn define_type(def: &TypeDef) -> (text: Result<String>)
    ensures
        text_result_view(text) == definition_text(def@),
{
    if let Typ::Struct(fields) = &def.typ {
        proof {
            lemma_struct_view(*fields);
        }
        define_struct(def.name.as_str(), fields)
    } else {
        let target = def.typ.to_string()?;
        let mut text = String::from_str("type ");
        text.append(def.name.as_str());
        text.append(" = ");
        text.append(target.as_str());
        text.append(";");
        Ok(text)
    }
}

/// Declares every type of a table in the order of their names, each
/// declaration followed by an empty line.
///
/// Fails with the first failure of a declaration in that order.
pub fn format_rust_types(typs: &TypeTable) -> (text: Result<String>)
    ensures
        ascending(typs@),
        text_result_view(text) == definitions_text(typs@, typs@.len()),
{
    let entries = typs.entries();
    let ghost views = typs@;
    let mut buf = String::new();
    let mut i: usize = 0;
    while i < entries.len()
        invariant
            i <= entries.len(),
            views == typs@,
            views == defs_view(entries@),
            ascending(views),
            definitions_text(views, i as nat) == Ok::<Seq<char>, ErrorView>(buf@),
        decreases entries.len() - i,
    {
        assert(views[i as int] == entries@[i as int]@);
        let def = match define_type(&entries[i]) {
            Ok(d) => d,
            Err(e) => {
                proof {
                    lemma_definitions_error_stays(views, (i + 1) as nat, views.len());
                }
                return Err(e);
            },
        };
        buf.append(def.as_str());
        buf.append("\n\n");
        i += 1;
    }
    Ok(buf)
}

} // verus!
