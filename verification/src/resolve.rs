//! The schema resolver: from a schema of the document to its type.
//!
//! A reference resolves to the name it points at, once that name is known to
//! be in the document's table of schemas; nothing is inlined. Every other
//! schema resolves by its declared kind.

use vstd::prelude::*;
use vstd::string::*;
use crate::document::{NamedSchema, ObjectType, OpenAPI, Property, Schema, SchemaKind, SchemaNode, Type};
use crate::cycles::{find_cycle, first_ungrounded};
use crate::table::{ascending, has_def, lemma_placed, placed, TypeTable};
use crate::error::{Error, ErrorView, Result};
use crate::text::{
    contains_text, free_of, join, lemma_split_append, lemma_split_free, lemma_split_join,
    lemma_split_last, same_text, split, split_text, text_in,
};
use crate::typ::{
    defs_view, field_named, fields_view, lemma_struct_view, Field, FieldView, Typ, TypView, TypeDef,
    TypeDefView,
};

verus! {

/// The name that a reference points at in one table of the document's
/// components: the reference has exactly four parts between slashes, of
/// which the first is `#`, the second `components`, the third the table and
/// the fourth the name.
pub open spec fn component_name(refr: Seq<char>, table: Seq<char>) -> Option<Seq<char>> {
    let parts = split(refr, '/');
    if parts.len() == 4 && parts[0] == "#"@ && parts[1] == "components"@ && parts[2] == table {
        Some(parts[3])
    } else {
        None
    }
}

/// The schema name that a reference points at: the name that it points at
/// in the table `schemas`.
pub open spec fn ref_name(refr: Seq<char>) -> Option<Seq<char>> {
    component_name(refr, "schemas"@)
}

/// Whether the document's table has a schema of this name.
pub open spec fn has_schema(api: OpenAPI, name: Seq<char>) -> bool {
    exists|i: int| 0 <= i < api.schemas@.len() && (#[trigger] api.schemas@[i]).name@ == name
}

/// The name that a reference resolves to in a document, if it resolves.
pub open spec fn valid_ref(refr: Seq<char>, api: OpenAPI) -> Option<Seq<char>> {
    match ref_name(refr) {
        Some(name) => if has_schema(api, name) {
            Some(name)
        } else {
            None
        },
        None => None,
    }
}

/// Whether a property of this name stands among the first `n` of `props`.
pub open spec fn declared_before(props: Seq<Property>, n: int, name: Seq<char>) -> bool {
    exists|j: int| 0 <= j < n && j < props.len() && (#[trigger] props[j]).name@ == name
}

/// The type of a schema, or the first failure met on the way to it. The
/// properties of an object are resolved in the order of the document.
pub open spec fn resolve(node: SchemaNode, api: OpenAPI) -> core::result::Result<TypView, ErrorView>
    decreases node, 0nat,
{
    match node {
        SchemaNode::Reference { reference } => match valid_ref(reference@, api) {
            Some(name) => Ok(TypView::Named(name)),
            None => Err(ErrorView::BadReference(reference@)),
        },
        SchemaNode::Item(schema) => match schema.schema_kind {
            SchemaKind::Type(Type::String) => Ok(TypView::String),
            SchemaKind::Type(Type::Number) => Ok(TypView::F64),
            SchemaKind::Type(Type::Integer) => Ok(TypView::I64),
            SchemaKind::Type(Type::Boolean) => Ok(TypView::Bool),
            SchemaKind::Type(Type::Array(items)) => match resolve(*items, api) {
                Ok(elem) => Ok(TypView::Array(Box::new(elem))),
                Err(e) => Err(e),
            },
            SchemaKind::Type(Type::Object(obj)) => resolve_record(obj, api),
            SchemaKind::Any(obj) => if obj.properties@.len() == 0 {
                Ok(TypView::Any)
            } else {
                resolve_record(obj, api)
            },
            _ => Err(ErrorView::UnsupportedKind(schema.schema_kind)),
        },
    }
}

/// The record that an object schema describes. An object without properties
/// describes none.
pub open spec fn resolve_record(obj: ObjectType, api: OpenAPI) -> core::result::Result<
    TypView,
    ErrorView,
>
    decreases obj, obj.properties@.len() + 1,
{
    if obj.properties@.len() == 0 {
        Err(ErrorView::EmptyStruct)
    } else {
        match resolve_fields(obj, api, obj.properties@.len()) {
            Ok(fields) => Ok(TypView::Struct(fields)),
            Err(e) => Err(e),
        }
    }
}

/// The fields that the first `n` properties of an object schema resolve to.
/// A property fails where its schema fails, or where an earlier property has
/// its name.
pub open spec fn resolve_fields(obj: ObjectType, api: OpenAPI, n: nat) -> core::result::Result<
    Seq<FieldView>,
    ErrorView,
>
    decreases obj, n,
{
    if n == 0 || n > obj.properties@.len() {
        Ok(Seq::empty())
    } else {
        match resolve_fields(obj, api, (n - 1) as nat) {
            Err(e) => Err(e),
            Ok(fields) => {
                let prop = obj.properties@[n - 1];
                match resolve(prop.schema, api) {
                    Err(e) => Err(e),
                    Ok(typ) => if declared_before(obj.properties@, n - 1, prop.name@) {
                        Err(ErrorView::DuplicateName(prop.name@))
                    } else {
                        Ok(
                            fields.push(
                                FieldView {
                                    name: prop.name@,
                                    typ,
                                    required: contains_text(obj.required@, prop.name@),
                                },
                            ),
                        )
                    },
                }
            },
        }
    }
}

/// The types that the first `n` named schemas of the document resolve to,
/// each put where its name belongs in the order of a dictionary. An entry
/// fails where its schema fails, or where an earlier entry has its name.
pub open spec fn resolve_table(api: OpenAPI, n: nat) -> core::result::Result<
    Seq<TypeDefView>,
    ErrorView,
>
    decreases n,
{
    if n == 0 || n > api.schemas@.len() {
        Ok(Seq::empty())
    } else {
        match resolve_table(api, (n - 1) as nat) {
            Err(e) => Err(e),
            Ok(defs) => {
                let entry = api.schemas@[n - 1];
                match resolve(entry.schema, api) {
                    Err(e) => Err(e),
                    Ok(typ) => if has_def(defs, entry.name@) {
                        Err(ErrorView::DuplicateName(entry.name@))
                    } else {
                        Ok(placed(defs, TypeDefView { name: entry.name@, typ }))
                    },
                }
            },
        }
    }
}

/// The table of types of a whole document: the types of its named schemas,
/// unless one of them is on a cycle of references or leads into one. The
/// first such entry is then reported as a bad reference.
pub open spec fn type_table(api: OpenAPI) -> core::result::Result<Seq<TypeDefView>, ErrorView> {
    match resolve_table(api, api.schemas@.len()) {
        Err(e) => Err(e),
        Ok(defs) => match first_ungrounded(defs) {
            Some(i) => Err(ErrorView::BadReference(defs[i].name)),
            None => Ok(defs),
        },
    }
}

/// A table of types as contracts speak of it.
pub open spec fn table_result_view(r: Result<TypeTable>) -> core::result::Result<
    Seq<TypeDefView>,
    ErrorView,
> {
    match r {
        Ok(table) => Ok(table@),
        Err(e) => Err(e@),
    }
}

/// The table of a document stands in the strict order of its names,
/// whatever the order of the document: each name occurs once, and each
/// entry comes before every entry whose name comes after its own.
pub proof fn lemma_table_is_ascending(api: OpenAPI, n: nat)
    ensures
        resolve_table(api, n) matches Ok(defs) ==> ascending(defs),
        n == api.schemas@.len() ==> (type_table(api) matches Ok(defs) ==> ascending(defs)),
    decreases n,
{
    if !(n == 0 || n > api.schemas@.len()) {
        lemma_table_is_ascending(api, (n - 1) as nat);
        if let Ok(defs) = resolve_table(api, (n - 1) as nat) {
            let entry = api.schemas@[n - 1];
            if let Ok(typ) = resolve(entry.schema, api) {
                if !has_def(defs, entry.name@) {
                    lemma_placed(defs, TypeDefView { name: entry.name@, typ });
                }
            }
        }
    }
}

/// Once an entry has failed, the table stays failed with the same error.
pub proof fn lemma_table_error_stays(api: OpenAPI, k: nat, n: nat)
    requires
        k <= n <= api.schemas@.len(),
        resolve_table(api, k) is Err,
    ensures
        resolve_table(api, n) == resolve_table(api, k),
    decreases n,
{
    if k < n {
        lemma_table_error_stays(api, k, (n - 1) as nat);
    }
}

/// A result of the resolver as contracts speak of it.
pub open spec fn typ_result_view(r: Result<Typ>) -> core::result::Result<TypView, ErrorView> {
    match r {
        Ok(t) => Ok(t@),
        Err(e) => Err(e@),
    }
}

/// Once a property has failed, the fields stay failed with the same error.
pub proof fn lemma_fields_error_stays(obj: ObjectType, api: OpenAPI, k: nat, n: nat)
    requires
        k <= n <= obj.properties@.len(),
        resolve_fields(obj, api, k) is Err,
    ensures
        resolve_fields(obj, api, n) == resolve_fields(obj, api, k),
    decreases n,
{
    if k < n {
        lemma_fields_error_stays(obj, api, k, (n - 1) as nat);
    }
}

/// A reference written as `#/components/schemas/` and a name without a
/// slash points at that name.
pub proof fn lemma_component_reference(name: Seq<char>)
    requires
        free_of(name, '/'),
    ensures
        ref_name("#/components/schemas/"@ + name) == Some(name),
{
    reveal_strlit("#/components/schemas/");
    reveal_strlit("#");
    reveal_strlit("components");
    reveal_strlit("schemas");
    let root = "#"@;
    let first = root.push('/') + "components"@;
    let second = first.push('/') + "schemas"@;
    let whole = second.push('/') + name;
    assert(free_of(root, '/'));
    assert(free_of("components"@, '/'));
    assert(free_of("schemas"@, '/'));
    lemma_split_free(root, '/');
    lemma_split_append(root, "components"@, '/');
    lemma_split_append(first, "schemas"@, '/');
    lemma_split_append(second, name, '/');
    assert(whole =~= "#/components/schemas/"@ + name);
}

/// Only the exact form is a reference: a reference that points at a name is
/// `#/components/schemas/` and that name, and the name holds no slash.
pub proof fn lemma_reference_form(refr: Seq<char>)
    requires
        ref_name(refr) is Some,
    ensures
        refr == "#/components/schemas/"@ + ref_name(refr)->0,
        free_of(ref_name(refr)->0, '/'),
{
    reveal_strlit("#/components/schemas/");
    reveal_strlit("#");
    reveal_strlit("components");
    reveal_strlit("schemas");
    let parts = split(refr, '/');
    lemma_split_join(refr, '/');
    let three = parts.drop_last();
    let two = three.drop_last();
    let one = two.drop_last();
    assert(join(one, '/') == parts[0]);
    assert(join(two, '/') == join(one, '/').push('/') + parts[1]);
    assert(join(three, '/') == join(two, '/').push('/') + parts[2]);
    assert(join(parts, '/') == join(three, '/').push('/') + parts[3]);
    assert(refr =~= "#/components/schemas/"@ + parts[3]);
    assert(free_of(parts[3], '/'));
}

/// Resolution sees a reference only through the name it points at: two
/// references that point at one name are one reference, and resolve alike,
/// to that name where the document has a schema of it and to a failure where
/// it has none.
pub proof fn lemma_reference_transparency(first: Seq<char>, second: Seq<char>, api: OpenAPI)
    requires
        ref_name(first) is Some,
        ref_name(first) == ref_name(second),
    ensures
        first == second,
        valid_ref(first, api) == valid_ref(second, api),
        forall|a: String, b: String|
            a@ == first && b@ == second ==> {
                let left = resolve(SchemaNode::Reference { reference: a }, api);
                let right = resolve(SchemaNode::Reference { reference: b }, api);
                &&& left is Ok <==> right is Ok
                &&& left is Ok ==> left == right && left == Ok::<TypView, ErrorView>(
                    TypView::Named(ref_name(first)->0),
                )
            },
{
    lemma_reference_form(first);
    lemma_reference_form(second);
}

/// An object schema without properties resolves to no record: it fails
/// with `EmptyStruct`.
pub proof fn lemma_empty_object_is_refused(obj: ObjectType, api: OpenAPI)
    requires
        obj.properties@.len() == 0,
    ensures
        resolve(
            SchemaNode::Item(Schema { schema_kind: SchemaKind::Type(Type::Object(obj)) }),
            api,
        ) == Err::<TypView, ErrorView>(ErrorView::EmptyStruct),
{
    let node = SchemaNode::Item(Schema { schema_kind: SchemaKind::Type(Type::Object(obj)) });
    assert(resolve(node, api) == resolve_record(obj, api));
}

/// The name that a reference points at in one table of the document's
/// components, or `BadReference` with the reference itself where it has not
/// the form of a reference into that table.
pub fn extract_component_name<'a>(refr: &'a str, table: &str) -> (name: Result<&'a str>)
    ensures
        match name {
            Ok(n) => component_name(refr@, table@) == Some(n@),
            Err(e) => component_name(refr@, table@) is None && e@ == ErrorView::BadReference(
                refr@,
            ),
        },
{
    let total = refr.unicode_len();
    let parts = split_text(refr, '/');
    proof {
        lemma_split_last(refr@, '/');
        assert(parts.len() == parts.deep_view().len());
    }
    if parts.len() != 4 {
        return Err(Error::BadReference(String::from_str(refr)));
    }
    assert(parts.deep_view()[0] == parts@[0]@);
    assert(parts.deep_view()[1] == parts@[1]@);
    assert(parts.deep_view()[2] == parts@[2]@);
    assert(parts.deep_view()[3] == parts@[3]@);
    if !(same_text(parts[0].as_str(), "#") && same_text(parts[1].as_str(), "components")
        && same_text(parts[2].as_str(), table)) {
        return Err(Error::BadReference(String::from_str(refr)));
    }
    let len = parts[3].as_str().unicode_len();
    Ok(refr.substring_char(total - len, total))
}

/// The name that a reference to a schema points at, or `BadReference` with
/// the reference itself where it has not the form of one.
pub fn extract_ref_name(refr: &str) -> (name: Result<&str>)
    ensures
        match name {
            Ok(n) => ref_name(refr@) == Some(n@),
            Err(e) => ref_name(refr@) is None && e@ == ErrorView::BadReference(refr@),
        },
{
    extract_component_name(refr, "schemas")
}

/// The name that a reference points at, once it is known to be a schema of
/// the document.
pub fn validate_ref<'a>(refr: &'a str, api: &'a OpenAPI) -> (name: Result<&'a str>)
    ensures
        match name {
            Ok(n) => valid_ref(refr@, *api) == Some(n@),
            Err(e) => valid_ref(refr@, *api) is None && e@ == ErrorView::BadReference(refr@),
        },
{
    let name = extract_ref_name(refr)?;
    let mut i: usize = 0;
    while i < api.schemas.len()
        invariant
            i <= api.schemas.len(),
            ref_name(refr@) == Some(name@),
            forall|j: int| 0 <= j < i ==> (#[trigger] api.schemas@[j]).name@ != name@,
        decreases api.schemas.len() - i,
    {
        if same_text(api.schemas[i].name.as_str(), name) {
            assert(api.schemas@[i as int].name@ == name@);
            return Ok(name);
        }
        i += 1;
    }
    Err(Error::BadReference(String::from_str(refr)))
}

/// Resolves every named schema of the document into the table of its
/// types, which holds them in the order of their names.
///
/// Fails with the first failure of a schema in the order of the document,
/// with `DuplicateName` on a name that the document gives twice, and with
/// `BadReference` on the first entry of the table whose references lead
/// back to where they started.
pub fn gather_types(api: &OpenAPI) -> (typs: Result<TypeTable>)
    ensures
        table_result_view(typs) == type_table(*api),
{
    let mut typs = TypeTable::new();
    let mut i: usize = 0;
    while i < api.schemas.len()
        invariant
            i <= api.schemas.len(),
            resolve_table(*api, i as nat) == Ok::<Seq<TypeDefView>, ErrorView>(typs@),
        decreases api.schemas.len() - i,
    {
        let entry = &api.schemas[i];
        proof {
            if resolve_table(*api, (i + 1) as nat) is Err {
                lemma_table_error_stays(*api, (i + 1) as nat, api.schemas@.len());
            }
        }
        let typ = build_type(&entry.schema, api)?;
        let (table, rejected) = typs.insert(TypeDef { name: entry.name.clone(), typ });
        typs = table;
        if let Some(back) = rejected {
            return Err(Error::DuplicateName(back.name));
        }
        i += 1;
    }
    let at = {
        let entries = typs.entries();
        match find_cycle(entries) {
            Some(at) => {
                assert(defs_view(entries@)[at as int] == entries@[at as int]@);
                Some(entries[at].name.clone())
            },
            None => None,
        }
    };
    match at {
        Some(name) => Err(Error::BadReference(name)),
        None => Ok(typs),
    }
}

/// The record of an object schema with at least one property.
fn typ_from_objlike(obj: &ObjectType, api: &OpenAPI) -> (typ: Result<Typ>)
    ensures
        typ_result_view(typ) == match resolve_fields(*obj, *api, obj.properties@.len()) {
            Ok(fields) => Ok::<TypView, ErrorView>(TypView::Struct(fields)),
            Err(e) => Err(e),
        },
    decreases obj, obj.properties@.len(),
{
    let mut fields: Vec<Field> = Vec::new();
    let mut i: usize = 0;
    assert(fields_view(fields@) =~= Seq::<FieldView>::empty());
    while i < obj.properties.len()
        invariant
            i <= obj.properties.len(),
            fields@.len() == i,
            resolve_fields(*obj, *api, i as nat) == Ok::<Seq<FieldView>, ErrorView>(
                fields_view(fields@),
            ),
            forall|j: int| 0 <= j < i ==> (#[trigger] fields@[j]).name@ == obj.properties@[j].name@,
        decreases obj.properties.len() - i,
    {
        let prop = &obj.properties[i];
        proof {
            assert(decreases_to!(*obj => obj.properties));
            assert(decreases_to!(obj.properties => obj.properties@[i as int]));
            assert(decreases_to!(obj.properties@[i as int] => obj.properties@[i as int].schema));
        }
        let inner = match build_type(&prop.schema, api) {
            Ok(t) => t,
            Err(e) => {
                proof {
                    lemma_fields_error_stays(
                        *obj,
                        *api,
                        (i + 1) as nat,
                        obj.properties@.len(),
                    );
                }
                return Err(e);
            },
        };
        let taken = field_named(&fields, prop.name.as_str());
        proof {
            let views = fields_view(fields@);
            if taken {
                let j = choose|j: int| 0 <= j < views.len() && (#[trigger] views[j]).name == prop.name@;
                assert(fields@[j].name@ == prop.name@);
                assert(obj.properties@[j].name@ == prop.name@);
            }
            if declared_before(obj.properties@, i as int, prop.name@) {
                let j = choose|j: int|
                    0 <= j < i && j < obj.properties@.len() && (#[trigger] obj.properties@[j]).name@
                        == prop.name@;
                assert(fields@[j].name@ == prop.name@);
                assert(views[j].name == prop.name@);
            }
        }
        if taken {
            proof {
                lemma_fields_error_stays(*obj, *api, (i + 1) as nat, obj.properties@.len());
            }
            return Err(Error::DuplicateName(prop.name.clone()));
        }
        let required = text_in(&obj.required, prop.name.as_str());
        let ghost before = fields@;
        fields.push(Field { name: prop.name.clone(), typ: inner, required });
        proof {
            assert(fields_view(fields@) =~= fields_view(before).push(fields@[i as int]@));
        }
        i += 1;
    }
    proof {
        lemma_struct_view(fields);
    }
    Ok(Typ::Struct(fields))
}

/// Resolves a schema of the document to its type.
///
/// Fails with `BadReference` on a reference that is malformed or names no
/// schema of the document, with `UnsupportedKind` on a composition of
/// schemas, with `EmptyStruct` on an object without properties, and with
/// `DuplicateName` on a property that an object declares twice.
pub fn build_type(schema: &SchemaNode, api: &OpenAPI) -> (typ: Result<Typ>)
    ensures
        typ_result_view(typ) == resolve(*schema, *api),
    decreases schema, 0nat,
{
    let item = match schema {
        SchemaNode::Reference { reference } => {
            let name = validate_ref(reference.as_str(), api)?;
            return Ok(Typ::Named(String::from_str(name)));
        },
        SchemaNode::Item(item) => item,
    };
    let ty = match &item.schema_kind {
        SchemaKind::Type(ty) => ty,
        SchemaKind::Any(obj) => {
            if obj.properties.len() == 0 {
                return Ok(Typ::Any);
            } else {
                assert(resolve(*schema, *api) == resolve_record(*obj, *api));
                return typ_from_objlike(obj, api);
            }
        },
        SchemaKind::OneOf => return Err(Error::UnsupportedKind(SchemaKind::OneOf)),
        SchemaKind::AllOf => return Err(Error::UnsupportedKind(SchemaKind::AllOf)),
        SchemaKind::AnyOf => return Err(Error::UnsupportedKind(SchemaKind::AnyOf)),
    };
    let typ = match ty {
        Type::String => Typ::String,
        Type::Number => Typ::F64,
        Type::Integer => Typ::I64,
        Type::Boolean => Typ::Bool,
        Type::Array(items) => {
            let inner = build_type(items, api)?;
            Typ::Array(Box::new(inner))
        },
        Type::Object(obj) => {
            assert(resolve(*schema, *api) == resolve_record(*obj, *api));
            if obj.properties.len() == 0 {
                return Err(Error::EmptyStruct);
            }
            return typ_from_objlike(obj, api);
        },
    };
    Ok(typ)
}

} // verus!
