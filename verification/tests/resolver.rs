use hsr::declare::{define_struct, format_rust_types};
use hsr::document::{
    NamedSchema, ObjectType, OpenAPI, Property, Schema, SchemaKind, SchemaNode, Type,
};
use hsr::error::Error;
use hsr::resolve::{
    build_type, extract_component_name, extract_ref_name, gather_types, validate_ref,
};
use hsr::table::TypeTable;
use hsr::typ::{Field, Typ, TypeDef};

fn plain(ty: Type) -> SchemaNode {
    SchemaNode::Item(Schema { schema_kind: SchemaKind::Type(ty) })
}

fn refer(reference: &str) -> SchemaNode {
    SchemaNode::Reference { reference: reference.to_string() }
}

fn record(properties: Vec<(&str, SchemaNode)>, required: Vec<&str>) -> ObjectType {
    ObjectType {
        properties: properties
            .into_iter()
            .map(|(name, schema)| Property { name: name.to_string(), schema })
            .collect(),
        required: required.into_iter().map(|name| name.to_string()).collect(),
    }
}

fn table(entries: Vec<(&str, SchemaNode)>) -> OpenAPI {
    OpenAPI {
        schemas: entries
            .into_iter()
            .map(|(name, schema)| NamedSchema { name: name.to_string(), schema })
            .collect(),
        paths: vec![],
    }
}

fn types(entries: Vec<(&str, Typ)>) -> TypeTable {
    let mut table = TypeTable::new();
    for (name, typ) in entries {
        let (next, rejected) = table.insert(TypeDef { name: name.to_string(), typ });
        assert!(rejected.is_none());
        table = next;
    }
    table
}

fn field(name: &str, typ: Typ, required: bool) -> Field {
    Field { name: name.to_string(), typ, required }
}

#[test]
fn reference_to_a_component_schema_gives_its_name() {
    assert_eq!(extract_ref_name("#/components/schemas/Pet").unwrap(), "Pet");
}

#[test]
fn reference_with_anything_beside_the_hash_before_the_first_slash_is_bad() {
    for refr in ["#x/components/schemas/Pet", "#other/components/schemas/Pet", "##/components/schemas/Pet"] {
        match extract_ref_name(refr) {
            Err(Error::BadReference(r)) => assert_eq!(r, refr),
            other => panic!("unexpected: {:?}", other),
        }
    }
}

#[test]
fn reference_with_an_empty_name_gives_the_empty_name() {
    assert_eq!(extract_ref_name("#/components/schemas/").unwrap(), "");
}

#[test]
fn reference_with_a_name_beyond_ascii_gives_that_name() {
    assert_eq!(extract_ref_name("#/components/schemas/Tür").unwrap(), "Tür");
}

#[test]
fn reference_without_hash_is_bad() {
    match extract_ref_name("/components/schemas/Pet") {
        Err(Error::BadReference(r)) => assert_eq!(r, "/components/schemas/Pet"),
        other => panic!("unexpected: {:?}", other),
    }
}

#[test]
fn empty_reference_is_bad() {
    assert!(matches!(extract_ref_name(""), Err(Error::BadReference(r)) if r.is_empty()));
}

#[test]
fn reference_to_another_table_is_bad() {
    assert!(matches!(
        extract_ref_name("#/components/responses/Pet"),
        Err(Error::BadReference(_))
    ));
    assert!(matches!(extract_ref_name("#/definitions/schemas/Pet"), Err(Error::BadReference(_))));
}

#[test]
fn reference_with_too_few_or_too_many_parts_is_bad() {
    assert!(matches!(extract_ref_name("#/components/schemas"), Err(Error::BadReference(_))));
    assert!(matches!(
        extract_ref_name("#/components/schemas/Pet/id"),
        Err(Error::BadReference(_))
    ));
}

#[test]
fn reference_is_valid_only_for_a_schema_of_the_document() {
    let api = table(vec![("Pet", plain(Type::String))]);
    assert_eq!(validate_ref("#/components/schemas/Pet", &api).unwrap(), "Pet");
    match validate_ref("#/components/schemas/Dog", &api) {
        Err(Error::BadReference(r)) => assert_eq!(r, "#/components/schemas/Dog"),
        other => panic!("unexpected: {:?}", other),
    }
}

#[test]
fn two_references_to_one_name_resolve_alike() {
    let api = table(vec![
        ("Pet", plain(Type::String)),
        ("Owner", plain(Type::Object(record(vec![("pet", refer("#/components/schemas/Pet"))], vec![])))),
    ]);
    let first = build_type(&refer("#/components/schemas/Pet"), &api).unwrap();
    let through_a_field = match build_type(&api.schemas[1].schema, &api).unwrap() {
        Typ::Struct(mut fields) => fields.remove(0).typ,
        other => panic!("unexpected: {:?}", other),
    };
    assert_eq!(first, Typ::Named("Pet".to_string()));
    assert_eq!(first, through_a_field);
    assert!(matches!(
        build_type(&refer("#elsewhere/components/schemas/Pet"), &api),
        Err(Error::BadReference(r)) if r == "#elsewhere/components/schemas/Pet"
    ));
}

#[test]
fn primitives_resolve_by_kind() {
    let api = table(vec![]);
    assert_eq!(build_type(&plain(Type::String), &api).unwrap(), Typ::String);
    assert_eq!(build_type(&plain(Type::Number), &api).unwrap(), Typ::F64);
    assert_eq!(build_type(&plain(Type::Integer), &api).unwrap(), Typ::I64);
    assert_eq!(build_type(&plain(Type::Boolean), &api).unwrap(), Typ::Bool);
}

#[test]
fn array_resolves_to_a_sequence_of_its_items() {
    let api = table(vec![]);
    let node = plain(Type::Array(Box::new(plain(Type::Integer))));
    assert_eq!(build_type(&node, &api).unwrap(), Typ::Array(Box::new(Typ::I64)));
}

#[test]
fn object_resolves_to_a_record_in_the_order_of_the_document() {
    let api = table(vec![]);
    let node = plain(Type::Object(record(
        vec![("zeta", plain(Type::String)), ("alpha", plain(Type::Integer))],
        vec!["alpha"],
    )));
    assert_eq!(
        build_type(&node, &api).unwrap(),
        Typ::Struct(vec![field("zeta", Typ::String, false), field("alpha", Typ::I64, true)])
    );
}

#[test]
fn untyped_schema_without_properties_is_any() {
    let api = table(vec![]);
    let node = SchemaNode::Item(Schema { schema_kind: SchemaKind::Any(record(vec![], vec![])) });
    assert_eq!(build_type(&node, &api).unwrap(), Typ::Any);
}

#[test]
fn untyped_schema_with_properties_is_a_record() {
    let api = table(vec![]);
    let node = SchemaNode::Item(Schema {
        schema_kind: SchemaKind::Any(record(vec![("id", plain(Type::Integer))], vec!["id"])),
    });
    assert_eq!(
        build_type(&node, &api).unwrap(),
        Typ::Struct(vec![field("id", Typ::I64, true)])
    );
}

#[test]
fn object_without_properties_is_an_empty_struct() {
    let api = table(vec![]);
    let node = plain(Type::Object(record(vec![], vec![])));
    assert!(matches!(build_type(&node, &api), Err(Error::EmptyStruct)));
}

#[test]
fn composed_schemas_are_not_supported() {
    let api = table(vec![]);
    for kind in [SchemaKind::OneOf, SchemaKind::AllOf, SchemaKind::AnyOf] {
        let expected = format!("{:?}", kind);
        match build_type(&SchemaNode::Item(Schema { schema_kind: kind }), &api) {
            Err(Error::UnsupportedKind(k)) => assert_eq!(format!("{:?}", k), expected),
            other => panic!("unexpected: {:?}", other),
        }
    }
}

#[test]
fn property_declared_twice_is_a_duplicate() {
    let api = table(vec![]);
    let node = plain(Type::Object(record(
        vec![("id", plain(Type::Integer)), ("id", plain(Type::String))],
        vec![],
    )));
    assert!(matches!(build_type(&node, &api), Err(Error::DuplicateName(n)) if n == "id"));
}

#[test]
fn first_failing_property_decides() {
    let api = table(vec![]);
    let node = plain(Type::Object(record(
        vec![
            ("a", plain(Type::Integer)),
            ("b", refer("#/components/schemas/Missing")),
            ("c", plain(Type::Object(record(vec![], vec![])))),
        ],
        vec![],
    )));
    assert!(matches!(
        build_type(&node, &api),
        Err(Error::BadReference(r)) if r == "#/components/schemas/Missing"
    ));
}

#[test]
fn schema_named_twice_is_a_duplicate() {
    let api = table(vec![("Pet", plain(Type::String)), ("Pet", plain(Type::Integer))]);
    assert!(matches!(gather_types(&api), Err(Error::DuplicateName(n)) if n == "Pet"));
}

#[test]
fn table_is_in_the_order_of_the_names_whatever_the_document() {
    let api = table(vec![
        ("Zebra", plain(Type::String)),
        ("Ant", plain(Type::Array(Box::new(refer("#/components/schemas/Zebra"))))),
        ("ant", plain(Type::Boolean)),
        ("Antelope", plain(Type::Integer)),
    ]);
    let typs = gather_types(&api).unwrap();
    assert_eq!(
        typs.entries(),
        &vec![
            TypeDef {
                name: "Ant".to_string(),
                typ: Typ::Array(Box::new(Typ::Named("Zebra".to_string()))),
            },
            TypeDef { name: "Antelope".to_string(), typ: Typ::I64 },
            TypeDef { name: "Zebra".to_string(), typ: Typ::String },
            TypeDef { name: "ant".to_string(), typ: Typ::Bool },
        ]
    );
    assert_eq!(
        format_rust_types(&typs).unwrap(),
        "type Ant = Vec<Zebra>;\n\ntype Antelope = i64;\n\ntype Zebra = String;\n\ntype ant = bool;\n\n"
    );
}

#[test]
fn declarations_come_in_the_order_of_the_names_not_of_insertion() {
    let typs = types(vec![
        ("B", Typ::Bool),
        ("A", Typ::Struct(vec![field("x", Typ::I64, true)])),
    ]);
    assert_eq!(
        format_rust_types(&typs).unwrap(),
        "struct A {\n    x: i64,\n}\n\ntype B = bool;\n\n"
    );
}

#[test]
fn empty_table_declares_nothing() {
    assert_eq!(format_rust_types(&TypeTable::new()).unwrap(), "");
}

#[test]
fn table_holds_each_name_once() {
    let table = types(vec![("Pet", Typ::Bool), ("Id", Typ::I64)]);
    let (table, rejected) = table.insert(TypeDef { name: "Pet".to_string(), typ: Typ::String });
    assert_eq!(rejected, Some(TypeDef { name: "Pet".to_string(), typ: Typ::String }));
    assert_eq!(table, types(vec![("Id", Typ::I64), ("Pet", Typ::Bool)]));
    assert_eq!(table.len(), 2);
}

#[test]
fn first_failing_declaration_in_the_order_of_the_names_decides() {
    let typs = types(vec![
        ("Z", Typ::Struct(vec![])),
        ("M", Typ::Array(Box::new(Typ::Struct(vec![field("id", Typ::I64, true)])))),
        ("A", Typ::I64),
    ]);
    assert!(matches!(format_rust_types(&typs), Err(Error::NotStructurallyTyped)));
    let typs = types(vec![
        ("M", Typ::Array(Box::new(Typ::Struct(vec![field("id", Typ::I64, true)])))),
        ("B", Typ::Struct(vec![])),
    ]);
    assert!(matches!(format_rust_types(&typs), Err(Error::EmptyStruct)));
}

#[test]
fn names_of_types() {
    assert_eq!(Typ::String.to_string().unwrap(), "String");
    assert_eq!(Typ::F64.to_string().unwrap(), "f64");
    assert_eq!(Typ::I64.to_string().unwrap(), "i64");
    assert_eq!(Typ::Bool.to_string().unwrap(), "bool");
    assert_eq!(Typ::Any.to_string().unwrap(), "Any");
    assert_eq!(Typ::Named("Pet".to_string()).to_string().unwrap(), "Pet");
    assert_eq!(
        Typ::Array(Box::new(Typ::Array(Box::new(Typ::I64)))).to_string().unwrap(),
        "Vec<Vec<i64>>"
    );
}

#[test]
fn record_has_no_name() {
    let rec = Typ::Struct(vec![field("id", Typ::I64, true)]);
    assert!(matches!(rec.to_string(), Err(Error::NotStructurallyTyped)));
    assert!(matches!(
        Typ::Array(Box::new(rec)).to_string(),
        Err(Error::NotStructurallyTyped)
    ));
}

#[test]
fn complex_is_a_record_under_any_number_of_sequences() {
    let rec = || Typ::Struct(vec![field("id", Typ::I64, true)]);
    assert!(rec().is_complex());
    assert!(Typ::Array(Box::new(rec())).is_complex());
    assert!(Typ::Array(Box::new(Typ::Array(Box::new(rec())))).is_complex());
    assert!(Typ::Array(Box::new(Typ::Array(Box::new(Typ::Array(Box::new(rec())))))).is_complex());
    assert!(!Typ::I64.is_complex());
    assert!(!Typ::Named("Pet".to_string()).is_complex());
    assert!(!Typ::Array(Box::new(Typ::I64)).is_complex());
    assert!(!Typ::Array(Box::new(Typ::Array(Box::new(Typ::Any)))).is_complex());
}

#[test]
fn struct_is_declared_with_one_line_for_each_field() {
    let fields = vec![
        field("id", Typ::I64, true),
        field("tags", Typ::Array(Box::new(Typ::String)), false),
    ];
    assert_eq!(
        define_struct("Pet", &fields).unwrap(),
        "struct Pet {\n    id: i64,\n    tags: Option<Vec<String>>,\n}"
    );
}

#[test]
fn struct_without_fields_is_an_empty_struct() {
    assert!(matches!(define_struct("Pet", &vec![]), Err(Error::EmptyStruct)));
}

#[test]
fn struct_with_a_record_field_is_not_structurally_typed() {
    let fields = vec![field("owner", Typ::Struct(vec![field("id", Typ::I64, true)]), true)];
    assert!(matches!(define_struct("Pet", &fields), Err(Error::NotStructurallyTyped)));
}

#[test]
fn alias_of_a_sequence_of_records_is_not_structurally_typed() {
    let typs = types(vec![
        ("Id", Typ::I64),
        ("Pets", Typ::Array(Box::new(Typ::Struct(vec![field("id", Typ::I64, true)])))),
    ]);
    assert!(matches!(format_rust_types(&typs), Err(Error::NotStructurallyTyped)));
}

#[test]
fn empty_named_record_fails_the_table() {
    let api = table(vec![("Empty", plain(Type::Object(record(vec![], vec![]))))]);
    assert!(matches!(gather_types(&api), Err(Error::EmptyStruct)));
}

#[test]
fn type_that_mentions_itself_is_a_bad_reference() {
    let api = table(vec![
        ("Id", plain(Type::Integer)),
        (
            "Node",
            plain(Type::Object(record(
                vec![("children", plain(Type::Array(Box::new(refer("#/components/schemas/Node")))))],
                vec![],
            ))),
        ),
    ]);
    assert!(matches!(gather_types(&api), Err(Error::BadReference(n)) if n == "Node"));
}

#[test]
fn cycle_of_aliases_is_a_bad_reference_of_its_first_entry() {
    let api = table(vec![
        ("Leaf", plain(Type::String)),
        ("B", refer("#/components/schemas/C")),
        ("A", refer("#/components/schemas/Leaf")),
        ("C", refer("#/components/schemas/B")),
    ]);
    assert!(matches!(gather_types(&api), Err(Error::BadReference(n)) if n == "B"));
}

#[test]
fn type_that_leads_into_a_cycle_is_a_bad_reference() {
    let api = table(vec![
        ("Entry", plain(Type::Array(Box::new(refer("#/components/schemas/Loop"))))),
        ("Loop", refer("#/components/schemas/Loop")),
    ]);
    assert!(matches!(gather_types(&api), Err(Error::BadReference(n)) if n == "Entry"));
}

#[test]
fn references_forward_and_backward_without_a_cycle_are_accepted() {
    let api = table(vec![
        ("Pets", plain(Type::Array(Box::new(refer("#/components/schemas/Pet"))))),
        (
            "Pet",
            plain(Type::Object(record(
                vec![
                    ("owner", refer("#/components/schemas/Owner")),
                    ("id", refer("#/components/schemas/Id")),
                ],
                vec![],
            ))),
        ),
        ("Owner", plain(Type::Object(record(vec![("id", refer("#/components/schemas/Id"))], vec![])))),
        ("Id", plain(Type::Integer)),
        ("Shelter", plain(Type::Object(record(vec![("pets", refer("#/components/schemas/Pets"))], vec![])))),
    ]);
    assert_eq!(gather_types(&api).unwrap().len(), 5);
}

#[test]
fn reference_into_another_table_of_components() {
    assert_eq!(
        extract_component_name("#/components/parameters/limit", "parameters").unwrap(),
        "limit"
    );
    assert_eq!(
        extract_component_name("#/components/requestBodies/NewPet", "requestBodies").unwrap(),
        "NewPet"
    );
    for (refr, table) in [
        ("#/components/schemas/Pet", "parameters"),
        ("#/components/parameters/limit", "schemas"),
        ("#x/components/responses/NotFound", "responses"),
        ("#/components/responses/NotFound/x", "responses"),
        ("#/components/responses", "responses"),
    ] {
        match extract_component_name(refr, table) {
            Err(Error::BadReference(r)) => assert_eq!(r, refr),
            other => panic!("unexpected: {:?}", other),
        }
    }
}
