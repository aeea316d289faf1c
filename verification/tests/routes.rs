use hsr::compile::build_routes;
use hsr::document::{
    Content, MediaType, NamedSchema, ObjectType, OpenAPI, Operation, Parameter,
    ParameterLocation, PathItem, Property, Schema, SchemaKind, SchemaNode, StatusCode,
    StatusResponse, Type,
};
use hsr::error::Error;
use hsr::names::{name_operation, RouteNames};
use hsr::route::{
    build_named_type, get_type_of_body, get_type_of_response, Method, MethodWithBody,
    MethodWithoutBody, Route,
};
use hsr::taxonomy::{error_variant_from_status_code, ErrorType, StatusSource, Variant};
use hsr::typ::Typ;

fn simple(ty: Type) -> SchemaNode {
    SchemaNode::Item(Schema { schema_kind: SchemaKind::Type(ty) })
}

fn component(name: &str) -> SchemaNode {
    SchemaNode::Reference { reference: format!("#/components/schemas/{}", name) }
}

fn anonymous_record() -> SchemaNode {
    simple(Type::Object(ObjectType {
        properties: vec![Property { name: "id".to_string(), schema: simple(Type::Integer) }],
        required: vec![],
    }))
}

fn as_json(schema: SchemaNode) -> Content {
    Content {
        media_types: vec![MediaType { name: "application/json".to_string(), schema: Some(schema) }],
    }
}

fn empty() -> Content {
    Content { media_types: vec![] }
}

fn on(code: u16, response: Content) -> StatusResponse {
    StatusResponse { status: StatusCode::Code(code), response }
}

fn param(name: &str, location: ParameterLocation, required: bool, ty: Type) -> Parameter {
    Parameter { name: name.to_string(), location, required, schema: Some(simple(ty)) }
}

fn operation(id: &str, parameters: Vec<Parameter>, responses: Vec<StatusResponse>) -> Operation {
    Operation {
        summary: None,
        operation_id: Some(id.to_string()),
        parameters,
        request_body: None,
        responses,
        default: None,
    }
}

fn document() -> OpenAPI {
    OpenAPI {
        schemas: vec![
            NamedSchema { name: "Pet".to_string(), schema: anonymous_record() },
            NamedSchema { name: "Problem".to_string(), schema: anonymous_record() },
        ],
        paths: vec![],
    }
}

fn get(path: &str, op: &Operation) -> Result<Route, Error> {
    Route::without_body(path, MethodWithoutBody::Get, op, &document())
}

#[test]
fn route_keeps_method_identifier_and_path() {
    let op = operation("listPets", vec![], vec![on(200, empty())]);
    let route = get("/pets", &op).unwrap();
    assert_eq!(route.operation_id(), "list_pets");
    assert_eq!(route.method(), &Method::WithoutBody(MethodWithoutBody::Get));
    assert_eq!(route.path().to_string(), "/pets");
    assert_eq!(route.return_err_ty(), "ListPetsError");
    assert_eq!(route.generate_query_type_name(), None);
    assert_eq!(
        route.return_ty(),
        "std::result::Result<hsr::Success, ListPetsError<Self::Error>>"
    );
}

#[test]
fn identifiers_are_converted_by_case() {
    let mut op = operation(
        "FetchXMLReport",
        vec![
            param("reportId", ParameterLocation::Path, true, Type::Integer),
            param("page-size", ParameterLocation::Query, true, Type::Integer),
        ],
        vec![on(200, empty())],
    );
    op.request_body = Some(as_json(component("Pet")));
    let names = name_operation(&op);
    assert_eq!(
        names,
        RouteNames {
            operation: Some("fetch_xml_report".to_string()),
            stem: Some("FetchXmlReport".to_string()),
            parameters: vec!["report_id".to_string(), "page_size".to_string()],
            body: Some("pet".to_string()),
        }
    );
}

#[test]
fn path_parameters_fill_the_placeholders_in_order() {
    let op = operation(
        "getToy",
        vec![
            param("petId", ParameterLocation::Path, true, Type::Integer),
            param("verbose", ParameterLocation::Query, false, Type::Boolean),
            param("toyId", ParameterLocation::Path, true, Type::String),
        ],
        vec![on(200, as_json(component("Pet")))],
    );
    let route = get("/pets/{petId}/toys/{toyId}", &op).unwrap();
    assert_eq!(
        route.generate_signature(),
        "async fn get_toy(&self, pet_id: i64, toy_id: String, verbose: Option<bool>) -> std::result::Result<Pet, GetToyError<Self::Error>>;\n"
    );
    assert!(route
        .generate_client_impl()
        .contains("    let path = format!(\"/pets/{}/toys/{}\", pet_id, toy_id);\n"));
    assert_eq!(route.generate_query_type_name(), Some("GetToyQuery".to_string()));
    assert_eq!(route.generate_query_type(), "struct GetToyQuery {\n    verbose: Option<bool>,\n}\n\n");
    assert_eq!(
        route.generate_registration(),
        "    .route(\"/pets/{petId}/toys/{toyId}\", Method::GET, get_toy::<A>)\n"
    );
}

#[test]
fn summary_becomes_the_documentation_of_the_signature() {
    let mut op = operation("ping", vec![], vec![on(204, empty())]);
    op.summary = Some("Is anybody there".to_string());
    let route = get("/ping", &op).unwrap();
    assert_eq!(
        route.generate_signature(),
        "/// Is anybody there\nasync fn ping(&self) -> std::result::Result<hsr::Success, PingError<Self::Error>>;\n"
    );
}

#[test]
fn too_few_path_parameters_is_an_arity_mismatch() {
    let op = operation("getPet", vec![], vec![on(200, empty())]);
    match get("/pets/{petId}", &op) {
        Err(Error::PathArity { path, expected, found }) => {
            assert_eq!(path, "/pets/{petId}");
            assert_eq!(expected, 1);
            assert_eq!(found, 0);
        }
        other => panic!("unexpected: {:?}", other),
    }
}

#[test]
fn too_many_path_parameters_is_an_arity_mismatch() {
    let op = operation(
        "getPet",
        vec![
            param("petId", ParameterLocation::Path, true, Type::Integer),
            param("toyId", ParameterLocation::Path, true, Type::Integer),
        ],
        vec![on(200, empty())],
    );
    assert!(matches!(
        get("/pets/{petId}", &op),
        Err(Error::PathArity { expected: 1, found: 2, .. })
    ));
}

#[test]
fn optional_path_parameter_is_a_bad_parameter() {
    let op = operation(
        "getPet",
        vec![param("petId", ParameterLocation::Path, false, Type::Integer)],
        vec![on(200, empty())],
    );
    assert!(matches!(get("/pets/{petId}", &op), Err(Error::BadParameter(n)) if n == "petId"));
}

#[test]
fn parameter_twice_in_one_scope_is_a_bad_parameter() {
    let op = operation(
        "listPets",
        vec![
            param("limit", ParameterLocation::Query, false, Type::Integer),
            param("Limit", ParameterLocation::Query, true, Type::Integer),
        ],
        vec![on(200, empty())],
    );
    assert!(matches!(get("/pets", &op), Err(Error::BadParameter(n)) if n == "Limit"));
}

#[test]
fn same_name_in_two_scopes_is_accepted() {
    let op = operation(
        "getPet",
        vec![
            param("id", ParameterLocation::Path, true, Type::Integer),
            param("id", ParameterLocation::Query, true, Type::Integer),
        ],
        vec![on(200, empty())],
    );
    assert!(get("/pets/{id}", &op).is_ok());
}

#[test]
fn parameter_of_a_record_type_is_not_structurally_typed() {
    let mut op = operation("listPets", vec![], vec![on(200, empty())]);
    op.parameters.push(Parameter {
        name: "filter".to_string(),
        location: ParameterLocation::Query,
        required: true,
        schema: Some(anonymous_record()),
    });
    assert!(matches!(get("/pets", &op), Err(Error::NotStructurallyTyped)));
}

#[test]
fn operation_without_identifier_has_no_route() {
    let mut op = operation("x", vec![], vec![on(200, empty())]);
    op.operation_id = None;
    assert!(matches!(get("/pets", &op), Err(Error::NoOperationId(p)) if p == "/pets"));
}

#[test]
fn two_successes_are_refused() {
    let op = operation("listPets", vec![], vec![on(200, empty()), on(201, empty())]);
    assert!(matches!(
        get("/pets", &op),
        Err(Error::BadStatusCode(StatusCode::Code(201)))
    ));
}

#[test]
fn redirection_and_server_error_are_refused() {
    let redirect = operation("listPets", vec![], vec![on(200, empty()), on(301, empty())]);
    assert!(matches!(
        get("/pets", &redirect),
        Err(Error::BadStatusCode(StatusCode::Code(301)))
    ));
    let failure = operation("listPets", vec![], vec![on(500, empty()), on(200, empty())]);
    assert!(matches!(
        get("/pets", &failure),
        Err(Error::BadStatusCode(StatusCode::Code(500)))
    ));
    let informational = operation("listPets", vec![], vec![on(100, empty())]);
    assert!(matches!(
        get("/pets", &informational),
        Err(Error::BadStatusCode(StatusCode::Code(100)))
    ));
}

#[test]
fn range_and_number_that_is_no_status_are_refused() {
    let mut range = operation("listPets", vec![], vec![on(200, empty())]);
    range.responses.push(StatusResponse { status: StatusCode::Range(4), response: empty() });
    assert!(matches!(
        get("/pets", &range),
        Err(Error::BadStatusCode(StatusCode::Range(4)))
    ));
    for code in [0u16, 99, 1000, 65535] {
        let op = operation("listPets", vec![], vec![on(code, empty())]);
        assert!(matches!(
            get("/pets", &op),
            Err(Error::BadStatusCode(StatusCode::Code(c))) if c == code
        ));
    }
}

#[test]
fn borders_of_the_status_classes() {
    for code in [200u16, 299] {
        let op = operation("listPets", vec![], vec![on(code, empty())]);
        assert!(get("/pets", &op).is_ok());
    }
    for code in [400u16, 499] {
        let op = operation("listPets", vec![], vec![on(200, empty()), on(code, empty())]);
        assert!(get("/pets", &op).is_ok());
    }
    for code in [199u16, 300, 399, 500, 999] {
        let op = operation("listPets", vec![], vec![on(200, empty()), on(code, empty())]);
        assert!(matches!(get("/pets", &op), Err(Error::BadStatusCode(_))));
    }
}

#[test]
fn client_error_declared_twice_is_refused() {
    let op = operation(
        "listPets",
        vec![],
        vec![on(200, empty()), on(404, empty()), on(404, empty())],
    );
    assert!(matches!(
        get("/pets", &op),
        Err(Error::BadStatusCode(StatusCode::Code(404)))
    ));
}

#[test]
fn statuses_are_judged_before_any_response_type() {
    let op = operation(
        "listPets",
        vec![],
        vec![on(200, as_json(component("Missing"))), on(302, empty())],
    );
    assert!(matches!(
        get("/pets", &op),
        Err(Error::BadStatusCode(StatusCode::Code(302)))
    ));
}

#[test]
fn route_without_success_is_refused() {
    let op = operation("listPets", vec![], vec![on(404, empty())]);
    assert!(matches!(get("/pets", &op), Err(Error::NoSuccessStatus(p)) if p == "/pets"));
    let none = operation("listPets", vec![], vec![]);
    assert!(matches!(get("/pets", &none), Err(Error::NoSuccessStatus(_))));
}

#[test]
fn response_must_be_json_alone() {
    let api = document();
    let xml = Content {
        media_types: vec![MediaType { name: "application/xml".to_string(), schema: None }],
    };
    assert!(matches!(get_type_of_response(&xml, &api), Err(Error::UnsupportedContent)));
    let both = Content {
        media_types: vec![
            MediaType { name: "application/json".to_string(), schema: Some(component("Pet")) },
            MediaType { name: "text/plain".to_string(), schema: None },
        ],
    };
    assert!(matches!(get_type_of_response(&both, &api), Err(Error::UnsupportedContent)));
    assert_eq!(get_type_of_response(&empty(), &api).unwrap(), None);
    assert_eq!(
        get_type_of_response(&as_json(component("Pet")), &api).unwrap(),
        Some(Typ::Named("Pet".to_string()))
    );
    let bare = Content {
        media_types: vec![MediaType { name: "application/json".to_string(), schema: None }],
    };
    assert_eq!(get_type_of_response(&bare, &api).unwrap(), None);
}

#[test]
fn named_type_refuses_records_written_in_place() {
    let api = document();
    assert!(matches!(
        build_named_type(&anonymous_record(), &api),
        Err(Error::NotStructurallyTyped)
    ));
    assert!(matches!(
        build_named_type(&simple(Type::Array(Box::new(anonymous_record()))), &api),
        Err(Error::NotStructurallyTyped)
    ));
    assert_eq!(
        build_named_type(&simple(Type::Array(Box::new(component("Pet")))), &api).unwrap(),
        Typ::Array(Box::new(Typ::Named("Pet".to_string())))
    );
}

#[test]
fn body_must_be_json_with_a_schema() {
    let api = document();
    let mut op = operation("createPet", vec![], vec![on(201, empty())]);
    assert_eq!(get_type_of_body(&op, &api).unwrap(), None);
    op.request_body = Some(empty());
    assert!(matches!(get_type_of_body(&op, &api), Err(Error::UnsupportedContent)));
    op.request_body = Some(Content {
        media_types: vec![MediaType { name: "application/json".to_string(), schema: None }],
    });
    assert!(matches!(get_type_of_body(&op, &api), Err(Error::UnsupportedContent)));
    op.request_body = Some(as_json(component("Pet")));
    assert_eq!(get_type_of_body(&op, &api).unwrap(), Some(Typ::Named("Pet".to_string())));
    assert!(matches!(
        Route::with_body("/pets", MethodWithBody::Post, &operation("x", vec![], vec![]), &api),
        Err(Error::NoSuccessStatus(_))
    ));
}

#[test]
fn body_without_a_named_schema_is_the_payload() {
    let api = document();
    let mut op = operation("rename", vec![], vec![on(200, empty())]);
    op.request_body = Some(as_json(simple(Type::String)));
    let route = Route::with_body("/name", MethodWithBody::Put, &op, &api).unwrap();
    assert_eq!(
        route.generate_signature(),
        "async fn rename(&self, payload: String) -> std::result::Result<hsr::Success, RenameError<Self::Error>>;\n"
    );
    assert!(route.generate_client_impl().contains("        .send_json(&payload)\n"));
    assert!(route.generate_client_impl().contains(".request(Method::PUT, url.as_str())"));
}

#[test]
fn default_response_needs_content() {
    let mut op = operation("listPets", vec![], vec![on(200, empty())]);
    op.default = Some(empty());
    assert!(matches!(get("/pets", &op), Err(Error::EmptyDefault)));
    op.default = Some(as_json(component("Problem")));
    let route = get("/pets", &op).unwrap();
    let taxonomy = ErrorType::build(&route);
    assert_eq!(
        taxonomy,
        ErrorType {
            name: "ListPetsError".to_string(),
            variants: vec![
                Variant {
                    name: "Default".to_string(),
                    payload: Some("Problem".to_string()),
                    status: StatusSource::Payload,
                },
                Variant {
                    name: "Error".to_string(),
                    payload: Some("E".to_string()),
                    status: StatusSource::Delegate,
                },
            ],
        }
    );
}

#[test]
fn taxonomy_has_one_variant_for_each_declared_error_and_one_generic() {
    let op = operation(
        "listPets",
        vec![],
        vec![on(404, empty()), on(200, empty()), on(400, as_json(component("Problem")))],
    );
    let route = get("/pets", &op).unwrap();
    let taxonomy = ErrorType::build(&route);
    assert_eq!(
        taxonomy.variants,
        vec![
            Variant { name: "E404".to_string(), payload: None, status: StatusSource::Literal(404) },
            Variant {
                name: "E400".to_string(),
                payload: Some("Problem".to_string()),
                status: StatusSource::Literal(400),
            },
            Variant {
                name: "Error".to_string(),
                payload: Some("E".to_string()),
                status: StatusSource::Delegate,
            },
        ]
    );
}

#[test]
fn variant_is_named_after_its_status() {
    assert_eq!(error_variant_from_status_code(403), "E403");
    assert_eq!(error_variant_from_status_code(7), "E7");
    assert_eq!(error_variant_from_status_code(65535), "E65535");
    assert_eq!(error_variant_from_status_code(0), "E0");
}

#[test]
fn build_refuses_identifiers_that_are_not_one_for_each_parameter() {
    let api = document();
    let op = operation(
        "getPet",
        vec![param("petId", ParameterLocation::Path, true, Type::Integer)],
        vec![on(200, empty())],
    );
    let names = RouteNames {
        operation: Some("get_pet".to_string()),
        stem: Some("GetPet".to_string()),
        parameters: vec![],
        body: None,
    };
    assert!(matches!(
        Route::build("/pets/{petId}", Method::WithoutBody(MethodWithoutBody::Get), &op, &names, &api),
        Err(Error::CodeGen)
    ));
}

#[test]
fn build_takes_the_identifiers_it_is_given() {
    let api = document();
    let op = operation(
        "getPet",
        vec![param("petId", ParameterLocation::Path, true, Type::Integer)],
        vec![on(200, empty())],
    );
    let names = RouteNames {
        operation: Some("fetch".to_string()),
        stem: Some("Fetch".to_string()),
        parameters: vec!["which".to_string()],
        body: Some("unused".to_string()),
    };
    let method = Method::WithBody {
        method: MethodWithBody::Delete,
        body_type: Some(Typ::Named("Pet".to_string())),
    };
    let route = Route::build("/pets/{petId}", method, &op, &names, &api).unwrap();
    assert_eq!(
        route.generate_signature(),
        "async fn fetch(&self, which: i64, unused: Pet) -> std::result::Result<hsr::Success, FetchError<Self::Error>>;\n"
    );
}

#[test]
fn build_refuses_a_body_that_is_a_record() {
    let api = document();
    let op = operation("createPet", vec![], vec![on(201, empty())]);
    let names = name_operation(&op);
    let method = Method::WithBody { method: MethodWithBody::Post, body_type: Some(Typ::Struct(vec![])) };
    assert!(matches!(
        Route::build("/pets", method, &op, &names, &api),
        Err(Error::NotStructurallyTyped)
    ));
}

#[test]
fn two_operations_with_one_identifier_are_refused() {
    let mut api = document();
    let slot = |path: &str, op: Operation| PathItem {
        path: path.to_string(),
        get: Some(op),
        put: None,
        post: None,
        delete: None,
        options: None,
        head: None,
        patch: None,
        trace: None,
    };
    api.paths.push(slot("/pets", operation("listPets", vec![], vec![on(200, empty())])));
    api.paths.push(slot("/animals", operation("list_pets", vec![], vec![on(200, empty())])));
    assert!(matches!(build_routes(&api), Err(Error::DuplicateName(n)) if n == "list_pets"));
}

#[test]
fn operations_of_a_path_come_in_the_order_of_the_methods() {
    let mut api = document();
    let with = |id: &str| Some(operation(id, vec![], vec![on(200, empty())]));
    api.paths.push(PathItem {
        path: "/pets".to_string(),
        get: with("a"),
        put: with("b"),
        post: with("c"),
        delete: with("d"),
        options: with("e"),
        head: with("f"),
        patch: with("g"),
        trace: with("h"),
    });
    let routes = build_routes(&api).unwrap();
    let ids: Vec<&str> = routes.iter().map(|r| r.operation_id().as_str()).collect();
    assert_eq!(ids, vec!["a", "b", "c", "d", "e", "f", "g", "h"]);
    let methods: Vec<String> = routes
        .iter()
        .map(|r| {
            let line = r.generate_registration();
            line.split("Method::").nth(1).unwrap().split(',').next().unwrap().to_string()
        })
        .collect();
    assert_eq!(methods, vec!["GET", "PUT", "POST", "DELETE", "OPTIONS", "HEAD", "PATCH", "TRACE"]);
}

#[test]
fn errors_say_what_went_wrong() {
    assert_eq!(Error::Io("gone".to_string()).message(), "IO Error: gone");
    assert_eq!(Error::Yaml("line 3".to_string()).message(), "Yaml Error: line 3");
    assert_eq!(Error::CodeGen.message(), "Codegen failed");
    assert_eq!(Error::BadReference("#/x".to_string()).message(), "Bad reference: \"#/x\"");
    assert_eq!(Error::UnsupportedKind(SchemaKind::OneOf).message(), "Schema not supported: OneOf");
    assert_eq!(
        Error::TooComplex(Schema { schema_kind: SchemaKind::AllOf }).message(),
        "Definition is too complex"
    );
    assert_eq!(Error::EmptyStruct.message(), "Empty struct");
    assert_eq!(
        Error::NotStructurallyTyped.message(),
        "Rust does not support structural typing"
    );
    assert_eq!(Error::BadStatusCode(StatusCode::Code(302)).message(), "Bad status code: 302");
    assert_eq!(Error::BadStatusCode(StatusCode::Range(4)).message(), "Bad status code: 4XX");
    assert_eq!(
        Error::NoSuccessStatus("/pets".to_string()).message(),
        "path '/pets' expected exactly one 'success' status"
    );
    assert_eq!(Error::BadParameter("petId".to_string()).message(), "Bad parameter: \"petId\"");
    assert_eq!(Error::DuplicateName("Pet".to_string()).message(), "Duplicate name: \"Pet\"");
    assert_eq!(
        Error::NoOperationId("/pets".to_string()).message(),
        "path '/pets' has an operation without an id"
    );
    assert_eq!(
        Error::PathArity { path: "/pets/{petId}".to_string(), expected: 1, found: 0 }.message(),
        "path '/pets/{petId}' expected 1 path parameter(s), found 0"
    );
    assert_eq!(Error::UnsupportedContent.message(), "Content must be application/json only");
    assert_eq!(Error::EmptyDefault.message(), "The default response must have content");
}

#[test]
fn parameter_in_a_header_or_a_cookie_is_a_bad_parameter() {
    for location in [ParameterLocation::Header, ParameterLocation::Cookie] {
        let op = operation(
            "listPets",
            vec![param("trace", location, true, Type::String)],
            vec![on(200, empty())],
        );
        assert!(matches!(get("/pets", &op), Err(Error::BadParameter(n)) if n == "trace"));
    }
}

#[test]
fn parameter_without_a_schema_is_a_bad_parameter() {
    for location in [ParameterLocation::Path, ParameterLocation::Query] {
        let op = operation(
            "getPet",
            vec![Parameter { name: "petId".to_string(), location, required: true, schema: None }],
            vec![on(200, empty())],
        );
        assert!(matches!(get("/pets/{petId}", &op), Err(Error::BadParameter(n)) if n == "petId"));
    }
}
