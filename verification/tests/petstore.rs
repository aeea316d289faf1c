use hsr::compile::{build_routes, build_routes_under, generate, generate_under};
use hsr::error::Error;
use hsr::names::{name_document, PathNames, RouteNames};
use hsr::declare::format_rust_types;
use hsr::document::{
    Content, MediaType, NamedSchema, ObjectType, OpenAPI, Operation, Parameter,
    ParameterLocation, PathItem, Property, Schema, SchemaKind, SchemaNode, StatusCode,
    StatusResponse, Type,
};
use hsr::resolve::gather_types;
use hsr::typ::Typ;

fn item(ty: Type) -> SchemaNode {
    SchemaNode::Item(Schema { schema_kind: SchemaKind::Type(ty) })
}

fn reference(name: &str) -> SchemaNode {
    SchemaNode::Reference { reference: format!("#/components/schemas/{}", name) }
}

fn object(properties: Vec<(&str, SchemaNode)>, required: Vec<&str>) -> SchemaNode {
    item(Type::Object(ObjectType {
        properties: properties
            .into_iter()
            .map(|(name, schema)| Property { name: name.to_string(), schema })
            .collect(),
        required: required.into_iter().map(|name| name.to_string()).collect(),
    }))
}

fn named(name: &str, schema: SchemaNode) -> NamedSchema {
    NamedSchema { name: name.to_string(), schema }
}

fn json(schema: SchemaNode) -> Content {
    Content {
        media_types: vec![MediaType { name: "application/json".to_string(), schema: Some(schema) }],
    }
}

fn nothing() -> Content {
    Content { media_types: vec![] }
}

fn answer(code: u16, response: Content) -> StatusResponse {
    StatusResponse { status: StatusCode::Code(code), response }
}

fn no_operations(path: &str) -> PathItem {
    PathItem {
        path: path.to_string(),
        get: None,
        put: None,
        post: None,
        delete: None,
        options: None,
        head: None,
        patch: None,
        trace: None,
    }
}

fn petstore() -> OpenAPI {
    let schemas = vec![
        named(
            "Pet",
            object(
                vec![
                    ("id", item(Type::Integer)),
                    ("name", item(Type::String)),
                    ("tag", item(Type::String)),
                ],
                vec!["id", "name"],
            ),
        ),
        named(
            "NewPet",
            object(
                vec![("name", item(Type::String)), ("tag", item(Type::String))],
                vec!["name"],
            ),
        ),
        named("Pets", item(Type::Array(Box::new(reference("Pet"))))),
        named("SomeConflict", object(vec![("message", item(Type::String))], vec!["message"])),
        named(
            "Error",
            object(
                vec![("code", item(Type::Integer)), ("message", item(Type::String))],
                vec!["code", "message"],
            ),
        ),
    ];
    let get_all_pets = Operation {
        summary: Some("List all pets".to_string()),
        operation_id: Some("getAllPets".to_string()),
        parameters: vec![Parameter {
            name: "limit".to_string(),
            location: ParameterLocation::Query,
            required: false,
            schema: Some(item(Type::Integer)),
        }],
        request_body: None,
        responses: vec![answer(200, json(reference("Pets")))],
        default: None,
    };
    let create_pet = Operation {
        summary: None,
        operation_id: Some("createPet".to_string()),
        parameters: vec![],
        request_body: Some(json(reference("NewPet"))),
        responses: vec![
            answer(201, nothing()),
            answer(403, nothing()),
            answer(409, json(reference("SomeConflict"))),
        ],
        default: Some(json(reference("Error"))),
    };
    let get_pet = Operation {
        summary: None,
        operation_id: Some("getPet".to_string()),
        parameters: vec![Parameter {
            name: "petId".to_string(),
            location: ParameterLocation::Path,
            required: true,
            schema: Some(item(Type::Integer)),
        }],
        request_body: None,
        responses: vec![answer(200, json(reference("Pet")))],
        default: Some(json(reference("Error"))),
    };
    let mut pets = no_operations("/pets");
    pets.get = Some(get_all_pets);
    pets.post = Some(create_pet);
    let mut pet = no_operations("/pets/{petId}");
    pet.get = Some(get_pet);
    OpenAPI { schemas, paths: vec![pets, pet] }
}

fn petstore_expanded() -> OpenAPI {
    let mut api = petstore();
    api.schemas.push(named(
        "Owner",
        object(
            vec![
                ("pets", item(Type::Array(Box::new(reference("Pet"))))),
                ("address", item(Type::Array(Box::new(item(Type::Array(Box::new(item(Type::String)))))))),
                ("active", item(Type::Boolean)),
                ("weight", item(Type::Number)),
                (
                    "extra",
                    SchemaNode::Item(Schema {
                        schema_kind: SchemaKind::Any(ObjectType { properties: vec![], required: vec![] }),
                    }),
                ),
            ],
            vec!["pets"],
        ),
    ));
    api
}

const PETSTORE_TYPES: &str = "struct Error {\n    code: i64,\n    message: String,\n}\n\nstruct NewPet {\n    name: String,\n    tag: Option<String>,\n}\n\nstruct Pet {\n    id: i64,\n    name: String,\n    tag: Option<String>,\n}\n\ntype Pets = Vec<Pet>;\n\nstruct SomeConflict {\n    message: String,\n}\n\n";

#[test]
fn test_build_types_simple() {
    let api = petstore();
    let typs = gather_types(&api).unwrap();
    let rust = format_rust_types(&typs).unwrap();
    println!("{}", rust);
    assert_eq!(rust, PETSTORE_TYPES);
}

#[test]
fn test_build_types_complex() {
    let api = petstore_expanded();
    let typs = gather_types(&api).unwrap();
    assert_eq!(typs.len(), 6);
    let names: Vec<&str> = typs.entries().iter().map(|def| def.name.as_str()).collect();
    assert_eq!(names, vec!["Error", "NewPet", "Owner", "Pet", "Pets", "SomeConflict"]);
    match &typs.entries()[2].typ {
        Typ::Struct(fields) => {
            assert_eq!(fields.len(), 5);
            assert_eq!(fields[0].typ, Typ::Array(Box::new(Typ::Named("Pet".to_string()))));
            assert!(fields[0].required);
            assert_eq!(
                fields[1].typ,
                Typ::Array(Box::new(Typ::Array(Box::new(Typ::String))))
            );
            assert!(!fields[1].required);
            assert_eq!(fields[2].typ, Typ::Bool);
            assert_eq!(fields[3].typ, Typ::F64);
            assert_eq!(fields[4].typ, Typ::Any);
        }
        other => panic!("unexpected: {:?}", other),
    }
}

#[test]
fn build_types_simple() {
    let code = generate(&petstore()).unwrap();
    assert_eq!(code.types, PETSTORE_TYPES);
    assert_eq!(code.queries, "struct GetAllPetsQuery {\n    limit: Option<i64>,\n}\n\n");
    assert_eq!(
        code.service,
        "pub trait Api {\n    type Error: HasStatusCode;\n\
         /// List all pets\n\
         async fn get_all_pets(&self, limit: Option<i64>) -> std::result::Result<Pets, GetAllPetsError<Self::Error>>;\n\
         async fn create_pet(&self, new_pet: NewPet) -> std::result::Result<hsr::Success, CreatePetError<Self::Error>>;\n\
         async fn get_pet(&self, pet_id: i64) -> std::result::Result<Pet, GetPetError<Self::Error>>;\n\
         }\n"
    );
    assert_eq!(
        code.server,
        "pub fn register<A: Api + Send + Sync + 'static>(app: App) -> App {\n    app\n    \
         .route(\"/pets\", Method::GET, get_all_pets::<A>)\n    \
         .route(\"/pets\", Method::POST, create_pet::<A>)\n    \
         .route(\"/pets/{petId}\", Method::GET, get_pet::<A>)\n}\n"
    );
    assert!(code.errors.contains(
        "pub enum CreatePetError<E: HasStatusCode> {\n    E403,\n    E409(SomeConflict),\n    Default(Error),\n    Error(E),\n}\n"
    ));
    assert!(code.errors.contains(
        "pub enum GetPetError<E: HasStatusCode> {\n    Default(Error),\n    Error(E),\n}\n"
    ));
    assert!(code
        .errors
        .contains("pub enum GetAllPetsError<E: HasStatusCode> {\n    Error(E),\n}\n"));
    assert!(code.client.contains("    let path = format!(\"/pets/{}\", pet_id);\n"));
    assert!(code.client.contains("async fn get_all_pets(&self, limit: Option<i64>)"));
    assert!(code.client.contains("async fn create_pet(&self, new_pet: NewPet)"));
    assert!(code.client.contains("async fn get_pet(&self, pet_id: i64)"));
    assert!(code.dispatchers.contains("async fn get_pet<A: Api + Send + Sync>("));
}

#[test]
fn petstore_has_three_routes_in_the_order_of_the_document() {
    let routes = build_routes(&petstore()).unwrap();
    let ids: Vec<&str> = routes.iter().map(|r| r.operation_id().as_str()).collect();
    assert_eq!(ids, vec!["get_all_pets", "create_pet", "get_pet"]);
}

#[test]
fn compiling_twice_gives_the_same_text() {
    let first = generate(&petstore()).unwrap();
    let second = generate(&petstore()).unwrap();
    assert_eq!(first, second);
}

#[test]
fn create_pet_error_declaration_maps_every_variant_to_a_status() {
    let routes = build_routes(&petstore()).unwrap();
    let text = routes[1].generate_error_enum_def();
    assert_eq!(
        text,
        "#[derive(Debug)]\npub enum CreatePetError<E: HasStatusCode> {\n    E403,\n    E409(SomeConflict),\n    Default(Error),\n    Error(E),\n}\n\n\
         impl<E: HasStatusCode> From<E> for CreatePetError<E> {\n    fn from(e: E) -> Self {\n        Self::Error(e)\n    }\n}\n\n\
         impl<E: HasStatusCode> HasStatusCode for CreatePetError<E> {\n    fn status_code(&self) -> StatusCode {\n        use CreatePetError::*;\n        match self {\n            \
         E403 => StatusCode::from_u16(403).unwrap(),\n            \
         E409(_) => StatusCode::from_u16(409).unwrap(),\n            \
         Default(e) => e.status_code(),\n            \
         Error(e) => e.status_code(),\n        }\n    }\n}\n\n\
         impl<E: HasStatusCode> Responder for CreatePetError<E> {\n    type Error = Void;\n    type Future = Ready<Result<HttpResponse, <Self as Responder>::Error>>;\n\n    \
         fn respond_to(self, _: &HttpRequest) -> Self::Future {\n        let status = self.status_code();\n        use CreatePetError::*;\n        fut_ok(match self {\n            \
         E403 => HttpResponse::build(status).finish(),\n            \
         E409(payload) => HttpResponse::build(status).json(payload),\n            \
         Default(payload) => HttpResponse::build(status).json(payload),\n            \
         Error(_) => HttpResponse::build(status).finish(),\n        })\n    }\n}\n"
    );
}

#[test]
fn create_pet_client_decodes_each_declared_status() {
    let routes = build_routes(&petstore()).unwrap();
    let text = routes[1].generate_client_impl();
    assert_eq!(
        text,
        "#[allow(unused_mut)]\nasync fn create_pet(&self, new_pet: NewPet) -> std::result::Result<hsr::Success, CreatePetError<Self::Error>> {\n    \
         let path = format!(\"/pets\");\n    \
         let mut url = self.domain.join(&path).unwrap();\n    \
         let mut resp = self.inner\n        .request(Method::POST, url.as_str())\n        .send_json(&new_pet)\n        .await\n        \
         .map_err(|e| CreatePetError::Error(ClientError::Actix(e.into())))?;\n    \
         match resp.status().as_u16() {\n        \
         201 => Ok(hsr::Success),\n        \
         403 => Err(CreatePetError::E403),\n        \
         409 => match resp.json::<SomeConflict>().await {\n            \
         Ok(json) => Err(CreatePetError::E409(json)),\n            \
         Err(e) => Err(CreatePetError::Error(ClientError::Actix(e.into()))),\n        },\n        \
         _ => Err(CreatePetError::Error(ClientError::BadStatus(resp.status()))),\n    }\n}\n"
    );
}

#[test]
fn get_all_pets_client_appends_the_query() {
    let routes = build_routes(&petstore()).unwrap();
    let text = routes[0].generate_client_impl();
    assert!(text.contains(
        "    {\n        let qstyp = GetAllPetsQuery { limit, };\n        let qs = serde_urlencoded::to_string(qstyp).unwrap();\n        url.set_query(Some(&qs));\n    }\n"
    ));
    assert!(text.contains("        200 => resp.json::<Pets>().await.map_err(|e| GetAllPetsError::Error(ClientError::Actix(e.into()))),\n"));
    assert!(text.contains("        .send()\n"));
}

#[test]
fn get_pet_dispatcher_hands_the_path_parameter_on() {
    let routes = build_routes(&petstore()).unwrap();
    let text = routes[2].generate_dispatcher("Api");
    assert_eq!(
        text,
        "async fn get_pet<A: Api + Send + Sync>(\n    data: AxData<A>,\n    pet_id: AxPath<i64>,\n\
         ) -> AxEither<(AxJson<Pet>, StatusCode), GetPetError<A::Error>> {\n    \
         let out = data.get_pet(pet_id.into_inner(), ).await;\n    \
         let out = out.map(AxJson).map(|return_val| (return_val, StatusCode::from_u16(200).unwrap()));\n    \
         hsr::result_to_either(out)\n}\n"
    );
}

#[test]
fn get_all_pets_dispatcher_takes_the_query_apart() {
    let routes = build_routes(&petstore()).unwrap();
    let text = routes[0].generate_dispatcher("Api");
    assert!(text.contains("    query: AxQuery<GetAllPetsQuery>,\n"));
    assert!(text.contains("    let GetAllPetsQuery { limit, } = query.into_inner();\n"));
    assert!(text.contains("    let out = data.get_all_pets(limit, ).await;\n"));
}

#[test]
fn create_pet_dispatcher_takes_the_body_and_returns_the_empty_success() {
    let routes = build_routes(&petstore()).unwrap();
    let text = routes[1].generate_dispatcher("Api");
    assert!(text.contains("    AxJson(body): AxJson<NewPet>,\n"));
    assert!(text.contains(") -> AxEither<(hsr::Success, StatusCode), CreatePetError<A::Error>> {\n"));
    assert!(text.contains("    let out = data.create_pet(body).await;\n"));
    assert!(text.contains(
        "    let out = out.map(|return_val| (return_val, StatusCode::from_u16(201).unwrap()));\n"
    ));
}

fn no_names() -> PathNames {
    PathNames {
        get: None,
        put: None,
        post: None,
        delete: None,
        options: None,
        head: None,
        patch: None,
        trace: None,
    }
}

fn identifiers(operation: &str, stem: &str, parameters: Vec<&str>, body: Option<&str>) -> RouteNames {
    RouteNames {
        operation: Some(operation.to_string()),
        stem: Some(stem.to_string()),
        parameters: parameters.into_iter().map(|p| p.to_string()).collect(),
        body: body.map(|b| b.to_string()),
    }
}

fn petstore_names() -> Vec<PathNames> {
    let mut pets = no_names();
    pets.get = Some(identifiers("get_all_pets", "GetAllPets", vec!["limit"], None));
    pets.post = Some(identifiers("create_pet", "CreatePet", vec![], Some("new_pet")));
    let mut pet = no_names();
    pet.get = Some(identifiers("get_pet", "GetPet", vec!["pet_id"], None));
    vec![pets, pet]
}

#[test]
fn names_of_the_petstore_are_converted_path_by_path() {
    assert_eq!(name_document(&petstore()), petstore_names());
}

#[test]
fn compiling_under_the_converted_names_is_compiling() {
    let api = petstore();
    assert_eq!(generate_under(&api, &petstore_names()).unwrap(), generate(&api).unwrap());
}

#[test]
fn compiling_under_other_names_changes_the_routes_and_not_the_types() {
    let api = petstore();
    let mut names = petstore_names();
    names[1].get = Some(identifiers("fetch", "Fetch", vec!["which"], None));
    let code = generate_under(&api, &names).unwrap();
    assert_eq!(code.types, PETSTORE_TYPES);
    assert!(code.service.contains(
        "async fn fetch(&self, which: i64) -> std::result::Result<Pet, FetchError<Self::Error>>;\n"
    ));
    assert!(code.client.contains("    let path = format!(\"/pets/{}\", which);\n"));
}

#[test]
fn names_must_be_given_for_every_path_and_every_operation() {
    let api = petstore();
    let mut short = petstore_names();
    short.pop();
    assert!(matches!(generate_under(&api, &short), Err(Error::CodeGen)));
    assert!(matches!(build_routes_under(&api, &vec![]), Err(Error::CodeGen)));
    let mut missing = petstore_names();
    missing[0].post = None;
    assert!(matches!(build_routes_under(&api, &missing), Err(Error::CodeGen)));
    let mut extra = petstore_names();
    extra[1].trace = Some(identifiers("unused", "Unused", vec![], None));
    assert_eq!(build_routes_under(&api, &extra).unwrap().len(), 3);
}

#[test]
fn two_operations_given_one_function_are_refused() {
    let api = petstore();
    let mut names = petstore_names();
    names[1].get = Some(identifiers("create_pet", "GetPet", vec!["pet_id"], None));
    assert!(matches!(
        generate_under(&api, &names),
        Err(Error::DuplicateName(n)) if n == "create_pet"
    ));
}
