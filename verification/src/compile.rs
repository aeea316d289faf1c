//! The compiler from a document to the emitted artifacts.
//!
//! The table of types is resolved and declared first; then one route is
//! built for each operation of each path, in the order of the document and,
//! within a path, in the order get, put, post, delete, options, head, patch,
//! trace; then the emitters run over the routes. The first failure ends the
//! compilation, and nothing is emitted.

use vstd::prelude::*;
use vstd::string::*;
use crate::client::client_text;
use crate::declare::{
    definitions_text, format_rust_types, lemma_struct_text_exists, define_struct, struct_text,
};
use crate::document::{OpenAPI, Operation, PathItem};
use crate::emit::{method_name, render_method};
use crate::error::{Error, ErrorView, Result};
use crate::path::template_text;
use crate::resolve::{gather_types, lemma_table_is_ascending, type_table};
use crate::table::ascending;
use crate::names::{
    name_document, names_of_document, paths_names_view, PathNames, PathNamesView, RouteNames,
    RouteNamesView,
};
use crate::route::{
    query_type_name, route_of, route_result_view, route_with_body_under, route_wf, Method,
    MethodView, MethodWithBody, MethodWithoutBody, Route, RouteView,
};
use crate::server::{dispatcher_text, signature_text};
use crate::taxonomy::{declaration_text, taxonomy_of};
use crate::text::{concat, concat_texts, same_text};
use crate::typ::{defs_view, fields_view};

verus! {

/// The operation that a path item declares for the method of a slot, the
/// slots being numbered in the order get, put, post, delete, options, head,
/// patch, trace.
pub open spec fn operation_at(item: PathItem, slot: int) -> Option<Operation> {
    if slot == 0 {
        item.get
    } else if slot == 1 {
        item.put
    } else if slot == 2 {
        item.post
    } else if slot == 3 {
        item.delete
    } else if slot == 4 {
        item.options
    } else if slot == 5 {
        item.head
    } else if slot == 6 {
        item.patch
    } else if slot == 7 {
        item.trace
    } else {
        None
    }
}

/// The identifiers that are given for the operation of a slot.
pub open spec fn names_at(names: PathNamesView, slot: int) -> Option<RouteNamesView> {
    if slot == 0 {
        names.get
    } else if slot == 1 {
        names.put
    } else if slot == 2 {
        names.post
    } else if slot == 3 {
        names.delete
    } else if slot == 4 {
        names.options
    } else if slot == 5 {
        names.head
    } else if slot == 6 {
        names.patch
    } else if slot == 7 {
        names.trace
    } else {
        None
    }
}

/// The route of an operation under the method of its slot and under given
/// identifiers.
pub open spec fn route_in_slot(
    path: Seq<char>,
    slot: int,
    op: Operation,
    names: RouteNamesView,
    api: OpenAPI,
) -> core::result::Result<RouteView, ErrorView> {
    if slot == 0 {
        route_of(path, MethodView::WithoutBody(MethodWithoutBody::Get), op, names, api)
    } else if slot == 1 {
        route_with_body_under(path, MethodWithBody::Put, op, names, api)
    } else if slot == 2 {
        route_with_body_under(path, MethodWithBody::Post, op, names, api)
    } else if slot == 3 {
        route_with_body_under(path, MethodWithBody::Delete, op, names, api)
    } else if slot == 4 {
        route_of(path, MethodView::WithoutBody(MethodWithoutBody::Options), op, names, api)
    } else if slot == 5 {
        route_of(path, MethodView::WithoutBody(MethodWithoutBody::Head), op, names, api)
    } else if slot == 6 {
        route_with_body_under(path, MethodWithBody::Patch, op, names, api)
    } else {
        route_of(path, MethodView::WithoutBody(MethodWithoutBody::Trace), op, names, api)
    }
}

/// The route of the operation that a path item declares in a slot, if it
/// declares one there, under the identifiers given for that slot. An
/// operation without identifiers has no route.
pub open spec fn route_at(item: PathItem, slot: int, names: PathNamesView, api: OpenAPI) -> Option<
    core::result::Result<RouteView, ErrorView>,
> {
    match operation_at(item, slot) {
        None => None,
        Some(op) => Some(
            match names_at(names, slot) {
                None => Err(ErrorView::CodeGen),
                Some(given) => route_in_slot(item.path@, slot, op, given, api),
            },
        ),
    }
}

/// Whether one of the routes has this function.
pub open spec fn has_route(routes: Seq<RouteView>, operation_id: Seq<char>) -> bool {
    exists|i: int| 0 <= i < routes.len() && (#[trigger] routes[i]).operation_id == operation_id
}

/// The routes of the first `n` slots of the document, counting eight slots
/// for each path, under the identifiers given path by path. A slot fails
/// where its route fails, or where an earlier route has the function of its
/// route.
pub open spec fn routes_upto(api: OpenAPI, names: Seq<PathNamesView>, n: nat) -> core::result::Result<
    Seq<RouteView>,
    ErrorView,
>
    decreases n,
{
    if n == 0 || n > 8 * api.paths@.len() || n > 8 * names.len() {
        Ok(Seq::empty())
    } else {
        match routes_upto(api, names, (n - 1) as nat) {
            Err(e) => Err(e),
            Ok(sofar) => match route_at(
                api.paths@[(n - 1) / 8],
                (n - 1) % 8,
                names[(n - 1) / 8],
                api,
            ) {
                None => Ok(sofar),
                Some(Err(e)) => Err(e),
                Some(Ok(route)) => if has_route(sofar, route.operation_id) {
                    Err(ErrorView::DuplicateName(route.operation_id))
                } else {
                    Ok(sofar.push(route))
                },
            },
        }
    }
}

/// The routes of a whole document under given identifiers, which must be
/// given for as many paths as the document has.
pub open spec fn route_set_under(api: OpenAPI, names: Seq<PathNamesView>) -> core::result::Result<
    Seq<RouteView>,
    ErrorView,
> {
    if names.len() != api.paths@.len() {
        Err(ErrorView::CodeGen)
    } else {
        routes_upto(api, names, 8 * api.paths@.len())
    }
}

/// The routes of a whole document, under the identifiers that its names
/// convert to.
pub open spec fn route_set(api: OpenAPI) -> core::result::Result<Seq<RouteView>, ErrorView> {
    route_set_under(api, names_of_document(api))
}

/// The routes of a list, each by its view.
pub open spec fn routes_view(routes: Seq<Route>) -> Seq<RouteView> {
    Seq::new(routes.len(), |i: int| routes[i]@)
}

/// Once a slot has failed, the routes stay failed with the same error.
pub proof fn lemma_routes_error_stays(api: OpenAPI, names: Seq<PathNamesView>, k: nat, n: nat)
    requires
        k <= n <= 8 * api.paths@.len(),
        names.len() == api.paths@.len(),
        routes_upto(api, names, k) is Err,
    ensures
        routes_upto(api, names, n) == routes_upto(api, names, k),
    decreases n,
{
    if k < n {
        lemma_routes_error_stays(api, names, k, (n - 1) as nat);
    }
}

/// The routes of a document are sound, and no two of them have the same
/// function.
pub proof fn lemma_route_set_sound(api: OpenAPI, names: Seq<PathNamesView>, n: nat)
    ensures
        routes_upto(api, names, n) matches Ok(routes) ==> {
            &&& forall|i: int| 0 <= i < routes.len() ==> route_wf(#[trigger] routes[i])
            &&& forall|i: int, j: int|
                0 <= i < j < routes.len() ==> (#[trigger] routes[i]).operation_id != (
                #[trigger] routes[j]).operation_id
        },
    decreases n,
{
    if !(n == 0 || n > 8 * api.paths@.len() || n > 8 * names.len()) {
        lemma_route_set_sound(api, names, (n - 1) as nat);
        if let Ok(routes) = routes_upto(api, names, n) {
            let item = api.paths@[(n - 1) / 8];
            let slot = (n - 1) % 8;
            if let Some(Ok(route)) = route_at(item, slot, names[(n - 1) / 8], api) {
                let op = operation_at(item, slot)->0;
                let given = names_at(names[(n - 1) / 8], slot)->0;
                crate::route::lemma_route_sound(item.path@, route.method, op, given, api);
            }
        }
    }
}

/// The type that holds the query parameters of a route, declared as a
/// record, where the route has query parameters.
pub open spec fn query_type_text(route: RouteView) -> Seq<char> {
    match query_type_name(route) {
        Some(name) => struct_text(name, route.query_params)->Ok_0 + "\n\n"@,
        None => ""@,
    }
}

/// One line of the server's registration table: the method, the path
/// template and the adapter of a route.
pub open spec fn registration_text(route: RouteView) -> Seq<char> {
    "    .route(\""@ + template_text(route.path) + "\", Method::"@ + method_name(route.method)
        + ", "@ + route.operation_id + "::<A>)\n"@
}

/// The declarations of the query types of the routes.
pub open spec fn query_type_texts(routes: Seq<RouteView>) -> Seq<Seq<char>> {
    Seq::new(routes.len(), |i: int| query_type_text(routes[i]))
}

/// The declarations of the error taxonomies of the routes.
pub open spec fn error_texts(routes: Seq<RouteView>) -> Seq<Seq<char>> {
    Seq::new(routes.len(), |i: int| declaration_text(taxonomy_of(routes[i])))
}

/// The signatures of the operations of the routes.
pub open spec fn signature_texts(routes: Seq<RouteView>) -> Seq<Seq<char>> {
    Seq::new(routes.len(), |i: int| signature_text(routes[i]))
}

/// The dispatch adapters of the routes.
pub open spec fn dispatcher_texts(routes: Seq<RouteView>, trait_name: Seq<char>) -> Seq<Seq<char>> {
    Seq::new(routes.len(), |i: int| dispatcher_text(routes[i], trait_name))
}

/// The lines of the registration table, one for each route.
pub open spec fn registration_texts(routes: Seq<RouteView>) -> Seq<Seq<char>> {
    Seq::new(routes.len(), |i: int| registration_text(routes[i]))
}

/// The client methods of the routes.
pub open spec fn client_texts(routes: Seq<RouteView>) -> Seq<Seq<char>> {
    Seq::new(routes.len(), |i: int| client_text(routes[i]))
}

/// Everything that is emitted for a document, by group.
#[derive(Debug, Clone, PartialEq, Eq)]
pub struct Generated {
    /// The declarations of the named types, one for each, in the order of
    /// their names.
    pub types: String,
    /// The declarations of the types that hold the query parameters, one for
    /// each route that has any.
    pub queries: String,
    /// The declarations of the error taxonomies, one for each route.
    pub errors: String,
    /// The service contract: one signature for each route.
    pub service: String,
    /// The dispatch adapters, one for each route.
    pub dispatchers: String,
    /// The server's registration table, one line for each route.
    pub server: String,
    /// The client, with one method for each route.
    pub client: String,
}

/// [`Generated`] as contracts speak of it.
pub struct GeneratedView {
    pub types: Seq<char>,
    pub queries: Seq<char>,
    pub errors: Seq<char>,
    pub service: Seq<char>,
    pub dispatchers: Seq<char>,
    pub server: Seq<char>,
    pub client: Seq<char>,
}

impl View for Generated {
    type V = GeneratedView;

    open spec fn view(&self) -> GeneratedView {
        GeneratedView {
            types: self.types@,
            queries: self.queries@,
            errors: self.errors@,
            service: self.service@,
            dispatchers: self.dispatchers@,
            server: self.server@,
            client: self.client@,
        }
    }
}

/// The name of the service contract.
pub open spec fn service_name() -> Seq<char> {
    "Api"@
}

/// What is emitted for the declared types and the routes of a document.
pub open spec fn emitted(type_text: Seq<char>, routes: Seq<RouteView>) -> GeneratedView {
    GeneratedView {
        types: type_text,
        queries: concat(query_type_texts(routes)),
        errors: concat(error_texts(routes)),
        service: "pub trait "@ + service_name() + " {\n    type Error: HasStatusCode;\n"@ + concat(
            signature_texts(routes),
        ) + "}\n"@,
        dispatchers: concat(dispatcher_texts(routes, service_name())),
        server: "pub fn register<A: "@ + service_name()
            + " + Send + Sync + 'static>(app: App) -> App {\n    app\n"@ + concat(
            registration_texts(routes),
        ) + "}\n"@,
        client: "pub struct Client {\n    domain: Url,\n    inner: awc::Client,\n}\n\nimpl "@
            + service_name() + " for Client {\n    type Error = ClientError;\n"@ + concat(
            client_texts(routes),
        ) + "}\n"@,
    }
}

/// What compiling a document under given identifiers gives: the emitted
/// artifacts, or the first failure of the table of types, of their
/// declarations, or of the routes, in this order.
pub open spec fn compile_under(api: OpenAPI, names: Seq<PathNamesView>) -> core::result::Result<
    GeneratedView,
    ErrorView,
> {
    match type_table(api) {
        Err(e) => Err(e),
        Ok(defs) => match definitions_text(defs, defs.len()) {
            Err(e) => Err(e),
            Ok(type_text) => match route_set_under(api, names) {
                Err(e) => Err(e),
                Ok(routes) => Ok(emitted(type_text, routes)),
            },
        },
    }
}

/// What compiling a document gives, under the identifiers that its names
/// convert to.
pub open spec fn compile(api: OpenAPI) -> core::result::Result<GeneratedView, ErrorView> {
    compile_under(api, names_of_document(api))
}

/// The declared types of a compiled document are the declarations of its
/// table of types, in the order of their names, whatever the identifiers of
/// its routes.
pub proof fn lemma_types_are_the_table(api: OpenAPI, names: Seq<PathNamesView>)
    ensures
        compile_under(api, names) matches Ok(code) ==> {
            &&& type_table(api) matches Ok(defs)
            &&& ascending(defs)
            &&& definitions_text(defs, defs.len()) == Ok::<Seq<char>, ErrorView>(code.types)
        },
{
    lemma_table_is_ascending(api, api.schemas@.len());
}

/// A result of the compiler as contracts speak of it.
pub open spec fn generated_result_view(r: Result<Generated>) -> core::result::Result<
    GeneratedView,
    ErrorView,
> {
    match r {
        Ok(g) => Ok(g@),
        Err(e) => Err(e@),
    }
}

/// Compiling is a function of the document: two compilations of one
/// document end alike, and where they succeed their artifacts are the same
/// text, group by group.
pub proof fn lemma_compile_twice(api: OpenAPI, first: Result<Generated>, second: Result<Generated>)
    requires
        generated_result_view(first) == compile(api),
        generated_result_view(second) == compile(api),
    ensures
        first is Ok <==> second is Ok,
        first is Err ==> first->Err_0@ == second->Err_0@,
        first is Ok ==> {
            &&& first->Ok_0.types@ == second->Ok_0.types@
            &&& first->Ok_0.queries@ == second->Ok_0.queries@
            &&& first->Ok_0.errors@ == second->Ok_0.errors@
            &&& first->Ok_0.service@ == second->Ok_0.service@
            &&& first->Ok_0.dispatchers@ == second->Ok_0.dispatchers@
            &&& first->Ok_0.server@ == second->Ok_0.server@
            &&& first->Ok_0.client@ == second->Ok_0.client@
        },
{
}

/// The route of an operation of a path, if the path declares it, under the
/// identifiers given for it.
fn route_under(
    path: &str,
    slot: u8,
    op: &Option<Operation>,
    names: &Option<RouteNames>,
    api: &OpenAPI,
) -> (route: Option<Result<Route>>)
    requires
        slot < 8,
    ensures
        match route {
            None => *op is None,
            Some(built) => *op is Some && route_result_view(built) == (match *names {
                None => Err::<RouteView, ErrorView>(ErrorView::CodeGen),
                Some(given) => route_in_slot(path@, slot as int, op->0, given@, *api),
            }),
        },
{
    let op = match op {
        Some(op) => op,
        None => {
            return None;
        },
    };
    let names = match names {
        Some(names) => names,
        None => {
            return Some(Err(Error::CodeGen));
        },
    };
    let built = if slot == 0 {
        Route::build(path, Method::WithoutBody(MethodWithoutBody::Get), op, names, api)
    } else if slot == 1 {
        Route::with_body_under(path, MethodWithBody::Put, op, names, api)
    } else if slot == 2 {
        Route::with_body_under(path, MethodWithBody::Post, op, names, api)
    } else if slot == 3 {
        Route::with_body_under(path, MethodWithBody::Delete, op, names, api)
    } else if slot == 4 {
        Route::build(path, Method::WithoutBody(MethodWithoutBody::Options), op, names, api)
    } else if slot == 5 {
        Route::build(path, Method::WithoutBody(MethodWithoutBody::Head), op, names, api)
    } else if slot == 6 {
        Route::with_body_under(path, MethodWithBody::Patch, op, names, api)
    } else {
        Route::build(path, Method::WithoutBody(MethodWithoutBody::Trace), op, names, api)
    };
    Some(built)
}

/// The route of the operation that a path item declares in a slot.
fn route_for(item: &PathItem, slot: u8, names: &PathNames, api: &OpenAPI) -> (route: Option<
    Result<Route>,
>)
    requires
        slot < 8,
    ensures
        match route {
            None => route_at(*item, slot as int, names@, *api) is None,
            Some(built) => route_at(*item, slot as int, names@, *api) == Some(
                route_result_view(built),
            ),
        },
{
    let path = item.path.as_str();
    if slot == 0 {
        route_under(path, slot, &item.get, &names.get, api)
    } else if slot == 1 {
        route_under(path, slot, &item.put, &names.put, api)
    } else if slot == 2 {
        route_under(path, slot, &item.post, &names.post, api)
    } else if slot == 3 {
        route_under(path, slot, &item.delete, &names.delete, api)
    } else if slot == 4 {
        route_under(path, slot, &item.options, &names.options, api)
    } else if slot == 5 {
        route_under(path, slot, &item.head, &names.head, api)
    } else if slot == 6 {
        route_under(path, slot, &item.patch, &names.patch, api)
    } else {
        route_under(path, slot, &item.trace, &names.trace, api)
    }
}

/// Whether one of the routes has this function.
fn route_named(routes: &Vec<Route>, operation_id: &str) -> (found: bool)
    ensures
        found == has_route(routes_view(routes@), operation_id@),
{
    let mut i: usize = 0;
    while i < routes.len()
        invariant
            i <= routes.len(),
            forall|j: int|
                0 <= j < i ==> (#[trigger] routes_view(routes@)[j]).operation_id != operation_id@,
        decreases routes.len() - i,
    {
        if same_text(routes[i].operation_id().as_str(), operation_id) {
            assert(routes_view(routes@)[i as int].operation_id == operation_id@);
            return true;
        }
        i += 1;
    }
    false
}

/// Builds the routes of a document, in the order of the document, under
/// identifiers given path by path.
///
/// Fails with `CodeGen` where the identifiers are not given for as many
/// paths as the document has or are missing for an operation, with the
/// first failure of a route, and with `DuplicateName` on a function that
/// two operations share.
pub fn build_routes_under(api: &OpenAPI, names: &Vec<PathNames>) -> (routes: Result<Vec<Route>>)
    ensures
        match routes {
            Ok(list) => route_set_under(*api, paths_names_view(names@)) == Ok::<
                Seq<RouteView>,
                ErrorView,
            >(routes_view(list@)),
            Err(e) => route_set_under(*api, paths_names_view(names@)) == Err::<
                Seq<RouteView>,
                ErrorView,
            >(e@),
        },
{
    if names.len() != api.paths.len() {
        return Err(Error::CodeGen);
    }
    let ghost given = paths_names_view(names@);
    let mut routes: Vec<Route> = Vec::new();
    let mut i: usize = 0;
    assert(routes_view(routes@) =~= Seq::<RouteView>::empty());
    while i < api.paths.len()
        invariant
            i <= api.paths.len(),
            names@.len() == api.paths@.len(),
            given == paths_names_view(names@),
            routes_upto(*api, given, (8 * i) as nat) == Ok::<Seq<RouteView>, ErrorView>(
                routes_view(routes@),
            ),
        decreases api.paths.len() - i,
    {
        let item = &api.paths[i];
        let item_names = &names[i];
        assert(given[i as int] == item_names@);
        let mut slot: u8 = 0;
        while slot < 8
            invariant
                i < api.paths.len(),
                slot <= 8,
                names@.len() == api.paths@.len(),
                given == paths_names_view(names@),
                *item == api.paths@[i as int],
                item_names@ == given[i as int],
                routes_upto(*api, given, (8 * i + slot) as nat) == Ok::<Seq<RouteView>, ErrorView>(
                    routes_view(routes@),
                ),
            decreases 8 - slot,
        {
            let ghost n = (8 * i + slot + 1) as nat;
            proof {
                assert((n - 1) / 8 == i as int);
                assert((n - 1) % 8 == slot as int);
                if routes_upto(*api, given, n) is Err {
                    lemma_routes_error_stays(*api, given, n, (8 * api.paths@.len()) as nat);
                }
            }
            match route_for(item, slot, item_names, api) {
                None => {},
                Some(Err(e)) => {
                    return Err(e);
                },
                Some(Ok(route)) => {
                    if route_named(&routes, route.operation_id().as_str()) {
                        return Err(Error::DuplicateName(route.operation_id().clone()));
                    }
                    let ghost before = routes_view(routes@);
                    let ghost view = route@;
                    routes.push(route);
                    assert(routes_view(routes@) =~= before.push(view));
                },
            }
            slot += 1;
        }
        i += 1;
    }
    Ok(routes)
}

/// Builds the routes of a document, in the order of the document.
///
/// The identifiers are those of [`name_document`]; fails as
/// [`build_routes_under`] does.
pub fn build_routes(api: &OpenAPI) -> (routes: Result<Vec<Route>>)
    ensures
        match routes {
            Ok(list) => route_set(*api) == Ok::<Seq<RouteView>, ErrorView>(routes_view(list@)),
            Err(e) => route_set(*api) == Err::<Seq<RouteView>, ErrorView>(e@),
        },
{
    let names = name_document(api);
    build_routes_under(api, &names)
}

impl Route {
    /// The declaration of the type that holds the query parameters.
    pub fn generate_query_type(&self) -> (text: String)
        ensures
            text@ == query_type_text(self@),
    {
        proof {
            use_type_invariant(self);
            self.lemma_fields();
        }
        match self.generate_query_type_name() {
            Some(name) => {
                proof {
                    lemma_struct_text_exists(name@, self@.query_params);
                }
                let mut text = match define_struct(name.as_str(), &self.query_params) {
                    Ok(t) => t,
                    Err(_) => vstd::pervasive::unreached(),
                };
                text.append("\n\n");
                text
            },
            None => String::from_str(""),
        }
    }

    /// The line of the route in the server's registration table.
    pub fn generate_registration(&self) -> (text: String)
        ensures
            text@ == registration_text(self@),
    {
        proof {
            use_type_invariant(self);
            self.lemma_fields();
        }
        let mut text = String::from_str("    .route(\"");
        text.append(self.path.to_string().as_str());
        text.append("\", Method::");
        text.append(render_method(&self.method));
        text.append(", ");
        text.append(self.operation_id.as_str());
        text.append("::<A>)\n");
        text
    }
}

/// Emits the artifacts of the routes of a document after the declarations
/// of its types.
pub fn emit(type_text: String, routes: &Vec<Route>) -> (generated: Generated)
    ensures
        generated@ == emitted(type_text@, routes_view(routes@)),
{
    let ghost views = routes_view(routes@);
    let mut queries: Vec<String> = Vec::new();
    let mut errors: Vec<String> = Vec::new();
    let mut signatures: Vec<String> = Vec::new();
    let mut dispatchers: Vec<String> = Vec::new();
    let mut registrations: Vec<String> = Vec::new();
    let mut methods: Vec<String> = Vec::new();
    let mut i: usize = 0;
    while i < routes.len()
        invariant
            i <= routes.len(),
            views == routes_view(routes@),
            queries@.len() == i,
            errors@.len() == i,
            signatures@.len() == i,
            dispatchers@.len() == i,
            registrations@.len() == i,
            methods@.len() == i,
            forall|j: int| 0 <= j < i ==> (#[trigger] queries@[j])@ == query_type_text(views[j]),
            forall|j: int|
                0 <= j < i ==> (#[trigger] errors@[j])@ == declaration_text(taxonomy_of(views[j])),
            forall|j: int| 0 <= j < i ==> (#[trigger] signatures@[j])@ == signature_text(views[j]),
            forall|j: int|
                0 <= j < i ==> (#[trigger] dispatchers@[j])@ == dispatcher_text(
                    views[j],
                    service_name(),
                ),
            forall|j: int|
                0 <= j < i ==> (#[trigger] registrations@[j])@ == registration_text(views[j]),
            forall|j: int| 0 <= j < i ==> (#[trigger] methods@[j])@ == client_text(views[j]),
        decreases routes.len() - i,
    {
        let route = &routes[i];
        assert(views[i as int] == route@);
        queries.push(route.generate_query_type());
        errors.push(route.generate_error_enum_def());
        signatures.push(route.generate_signature());
        dispatchers.push(route.generate_dispatcher("Api"));
        registrations.push(route.generate_registration());
        methods.push(route.generate_client_impl());
        i += 1;
    }
    proof {
        assert(queries.deep_view() =~= query_type_texts(views));
        assert(errors.deep_view() =~= error_texts(views));
        assert(signatures.deep_view() =~= signature_texts(views));
        assert(dispatchers.deep_view() =~= dispatcher_texts(views, service_name()));
        assert(registrations.deep_view() =~= registration_texts(views));
        assert(methods.deep_view() =~= client_texts(views));
    }
    let mut service = String::from_str("pub trait ");
    service.append("Api");
    service.append(" {\n    type Error: HasStatusCode;\n");
    service.append(concat_texts(&signatures).as_str());
    service.append("}\n");
    let mut server = String::from_str("pub fn register<A: ");
    server.append("Api");
    server.append(" + Send + Sync + 'static>(app: App) -> App {\n    app\n");
    server.append(concat_texts(&registrations).as_str());
    server.append("}\n");
    let mut client = String::from_str(
        "pub struct Client {\n    domain: Url,\n    inner: awc::Client,\n}\n\nimpl ",
    );
    client.append("Api");
    client.append(" for Client {\n    type Error = ClientError;\n");
    client.append(concat_texts(&methods).as_str());
    client.append("}\n");
    Generated {
        types: type_text,
        queries: concat_texts(&queries),
        errors: concat_texts(&errors),
        service,
        dispatchers: concat_texts(&dispatchers),
        server,
        client,
    }
}

/// Compiles a document under identifiers given path by path.
///
/// Fails with the first failure of [`gather_types`], of
/// [`format_rust_types`] or of [`build_routes_under`], in this order.
pub fn generate_under(api: &OpenAPI, names: &Vec<PathNames>) -> (generated: Result<Generated>)
    ensures
        generated_result_view(generated) == compile_under(*api, paths_names_view(names@)),
{
    let typs = gather_types(api)?;
    let rust_defs = format_rust_types(&typs)?;
    let routes = build_routes_under(api, names)?;
    Ok(emit(rust_defs, &routes))
}

/// Compiles a document.
///
/// The identifiers are those of [`name_document`]; fails as
/// [`generate_under`] does.
pub fn generate(api: &OpenAPI) -> (generated: Result<Generated>)
    ensures
        generated_result_view(generated) == compile(*api),
{
    let names = name_document(api);
    generate_under(api, &names)
}

} // verus!
