//! The route builder: one validated route per operation of the document.
//!
//! A route holds what the emitters need of an operation: its identifiers,
//! method and path, the path and query parameters with their types, the one
//! success response, the declared error responses and the default error. A
//! route that exists is sound: its path parameters are as many as the
//! placeholders of its path, its statuses are of the right class, and every
//! type in it can be written by name.

use vstd::prelude::*;
use vstd::string::*;
use crate::document::{
    Content, OpenAPI, Operation, Parameter, ParameterLocation, SchemaNode, StatusCode,
    StatusResponse,
};
use crate::error::{Error, ErrorView, Result};
use crate::names::{name_operation, names_of, RouteNames, RouteNamesView};
use crate::path::{parse_template, placeholders, RoutePath, SegmentView};
use crate::resolve::{build_type, resolve, typ_result_view};
use crate::status::{
    is_client_error, is_status, is_success, status_exists, status_is_client_error,
    status_is_success,
};
use crate::text::same_text;
use crate::typ::{
    all_named, element, field_named, fields_view, has_field, lemma_named_iff_simple, name_of,
    option_named, typ_option_view, type_text, Field, FieldView, Typ, TypView,
};

verus! {

/// The methods of requests that carry no body.
#[derive(Debug, Clone, Copy, PartialEq, Eq)]
pub enum MethodWithoutBody {
    Get,
    Head,
    Options,
    Trace,
}

/// The methods of requests that may carry a body.
#[derive(Debug, Clone, Copy, PartialEq, Eq)]
pub enum MethodWithBody {
    Post,
    Delete,
    Put,
    Patch,
}

/// The method of a route, with the type of the request body where the method
/// allows one and the operation declares one.
#[derive(Debug, PartialEq)]
pub enum Method {
    WithoutBody(MethodWithoutBody),
    WithBody { method: MethodWithBody, body_type: Option<Typ> },
}

/// A [`Method`] as contracts speak of it.
pub enum MethodView {
    WithoutBody(MethodWithoutBody),
    WithBody { method: MethodWithBody, body_type: Option<TypView> },
}

impl View for Method {
    type V = MethodView;

    open spec fn view(&self) -> MethodView {
        match self {
            Method::WithoutBody(m) => MethodView::WithoutBody(*m),
            Method::WithBody { method, body_type } => MethodView::WithBody {
                method: *method,
                body_type: typ_option_view(*body_type),
            },
        }
    }
}

/// A response of a route: its status, and the type of its content if it has
/// any.
#[derive(Debug, PartialEq)]
pub struct Outcome {
    pub status: u16,
    pub typ: Option<Typ>,
}

/// An [`Outcome`] as contracts speak of it.
pub struct OutcomeView {
    pub status: u16,
    pub typ: Option<TypView>,
}

impl View for Outcome {
    type V = OutcomeView;

    open spec fn view(&self) -> OutcomeView {
        OutcomeView { status: self.status, typ: typ_option_view(self.typ) }
    }
}

/// The outcomes of a list, each by its view.
pub open spec fn outcomes_view(outcomes: Seq<Outcome>) -> Seq<OutcomeView> {
    Seq::new(outcomes.len(), |i: int| outcomes[i]@)
}

/// Everything that the emitters need of one operation.
#[derive(Debug)]
pub struct Route {
    pub(crate) summary: Option<String>,
    pub(crate) operation_id: String,
    pub(crate) stem: String,
    pub(crate) method: Method,
    pub(crate) body_name: String,
    pub(crate) path: RoutePath,
    pub(crate) path_args: Vec<Field>,
    pub(crate) query_params: Vec<Field>,
    pub(crate) return_ty: Outcome,
    pub(crate) err_tys: Vec<Outcome>,
    pub(crate) default_err_ty: Option<Typ>,
}

/// A [`Route`] as contracts speak of it.
pub struct RouteView {
    /// The summary of the operation, for the documentation of its function.
    pub summary: Option<Seq<char>>,
    /// The function of the operation.
    pub operation_id: Seq<char>,
    /// The stem of the types emitted for the operation.
    pub stem: Seq<char>,
    pub method: MethodView,
    /// The argument that carries the request body.
    pub body_name: Seq<char>,
    pub path: Seq<SegmentView>,
    /// The path parameters, in the order of declaration.
    pub path_args: Seq<FieldView>,
    /// The query parameters, in the order of declaration.
    pub query_params: Seq<FieldView>,
    /// The one success response.
    pub return_ty: OutcomeView,
    /// The declared error responses, in the order of declaration.
    pub err_tys: Seq<OutcomeView>,
    /// The type of the default error, where one is declared.
    pub default_err_ty: Option<TypView>,
}

/// The soundness of a route.
pub open spec fn route_wf(r: RouteView) -> bool {
    &&& r.path_args.len() == placeholders(r.path).len()
    &&& all_named(r.path_args)
    &&& all_named(r.query_params)
    &&& method_named(r.method)
    &&& is_success(r.return_ty.status)
    &&& option_named(r.return_ty.typ)
    &&& forall|i: int|
        0 <= i < r.err_tys.len() ==> is_client_error((#[trigger] r.err_tys[i]).status)
            && option_named(r.err_tys[i].typ)
    &&& forall|i: int, j: int|
        0 <= i < j < r.err_tys.len() ==> (#[trigger] r.err_tys[i]).status != (
        #[trigger] r.err_tys[j]).status
    &&& option_named(r.default_err_ty)
}

/// Whether the body of a method, where it has one, is of a type with a name.
pub open spec fn method_named(method: MethodView) -> bool {
    match method {
        MethodView::WithoutBody(_) => true,
        MethodView::WithBody { body_type, .. } => option_named(body_type),
    }
}

/// The type of a schema that stands where only a type with a name can: the
/// type it resolves to, unless that is a record or a sequence of records.
pub open spec fn resolve_named(node: SchemaNode, api: OpenAPI) -> core::result::Result<
    TypView,
    ErrorView,
> {
    match resolve(node, api) {
        Ok(t) => if name_of(t) is Some {
            Ok(t)
        } else {
            Err(ErrorView::NotStructurallyTyped)
        },
        Err(e) => Err(e),
    }
}

/// The type of a parameter: that of its schema, which it must have and
/// which must resolve to a type with a name.
pub open spec fn param_type(param: Parameter, api: OpenAPI) -> core::result::Result<
    TypView,
    ErrorView,
> {
    match param.schema {
        None => Err(ErrorView::BadParameter(param.name@)),
        Some(node) => resolve_named(node, api),
    }
}

/// The parameters of a route by scope.
pub struct ParamsView {
    pub path: Seq<FieldView>,
    pub query: Seq<FieldView>,
}

/// The first `n` declared parameters by scope, each under its identifier, in
/// the order of declaration. A parameter travels in the path or in the
/// query and in no other place; a path parameter must be required; a query
/// parameter keeps whether it is; no identifier may occur twice in a scope.
pub open spec fn resolve_params(
    params: Seq<Parameter>,
    idents: Seq<Seq<char>>,
    api: OpenAPI,
    n: nat,
) -> core::result::Result<ParamsView, ErrorView>
    decreases n,
{
    if n == 0 || n > params.len() || n > idents.len() {
        Ok(ParamsView { path: Seq::empty(), query: Seq::empty() })
    } else {
        match resolve_params(params, idents, api, (n - 1) as nat) {
            Err(e) => Err(e),
            Ok(sofar) => {
                let param = params[n - 1];
                let ident = idents[n - 1];
                match param.location {
                    ParameterLocation::Path => if !param.required {
                        Err(ErrorView::BadParameter(param.name@))
                    } else {
                        match param_type(param, api) {
                            Err(e) => Err(e),
                            Ok(typ) => if has_field(sofar.path, ident) {
                                Err(ErrorView::BadParameter(param.name@))
                            } else {
                                Ok(
                                    ParamsView {
                                        path: sofar.path.push(
                                            FieldView { name: ident, typ, required: true },
                                        ),
                                        query: sofar.query,
                                    },
                                )
                            },
                        }
                    },
                    ParameterLocation::Query => match param_type(param, api) {
                        Err(e) => Err(e),
                        Ok(typ) => if has_field(sofar.query, ident) {
                            Err(ErrorView::BadParameter(param.name@))
                        } else {
                            Ok(
                                ParamsView {
                                    path: sofar.path,
                                    query: sofar.query.push(
                                        FieldView { name: ident, typ, required: param.required },
                                    ),
                                },
                            )
                        },
                    },
                    _ => Err(ErrorView::BadParameter(param.name@)),
                }
            },
        }
    }
}

/// Whether one of the first `n` responses is declared for this code.
pub open spec fn code_before(responses: Seq<StatusResponse>, n: int, code: u16) -> bool {
    exists|j: int|
        0 <= j < n && j < responses.len() && (#[trigger] responses[j]).status == StatusCode::Code(
            code,
        )
}

/// Where among the first `n` responses the success stands, if each of their
/// statuses is acceptable. A status is refused where it is a range, is no
/// status code, is a second success, repeats a client error, or is of any
/// class but success and client error.
pub open spec fn classify(responses: Seq<StatusResponse>, n: nat) -> core::result::Result<
    Option<int>,
    ErrorView,
>
    decreases n,
{
    if n == 0 || n > responses.len() {
        Ok(None)
    } else {
        match classify(responses, (n - 1) as nat) {
            Err(e) => Err(e),
            Ok(found) => {
                let status = responses[n - 1].status;
                match status {
                    StatusCode::Range(_) => Err(ErrorView::BadStatusCode(status)),
                    StatusCode::Code(code) => if !is_status(code) {
                        Err(ErrorView::BadStatusCode(status))
                    } else if is_success(code) {
                        if found is Some {
                            Err(ErrorView::BadStatusCode(status))
                        } else {
                            Ok(Some(n - 1))
                        }
                    } else if is_client_error(code) {
                        if code_before(responses, n - 1, code) {
                            Err(ErrorView::BadStatusCode(status))
                        } else {
                            Ok(found)
                        }
                    } else {
                        Err(ErrorView::BadStatusCode(status))
                    },
                }
            },
        }
    }
}

/// The schema of a response's content: none where there is no content, that
/// of the JSON media type where that is the only one.
pub open spec fn content_schema(content: Content) -> core::result::Result<
    Option<SchemaNode>,
    ErrorView,
> {
    if content.media_types@.len() == 0 {
        Ok(None)
    } else if content.media_types@.len() == 1 && content.media_types@[0].name@
        == "application/json"@ {
        Ok(content.media_types@[0].schema)
    } else {
        Err(ErrorView::UnsupportedContent)
    }
}

/// The type of a response's content, if it has any.
pub open spec fn response_type(content: Content, api: OpenAPI) -> core::result::Result<
    Option<TypView>,
    ErrorView,
> {
    match content_schema(content) {
        Err(e) => Err(e),
        Ok(None) => Ok(None),
        Ok(Some(node)) => match resolve_named(node, api) {
            Ok(t) => Ok(Some(t)),
            Err(e) => Err(e),
        },
    }
}

/// The type of the request body of an operation, if it declares one. A body
/// must be JSON alone and must have a schema.
pub open spec fn body_type_of(op: Operation, api: OpenAPI) -> core::result::Result<
    Option<TypView>,
    ErrorView,
> {
    match op.request_body {
        None => Ok(None),
        Some(content) => if content.media_types@.len() == 1 && content.media_types@[0].name@
            == "application/json"@ {
            match content.media_types@[0].schema {
                None => Err(ErrorView::UnsupportedContent),
                Some(node) => match resolve_named(node, api) {
                    Ok(t) => Ok(Some(t)),
                    Err(e) => Err(e),
                },
            }
        } else {
            Err(ErrorView::UnsupportedContent)
        },
    }
}

/// The client errors among the first `n` responses, in the order of
/// declaration, each with the type of its content.
pub open spec fn error_outcomes(
    responses: Seq<StatusResponse>,
    api: OpenAPI,
    n: nat,
) -> core::result::Result<Seq<OutcomeView>, ErrorView>
    decreases n,
{
    if n == 0 || n > responses.len() {
        Ok(Seq::empty())
    } else {
        match error_outcomes(responses, api, (n - 1) as nat) {
            Err(e) => Err(e),
            Ok(sofar) => match responses[n - 1].status {
                StatusCode::Code(code) => if is_client_error(code) {
                    match response_type(responses[n - 1].response, api) {
                        Err(e) => Err(e),
                        Ok(typ) => Ok(sofar.push(OutcomeView { status: code, typ })),
                    }
                } else {
                    Ok(sofar)
                },
                StatusCode::Range(_) => Ok(sofar),
            },
        }
    }
}

/// The type of the default error of an operation, if it declares one. A
/// declared default must have content.
pub open spec fn default_type(op: Operation, api: OpenAPI) -> core::result::Result<
    Option<TypView>,
    ErrorView,
> {
    match op.default {
        None => Ok(None),
        Some(content) => match response_type(content, api) {
            Err(e) => Err(e),
            Ok(None) => Err(ErrorView::EmptyDefault),
            Ok(Some(t)) => Ok(Some(t)),
        },
    }
}

/// The argument that carries the request body: the identifier of the schema
/// that the body names, or `payload`.
pub open spec fn body_name_of(method: MethodView, names: RouteNamesView) -> Seq<char> {
    match (method, names.body) {
        (
            MethodView::WithBody { body_type: Some(TypView::Named(_)), .. },
            Some(ident),
        ) => ident,
        _ => "payload"@,
    }
}

/// The route of an operation under a path and a method, or the first
/// violation in this order: a body without a name for its type; no
/// identifier; identifiers that are not one per parameter; the parameters in
/// the order of declaration; the number of path parameters against the
/// placeholders of the path; the statuses in the order of declaration; the
/// missing success; the type of the success; the types of the errors in the
/// order of declaration; the default.
pub open spec fn route_of(
    path: Seq<char>,
    method: MethodView,
    op: Operation,
    names: RouteNamesView,
    api: OpenAPI,
) -> core::result::Result<RouteView, ErrorView> {
    let segments = parse_template(path);
    let expected = placeholders(segments).len();
    if !method_named(method) {
        Err(ErrorView::NotStructurallyTyped)
    } else if names.operation is None || names.stem is None {
        Err(ErrorView::NoOperationId(path))
    } else if names.parameters.len() != op.parameters@.len() {
        Err(ErrorView::CodeGen)
    } else {
        match resolve_params(op.parameters@, names.parameters, api, op.parameters@.len()) {
            Err(e) => Err(e),
            Ok(params) => if params.path.len() != expected {
                Err(ErrorView::PathArity { path, expected, found: params.path.len() })
            } else {
                match classify(op.responses@, op.responses@.len()) {
                    Err(e) => Err(e),
                    Ok(None) => Err(ErrorView::NoSuccessStatus(path)),
                    Ok(Some(at)) => match response_type(op.responses@[at].response, api) {
                        Err(e) => Err(e),
                        Ok(ok_typ) => match error_outcomes(
                            op.responses@,
                            api,
                            op.responses@.len(),
                        ) {
                            Err(e) => Err(e),
                            Ok(errors) => match default_type(op, api) {
                                Err(e) => Err(e),
                                Ok(default) => Ok(
                                    RouteView {
                                        summary: match op.summary {
                                            Some(s) => Some(s@),
                                            None => None,
                                        },
                                        operation_id: names.operation->0,
                                        stem: names.stem->0,
                                        method,
                                        body_name: body_name_of(method, names),
                                        path: segments,
                                        path_args: params.path,
                                        query_params: params.query,
                                        return_ty: OutcomeView {
                                            status: op.responses@[at].status->Code_0,
                                            typ: ok_typ,
                                        },
                                        err_tys: errors,
                                        default_err_ty: default,
                                    },
                                ),
                            },
                        },
                    },
                }
            },
        }
    }
}

impl View for Route {
    type V = RouteView;

    closed spec fn view(&self) -> RouteView {
        RouteView {
            summary: match self.summary {
                Some(s) => Some(s@),
                None => None,
            },
            operation_id: self.operation_id@,
            stem: self.stem@,
            method: self.method@,
            body_name: self.body_name@,
            path: self.path@,
            path_args: fields_view(self.path_args@),
            query_params: fields_view(self.query_params@),
            return_ty: self.return_ty@,
            err_tys: outcomes_view(self.err_tys@),
            default_err_ty: typ_option_view(self.default_err_ty),
        }
    }
}

/// The name of the error taxonomy of a route.
pub open spec fn error_type_name(route: RouteView) -> Seq<char> {
    route.stem + "Error"@
}

/// The name of the type that holds the query parameters of a route, if it
/// has any.
pub open spec fn query_type_name(route: RouteView) -> Option<Seq<char>> {
    if route.query_params.len() == 0 {
        None
    } else {
        Some(route.stem + "Query"@)
    }
}

/// The type that the operation of a route returns on success.
pub open spec fn success_text(route: RouteView) -> Seq<char> {
    match route.return_ty.typ {
        Some(t) => name_of(t)->0,
        None => "hsr::Success"@,
    }
}

/// The type that the operation of a route returns: its success, or its
/// error taxonomy over the error of the implementation.
pub open spec fn result_text(route: RouteView) -> Seq<char> {
    "std::result::Result<"@ + success_text(route) + ", "@ + error_type_name(route)
        + "<Self::Error>>"@
}

/// The route of an operation whose method carries no body, under the
/// identifiers that its names convert to.
pub open spec fn route_without_body(
    path: Seq<char>,
    method: MethodWithoutBody,
    op: Operation,
    api: OpenAPI,
) -> core::result::Result<RouteView, ErrorView> {
    route_of(path, MethodView::WithoutBody(method), op, names_of(op), api)
}

/// The route of an operation whose method may carry a body, under given
/// identifiers. The body is resolved first.
pub open spec fn route_with_body_under(
    path: Seq<char>,
    method: MethodWithBody,
    op: Operation,
    names: RouteNamesView,
    api: OpenAPI,
) -> core::result::Result<RouteView, ErrorView> {
    match body_type_of(op, api) {
        Err(e) => Err(e),
        Ok(body_type) => route_of(path, MethodView::WithBody { method, body_type }, op, names, api),
    }
}

/// The route of an operation whose method may carry a body, under the
/// identifiers that its names convert to.
pub open spec fn route_with_body(
    path: Seq<char>,
    method: MethodWithBody,
    op: Operation,
    api: OpenAPI,
) -> core::result::Result<RouteView, ErrorView> {
    route_with_body_under(path, method, op, names_of(op), api)
}

/// A result of the route builder as contracts speak of it.
pub open spec fn route_result_view(r: Result<Route>) -> core::result::Result<RouteView, ErrorView> {
    match r {
        Ok(route) => Ok(route@),
        Err(e) => Err(e@),
    }
}

/// Once a parameter has failed, the parameters stay failed with the same
/// error.
pub proof fn lemma_params_error_stays(
    params: Seq<Parameter>,
    idents: Seq<Seq<char>>,
    api: OpenAPI,
    k: nat,
    n: nat,
)
    requires
        k <= n <= params.len(),
        n <= idents.len(),
        resolve_params(params, idents, api, k) is Err,
    ensures
        resolve_params(params, idents, api, n) == resolve_params(params, idents, api, k),
    decreases n,
{
    if k < n {
        lemma_params_error_stays(params, idents, api, k, (n - 1) as nat);
    }
}

/// Every parameter that was resolved has a type with a name.
pub proof fn lemma_params_named(
    params: Seq<Parameter>,
    idents: Seq<Seq<char>>,
    api: OpenAPI,
    n: nat,
)
    ensures
        resolve_params(params, idents, api, n) matches Ok(p) ==> all_named(p.path) && all_named(
            p.query,
        ),
    decreases n,
{
    if !(n == 0 || n > params.len() || n > idents.len()) {
        lemma_params_named(params, idents, api, (n - 1) as nat);
    }
}

/// Once a status has been refused, the statuses stay refused with the same
/// error.
pub proof fn lemma_classify_error_stays(responses: Seq<StatusResponse>, k: nat, n: nat)
    requires
        k <= n <= responses.len(),
        classify(responses, k) is Err,
    ensures
        classify(responses, n) == classify(responses, k),
    decreases n,
{
    if k < n {
        lemma_classify_error_stays(responses, k, (n - 1) as nat);
    }
}

/// Where the statuses are accepted, the success that was found is a success
/// code among them, and none was found only if none of them is one.
pub proof fn lemma_classify_found(responses: Seq<StatusResponse>, n: nat)
    requires
        n <= responses.len(),
    ensures
        match classify(responses, n) {
            Ok(Some(at)) => 0 <= at < n && (responses[at].status matches StatusCode::Code(code)
                && is_success(code)),
            Ok(None) => forall|i: int|
                0 <= i < n ==> !((#[trigger] responses[i]).status matches StatusCode::Code(code)
                    && is_success(code)),
            Err(_) => true,
        },
    decreases n,
{
    if n > 0 {
        lemma_classify_found(responses, (n - 1) as nat);
    }
}

/// Once an error response has failed, the error responses stay failed with
/// the same error.
pub proof fn lemma_outcomes_error_stays(
    responses: Seq<StatusResponse>,
    api: OpenAPI,
    k: nat,
    n: nat,
)
    requires
        k <= n <= responses.len(),
        error_outcomes(responses, api, k) is Err,
    ensures
        error_outcomes(responses, api, n) == error_outcomes(responses, api, k),
    decreases n,
{
    if k < n {
        lemma_outcomes_error_stays(responses, api, k, (n - 1) as nat);
    }
}

/// The error responses of accepted statuses are client errors, each declared
/// once, with types that have names.
pub proof fn lemma_outcomes_sound(responses: Seq<StatusResponse>, api: OpenAPI, n: nat)
    requires
        n <= responses.len(),
        classify(responses, n) is Ok,
    ensures
        error_outcomes(responses, api, n) matches Ok(errors) ==> {
            &&& forall|i: int|
                0 <= i < errors.len() ==> is_client_error((#[trigger] errors[i]).status)
                    && option_named(errors[i].typ) && code_before(
                    responses,
                    n as int,
                    errors[i].status,
                )
            &&& forall|i: int, j: int|
                0 <= i < j < errors.len() ==> (#[trigger] errors[i]).status != (
                #[trigger] errors[j]).status
        },
    decreases n,
{
    if n > 0 {
        lemma_outcomes_sound(responses, api, (n - 1) as nat);
        if let Ok(errors) = error_outcomes(responses, api, n) {
            let sofar = error_outcomes(responses, api, (n - 1) as nat)->Ok_0;
            assert forall|i: int| 0 <= i < sofar.len() implies code_before(
                responses,
                n as int,
                (#[trigger] sofar[i]).status,
            ) by {
                let j = choose|j: int|
                    0 <= j < n - 1 && j < responses.len() && (#[trigger] responses[j]).status
                        == StatusCode::Code(sofar[i].status);
                assert(responses[j].status == StatusCode::Code(sofar[i].status));
            }
            if errors.len() > sofar.len() {
                let code = responses[n - 1].status->Code_0;
                assert(responses[n - 1].status == StatusCode::Code(code));
                assert(!code_before(responses, n - 1, code));
            }
        }
    }
}

/// A route that is built is sound.
pub proof fn lemma_route_sound(
    path: Seq<char>,
    method: MethodView,
    op: Operation,
    names: RouteNamesView,
    api: OpenAPI,
)
    ensures
        route_of(path, method, op, names, api) matches Ok(route) ==> route_wf(route),
{
    if route_of(path, method, op, names, api) is Ok {
        lemma_params_named(op.parameters@, names.parameters, api, op.parameters@.len());
        lemma_classify_found(op.responses@, op.responses@.len());
        lemma_outcomes_sound(op.responses@, api, op.responses@.len());
    }
}

/// The path parameters of a route are as many as the placeholders of its
/// path, and the path is the template it was built from. Where the declared
/// path parameters are more or fewer, and nothing fails before they are
/// counted, the route fails with `PathArity`: none is dropped to make them
/// fit.
pub proof fn lemma_route_arity(
    path: Seq<char>,
    method: MethodView,
    op: Operation,
    names: RouteNamesView,
    api: OpenAPI,
)
    ensures
        ({
            let params = resolve_params(
                op.parameters@,
                names.parameters,
                api,
                op.parameters@.len(),
            );
            let expected = placeholders(parse_template(path)).len();
            &&& route_of(path, method, op, names, api) matches Ok(route) ==> {
                &&& route.path == parse_template(path)
                &&& route.path_args.len() == expected
                &&& params is Ok
                &&& route.path_args == params->Ok_0.path
            }
            &&& method_named(method) && names.operation is Some && names.stem is Some
                && names.parameters.len() == op.parameters@.len() && params is Ok
                && params->Ok_0.path.len() != expected ==> route_of(path, method, op, names, api)
                == Err::<RouteView, ErrorView>(
                ErrorView::PathArity { path, expected, found: params->Ok_0.path.len() },
            )
        }),
{
}

/// A route with two responses that are successes is not built.
pub proof fn lemma_second_success_refused(
    path: Seq<char>,
    method: MethodView,
    op: Operation,
    names: RouteNamesView,
    api: OpenAPI,
    first: int,
    second: int,
)
    requires
        0 <= first < second < op.responses@.len(),
        op.responses@[first].status matches StatusCode::Code(code) && is_success(code),
        op.responses@[second].status matches StatusCode::Code(code) && is_success(code),
    ensures
        route_of(path, method, op, names, api) is Err,
{
    let responses = op.responses@;
    lemma_classify_found(responses, second as nat);
    assert(classify(responses, (second + 1) as nat) is Err) by {
        if classify(responses, second as nat) is Ok {
            assert(classify(responses, second as nat) != Ok::<Option<int>, ErrorView>(None)) by {
                if classify(responses, second as nat) == Ok::<Option<int>, ErrorView>(None) {
                    assert(!(responses[first].status matches StatusCode::Code(code) && is_success(
                        code,
                    )));
                }
            }
        }
    }
    lemma_classify_error_stays(responses, (second + 1) as nat, responses.len());
}

/// A route with a response that is a status code of another class than
/// success and client error, such as a redirection or a server error, is not
/// built.
pub proof fn lemma_other_class_refused(
    path: Seq<char>,
    method: MethodView,
    op: Operation,
    names: RouteNamesView,
    api: OpenAPI,
    at: int,
)
    requires
        0 <= at < op.responses@.len(),
        op.responses@[at].status matches StatusCode::Code(code) && !is_success(code)
            && !is_client_error(code),
    ensures
        route_of(path, method, op, names, api) is Err,
{
    let responses = op.responses@;
    assert(classify(responses, (at + 1) as nat) is Err);
    lemma_classify_error_stays(responses, (at + 1) as nat, responses.len());
}

/// An optional type or a failure as contracts speak of it.
pub open spec fn option_result_view(r: Result<Option<Typ>>) -> core::result::Result<
    Option<TypView>,
    ErrorView,
> {
    match r {
        Ok(t) => Ok(typ_option_view(t)),
        Err(e) => Err(e@),
    }
}

/// Resolves a schema that stands where only a type with a name can.
///
/// Fails as [`build_type`] does, and with `NotStructurallyTyped` where the
/// schema resolves to a record or to a sequence of records.
pub fn build_named_type(schema: &SchemaNode, api: &OpenAPI) -> (typ: Result<Typ>)
    ensures
        typ_result_view(typ) == resolve_named(*schema, *api),
{
    let typ = build_type(schema, api)?;
    proof {
        lemma_named_iff_simple(typ@);
    }
    if typ.is_complex() {
        Err(Error::NotStructurallyTyped)
    } else {
        Ok(typ)
    }
}

/// Whether a media type is that of JSON.
fn is_json(name: &str) -> (json: bool)
    ensures
        json == (name@ == "application/json"@),
{
    same_text(name, "application/json")
}

/// The type of the content of a response.
///
/// Fails with `UnsupportedContent` where the content is not JSON alone, and
/// as [`build_named_type`] does on its schema.
pub fn get_type_of_response(content: &Content, api: &OpenAPI) -> (typ: Result<Option<Typ>>)
    ensures
        option_result_view(typ) == response_type(*content, *api),
{
    if content.media_types.len() == 0 {
        return Ok(None);
    }
    if !(content.media_types.len() == 1 && is_json(content.media_types[0].name.as_str())) {
        return Err(Error::UnsupportedContent);
    }
    match &content.media_types[0].schema {
        None => Ok(None),
        Some(node) => {
            let typ = build_named_type(node, api)?;
            Ok(Some(typ))
        },
    }
}

/// The type of a parameter.
fn param_typ(param: &Parameter, api: &OpenAPI) -> (typ: Result<Typ>)
    ensures
        typ_result_view(typ) == param_type(*param, *api),
{
    match &param.schema {
        None => Err(Error::BadParameter(param.name.clone())),
        Some(node) => build_named_type(node, api),
    }
}

/// The parameters of an operation by scope, each under its identifier.
fn build_params(params: &Vec<Parameter>, idents: &Vec<String>, api: &OpenAPI) -> (built: Result<
    (Vec<Field>, Vec<Field>),
>)
    requires
        params@.len() == idents@.len(),
    ensures
        match built {
            Ok((path, query)) => resolve_params(
                params@,
                idents.deep_view(),
                *api,
                params@.len(),
            ) == Ok::<ParamsView, ErrorView>(
                ParamsView { path: fields_view(path@), query: fields_view(query@) },
            ),
            Err(e) => resolve_params(params@, idents.deep_view(), *api, params@.len()) == Err::<
                ParamsView,
                ErrorView,
            >(e@),
        },
{
    let ghost names = idents.deep_view();
    let mut path: Vec<Field> = Vec::new();
    let mut query: Vec<Field> = Vec::new();
    let mut i: usize = 0;
    assert(fields_view(path@) =~= Seq::<FieldView>::empty());
    assert(fields_view(query@) =~= Seq::<FieldView>::empty());
    while i < params.len()
        invariant
            i <= params.len(),
            params@.len() == idents@.len(),
            names == idents.deep_view(),
            resolve_params(params@, names, *api, i as nat) == Ok::<ParamsView, ErrorView>(
                ParamsView { path: fields_view(path@), query: fields_view(query@) },
            ),
        decreases params.len() - i,
    {
        let param = &params[i];
        let ident = &idents[i];
        assert(names[i as int] == ident@);
        proof {
            if resolve_params(params@, names, *api, (i + 1) as nat) is Err {
                lemma_params_error_stays(params@, names, *api, (i + 1) as nat, params@.len());
            }
        }
        match param.location {
            ParameterLocation::Path => {
                if !param.required {
                    return Err(Error::BadParameter(param.name.clone()));
                }
                let typ = param_typ(param, api)?;
                if field_named(&path, ident.as_str()) {
                    return Err(Error::BadParameter(param.name.clone()));
                }
                let ghost before = fields_view(path@);
                path.push(Field { name: ident.clone(), typ, required: true });
                assert(fields_view(path@) =~= before.push(path@[path@.len() - 1]@));
            },
            ParameterLocation::Query => {
                let typ = param_typ(param, api)?;
                if field_named(&query, ident.as_str()) {
                    return Err(Error::BadParameter(param.name.clone()));
                }
                let ghost before = fields_view(query@);
                query.push(Field { name: ident.clone(), typ, required: param.required });
                assert(fields_view(query@) =~= before.push(query@[query@.len() - 1]@));
            },
            _ => {
                return Err(Error::BadParameter(param.name.clone()));
            },
        }
        i += 1;
    }
    Ok((path, query))
}

/// Whether one of the first `n` responses is declared for this code.
fn code_seen(responses: &Vec<StatusResponse>, n: usize, code: u16) -> (seen: bool)
    requires
        n <= responses@.len(),
    ensures
        seen == code_before(responses@, n as int, code),
{
    let mut j: usize = 0;
    while j < n
        invariant
            j <= n <= responses@.len(),
            forall|k: int| 0 <= k < j ==> (#[trigger] responses@[k]).status != StatusCode::Code(code),
        decreases n - j,
    {
        if let StatusCode::Code(other) = responses[j].status {
            if other == code {
                assert(responses@[j as int].status == StatusCode::Code(code));
                return true;
            }
        }
        j += 1;
    }
    false
}

/// Where among the responses the success stands, once every status is
/// accepted.
fn classify_statuses(responses: &Vec<StatusResponse>) -> (found: Result<Option<usize>>)
    ensures
        match found {
            Ok(Some(at)) => classify(responses@, responses@.len()) == Ok::<Option<int>, ErrorView>(
                Some(at as int),
            ),
            Ok(None) => classify(responses@, responses@.len()) == Ok::<Option<int>, ErrorView>(
                None,
            ),
            Err(e) => classify(responses@, responses@.len()) == Err::<Option<int>, ErrorView>(e@),
        },
{
    let mut found: Option<usize> = None;
    let mut i: usize = 0;
    while i < responses.len()
        invariant
            i <= responses.len(),
            classify(responses@, i as nat) == Ok::<Option<int>, ErrorView>(
                match found {
                    Some(at) => Some(at as int),
                    None => None,
                },
            ),
        decreases responses.len() - i,
    {
        let status = responses[i].status;
        proof {
            if classify(responses@, (i + 1) as nat) is Err {
                lemma_classify_error_stays(responses@, (i + 1) as nat, responses@.len());
            }
        }
        match status {
            StatusCode::Range(_) => {
                return Err(Error::BadStatusCode(status));
            },
            StatusCode::Code(code) => {
                if !status_exists(code) {
                    return Err(Error::BadStatusCode(status));
                }
                if status_is_success(code) {
                    if found.is_some() {
                        return Err(Error::BadStatusCode(status));
                    }
                    found = Some(i);
                } else if status_is_client_error(code) {
                    if code_seen(responses, i, code) {
                        return Err(Error::BadStatusCode(status));
                    }
                } else {
                    return Err(Error::BadStatusCode(status));
                }
            },
        }
        i += 1;
    }
    Ok(found)
}

/// The declared error responses with the types of their content.
fn error_typs(responses: &Vec<StatusResponse>, api: &OpenAPI) -> (errors: Result<Vec<Outcome>>)
    ensures
        match errors {
            Ok(list) => error_outcomes(responses@, *api, responses@.len()) == Ok::<
                Seq<OutcomeView>,
                ErrorView,
            >(outcomes_view(list@)),
            Err(e) => error_outcomes(responses@, *api, responses@.len()) == Err::<
                Seq<OutcomeView>,
                ErrorView,
            >(e@),
        },
{
    let mut errors: Vec<Outcome> = Vec::new();
    let mut i: usize = 0;
    assert(outcomes_view(errors@) =~= Seq::<OutcomeView>::empty());
    while i < responses.len()
        invariant
            i <= responses.len(),
            error_outcomes(responses@, *api, i as nat) == Ok::<Seq<OutcomeView>, ErrorView>(
                outcomes_view(errors@),
            ),
        decreases responses.len() - i,
    {
        proof {
            if error_outcomes(responses@, *api, (i + 1) as nat) is Err {
                lemma_outcomes_error_stays(responses@, *api, (i + 1) as nat, responses@.len());
            }
        }
        if let StatusCode::Code(code) = responses[i].status {
            if status_is_client_error(code) {
                let typ = get_type_of_response(&responses[i].response, api)?;
                let ghost before = outcomes_view(errors@);
                errors.push(Outcome { status: code, typ });
                assert(outcomes_view(errors@) =~= before.push(errors@[errors@.len() - 1]@));
            }
        }
        i += 1;
    }
    Ok(errors)
}

/// The type of the request body of an operation.
///
/// Fails with `UnsupportedContent` where the body is not JSON alone or has
/// no schema, and as [`build_named_type`] does on its schema.
pub fn get_type_of_body(op: &Operation, api: &OpenAPI) -> (typ: Result<Option<Typ>>)
    ensures
        option_result_view(typ) == body_type_of(*op, *api),
{
    match &op.request_body {
        None => Ok(None),
        Some(content) => {
            if !(content.media_types.len() == 1 && is_json(content.media_types[0].name.as_str())) {
                return Err(Error::UnsupportedContent);
            }
            match &content.media_types[0].schema {
                None => Err(Error::UnsupportedContent),
                Some(node) => {
                    let typ = build_named_type(node, api)?;
                    Ok(Some(typ))
                },
            }
        },
    }
}

/// A copy of an optional text.
fn copy_text(text: &Option<String>) -> (copy: Option<String>)
    ensures
        copy == *text,
{
    match text {
        Some(s) => Some(s.clone()),
        None => None,
    }
}

impl Route {
    #[verifier::type_invariant]
    pub closed spec fn sound(&self) -> bool {
        route_wf(self@)
    }

    /// What the view and the soundness of a route say of its fields.
    pub(crate) proof fn lemma_fields(&self)
        requires
            self.sound(),
        ensures
            route_wf(self@),
            self@.summary == (match self.summary {
                Some(s) => Some(s@),
                None => None,
            }),
            self@.operation_id == self.operation_id@,
            self@.stem == self.stem@,
            self@.method == self.method@,
            self@.body_name == self.body_name@,
            self@.path == self.path@,
            self@.path_args == fields_view(self.path_args@),
            self@.query_params == fields_view(self.query_params@),
            self@.return_ty == self.return_ty@,
            self@.err_tys == outcomes_view(self.err_tys@),
            self@.default_err_ty == typ_option_view(self.default_err_ty),
    {
    }

    /// Builds the route of an operation from the document and the
    /// identifiers it is to be emitted under.
    ///
    /// Fails with the first violation that [`route_of`] lists.
    pub fn build(
        path: &str,
        method: Method,
        op: &Operation,
        names: &RouteNames,
        api: &OpenAPI,
    ) -> (route: Result<Route>)
        ensures
            route_result_view(route) == route_of(path@, method@, *op, names@, *api),
    {
        proof {
            lemma_route_sound(path@, method@, *op, names@, *api);
        }
        let route_path = RoutePath::analyse(path);
        let expected_path_args = route_path.path_args().len();
        if let Method::WithBody { body_type: Some(body), .. } = &method {
            proof {
                lemma_named_iff_simple(body@);
            }
            if body.is_complex() {
                return Err(Error::NotStructurallyTyped);
            }
        }
        let (operation_id, stem) = match (&names.operation, &names.stem) {
            (Some(id), Some(stem)) => (id.clone(), stem.clone()),
            _ => {
                return Err(Error::NoOperationId(String::from_str(path)));
            },
        };
        if names.parameters.len() != op.parameters.len() {
            return Err(Error::CodeGen);
        }
        let (path_args, query_params) = build_params(&op.parameters, &names.parameters, api)?;
        if path_args.len() != expected_path_args {
            return Err(
                Error::PathArity {
                    path: String::from_str(path),
                    expected: expected_path_args,
                    found: path_args.len(),
                },
            );
        }
        let at = match classify_statuses(&op.responses)? {
            Some(at) => at,
            None => {
                return Err(Error::NoSuccessStatus(String::from_str(path)));
            },
        };
        proof {
            lemma_classify_found(op.responses@, op.responses@.len());
        }
        let status = match op.responses[at].status {
            StatusCode::Code(code) => code,
            StatusCode::Range(_) => vstd::pervasive::unreached(),
        };
        let return_ty = Outcome { status, typ: get_type_of_response(&op.responses[at].response, api)? };
        let err_tys = error_typs(&op.responses, api)?;
        let default_err_ty = match &op.default {
            None => None,
            Some(content) => match get_type_of_response(content, api)? {
                None => {
                    return Err(Error::EmptyDefault);
                },
                Some(t) => Some(t),
            },
        };
        let body_name = match (&method, &names.body) {
            (Method::WithBody { body_type: Some(Typ::Named(_)), .. }, Some(ident)) => ident.clone(),
            _ => String::from_str("payload"),
        };
        Ok(
            Route {
                summary: copy_text(&op.summary),
                operation_id,
                stem,
                method,
                body_name,
                path: route_path,
                path_args,
                query_params,
                return_ty,
                err_tys,
                default_err_ty,
            },
        )
    }

    /// Builds the route of an operation whose method carries no body.
    ///
    /// The identifiers are those of [`name_operation`]; fails as [`Route::build`]
    /// does.
    pub fn without_body(
        path: &str,
        method: MethodWithoutBody,
        op: &Operation,
        api: &OpenAPI,
    ) -> (route: Result<Route>)
        ensures
            route_result_view(route) == route_without_body(path@, method, *op, *api),
    {
        let names = name_operation(op);
        Route::build(path, Method::WithoutBody(method), op, &names, api)
    }

    /// Builds the route of an operation whose method may carry a body.
    ///
    /// Fails as [`get_type_of_body`] does, and then as [`Route::build`] does.
    pub fn with_body(path: &str, method: MethodWithBody, op: &Operation, api: &OpenAPI) -> (route:
        Result<Route>)
        ensures
            route_result_view(route) == route_with_body(path@, method, *op, *api),
    {
        let names = name_operation(op);
        Route::with_body_under(path, method, op, &names, api)
    }

    /// Builds the route of an operation whose method may carry a body, under
    /// given identifiers.
    ///
    /// Fails as [`get_type_of_body`] does, and then as [`Route::build`] does.
    pub fn with_body_under(
        path: &str,
        method: MethodWithBody,
        op: &Operation,
        names: &RouteNames,
        api: &OpenAPI,
    ) -> (route: Result<Route>)
        ensures
            route_result_view(route) == route_with_body_under(path@, method, *op, names@, *api),
    {
        let body_type = get_type_of_body(op, api)?;
        Route::build(path, Method::WithBody { method, body_type }, op, names, api)
    }

    /// The method of the route.
    pub fn method(&self) -> (method: &Method)
        ensures
            method@ == self@.method,
    {
        &self.method
    }

    /// The function of the operation.
    pub fn operation_id(&self) -> (id: &String)
        ensures
            id@ == self@.operation_id,
    {
        &self.operation_id
    }

    /// The path of the route.
    pub fn path(&self) -> (path: &RoutePath)
        ensures
            path@ == self@.path,
    {
        &self.path
    }

    /// The name of the type that holds the query parameters, if the route
    /// has any.
    pub fn generate_query_type_name(&self) -> (name: Option<String>)
        ensures
            match name {
                Some(n) => query_type_name(self@) == Some(n@),
                None => query_type_name(self@) is None,
            },
    {
        proof {
            assert(fields_view(self.query_params@).len() == self.query_params@.len());
        }
        if self.query_params.len() == 0 {
            None
        } else {
            let mut name = self.stem.clone();
            name.append("Query");
            Some(name)
        }
    }

    /// The name of the error taxonomy of the route.
    pub fn return_err_ty(&self) -> (name: String)
        ensures
            name@ == error_type_name(self@),
    {
        let mut name = self.stem.clone();
        name.append("Error");
        name
    }

    /// The type that the operation returns.
    pub fn return_ty(&self) -> (text: String)
        ensures
            text@ == result_text(self@),
    {
        proof {
            use_type_invariant(self);
        }
        let ok = match &self.return_ty.typ {
            Some(ty) => type_text(ty),
            None => String::from_str("hsr::Success"),
        };
        let mut text = String::from_str("std::result::Result<");
        text.append(ok.as_str());
        text.append(", ");
        text.append(self.return_err_ty().as_str());
        text.append("<Self::Error>>");
        text
    }
}

} // verus!
