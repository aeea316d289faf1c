//! The identifiers of emitted code. The document names operations,
//! parameters and schemas as it likes; emitted functions and arguments are
//! written in snake case and emitted types in camel case. The conversion is
//! `heck`'s, and contracts speak of its result by name.

use vstd::prelude::*;
use vstd::string::*;
use heck::{CamelCase, SnakeCase};
use crate::document::{OpenAPI, Operation, PathItem, SchemaNode};
use crate::resolve::{extract_ref_name, ref_name};

verus! {

/// What `heck` makes of a text in snake case.
pub uninterp spec fn snake_case_of(s: Seq<char>) -> Seq<char>;

/// What `heck` makes of a text in camel case.
pub uninterp spec fn camel_case_of(s: Seq<char>) -> Seq<char>;

/// `heck::SnakeCase::to_snake_case` on a `str`. The result depends on the
/// text alone; nothing else is claimed of it.
#[verifier::external_body]
fn snake_case(s: &str) -> (converted: String)
    ensures
        converted@ == snake_case_of(s@),
{
    s.to_snake_case()
}

/// `heck::CamelCase::to_camel_case` on a `str`. The result depends on the
/// text alone; nothing else is claimed of it.
#[verifier::external_body]
fn camel_case(s: &str) -> (converted: String)
    ensures
        converted@ == camel_case_of(s@),
{
    s.to_camel_case()
}

/// The identifiers that the route of one operation is emitted under.
#[derive(Debug, Clone, PartialEq, Eq)]
pub struct RouteNames {
    /// The function of the operation, if the operation has an identifier.
    pub operation: Option<String>,
    /// The stem of the types emitted for the operation, if it has an
    /// identifier.
    pub stem: Option<String>,
    /// The argument of each declared parameter, in the order of declaration.
    pub parameters: Vec<String>,
    /// The argument of the request body, where the body is a named schema.
    pub body: Option<String>,
}

/// [`RouteNames`] as contracts speak of them.
pub struct RouteNamesView {
    pub operation: Option<Seq<char>>,
    pub stem: Option<Seq<char>>,
    pub parameters: Seq<Seq<char>>,
    pub body: Option<Seq<char>>,
}

impl View for RouteNames {
    type V = RouteNamesView;

    open spec fn view(&self) -> RouteNamesView {
        RouteNamesView {
            operation: match self.operation {
                Some(s) => Some(s@),
                None => None,
            },
            stem: match self.stem {
                Some(s) => Some(s@),
                None => None,
            },
            parameters: self.parameters.deep_view(),
            body: match self.body {
                Some(s) => Some(s@),
                None => None,
            },
        }
    }
}

/// The schema name behind the request body of an operation: the first media
/// type of the body holds a reference to a component schema.
pub open spec fn body_reference(op: Operation) -> Option<Seq<char>> {
    match op.request_body {
        Some(content) => if content.media_types@.len() > 0 {
            match content.media_types@[0].schema {
                Some(SchemaNode::Reference { reference }) => ref_name(reference@),
                _ => None,
            }
        } else {
            None
        },
        None => None,
    }
}

/// The identifiers of an operation: its function is the snake case of its
/// identifier, the stem of its types the camel case of that function, each
/// argument the snake case of the parameter's name, and the argument of the
/// body the snake case of the schema that the body refers to.
pub open spec fn names_of(op: Operation) -> RouteNamesView {
    RouteNamesView {
        operation: match op.operation_id {
            Some(id) => Some(snake_case_of(id@)),
            None => None,
        },
        stem: match op.operation_id {
            Some(id) => Some(camel_case_of(snake_case_of(id@))),
            None => None,
        },
        parameters: Seq::new(
            op.parameters@.len(),
            |i: int| snake_case_of(op.parameters@[i].name@),
        ),
        body: match body_reference(op) {
            Some(name) => Some(snake_case_of(name)),
            None => None,
        },
    }
}

/// The schema name behind the request body of an operation, if there is one.
fn body_schema_name(op: &Operation) -> (name: Option<&str>)
    ensures
        match name {
            Some(n) => body_reference(*op) == Some(n@),
            None => body_reference(*op) is None,
        },
{
    match &op.request_body {
        Some(content) => {
            if content.media_types.len() > 0 {
                match &content.media_types[0].schema {
                    Some(SchemaNode::Reference { reference }) => {
                        match extract_ref_name(reference.as_str()) {
                            Ok(n) => Some(n),
                            Err(_) => None,
                        }
                    },
                    _ => None,
                }
            } else {
                None
            }
        },
        None => None,
    }
}

/// Converts the names of an operation to the identifiers of its route.
pub fn name_operation(op: &Operation) -> (names: RouteNames)
    ensures
        names@ == names_of(*op),
{
    let (operation, stem) = match &op.operation_id {
        Some(id) => {
            let function = snake_case(id.as_str());
            let stem = camel_case(function.as_str());
            (Some(function), Some(stem))
        },
        None => (None, None),
    };
    let mut parameters: Vec<String> = Vec::new();
    let mut i: usize = 0;
    while i < op.parameters.len()
        invariant
            i <= op.parameters.len(),
            parameters@.len() == i,
            forall|j: int|
                0 <= j < i ==> (#[trigger] parameters@[j])@ == snake_case_of(
                    op.parameters@[j].name@,
                ),
        decreases op.parameters.len() - i,
    {
        parameters.push(snake_case(op.parameters[i].name.as_str()));
        i += 1;
    }
    let body = match body_schema_name(op) {
        Some(name) => Some(snake_case(name)),
        None => None,
    };
    let names = RouteNames { operation, stem, parameters, body };
    assert(names@.parameters =~= names_of(*op).parameters);
    names
}

/// The identifiers of the operations of one path, by method.
#[derive(Debug, Clone, PartialEq, Eq)]
pub struct PathNames {
    pub get: Option<RouteNames>,
    pub put: Option<RouteNames>,
    pub post: Option<RouteNames>,
    pub delete: Option<RouteNames>,
    pub options: Option<RouteNames>,
    pub head: Option<RouteNames>,
    pub patch: Option<RouteNames>,
    pub trace: Option<RouteNames>,
}

/// [`PathNames`] as contracts speak of them.
pub struct PathNamesView {
    pub get: Option<RouteNamesView>,
    pub put: Option<RouteNamesView>,
    pub post: Option<RouteNamesView>,
    pub delete: Option<RouteNamesView>,
    pub options: Option<RouteNamesView>,
    pub head: Option<RouteNamesView>,
    pub patch: Option<RouteNamesView>,
    pub trace: Option<RouteNamesView>,
}

/// The view of optional identifiers.
pub open spec fn names_option_view(names: Option<RouteNames>) -> Option<RouteNamesView> {
    match names {
        Some(n) => Some(n@),
        None => None,
    }
}

impl View for PathNames {
    type V = PathNamesView;

    open spec fn view(&self) -> PathNamesView {
        PathNamesView {
            get: names_option_view(self.get),
            put: names_option_view(self.put),
            post: names_option_view(self.post),
            delete: names_option_view(self.delete),
            options: names_option_view(self.options),
            head: names_option_view(self.head),
            patch: names_option_view(self.patch),
            trace: names_option_view(self.trace),
        }
    }
}

/// The identifiers of a list of paths, each by its view.
pub open spec fn paths_names_view(names: Seq<PathNames>) -> Seq<PathNamesView> {
    Seq::new(names.len(), |i: int| names[i]@)
}

/// The identifiers of an operation that a path may declare.
pub open spec fn names_of_slot(op: Option<Operation>) -> Option<RouteNamesView> {
    match op {
        Some(op) => Some(names_of(op)),
        None => None,
    }
}

/// The identifiers of the operations of a path.
pub open spec fn names_of_path(item: PathItem) -> PathNamesView {
    PathNamesView {
        get: names_of_slot(item.get),
        put: names_of_slot(item.put),
        post: names_of_slot(item.post),
        delete: names_of_slot(item.delete),
        options: names_of_slot(item.options),
        head: names_of_slot(item.head),
        patch: names_of_slot(item.patch),
        trace: names_of_slot(item.trace),
    }
}

/// The identifiers of every operation of a document, path by path.
pub open spec fn names_of_document(api: OpenAPI) -> Seq<PathNamesView> {
    Seq::new(api.paths@.len(), |i: int| names_of_path(api.paths@[i]))
}

/// Converts the names of an operation that a path may declare.
fn name_slot(op: &Option<Operation>) -> (names: Option<RouteNames>)
    ensures
        names_option_view(names) == names_of_slot(*op),
{
    match op {
        Some(op) => Some(name_operation(op)),
        None => None,
    }
}

/// Converts the names of the operations of a path.
pub fn name_path(item: &PathItem) -> (names: PathNames)
    ensures
        names@ == names_of_path(*item),
{
    PathNames {
        get: name_slot(&item.get),
        put: name_slot(&item.put),
        post: name_slot(&item.post),
        delete: name_slot(&item.delete),
        options: name_slot(&item.options),
        head: name_slot(&item.head),
        patch: name_slot(&item.patch),
        trace: name_slot(&item.trace),
    }
}

/// Converts the names of every operation of a document.
pub fn name_document(api: &OpenAPI) -> (names: Vec<PathNames>)
    ensures
        paths_names_view(names@) == names_of_document(*api),
{
    let mut names: Vec<PathNames> = Vec::new();
    let mut i: usize = 0;
    while i < api.paths.len()
        invariant
            i <= api.paths.len(),
            names@.len() == i,
            forall|j: int| 0 <= j < i ==> (#[trigger] names@[j])@ == names_of_path(api.paths@[j]),
        decreases api.paths.len() - i,
    {
        names.push(name_path(&api.paths[i]));
        i += 1;
    }
    assert(paths_names_view(names@) =~= names_of_document(*api));
    names
}

} // verus!
