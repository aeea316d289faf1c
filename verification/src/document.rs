//! The contract document as the compiler reads it: named schemas, and paths
//! with their operations. A loader fills these types from a parsed file; the
//! compiler only reads them.

use vstd::prelude::*;

verus! {

/// A schema written in place, or a reference to a named one.
#[derive(Debug, PartialEq)]
pub enum SchemaNode {
    Reference { reference: String },
    Item(Schema),
}

/// One schema of the document.
#[derive(Debug, PartialEq)]
pub struct Schema {
    pub schema_kind: SchemaKind,
}

/// What a schema describes: one concrete shape, a composition of other
/// schemas, or a shape without a declared kind.
#[derive(Debug, PartialEq)]
pub enum SchemaKind {
    Type(Type),
    OneOf,
    AllOf,
    AnyOf,
    Any(ObjectType),
}

/// The declared kind of a schema.
#[derive(Debug, PartialEq)]
pub enum Type {
    String,
    Number,
    Integer,
    Object(ObjectType),
    Array(Box<SchemaNode>),
    Boolean,
}

/// The properties of an object schema in the order of the document, and the
/// names of those that must be present.
#[derive(Debug, PartialEq)]
pub struct ObjectType {
    pub properties: Vec<Property>,
    pub required: Vec<String>,
}

/// One property of an object schema.
#[derive(Debug, PartialEq)]
pub struct Property {
    pub name: String,
    pub schema: SchemaNode,
}

/// One entry of the document's table of named schemas.
#[derive(Debug, PartialEq)]
pub struct NamedSchema {
    pub name: String,
    pub schema: SchemaNode,
}

/// Where a parameter travels in a request.
#[derive(Debug, Clone, Copy, PartialEq, Eq)]
pub enum ParameterLocation {
    Path,
    Query,
    Header,
    Cookie,
}

/// A declared parameter of an operation. A parameter that the document
/// describes by a content instead of a schema has no schema.
#[derive(Debug, PartialEq)]
pub struct Parameter {
    pub name: String,
    pub location: ParameterLocation,
    pub required: bool,
    pub schema: Option<SchemaNode>,
}

/// One media type of a body, with the schema of its content if it has one.
#[derive(Debug, PartialEq)]
pub struct MediaType {
    pub name: String,
    pub schema: Option<SchemaNode>,
}

/// The content of a request body or of a response: one entry per media type.
/// A response without content has no entries.
#[derive(Debug, PartialEq)]
pub struct Content {
    pub media_types: Vec<MediaType>,
}

/// The key of a declared response: a literal status code, or a whole class
/// written with wildcards (`Range(4)` stands for `4XX`).
#[derive(Debug, Clone, Copy, PartialEq, Eq)]
pub enum StatusCode {
    Code(u16),
    Range(u16),
}

/// A declared response with the status it answers.
#[derive(Debug, PartialEq)]
pub struct StatusResponse {
    pub status: StatusCode,
    pub response: Content,
}

/// One operation of the document, as declared under a path and a method.
#[derive(Debug, PartialEq)]
pub struct Operation {
    pub summary: Option<String>,
    pub operation_id: Option<String>,
    pub parameters: Vec<Parameter>,
    pub request_body: Option<Content>,
    pub responses: Vec<StatusResponse>,
    pub default: Option<Content>,
}

/// The operations of one path template, by method. An absent method is `None`.
#[derive(Debug, PartialEq)]
pub struct PathItem {
    pub path: String,
    pub get: Option<Operation>,
    pub put: Option<Operation>,
    pub post: Option<Operation>,
    pub delete: Option<Operation>,
    pub options: Option<Operation>,
    pub head: Option<Operation>,
    pub patch: Option<Operation>,
    pub trace: Option<Operation>,
}

/// The whole contract document.
#[derive(Debug, PartialEq)]
pub struct OpenAPI {
    pub schemas: Vec<NamedSchema>,
    pub paths: Vec<PathItem>,
}

} // verus!
