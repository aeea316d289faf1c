//! The ways in which compiling a contract document fails.

use vstd::prelude::*;
use vstd::string::*;
use crate::document::{Schema, SchemaKind, StatusCode};
use crate::text::{decimal, decimal_text};

verus! {

/// Why a compilation stopped. Compilation stops at the first violation.
#[derive(Debug)]
pub enum Error {
    /// The input could not be read; the text is the reader's message.
    Io(String),
    /// The input is not a contract document; the text is the parser's message.
    Yaml(String),
    /// The compiler failed for a reason that has no kind of its own.
    CodeGen,
    /// A reference is malformed, names no schema of the document, or leads
    /// back to the schema it started from.
    BadReference(String),
    /// A schema composes other schemas.
    UnsupportedKind(SchemaKind),
    /// A schema is nested beyond what the compiler supports.
    TooComplex(Schema),
    /// A record has no fields.
    EmptyStruct,
    /// A record stands where only a named type can.
    NotStructurallyTyped,
    /// A response status is a range, is no status code, is neither a success
    /// nor a client error, or is one success or one repetition too many.
    BadStatusCode(StatusCode),
    /// No response of the operation at this path is a success.
    NoSuccessStatus(String),
    /// A path parameter is optional, or a parameter occurs twice in its scope.
    BadParameter(String),
    /// Two properties, schemas or operations share this name.
    DuplicateName(String),
    /// The operation at this path has no identifier.
    NoOperationId(String),
    /// The path template and the operation disagree on how many path
    /// parameters there are.
    PathArity { path: String, expected: usize, found: usize },
    /// A body is not JSON alone, or its JSON content has no schema.
    UnsupportedContent,
    /// The default response has no content.
    EmptyDefault,
}

/// An [`Error`] as contracts speak of it: texts by their characters.
pub enum ErrorView {
    Io(Seq<char>),
    Yaml(Seq<char>),
    CodeGen,
    BadReference(Seq<char>),
    UnsupportedKind(SchemaKind),
    TooComplex(Schema),
    EmptyStruct,
    NotStructurallyTyped,
    BadStatusCode(StatusCode),
    NoSuccessStatus(Seq<char>),
    BadParameter(Seq<char>),
    DuplicateName(Seq<char>),
    NoOperationId(Seq<char>),
    PathArity { path: Seq<char>, expected: nat, found: nat },
    UnsupportedContent,
    EmptyDefault,
}

impl View for Error {
    type V = ErrorView;

    open spec fn view(&self) -> ErrorView {
        match self {
            Error::Io(m) => ErrorView::Io(m@),
            Error::Yaml(m) => ErrorView::Yaml(m@),
            Error::CodeGen => ErrorView::CodeGen,
            Error::BadReference(r) => ErrorView::BadReference(r@),
            Error::UnsupportedKind(k) => ErrorView::UnsupportedKind(*k),
            Error::TooComplex(s) => ErrorView::TooComplex(*s),
            Error::EmptyStruct => ErrorView::EmptyStruct,
            Error::NotStructurallyTyped => ErrorView::NotStructurallyTyped,
            Error::BadStatusCode(c) => ErrorView::BadStatusCode(*c),
            Error::NoSuccessStatus(p) => ErrorView::NoSuccessStatus(p@),
            Error::BadParameter(n) => ErrorView::BadParameter(n@),
            Error::DuplicateName(n) => ErrorView::DuplicateName(n@),
            Error::NoOperationId(p) => ErrorView::NoOperationId(p@),
            Error::PathArity { path, expected, found } => ErrorView::PathArity {
                path: path@,
                expected: *expected as nat,
                found: *found as nat,
            },
            Error::UnsupportedContent => ErrorView::UnsupportedContent,
            Error::EmptyDefault => ErrorView::EmptyDefault,
        }
    }
}

pub type Result<T> = std::result::Result<T, Error>;

/// The name of a kind of schema.
pub open spec fn kind_name(kind: SchemaKind) -> Seq<char> {
    match kind {
        SchemaKind::Type(_) => "Type"@,
        SchemaKind::OneOf => "OneOf"@,
        SchemaKind::AllOf => "AllOf"@,
        SchemaKind::AnyOf => "AnyOf"@,
        SchemaKind::Any(_) => "Any"@,
    }
}

/// A status as the document writes it: the code, or the first digit of a
/// range and `XX`.
pub open spec fn status_text(status: StatusCode) -> Seq<char> {
    match status {
        StatusCode::Code(code) => decimal(code as nat),
        StatusCode::Range(class) => decimal(class as nat) + "XX"@,
    }
}

/// What an error says of itself.
pub open spec fn message_text(e: ErrorView) -> Seq<char> {
    match e {
        ErrorView::Io(m) => "IO Error: "@ + m,
        ErrorView::Yaml(m) => "Yaml Error: "@ + m,
        ErrorView::CodeGen => "Codegen failed"@,
        ErrorView::BadReference(r) => "Bad reference: \""@ + r + "\""@,
        ErrorView::UnsupportedKind(k) => "Schema not supported: "@ + kind_name(k),
        ErrorView::TooComplex(_) => "Definition is too complex"@,
        ErrorView::EmptyStruct => "Empty struct"@,
        ErrorView::NotStructurallyTyped => "Rust does not support structural typing"@,
        ErrorView::BadStatusCode(s) => "Bad status code: "@ + status_text(s),
        ErrorView::NoSuccessStatus(p) => "path '"@ + p + "' expected exactly one 'success' status"@,
        ErrorView::BadParameter(n) => "Bad parameter: \""@ + n + "\""@,
        ErrorView::DuplicateName(n) => "Duplicate name: \""@ + n + "\""@,
        ErrorView::NoOperationId(p) => "path '"@ + p + "' has an operation without an id"@,
        ErrorView::PathArity { path, expected, found } => "path '"@ + path + "' expected "@
            + decimal(expected) + " path parameter(s), found "@ + decimal(found),
        ErrorView::UnsupportedContent => "Content must be application/json only"@,
        ErrorView::EmptyDefault => "The default response must have content"@,
    }
}

impl Error {
    /// What the error says of itself.
    pub fn message(&self) -> (text: String)
        ensures
            text@ == message_text(self@),
    {
        match self {
            Error::Io(m) => {
                let mut text = String::from_str("IO Error: ");
                text.append(m.as_str());
                text
            },
            Error::Yaml(m) => {
                let mut text = String::from_str("Yaml Error: ");
                text.append(m.as_str());
                text
            },
            Error::CodeGen => String::from_str("Codegen failed"),
            Error::BadReference(r) => {
                let mut text = String::from_str("Bad reference: \"");
                text.append(r.as_str());
                text.append("\"");
                text
            },
            Error::UnsupportedKind(k) => {
                let name = match k {
                    SchemaKind::Type(_) => "Type",
                    SchemaKind::OneOf => "OneOf",
                    SchemaKind::AllOf => "AllOf",
                    SchemaKind::AnyOf => "AnyOf",
                    SchemaKind::Any(_) => "Any",
                };
                let mut text = String::from_str("Schema not supported: ");
                text.append(name);
                text
            },
            Error::TooComplex(_) => String::from_str("Definition is too complex"),
            Error::EmptyStruct => String::from_str("Empty struct"),
            Error::NotStructurallyTyped => String::from_str(
                "Rust does not support structural typing",
            ),
            Error::BadStatusCode(s) => {
                let status = match s {
                    StatusCode::Code(code) => decimal_text(*code as u64),
                    StatusCode::Range(class) => {
                        let mut status = decimal_text(*class as u64);
                        status.append("XX");
                        status
                    },
                };
                let mut text = String::from_str("Bad status code: ");
                text.append(status.as_str());
                text
            },
            Error::NoSuccessStatus(p) => {
                let mut text = String::from_str("path '");
                text.append(p.as_str());
                text.append("' expected exactly one 'success' status");
                text
            },
            Error::BadParameter(n) => {
                let mut text = String::from_str("Bad parameter: \"");
                text.append(n.as_str());
                text.append("\"");
                text
            },
            Error::DuplicateName(n) => {
                let mut text = String::from_str("Duplicate name: \"");
                text.append(n.as_str());
                text.append("\"");
                text
            },
            Error::NoOperationId(p) => {
                let mut text = String::from_str("path '");
                text.append(p.as_str());
                text.append("' has an operation without an id");
                text
            },
            Error::PathArity { path, expected, found } => {
                let mut text = String::from_str("path '");
                text.append(path.as_str());
                text.append("' expected ");
                text.append(decimal_text(*expected as u64).as_str());
                text.append(" path parameter(s), found ");
                text.append(decimal_text(*found as u64).as_str());
                text
            },
            Error::UnsupportedContent => String::from_str("Content must be application/json only"),
            Error::EmptyDefault => String::from_str("The default response must have content"),
        }
    }
}

} // verus!
