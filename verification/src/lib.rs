//! Compiler from an API contract document to server and client source text,
//! and the few items that the emitted code leans on at run time.

pub mod client;
pub mod compile;
pub mod cycles;
pub mod declare;
pub mod document;
pub mod emit;
pub mod error;
pub mod names;
pub mod path;
pub mod resolve;
pub mod route;
pub mod runtime;
pub mod server;
pub mod status;
pub mod table;
pub mod taxonomy;
pub mod text;
pub mod typ;

pub use compile::{generate, generate_under, Generated};
pub use declare::{define_struct, format_rust_types};
pub use error::{Error, Result};
pub use resolve::{
    build_type, extract_component_name, extract_ref_name, gather_types, validate_ref,
};
pub use route::Route;
pub use table::TypeTable;
pub use runtime::{result_to_either, ClientError, Either, HasStatusCode, Void};
pub use typ::{Field, Typ, TypeDef};
