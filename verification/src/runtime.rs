//! What emitted code leans on at run time: the status of an error, the two
//! outcomes of an adapter, and the errors of a client.

use vstd::prelude::*;
use crate::status::is_status;

verus! {

/// A type with no values: the error of what cannot fail.
pub enum Void {
    Never(core::convert::Infallible),
}

/// One of two outcomes of an adapter, each with its own way of being sent.
#[derive(Debug, Clone, Copy, PartialEq, Eq)]
pub enum Either<A, B> {
    A(A),
    B(B),
}

/// Associates a status code with a type. The status is the internal server
/// error unless the type says otherwise.
pub trait HasStatusCode {
    /// The status code associated with the value. Every value has one.
    fn status_code(&self) -> (code: u16)
        ensures
            is_status(code),
    {
        500
    }
}

/// An error that a service or a client may return.
pub trait Error: HasStatusCode {

}

/// The errors of a client that are no answer of the service.
#[derive(Debug, Clone, PartialEq, Eq)]
pub enum ClientError {
    /// The service answered with a status that the operation does not
    /// declare.
    BadStatus(u16),
    /// The transport failed; the text is its message.
    Actix(String),
}

impl HasStatusCode for ClientError {
    /// A client error is no answer of the service: its status is the
    /// internal server error, whatever it holds.
    fn status_code(&self) -> (code: u16)
        ensures
            code == 500,
    {
        500
    }
}

impl Error for ClientError {

}

/// A success as the first outcome, a failure as the second.
pub fn result_to_either<A, B>(res: Result<A, B>) -> (either: Either<A, B>)
    ensures
        either == match res {
            Ok(a) => Either::<A, B>::A(a),
            Err(b) => Either::<A, B>::B(b),
        },
{
    match res {
        Ok(a) => Either::A(a),
        Err(b) => Either::B(b),
    }
}

} // verus!
