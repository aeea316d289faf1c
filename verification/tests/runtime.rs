use hsr::runtime::{result_to_either, ClientError, Either, Error, HasStatusCode};

struct Teapot;

impl HasStatusCode for Teapot {
    fn status_code(&self) -> u16 {
        418
    }
}

struct Plain;

impl HasStatusCode for Plain {}

impl Error for Plain {}

fn status_of<E: Error>(e: &E) -> u16 {
    e.status_code()
}

#[test]
fn success_is_the_first_outcome() {
    let res: Result<u8, &str> = Ok(7);
    assert_eq!(result_to_either(res), Either::A(7));
}

#[test]
fn failure_is_the_second_outcome() {
    let res: Result<u8, &str> = Err("no");
    assert_eq!(result_to_either(res), Either::B("no"));
}

#[test]
fn status_is_the_internal_server_error_unless_said_otherwise() {
    assert_eq!(Plain.status_code(), 500);
    assert_eq!(status_of(&Plain), 500);
    assert_eq!(Teapot.status_code(), 418);
}

#[test]
fn client_errors_are_internal_server_errors() {
    assert_eq!(ClientError::BadStatus(404).status_code(), 500);
    assert_eq!(status_of(&ClientError::Actix("connection refused".to_string())), 500);
    assert_eq!(ClientError::BadStatus(200).status_code(), 500);
}
