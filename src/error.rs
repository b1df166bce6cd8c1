//! Errors of a record exchange.
use vstd::prelude::*;

verus! {

/// The I/O error type of std, carried unchanged from a failed read, write or connect.
#[verifier::external_type_specification]
#[verifier::external_body]
pub struct ExIoError(std::io::Error);

/// serde_json's error type, carried unchanged from a failed JSON step.
#[verifier::external_type_specification]
#[verifier::external_body]
pub struct ExJsonError(serde_json::Error);

/// Why an exchange with the template server failed.
#[derive(Debug)]
pub enum NeutralIpcError {
    /// Connecting, setting a timeout, writing or reading failed.
    Io(std::io::Error),
    /// A header did not hold exactly `HEADER_LEN` bytes.
    InvalidHeaderLength,
    /// The response was malformed or incomplete.
    InvalidResponse,
    /// The peer closed the connection before a content block was complete.
    ConnectionClosed,
    /// A content block was not valid UTF-8.
    InvalidUtf8,
    /// A JSON document could not be parsed or written.
    Json(serde_json::Error),
}

/// Relies on `Display` of `std::io::Error`, through `format!`.
#[verifier::external_body]
fn io_error_message(err: &std::io::Error) -> (r: String) {
    format!("IO error: {}", err)
}

/// Relies on `Display` of `serde_json::Error`, through `format!`.
#[verifier::external_body]
fn json_error_message(err: &serde_json::Error) -> (r: String) {
    format!("JSON error: {}", err)
}

impl NeutralIpcError {
    /// A short English description of the error; for `Io` and `Json` it
    /// includes the description of the wrapped error.
    pub fn message(&self) -> (r: String)
        ensures
            self matches NeutralIpcError::InvalidHeaderLength ==> r@ == "Invalid header length received"@,
            self matches NeutralIpcError::InvalidResponse ==> r@ == "Invalid response from server"@,
            self matches NeutralIpcError::ConnectionClosed ==> r@ == "Connection closed unexpectedly"@,
            self matches NeutralIpcError::InvalidUtf8 ==> r@ == "Invalid UTF-8 encoding in response"@,
    {
        match self {
            NeutralIpcError::Io(err) => io_error_message(err),
            NeutralIpcError::InvalidHeaderLength => "Invalid header length received".to_owned(),
            NeutralIpcError::InvalidResponse => "Invalid response from server".to_owned(),
            NeutralIpcError::ConnectionClosed => "Connection closed unexpectedly".to_owned(),
            NeutralIpcError::InvalidUtf8 => "Invalid UTF-8 encoding in response".to_owned(),
            NeutralIpcError::Json(err) => json_error_message(err),
        }
    }
}

} // verus!
