//! Codes and sizes fixed by the record protocol.
use vstd::prelude::*;

verus! {

/// Reserved header byte: always written as zero.
pub const RESERVED: u8 = 0;

/// Size of a record header in bytes.
pub const HEADER_LEN: usize = 12;

/// Control code of a "parse template" request.
pub const CTRL_PARSE_TEMPLATE: u8 = 10;

/// Status code of a successful response.
pub const CTRL_STATUS_OK: u8 = 0;

/// Status code of a failed response.
pub const CTRL_STATUS_KO: u8 = 1;

/// Content format: JSON text.
pub const CONTENT_JSON: u8 = 10;

/// Content format: a file path.
pub const CONTENT_PATH: u8 = 20;

/// Content format: plain text.
pub const CONTENT_TEXT: u8 = 30;

/// Content format: binary data.
pub const CONTENT_BIN: u8 = 40;

} // verus!
