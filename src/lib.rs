//! Client side of the Neutral IPC record protocol, used to talk to a Neutral
//! template server over a byte stream.
//!
//! - `record`: the fixed 12-byte header and whole records, to and from bytes.
//! - `client`: the decisions of one request/response exchange, including the
//!   chunked read of each content block.
//! - `config`: connection settings.
//! - `constants`: protocol codes and sizes.
//! - `error`: why an exchange failed.
use vstd::prelude::*;

pub mod constants;
pub mod error;
pub mod record;
pub mod client;
pub mod config;

verus! {

} // verus!
