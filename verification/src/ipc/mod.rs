//! Inter-process communication between the Chip Loom core and its clients.
//!
//! The VS Code extension is a client; so is any other editor integration, and
//! so is `chiploom serve --stdio` driven from a script. The protocol lives in
//! the core so the command line and the extension stay two front ends over one
//! core.

pub mod codes;
pub mod protocol;
pub mod server;

use vstd::prelude::*;

pub use protocol::{
    Answer, Capabilities, DoctorParams, ErrorData, Id, Incoming, InitializeParams,
    InitializeResult, Notification, Params, PongResult, ReadyParams, Response, RpcError,
};
pub use server::{Outcome, Server, Step};

use crate::text::trimmed;
#[allow(unused_imports)]
use vstd::string::*;

verus! {

/// Whether a line of input holds only whitespace. Such lines are skipped:
/// some clients flush an empty write.
pub fn is_blank(line: &str) -> (b: bool)
    ensures
        b == (crate::text::trim(line@).len() == 0),
{
    trimmed(line).len() == 0
}

} // verus!
