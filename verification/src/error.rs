//! The library's error type.

use vstd::prelude::*;

verus! {

/// Errors of this library, and the errors the engine reported for a call.
#[derive(Debug)]
pub enum Error {
    /// A qualified name the engine cannot express: no table name, or a
    /// catalog without a schema.
    InvalidName,
    /// A registration step was reported after the registration had ended.
    RegistrationFinished,
    /// The engine rejected a call: its error code and message.
    Engine { code: u32, message: String },
}

} // verus!
