//! Errors handed to the calling boundary.
use vstd::prelude::*;

verus! {

/// An error as the command surface reports it.
#[derive(Debug, Clone)]
pub enum RustError {
    Error { msg: String },
    ArcError,
    NotUTF8Error,
    /// A capture was requested while a session is already under way.
    AlreadyStreaming,
}

/// Relies on `format!("{:?}", ..)` of std: the debug rendering of `e`.
#[verifier::external_body]
fn debug_text<E: std::fmt::Debug>(e: &E) -> String {
    format!("{:?}", e)
}

/// Turns any error into the boundary's generic `Error`, carrying its debug text.
pub fn handle_error<E: std::error::Error>(e: E) -> (r: RustError)
    ensures
        r is Error,
{
    RustError::Error { msg: debug_text(&e) }
}

} // verus!
