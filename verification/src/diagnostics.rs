//! The errors that the front end reports and that the harness hands back.
use vstd::prelude::*;

use crate::span::Span;

verus! {

/// An error of the OpenQASM front end, as the harness passes it on.
#[derive(Debug, PartialEq, Eq)]
pub enum QasmError {
    /// A source file that was asked for is not among the known sources.
    NotFound { path: String },
    /// A diagnostic of parsing, semantic analysis or compilation: its
    /// message and the span it points at.
    Diagnostic { message: String, span: Span },
}

impl Clone for QasmError {
    fn clone(&self) -> (e: Self)
        ensures
            e == *self,
    {
        match self {
            QasmError::NotFound { path } => QasmError::NotFound { path: path.clone() },
            QasmError::Diagnostic { message, span } => QasmError::Diagnostic {
                message: message.clone(),
                span: *span,
            },
        }
    }
}

/// Copies a list of errors, keeping their order.
pub(crate) fn clone_errors(errors: &Vec<QasmError>) -> (out: Vec<QasmError>)
    ensures
        out@ == errors@,
{
    let out = errors.clone();
    assert(out@ =~= errors@);
    out
}

} // verus!
