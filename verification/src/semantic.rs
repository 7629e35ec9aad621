//! What a parse of OpenQASM source reports, and when the harness accepts it.
use vstd::prelude::*;

use crate::diagnostics::QasmError;

verus! {

/// The errors of a parse with semantic analysis: those of parsing the
/// source files (syntax errors) and those of the analysis that followed.
#[derive(Debug)]
pub struct QasmSemanticParseResult {
    pub syntax_errors: Vec<QasmError>,
    pub semantic_errors: Vec<QasmError>,
}

impl QasmSemanticParseResult {
    /// All errors of the parse: the syntax errors first, then the semantic ones.
    pub open spec fn all_errors(self) -> Seq<QasmError> {
        self.syntax_errors@ + self.semantic_errors@
    }

    /// Whether parsing the source files reported an error.
    pub fn has_syntax_errors(&self) -> (b: bool)
        ensures
            b == (self.syntax_errors@.len() > 0),
    {
        self.syntax_errors.len() > 0
    }

    /// Whether the parse reported any error at all.
    pub fn has_errors(&self) -> (b: bool)
        ensures
            b == (self.all_errors().len() > 0),
    {
        self.syntax_errors.len() > 0 || self.semantic_errors.len() > 0
    }

    /// All errors of the parse, syntax errors first.
    pub fn errors(&self) -> (es: Vec<QasmError>)
        ensures
            es@ == self.all_errors(),
            es@ == self.syntax_errors@ + self.semantic_errors@,
    {
        let mut es = crate::diagnostics::clone_errors(&self.syntax_errors);
        let mut more = crate::diagnostics::clone_errors(&self.semantic_errors);
        es.append(&mut more);
        es
    }
}

/// Accepts a parse for compilation. A parse whose source files had syntax
/// errors is refused with every error of the parse, syntax errors first;
/// any other parse, semantic errors included, is accepted as it is.
pub fn check_parse(res: QasmSemanticParseResult) -> (out: Result<
    QasmSemanticParseResult,
    Vec<QasmError>,
>)
    ensures
        match out {
            Ok(r) => res.syntax_errors@.len() == 0 && r == res,
            Err(es) => res.syntax_errors@.len() > 0 && es@ == res.all_errors() && es@
                == res.syntax_errors@ + res.semantic_errors@,
        },
{
    if res.has_syntax_errors() {
        Err(res.errors())
    } else {
        Ok(res)
    }
}

/// The errors of a parse are all of its syntax errors, in order, followed
/// by all of its semantic errors, in order: none is dropped, repeated or
/// moved.
pub proof fn lemma_all_errors_keeps_every_error(res: QasmSemanticParseResult)
    ensures
        res.all_errors().len() == res.syntax_errors@.len() + res.semantic_errors@.len(),
        forall|i: int|
            0 <= i < res.syntax_errors@.len() ==> #[trigger] res.all_errors()[i]
                == res.syntax_errors@[i],
        forall|j: int|
            0 <= j < res.semantic_errors@.len() ==> res.all_errors()[res.syntax_errors@.len() + j]
                == #[trigger] res.semantic_errors@[j],
{
}

} // verus!
