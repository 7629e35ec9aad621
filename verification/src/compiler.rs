//! The compiler state that a compilation of an accepted parse starts from.
use vstd::prelude::*;

use crate::ast::AstNode;
use crate::config::CompilerConfig;
use crate::diagnostics::QasmError;
use crate::semantic::QasmSemanticParseResult;

verus! {

/// A compiler about to lower an analysed program to Q#: its settings, the
/// statements produced so far, and the errors reported so far.
#[derive(Debug)]
pub struct QasmCompiler {
    pub config: CompilerConfig,
    pub stmts: Vec<AstNode>,
    pub errors: Vec<QasmError>,
}

impl QasmCompiler {
    /// The compiler for a parse without syntax errors: it has the given
    /// settings, no statements yet, and starts from the errors of the
    /// semantic analysis, in order, so that they stay errors of the unit.
    pub fn from_parse(res: QasmSemanticParseResult, config: CompilerConfig) -> (c: QasmCompiler)
        requires
            res.syntax_errors@.len() == 0,
        ensures
            c.config == config,
            c.stmts@.len() == 0,
            c.errors@ == res.semantic_errors@,
            c.errors@ == res.all_errors(),
    {
        proof {
            assert(res.all_errors() =~= res.semantic_errors@);
        }
        QasmCompiler { config, stmts: Vec::new(), errors: res.semantic_errors }
    }
}

} // verus!
