//! Verified core of the harness that drives the OpenQASM front end in tests:
//! which compiler configuration each kind of run uses, when a parse or a
//! compilation is refused and with which errors, which package or statement
//! goes on to Q# code generation, where sources are found, what a snapshot
//! is checked against, and the despanning of syntax trees that lets two
//! trees be compared without regard to source positions.
pub mod ast;
pub mod check;
pub mod compiler;
pub mod config;
pub mod diagnostics;
pub mod io;
pub mod semantic;
pub mod span;
pub mod unit;

pub use ast::{AstNode, Package, TopLevelNode};
pub use check::{join_lines, qsharp_check_text};
pub use compiler::QasmCompiler;
pub use config::{CompilerConfig, OutputSemantics, ProgramType, QubitSemantics};
pub use diagnostics::QasmError;
pub use io::{entry_source, InMemorySourceResolver};
pub use semantic::{check_parse, QasmSemanticParseResult};
pub use span::{AstDespanner, Span};
pub use unit::{
    fail_on_compilation_errors, get_last_statement, package_ends_with_stmt, print_compilation_errors,
    qsharp_from_qasm_compilation, stmt_from_qasm_compilation, QasmCompileUnit,
};
