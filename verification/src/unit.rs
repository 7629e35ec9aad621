//! The result of compiling OpenQASM to a Q# package, and what the harness
//! decides from it: whether the compilation failed, which errors to show,
//! and which package or statement goes on to Q# code generation.
use vstd::prelude::*;

use crate::ast::{AstNode, Package, TopLevelNode};
use crate::diagnostics::{clone_errors, QasmError};

verus! {

/// A compiled unit: the errors of the compilation and the Q# package it built.
#[derive(Debug)]
pub struct QasmCompileUnit {
    pub errors: Vec<QasmError>,
    pub package: Package,
}

impl QasmCompileUnit {
    /// Whether the compilation reported an error.
    pub fn has_errors(&self) -> (b: bool)
        ensures
            b == (self.errors@.len() > 0),
    {
        self.errors.len() > 0
    }

    /// The errors of the compilation, in the order they were reported.
    pub fn errors(&self) -> (es: &Vec<QasmError>)
        ensures
            es@ == self.errors@,
    {
        &self.errors
    }
}

/// The errors to print for a unit: all of its errors, in order (none when
/// the compilation succeeded).
pub fn print_compilation_errors(unit: &QasmCompileUnit) -> (shown: Vec<QasmError>)
    ensures
        shown@ == unit.errors@,
{
    if unit.has_errors() {
        clone_errors(&unit.errors)
    } else {
        Vec::new()
    }
}

/// Lets a unit that compiled without errors through. A unit with errors
/// fails the run (its errors printed first, see `print_compilation_errors`),
/// so such units are left out here.
pub fn fail_on_compilation_errors(unit: &QasmCompileUnit)
    requires
        unit.errors@.len() == 0,
{
    if unit.has_errors() {
        vstd::pervasive::unreached::<()>()
    }
}

/// The package to render as Q#: a unit with errors is refused with those
/// errors, in order; otherwise its package is rendered.
pub fn qsharp_from_qasm_compilation(unit: QasmCompileUnit) -> (r: Result<Package, Vec<QasmError>>)
    ensures
        match r {
            Ok(p) => unit.errors@.len() == 0 && p == unit.package,
            Err(es) => unit.errors@.len() > 0 && es@ == unit.errors@,
        },
{
    if unit.has_errors() {
        Err(unit.errors)
    } else {
        Ok(unit.package)
    }
}

/// The last top-level node of the package is a statement.
pub open spec fn ends_with_stmt(p: Package) -> bool {
    p.nodes.len() > 0 && p.nodes@.last() is Stmt
}

/// Whether the package ends with a statement.
pub fn package_ends_with_stmt(package: &Package) -> (b: bool)
    ensures
        b == ends_with_stmt(*package),
        b == (package.nodes@.len() > 0 && package.nodes@[package.nodes@.len() - 1] is Stmt),
{
    let n = package.nodes.len();
    if n == 0 {
        false
    } else {
        match &package.nodes[n - 1] {
            TopLevelNode::Stmt(_) => true,
            TopLevelNode::Namespace(_) => false,
        }
    }
}

/// The statement that ends a package.
pub open spec fn last_stmt(p: Package) -> AstNode
    recommends
        ends_with_stmt(p),
{
    p.nodes@.last()->Stmt_0
}

/// The last top-level node of a package, which must be a statement.
pub fn get_last_statement(package: &Package) -> (stmt: &AstNode)
    requires
        ends_with_stmt(*package),
    ensures
        *stmt == last_stmt(*package),
        *stmt == package.nodes@[package.nodes@.len() - 1]->Stmt_0,
{
    let n = package.nodes.len();
    match &package.nodes[n - 1] {
        TopLevelNode::Stmt(stmt) => stmt,
        TopLevelNode::Namespace(_) => vstd::pervasive::unreached(),
    }
}

/// The statement to render as Q#: a unit with errors is refused with those
/// errors, in order; otherwise its package, which must then end with a
/// statement, gives that last statement.
pub fn stmt_from_qasm_compilation(unit: &QasmCompileUnit) -> (r: Result<&AstNode, Vec<QasmError>>)
    requires
        unit.errors@.len() == 0 ==> ends_with_stmt(unit.package),
    ensures
        match r {
            Ok(s) => unit.errors@.len() == 0 && *s == last_stmt(unit.package) && *s
                == unit.package.nodes@[unit.package.nodes@.len() - 1]->Stmt_0,
            Err(es) => unit.errors@.len() > 0 && es@ == unit.errors@,
        },
{
    if unit.has_errors() {
        Err(clone_errors(&unit.errors))
    } else {
        Ok(get_last_statement(&unit.package))
    }
}

/// Whether a package ends with a statement is decided by its last node
/// alone: it does exactly when it has nodes and the last one is a statement.
pub proof fn lemma_ends_with_stmt_is_last_node(p: Package)
    ensures
        ends_with_stmt(p) <==> (p.nodes@.len() > 0 && p.nodes@[p.nodes@.len() - 1] is Stmt),
{
}

/// Two non-empty packages with the same last node agree on whether they end
/// with a statement, whatever nodes come before.
pub proof fn lemma_ends_with_stmt_ignores_earlier_nodes(p: Package, q: Package)
    requires
        p.nodes@.len() > 0,
        q.nodes@.len() > 0,
        p.nodes@[p.nodes@.len() - 1] == q.nodes@[q.nodes@.len() - 1],
    ensures
        ends_with_stmt(p) == ends_with_stmt(q),
{
}

/// The statement rendered for a package that ends with one is its final
/// node, whatever statements or namespaces precede it.
pub proof fn lemma_last_stmt_is_final_node(p: Package)
    requires
        p.nodes@.len() > 0,
        p.nodes@[p.nodes@.len() - 1] is Stmt,
    ensures
        ends_with_stmt(p),
        last_stmt(p) == p.nodes@[p.nodes@.len() - 1]->Stmt_0,
{
}

/// Two packages that end with the same statement render the same statement,
/// however they differ before it.
pub proof fn lemma_last_stmt_ignores_earlier_nodes(p: Package, q: Package)
    requires
        ends_with_stmt(p),
        q.nodes@.len() > 0,
        p.nodes@[p.nodes@.len() - 1] == q.nodes@[q.nodes@.len() - 1],
    ensures
        ends_with_stmt(q),
        last_stmt(p) == last_stmt(q),
{
}

} // verus!
