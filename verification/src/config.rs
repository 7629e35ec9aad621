//! Compiler configurations, and the one each kind of harness run uses.
use vstd::prelude::*;

verus! {

/// How qubits of the OpenQASM program are allocated and measured.
#[derive(Clone, Copy, Debug, PartialEq, Eq, Structural)]
pub enum QubitSemantics {
    QSharp,
    Qiskit,
}

/// Which conventions the produced program follows for its output.
#[derive(Clone, Copy, Debug, PartialEq, Eq, Structural)]
pub enum OutputSemantics {
    Qiskit,
    OpenQasm,
    ResourceEstimation,
}

/// The shape of the Q# program produced.
#[derive(Clone, Copy, Debug, PartialEq, Eq, Structural)]
pub enum ProgramType {
    /// A whole file: a namespace holding an entry operation.
    File,
    /// A single operation.
    Operation,
    /// Bare statements, as they come.
    Fragments,
}

/// The settings of one compilation.
#[derive(Debug)]
pub struct CompilerConfig {
    pub qubit_semantics: QubitSemantics,
    pub output_semantics: OutputSemantics,
    pub program_ty: ProgramType,
    pub operation_name: Option<String>,
    pub namespace: Option<String>,
}

impl CompilerConfig {
    /// A configuration with the given settings.
    pub fn new(
        qubit_semantics: QubitSemantics,
        output_semantics: OutputSemantics,
        program_ty: ProgramType,
        operation_name: Option<String>,
        namespace: Option<String>,
    ) -> (c: CompilerConfig)
        ensures
            c.qubit_semantics == qubit_semantics,
            c.output_semantics == output_semantics,
            c.program_ty == program_ty,
            c.operation_name == operation_name,
            c.namespace == namespace,
    {
        CompilerConfig { qubit_semantics, output_semantics, program_ty, operation_name, namespace }
    }

    /// Whether the configuration has these settings, with the operation
    /// named `name` (none when `name` is `None`) and no namespace given.
    pub open spec fn has_settings(
        self,
        q: QubitSemantics,
        o: OutputSemantics,
        t: ProgramType,
        name: Option<Seq<char>>,
    ) -> bool {
        &&& self.qubit_semantics == q
        &&& self.output_semantics == o
        &&& self.program_ty == t
        &&& match (self.operation_name, name) {
            (Some(n), Some(m)) => n@ == m,
            (None, None) => true,
            _ => false,
        }
        &&& self.namespace is None
    }
}

/// Compiling a whole test file as Qiskit would run it, into an operation
/// named `Test`.
pub fn qiskit_file_config() -> (c: CompilerConfig)
    ensures
        c.has_settings(
            QubitSemantics::Qiskit,
            OutputSemantics::Qiskit,
            ProgramType::File,
            Some("Test"@),
        ),
{
    CompilerConfig::new(
        QubitSemantics::Qiskit,
        OutputSemantics::Qiskit,
        ProgramType::File,
        Some("Test".to_owned()),
        None,
    )
}

/// Compiling statements as they come, with OpenQASM output conventions and
/// no operation around them.
pub fn fragments_config() -> (c: CompilerConfig)
    ensures
        c.has_settings(QubitSemantics::Qiskit, OutputSemantics::OpenQasm, ProgramType::Fragments, None),
{
    CompilerConfig::new(
        QubitSemantics::Qiskit,
        OutputSemantics::OpenQasm,
        ProgramType::Fragments,
        None,
        None,
    )
}

/// Compiling a whole file with OpenQASM output conventions into an
/// operation named `Test`.
pub fn openqasm_file_config() -> (c: CompilerConfig)
    ensures
        c.has_settings(
            QubitSemantics::Qiskit,
            OutputSemantics::OpenQasm,
            ProgramType::File,
            Some("Test"@),
        ),
{
    CompilerConfig::new(
        QubitSemantics::Qiskit,
        OutputSemantics::OpenQasm,
        ProgramType::File,
        Some("Test".to_owned()),
        None,
    )
}

/// Compiling a program into a single operation named `Test`, with OpenQASM
/// output conventions.
pub fn operation_config() -> (c: CompilerConfig)
    ensures
        c.has_settings(
            QubitSemantics::Qiskit,
            OutputSemantics::OpenQasm,
            ProgramType::Operation,
            Some("Test"@),
        ),
{
    CompilerConfig::new(
        QubitSemantics::Qiskit,
        OutputSemantics::OpenQasm,
        ProgramType::Operation,
        Some("Test".to_owned()),
        None,
    )
}

/// Compiling statements as they come, as Qiskit would run them, with the
/// qubit semantics asked for.
pub fn qsharp_fragments_config(qubit_semantics: QubitSemantics) -> (c: CompilerConfig)
    ensures
        c.has_settings(qubit_semantics, OutputSemantics::Qiskit, ProgramType::Fragments, None),
{
    CompilerConfig::new(qubit_semantics, OutputSemantics::Qiskit, ProgramType::Fragments, None, None)
}

/// Compiling a whole file, with best effort, as the fuzzer does: OpenQASM
/// output conventions, into an operation named `Fuzz`.
pub fn best_effort_config() -> (c: CompilerConfig)
    ensures
        c.has_settings(
            QubitSemantics::Qiskit,
            OutputSemantics::OpenQasm,
            ProgramType::File,
            Some("Fuzz"@),
        ),
{
    CompilerConfig::new(
        QubitSemantics::Qiskit,
        OutputSemantics::OpenQasm,
        ProgramType::File,
        Some("Fuzz".to_owned()),
        None,
    )
}

/// Compiling a whole file as Qiskit would run it, with the operation left
/// unnamed, for comparing its syntax tree with the one Q# parses back.
pub fn ast_comparison_config() -> (c: CompilerConfig)
    ensures
        c.has_settings(QubitSemantics::Qiskit, OutputSemantics::Qiskit, ProgramType::File, None),
{
    CompilerConfig::new(
        QubitSemantics::Qiskit,
        OutputSemantics::Qiskit,
        ProgramType::File,
        None,
        None,
    )
}

} // verus!
