use qasm_harness::config::{
    ast_comparison_config, best_effort_config, fragments_config, openqasm_file_config,
    operation_config, qiskit_file_config, qsharp_fragments_config,
};
use qasm_harness::{
    check_parse, entry_source, fail_on_compilation_errors, get_last_statement, join_lines,
    print_compilation_errors, qsharp_check_text, qsharp_from_qasm_compilation,
    package_ends_with_stmt, stmt_from_qasm_compilation, AstDespanner, AstNode, InMemorySourceResolver, OutputSemantics,
    Package, ProgramType, QasmCompileUnit, QasmCompiler, QasmError, QasmSemanticParseResult, QubitSemantics,
    Span, TopLevelNode,
};

fn span(lo: u32, hi: u32) -> Span {
    Span { lo, hi }
}

fn leaf(kind: &str, lo: u32, hi: u32) -> AstNode {
    AstNode { kind: kind.to_string(), span: span(lo, hi), children: vec![] }
}

fn node(kind: &str, lo: u32, hi: u32, children: Vec<AstNode>) -> AstNode {
    AstNode { kind: kind.to_string(), span: span(lo, hi), children }
}

fn diag(message: &str, lo: u32, hi: u32) -> QasmError {
    QasmError::Diagnostic { message: message.to_string(), span: span(lo, hi) }
}

fn sample_stmt(offset: u32) -> AstNode {
    node(
        "Stmt",
        offset,
        offset + 12,
        vec![node("Expr", offset + 1, offset + 10, vec![leaf("Lit", offset + 2, offset + 3)])],
    )
}

fn sample_package(offset: u32) -> Package {
    Package {
        nodes: vec![
            TopLevelNode::Namespace(node("Namespace", offset, offset + 40, vec![leaf("Item", offset + 5, offset + 30)])),
            TopLevelNode::Stmt(sample_stmt(offset + 50)),
        ],
    }
}

fn all_spans_zero(n: &AstNode) -> bool {
    n.span == span(0, 0) && n.children.iter().all(all_spans_zero)
}

#[test]
fn visit_span_erases_both_ends() {
    let mut s = span(3, 17);
    AstDespanner.visit_span(&mut s);
    assert_eq!(s, span(0, 0));
}

#[test]
fn despan_node_erases_every_span_and_keeps_kinds() {
    let n = sample_stmt(7);
    let out = AstDespanner.despan_node(&n);
    assert!(all_spans_zero(&out));
    assert_eq!(out.kind, "Stmt");
    assert_eq!(out.children.len(), 1);
    assert_eq!(out.children[0].kind, "Expr");
    assert_eq!(out.children[0].children[0].kind, "Lit");
    // the input tree is left as it was
    assert_eq!(n.span, span(7, 19));
}

#[test]
fn despan_package_keeps_variants_and_order() {
    let p = sample_package(100);
    let out = AstDespanner.despan(&p);
    assert_eq!(out.nodes.len(), 2);
    match (&out.nodes[0], &out.nodes[1]) {
        (TopLevelNode::Namespace(ns), TopLevelNode::Stmt(st)) => {
            assert_eq!(ns.kind, "Namespace");
            assert!(all_spans_zero(ns));
            assert_eq!(st.kind, "Stmt");
            assert!(all_spans_zero(st));
        }
        _ => panic!("variants changed"),
    }
}

#[test]
fn despanned_trees_equal_when_only_spans_differ() {
    let a = AstDespanner.despan(&sample_package(0));
    let b = AstDespanner.despan(&sample_package(1000));
    assert_eq!(a, b);
}

#[test]
fn despanned_trees_differ_when_kinds_differ() {
    let mut other = sample_package(0);
    other.nodes[1] = TopLevelNode::Stmt(node("Stmt", 50, 62, vec![leaf("Lit", 52, 53)]));
    let a = AstDespanner.despan(&sample_package(0));
    let b = AstDespanner.despan(&other);
    assert_ne!(a, b);
}

#[test]
fn despan_is_idempotent() {
    let once = AstDespanner.despan(&sample_package(9));
    let twice = AstDespanner.despan(&once);
    assert_eq!(once, twice);
}

#[test]
fn parse_with_syntax_errors_is_refused_with_all_errors() {
    let res = QasmSemanticParseResult {
        syntax_errors: vec![diag("expected `;`", 4, 5)],
        semantic_errors: vec![diag("undefined symbol q", 9, 10), diag("type mismatch", 20, 24)],
    };
    assert!(res.has_syntax_errors());
    assert!(res.has_errors());
    match check_parse(res) {
        Err(es) => assert_eq!(
            es,
            vec![
                diag("expected `;`", 4, 5),
                diag("undefined symbol q", 9, 10),
                diag("type mismatch", 20, 24)
            ]
        ),
        Ok(_) => panic!("a parse with syntax errors was accepted"),
    }
}

#[test]
fn parse_with_only_semantic_errors_is_accepted() {
    let res = QasmSemanticParseResult {
        syntax_errors: vec![],
        semantic_errors: vec![diag("undefined symbol q", 9, 10)],
    };
    assert!(!res.has_syntax_errors());
    assert!(res.has_errors());
    let accepted = check_parse(res).expect("accepted");
    assert_eq!(accepted.semantic_errors, vec![diag("undefined symbol q", 9, 10)]);
    assert_eq!(accepted.errors(), vec![diag("undefined symbol q", 9, 10)]);
}

#[test]
fn clean_parse_is_accepted() {
    let res = QasmSemanticParseResult { syntax_errors: vec![], semantic_errors: vec![] };
    assert!(!res.has_errors());
    assert!(check_parse(res).is_ok());
}

fn unit_with(errors: Vec<QasmError>, package: Package) -> QasmCompileUnit {
    QasmCompileUnit { errors, package }
}

#[test]
fn failing_unit_shows_its_errors_in_order() {
    let unit = unit_with(vec![diag("a", 1, 2), diag("b", 3, 4)], sample_package(0));
    assert!(unit.has_errors());
    assert_eq!(print_compilation_errors(&unit), vec![diag("a", 1, 2), diag("b", 3, 4)]);
}

#[test]
fn clean_unit_passes() {
    let unit = unit_with(vec![], sample_package(0));
    assert!(!unit.has_errors());
    fail_on_compilation_errors(&unit);
    assert!(print_compilation_errors(&unit).is_empty());
}

#[test]
fn qsharp_from_clean_unit_is_its_package() {
    let unit = unit_with(vec![], sample_package(5));
    assert_eq!(qsharp_from_qasm_compilation(unit), Ok(sample_package(5)));
}

#[test]
fn qsharp_from_failing_unit_is_refused() {
    let unit = unit_with(vec![diag("bad gate", 0, 3)], sample_package(5));
    assert_eq!(qsharp_from_qasm_compilation(unit), Err(vec![diag("bad gate", 0, 3)]));
}

#[test]
fn last_statement_is_found() {
    let p = sample_package(0);
    assert_eq!(get_last_statement(&p), &sample_stmt(50));
}

#[test]
fn statement_from_units() {
    let ok = unit_with(vec![], sample_package(0));
    assert_eq!(stmt_from_qasm_compilation(&ok), Ok(&sample_stmt(50)));
    // a unit with errors is refused even when it does not end in a statement
    let bad = unit_with(vec![diag("x", 1, 1)], Package { nodes: vec![] });
    assert_eq!(stmt_from_qasm_compilation(&bad), Err(vec![diag("x", 1, 1)]));
}

#[test]
fn configs_of_each_kind_of_run() {
    let c = qiskit_file_config();
    assert_eq!(
        (c.qubit_semantics, c.output_semantics, c.program_ty),
        (QubitSemantics::Qiskit, OutputSemantics::Qiskit, ProgramType::File)
    );
    assert_eq!(c.operation_name.as_deref(), Some("Test"));
    assert_eq!(c.namespace, None);

    let c = fragments_config();
    assert_eq!(
        (c.qubit_semantics, c.output_semantics, c.program_ty),
        (QubitSemantics::Qiskit, OutputSemantics::OpenQasm, ProgramType::Fragments)
    );
    assert_eq!(c.operation_name, None);

    let c = openqasm_file_config();
    assert_eq!(
        (c.qubit_semantics, c.output_semantics, c.program_ty),
        (QubitSemantics::Qiskit, OutputSemantics::OpenQasm, ProgramType::File)
    );
    assert_eq!(c.operation_name.as_deref(), Some("Test"));

    let c = operation_config();
    assert_eq!(c.program_ty, ProgramType::Operation);
    assert_eq!(c.output_semantics, OutputSemantics::OpenQasm);
    assert_eq!(c.operation_name.as_deref(), Some("Test"));

    let c = qsharp_fragments_config(QubitSemantics::QSharp);
    assert_eq!(
        (c.qubit_semantics, c.output_semantics, c.program_ty),
        (QubitSemantics::QSharp, OutputSemantics::Qiskit, ProgramType::Fragments)
    );
    assert_eq!(c.operation_name, None);

    let c = best_effort_config();
    assert_eq!(c.output_semantics, OutputSemantics::OpenQasm);
    assert_eq!(c.program_ty, ProgramType::File);
    assert_eq!(c.operation_name.as_deref(), Some("Fuzz"));

    let c = ast_comparison_config();
    assert_eq!(
        (c.qubit_semantics, c.output_semantics, c.program_ty),
        (QubitSemantics::Qiskit, OutputSemantics::Qiskit, ProgramType::File)
    );
    assert_eq!(c.operation_name, None);
    assert_eq!(c.namespace, None);
}

fn pairs(ps: &[(&str, &str)]) -> Vec<(String, String)> {
    ps.iter().map(|(p, s)| (p.to_string(), s.to_string())).collect()
}

#[test]
fn resolver_finds_registered_source() {
    let r = InMemorySourceResolver::from_iter(pairs(&[("Test.qasm", "qubit q;"), ("lib.inc", "gate g a {}")]));
    let found = r.resolve(&"lib.inc".to_string()).expect("found");
    assert_eq!(found, ("lib.inc".to_string(), "gate g a {}".to_string()));
}

#[test]
fn resolver_prefers_last_source_given_for_a_path() {
    let r = InMemorySourceResolver::from_iter(pairs(&[("a.qasm", "old"), ("b.qasm", "b"), ("a.qasm", "new")]));
    assert_eq!(r.resolve(&"a.qasm".to_string()).unwrap().1, "new");
}

#[test]
fn resolver_reports_missing_path() {
    let r = InMemorySourceResolver::from_iter(pairs(&[("a.qasm", "x")]));
    assert_eq!(
        r.resolve(&"missing.qasm".to_string()),
        Err(QasmError::NotFound { path: "missing.qasm".to_string() })
    );
}

#[test]
fn entry_source_of_registered_and_missing_paths() {
    let r = InMemorySourceResolver::from_iter(pairs(&[("main.qasm", "OPENQASM 3.0;")]));
    assert_eq!(entry_source(&r, &"main.qasm".to_string()), Ok("OPENQASM 3.0;".to_string()));
    assert_eq!(
        entry_source(&r, &"other.qasm".to_string()),
        Err(vec![QasmError::NotFound { path: "other.qasm".to_string() }])
    );
    let empty = InMemorySourceResolver::from_iter(vec![]);
    assert!(entry_source(&empty, &"main.qasm".to_string()).is_err());
}

#[test]
fn join_lines_puts_newlines_between() {
    assert_eq!(join_lines(&vec![]), "");
    assert_eq!(join_lines(&vec!["one".to_string()]), "one");
    assert_eq!(
        join_lines(&vec!["one".to_string(), "two".to_string(), "three".to_string()]),
        "one\ntwo\nthree"
    );
}

#[test]
fn check_text_is_the_qsharp_or_the_joined_errors() {
    assert_eq!(qsharp_check_text(Ok("let x = 1;".to_string())), "let x = 1;");
    assert_eq!(
        qsharp_check_text(Err(vec!["error a".to_string(), "error b".to_string()])),
        "error a\nerror b"
    );
    assert_eq!(qsharp_check_text(Err(vec![])), "");
}

#[test]
fn compiler_starts_from_the_semantic_errors() {
    let res = QasmSemanticParseResult {
        syntax_errors: vec![],
        semantic_errors: vec![diag("unknown gate", 2, 6), diag("bad width", 8, 9)],
    };
    let c = QasmCompiler::from_parse(res, fragments_config());
    assert!(c.stmts.is_empty());
    assert_eq!(c.errors, vec![diag("unknown gate", 2, 6), diag("bad width", 8, 9)]);
    assert_eq!(c.config.program_ty, ProgramType::Fragments);
    assert_eq!(c.config.output_semantics, OutputSemantics::OpenQasm);
}

#[test]
fn package_ending_checks() {
    assert!(package_ends_with_stmt(&sample_package(0)));
    assert!(!package_ends_with_stmt(&Package { nodes: vec![] }));
    let ns_last = Package { nodes: vec![TopLevelNode::Namespace(leaf("Namespace", 0, 4))] };
    assert!(!package_ends_with_stmt(&ns_last));
}
