//! The part of a Q# syntax tree that the harness reads: a package of
//! top-level namespaces and statements, each a tree of nodes that carry a
//! kind and a source span.
use vstd::prelude::*;

use crate::span::{AstDespanner, Span};

verus! {

/// A node of a syntax tree: what kind of node it is, where in the source it
/// came from, and its children in the order a visitor walks them.
#[derive(Debug, PartialEq, Eq)]
pub struct AstNode {
    pub kind: String,
    pub span: Span,
    pub children: Vec<AstNode>,
}

/// A node at the top level of a package.
#[derive(Debug, PartialEq, Eq)]
pub enum TopLevelNode {
    Namespace(AstNode),
    Stmt(AstNode),
}

/// A compiled package: its top-level nodes in source order.
#[derive(Debug, PartialEq, Eq)]
pub struct Package {
    pub nodes: Vec<TopLevelNode>,
}

/// `out` is `orig` with every span erased and nothing else changed.
pub open spec fn despanned_node(orig: AstNode, out: AstNode) -> bool
    decreases orig,
{
    &&& out.kind@ == orig.kind@
    &&& out.span == Span::zero()
    &&& out.children.len() == orig.children.len()
    &&& forall|i: int|
        0 <= i < orig.children.len() ==> despanned_node(
            #[trigger] orig.children@[i],
            out.children@[i],
        )
}

/// Every span in the tree has been erased.
pub open spec fn spans_erased(n: AstNode) -> bool
    decreases n,
{
    &&& n.span == Span::zero()
    &&& forall|i: int| 0 <= i < n.children.len() ==> spans_erased(#[trigger] n.children@[i])
}

/// The two trees have the same kinds and the same shape; their spans may differ.
pub open spec fn same_but_spans(a: AstNode, b: AstNode) -> bool
    decreases a,
{
    &&& a.kind@ == b.kind@
    &&& a.children.len() == b.children.len()
    &&& forall|i: int|
        0 <= i < a.children.len() ==> same_but_spans(#[trigger] a.children@[i], b.children@[i])
}

/// The two trees are equal node for node, spans included.
pub open spec fn same_tree(a: AstNode, b: AstNode) -> bool
    decreases a,
{
    &&& a.kind@ == b.kind@
    &&& a.span == b.span
    &&& a.children.len() == b.children.len()
    &&& forall|i: int|
        0 <= i < a.children.len() ==> same_tree(#[trigger] a.children@[i], b.children@[i])
}

impl AstDespanner {
    /// Copies a tree with every span erased.
    pub fn despan_node(&mut self, node: &AstNode) -> (out: AstNode)
        ensures
            despanned_node(*node, out),
        decreases node,
    {
        let mut span = node.span;
        self.visit_span(&mut span);
        let mut children: Vec<AstNode> = Vec::new();
        let n = node.children.len();
        for i in 0..n
            invariant
                n == node.children.len(),
                children.len() == i,
                forall|j: int|
                    0 <= j < i ==> despanned_node(#[trigger] node.children@[j], children@[j]),
        {
            let child = self.despan_node(&node.children[i]);
            children.push(child);
        }
        AstNode { kind: node.kind.clone(), span, children }
    }
}

/// Despanning erases every span and keeps everything else: the copy has no
/// span left, and it has the kinds and the shape of the tree it was made from.
pub proof fn lemma_despan_erases_only_spans(orig: AstNode, out: AstNode)
    requires
        despanned_node(orig, out),
    ensures
        spans_erased(out),
        same_but_spans(orig, out),
    decreases orig,
{
    assert forall|i: int| 0 <= i < out.children.len() implies spans_erased(
        #[trigger] out.children@[i],
    ) && same_but_spans(orig.children@[i], out.children@[i]) by {
        lemma_despan_erases_only_spans(orig.children@[i], out.children@[i]);
    }
}

/// Two despanned trees are equal exactly when the trees they were made
/// from differ in nothing but their spans.
pub proof fn lemma_despanned_equal_iff_same_but_spans(
    a: AstNode,
    b: AstNode,
    x: AstNode,
    y: AstNode,
)
    requires
        despanned_node(a, x),
        despanned_node(b, y),
    ensures
        same_tree(x, y) <==> same_but_spans(a, b),
    decreases a,
{
    if a.children.len() == b.children.len() {
        assert forall|i: int| 0 <= i < a.children.len() implies (same_tree(
            #[trigger] x.children@[i],
            y.children@[i],
        ) <==> same_but_spans(a.children@[i], b.children@[i])) by {
            lemma_despanned_equal_iff_same_but_spans(
                a.children@[i],
                b.children@[i],
                x.children@[i],
                y.children@[i],
            );
        }
        if same_tree(x, y) {
            assert forall|i: int| 0 <= i < a.children.len() implies same_but_spans(
                #[trigger] a.children@[i],
                b.children@[i],
            ) by {
                assert(same_tree(x.children@[i], y.children@[i]));
            }
        }
        if same_but_spans(a, b) {
            assert forall|i: int| 0 <= i < x.children.len() implies same_tree(
                #[trigger] x.children@[i],
                y.children@[i],
            ) by {
                assert(same_but_spans(a.children@[i], b.children@[i]));
            }
        }
    }
}

/// Despanning a tree whose spans are already erased gives the tree back.
pub proof fn lemma_despan_erased_is_identity(x: AstNode, z: AstNode)
    requires
        spans_erased(x),
        despanned_node(x, z),
    ensures
        same_tree(x, z),
    decreases x,
{
    assert forall|i: int| 0 <= i < x.children.len() implies same_tree(
        #[trigger] x.children@[i],
        z.children@[i],
    ) by {
        lemma_despan_erased_is_identity(x.children@[i], z.children@[i]);
    }
}

/// Despanning is idempotent: despanning a despanned tree changes nothing.
pub proof fn lemma_despan_idempotent(a: AstNode, x: AstNode, z: AstNode)
    requires
        despanned_node(a, x),
        despanned_node(x, z),
    ensures
        same_tree(x, z),
{
    lemma_despan_erases_only_spans(a, x);
    lemma_despan_erased_is_identity(x, z);
}

/// `out` is the top-level node `orig`, of the same variant, with every span erased.
pub open spec fn despanned_top(orig: TopLevelNode, out: TopLevelNode) -> bool {
    match (orig, out) {
        (TopLevelNode::Namespace(a), TopLevelNode::Namespace(b)) => despanned_node(a, b),
        (TopLevelNode::Stmt(a), TopLevelNode::Stmt(b)) => despanned_node(a, b),
        _ => false,
    }
}

/// The two top-level nodes are of the same variant and differ at most in spans.
pub open spec fn same_top_but_spans(a: TopLevelNode, b: TopLevelNode) -> bool {
    match (a, b) {
        (TopLevelNode::Namespace(x), TopLevelNode::Namespace(y)) => same_but_spans(x, y),
        (TopLevelNode::Stmt(x), TopLevelNode::Stmt(y)) => same_but_spans(x, y),
        _ => false,
    }
}

/// The two top-level nodes are of the same variant and equal node for node.
pub open spec fn same_top(a: TopLevelNode, b: TopLevelNode) -> bool {
    match (a, b) {
        (TopLevelNode::Namespace(x), TopLevelNode::Namespace(y)) => same_tree(x, y),
        (TopLevelNode::Stmt(x), TopLevelNode::Stmt(y)) => same_tree(x, y),
        _ => false,
    }
}

/// Every span of the top-level node has been erased.
pub open spec fn top_spans_erased(n: TopLevelNode) -> bool {
    match n {
        TopLevelNode::Namespace(x) => spans_erased(x),
        TopLevelNode::Stmt(x) => spans_erased(x),
    }
}

/// `out` is the package `orig` with every span erased and nothing else changed.
pub open spec fn despanned_package(orig: Package, out: Package) -> bool {
    &&& out.nodes.len() == orig.nodes.len()
    &&& forall|i: int|
        0 <= i < orig.nodes.len() ==> despanned_top(#[trigger] orig.nodes@[i], out.nodes@[i])
}

/// Every span in the package has been erased.
pub open spec fn package_spans_erased(p: Package) -> bool {
    forall|i: int| 0 <= i < p.nodes.len() ==> top_spans_erased(#[trigger] p.nodes@[i])
}

/// The two packages have the same top-level nodes up to spans.
pub open spec fn same_package_but_spans(a: Package, b: Package) -> bool {
    &&& a.nodes.len() == b.nodes.len()
    &&& forall|i: int|
        0 <= i < a.nodes.len() ==> same_top_but_spans(#[trigger] a.nodes@[i], b.nodes@[i])
}

/// The two packages are equal node for node, spans included.
pub open spec fn same_package(a: Package, b: Package) -> bool {
    &&& a.nodes.len() == b.nodes.len()
    &&& forall|i: int| 0 <= i < a.nodes.len() ==> same_top(#[trigger] a.nodes@[i], b.nodes@[i])
}

impl AstDespanner {
    /// Copies a package with every span erased, leaving the given package as it was.
    pub fn despan(&mut self, package: &Package) -> (p: Package)
        ensures
            despanned_package(*package, p),
    {
        let mut nodes: Vec<TopLevelNode> = Vec::new();
        let n = package.nodes.len();
        for i in 0..n
            invariant
                n == package.nodes.len(),
                nodes.len() == i,
                forall|j: int|
                    0 <= j < i ==> despanned_top(#[trigger] package.nodes@[j], nodes@[j]),
        {
            let node = match &package.nodes[i] {
                TopLevelNode::Namespace(ns) => TopLevelNode::Namespace(self.despan_node(ns)),
                TopLevelNode::Stmt(stmt) => TopLevelNode::Stmt(self.despan_node(stmt)),
            };
            nodes.push(node);
        }
        Package { nodes }
    }
}

/// Despanning a package erases every span in it and keeps everything else.
pub proof fn lemma_despan_package_erases_only_spans(orig: Package, out: Package)
    requires
        despanned_package(orig, out),
    ensures
        package_spans_erased(out),
        same_package_but_spans(orig, out),
{
    assert forall|i: int| 0 <= i < out.nodes.len() implies top_spans_erased(
        #[trigger] out.nodes@[i],
    ) && same_top_but_spans(orig.nodes@[i], out.nodes@[i]) by {
        match (orig.nodes@[i], out.nodes@[i]) {
            (TopLevelNode::Namespace(a), TopLevelNode::Namespace(b)) => {
                lemma_despan_erases_only_spans(a, b);
            },
            (TopLevelNode::Stmt(a), TopLevelNode::Stmt(b)) => {
                lemma_despan_erases_only_spans(a, b);
            },
            _ => {},
        }
    }
}

/// Two despanned packages are equal exactly when the packages they were
/// made from differ in nothing but their spans.
pub proof fn lemma_despanned_packages_equal_iff_same_but_spans(
    a: Package,
    b: Package,
    x: Package,
    y: Package,
)
    requires
        despanned_package(a, x),
        despanned_package(b, y),
    ensures
        same_package(x, y) <==> same_package_but_spans(a, b),
{
    if a.nodes.len() == b.nodes.len() {
        assert forall|i: int| 0 <= i < a.nodes.len() implies (same_top(
            #[trigger] x.nodes@[i],
            y.nodes@[i],
        ) <==> same_top_but_spans(a.nodes@[i], b.nodes@[i])) by {
            match (a.nodes@[i], x.nodes@[i], b.nodes@[i], y.nodes@[i]) {
                (
                    TopLevelNode::Namespace(a1),
                    TopLevelNode::Namespace(x1),
                    TopLevelNode::Namespace(b1),
                    TopLevelNode::Namespace(y1),
                ) => {
                    lemma_despanned_equal_iff_same_but_spans(a1, b1, x1, y1);
                },
                (
                    TopLevelNode::Stmt(a1),
                    TopLevelNode::Stmt(x1),
                    TopLevelNode::Stmt(b1),
                    TopLevelNode::Stmt(y1),
                ) => {
                    lemma_despanned_equal_iff_same_but_spans(a1, b1, x1, y1);
                },
                _ => {},
            }
        }
        if same_package(x, y) {
            assert forall|i: int| 0 <= i < a.nodes.len() implies same_top_but_spans(
                #[trigger] a.nodes@[i],
                b.nodes@[i],
            ) by {
                assert(same_top(x.nodes@[i], y.nodes@[i]));
            }
        }
        if same_package_but_spans(a, b) {
            assert forall|i: int| 0 <= i < x.nodes.len() implies same_top(
                #[trigger] x.nodes@[i],
                y.nodes@[i],
            ) by {
                assert(same_top_but_spans(a.nodes@[i], b.nodes@[i]));
            }
        }
    }
}

/// Despanning a package twice gives what despanning it once gave.
pub proof fn lemma_despan_package_idempotent(a: Package, x: Package, z: Package)
    requires
        despanned_package(a, x),
        despanned_package(x, z),
    ensures
        same_package(x, z),
{
    assert forall|i: int| 0 <= i < x.nodes.len() implies same_top(
        #[trigger] x.nodes@[i],
        z.nodes@[i],
    ) by {
        match (a.nodes@[i], x.nodes@[i], z.nodes@[i]) {
            (
                TopLevelNode::Namespace(a1),
                TopLevelNode::Namespace(x1),
                TopLevelNode::Namespace(z1),
            ) => {
                lemma_despan_idempotent(a1, x1, z1);
            },
            (TopLevelNode::Stmt(a1), TopLevelNode::Stmt(x1), TopLevelNode::Stmt(z1)) => {
                lemma_despan_idempotent(a1, x1, z1);
            },
            _ => {},
        }
    }
}

} // verus!
