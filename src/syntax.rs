use vstd::prelude::*;

verus! {

/// A position in a source text; both coordinates count from zero.
#[derive(Clone, Copy, Debug, PartialEq, Eq, Structural)]
pub struct Point {
    pub row: usize,
    pub column: usize,
}

/// The node categories that the checker distinguishes.
#[derive(Clone, Copy, Debug, PartialEq, Eq, Structural)]
pub enum NodeKind {
    FunctionDefinition,
    Parameters,
    Identifier,
    DefaultParameter,
    TypedParameter,
    TypedDefaultParameter,
    Type,
    Other,
}

/// One node of a syntax tree: its category, its span, its exact source text
/// (empty where that text is not valid UTF-8), and the indices of its
/// children, in document order, in the tree's arena.
#[derive(Debug)]
pub struct SyntaxNode {
    pub kind: NodeKind,
    pub start: Point,
    pub end: Point,
    pub text: String,
    pub children: Vec<usize>,
}

/// A syntax tree stored as an arena of nodes listed in pre-order.
#[derive(Debug)]
pub struct SyntaxTree {
    pub nodes: Vec<SyntaxNode>,
}

/// The mathematical content of a node.
pub struct NodeView {
    pub kind: NodeKind,
    pub start: Point,
    pub end: Point,
    pub text: Seq<char>,
    pub children: Seq<usize>,
}

impl View for SyntaxNode {
    type V = NodeView;

    open spec fn view(&self) -> NodeView {
        NodeView {
            kind: self.kind,
            start: self.start,
            end: self.end,
            text: self.text@,
            children: self.children@,
        }
    }
}

/// The mathematical content of a tree: its nodes in pre-order.
pub struct TreeView {
    pub nodes: Seq<NodeView>,
}

impl TreeView {
    /// Every child index names a node of the arena.
    pub open spec fn wf(self) -> bool {
        forall|i: int, j: int|
            0 <= i < self.nodes.len() && 0 <= j < self.nodes[i].children.len()
                ==> #[trigger] self.nodes[i].children[j] < self.nodes.len()
    }

    pub open spec fn node(self, i: int) -> NodeView {
        self.nodes[i]
    }

    /// Index of the `j`-th child of node `i`.
    pub open spec fn child(self, i: int, j: int) -> int {
        self.nodes[i].children[j] as int
    }
}

impl View for SyntaxTree {
    type V = TreeView;

    open spec fn view(&self) -> TreeView {
        TreeView { nodes: self.nodes@.map_values(|n: SyntaxNode| n@) }
    }
}

impl SyntaxTree {
    pub open spec fn wf(&self) -> bool {
        self@.wf()
    }

    /// Whether every child index names a node of the arena; lets a caller
    /// that builds a tree by hand establish `wf` before detection.
    pub fn is_well_formed(&self) -> (r: bool)
        ensures
            r == self.wf(),
    {
        let n = self.nodes.len();
        let mut i: usize = 0;
        while i < n
            invariant
                n == self.nodes@.len(),
                i <= n,
                forall|a: int, b: int|
                    0 <= a < i && 0 <= b < self@.nodes[a].children.len()
                        ==> #[trigger] self@.nodes[a].children[b] < n,
            decreases n - i,
        {
            let children = &self.nodes[i].children;
            let mut j: usize = 0;
            while j < children.len()
                invariant
                    n == self.nodes@.len(),
                    i < n,
                    *children == self.nodes@[i as int].children,
                    j <= children@.len(),
                    forall|a: int, b: int|
                        0 <= a < i && 0 <= b < self@.nodes[a].children.len()
                            ==> #[trigger] self@.nodes[a].children[b] < n,
                    forall|b: int| 0 <= b < j ==> #[trigger] children@[b] < n,
                    self@.nodes[i as int].children == children@,
                decreases children@.len() - j,
            {
                if children[j] >= n {
                    assert(self@.nodes[i as int].children[j as int] >= n);
                    return false;
                }
                j += 1;
            }
            i += 1;
        }
        true
    }

}

/// The category of a node named as the Python grammar names it.
pub open spec fn kind_of_name(name: Seq<char>) -> NodeKind {
    if name == "function_definition"@ {
        NodeKind::FunctionDefinition
    } else if name == "parameters"@ {
        NodeKind::Parameters
    } else if name == "identifier"@ {
        NodeKind::Identifier
    } else if name == "default_parameter"@ {
        NodeKind::DefaultParameter
    } else if name == "typed_parameter"@ {
        NodeKind::TypedParameter
    } else if name == "typed_default_parameter"@ {
        NodeKind::TypedDefaultParameter
    } else if name == "type"@ {
        NodeKind::Type
    } else {
        NodeKind::Other
    }
}

/// Maps a grammar node-type name to the checker's category.
pub fn node_kind_from_name(name: &String) -> (r: NodeKind)
    ensures
        r == kind_of_name(name@),
{
    if *name == String::from_str("function_definition") {
        NodeKind::FunctionDefinition
    } else if *name == String::from_str("parameters") {
        NodeKind::Parameters
    } else if *name == String::from_str("identifier") {
        NodeKind::Identifier
    } else if *name == String::from_str("default_parameter") {
        NodeKind::DefaultParameter
    } else if *name == String::from_str("typed_parameter") {
        NodeKind::TypedParameter
    } else if *name == String::from_str("typed_default_parameter") {
        NodeKind::TypedDefaultParameter
    } else if *name == String::from_str("type") {
        NodeKind::Type
    } else {
        NodeKind::Other
    }
}

} // verus!
