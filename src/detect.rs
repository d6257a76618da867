use vstd::prelude::*;
use crate::syntax::{NodeKind, Point, SyntaxTree, TreeView};

verus! {

/// What a finding reports missing, with the name of the function or parameter.
#[derive(Debug)]
pub enum MissingType {
    Return(String),
    Parameter(String),
}

/// One finding: the span it points at and what is missing there.
#[derive(Debug)]
pub struct Position {
    pub start: Point,
    pub end: Point,
    pub missing_type: MissingType,
}

pub enum MissingTypeView {
    Return(Seq<char>),
    Parameter(Seq<char>),
}

pub struct PositionView {
    pub start: Point,
    pub end: Point,
    pub missing_type: MissingTypeView,
}

impl View for Position {
    type V = PositionView;

    open spec fn view(&self) -> PositionView {
        PositionView {
            start: self.start,
            end: self.end,
            missing_type: match self.missing_type {
                MissingType::Return(n) => MissingTypeView::Return(n@),
                MissingType::Parameter(n) => MissingTypeView::Parameter(n@),
            },
        }
    }
}

/// The abstract findings held by a sequence of positions.
pub open spec fn views(s: Seq<Position>) -> Seq<PositionView> {
    s.map_values(|p: Position| p@)
}

/// A function definition whose name cannot be located: the tree does not
/// have the shape the grammar promises.
#[derive(Clone, Copy, Debug, PartialEq, Eq, Structural)]
pub enum DetectError {
    MissingFunctionName,
}

/// A parameter that carries no annotation and is not the instance parameter.
pub open spec fn is_unannotated_parameter(tree: TreeView, c: int) -> bool {
    let n = tree.node(c);
    (n.kind == NodeKind::Identifier || n.kind == NodeKind::DefaultParameter) && n.text != "self"@
}

pub open spec fn parameter_finding(tree: TreeView, c: int) -> PositionView {
    let n = tree.node(c);
    PositionView {
        start: n.start,
        end: n.end,
        missing_type: MissingTypeView::Parameter(n.text),
    }
}

/// Findings for the first `k` entries of the parameter list node `p`.
pub open spec fn parameter_list_findings(tree: TreeView, p: int, k: int) -> Seq<PositionView>
    decreases k,
{
    if k <= 0 {
        seq![]
    } else {
        let prev = parameter_list_findings(tree, p, k - 1);
        let c = tree.child(p, k - 1);
        if is_unannotated_parameter(tree, c) {
            prev.push(parameter_finding(tree, c))
        } else {
            prev
        }
    }
}

/// Parameter findings from the first `k` children of the function node `f`.
pub open spec fn function_parameter_findings(tree: TreeView, f: int, k: int) -> Seq<PositionView>
    decreases k,
{
    if k <= 0 {
        seq![]
    } else {
        let prev = function_parameter_findings(tree, f, k - 1);
        let c = tree.child(f, k - 1);
        if tree.node(c).kind == NodeKind::Parameters {
            prev + parameter_list_findings(tree, c, tree.node(c).children.len() as int)
        } else {
            prev
        }
    }
}

/// Some immediate child of `f` is a return type annotation.
pub open spec fn has_return_type(tree: TreeView, f: int) -> bool {
    exists|j: int|
        #![trigger tree.child(f, j)]
        0 <= j < tree.node(f).children.len() && tree.node(tree.child(f, j)).kind == NodeKind::Type
}

/// The function's name: the text of its second child, or of its third when
/// the second is the `def` keyword; `None` when that child is absent.
pub open spec fn function_name(tree: TreeView, f: int) -> Option<Seq<char>> {
    let ch = tree.node(f).children;
    if ch.len() < 2 {
        None
    } else if tree.node(ch[1] as int).text == "def"@ {
        if ch.len() < 3 {
            None
        } else {
            Some(tree.node(ch[2] as int).text)
        }
    } else {
        Some(tree.node(ch[1] as int).text)
    }
}

pub open spec fn return_finding(tree: TreeView, f: int, name: Seq<char>) -> PositionView {
    PositionView {
        start: tree.node(f).start,
        end: tree.node(f).end,
        missing_type: MissingTypeView::Return(name),
    }
}

/// Findings of one function definition node, in order: its parameters, then
/// its return type. `None` when its name is needed and cannot be found.
pub open spec fn function_findings(tree: TreeView, f: int, ignore_return: bool) -> Option<
    Seq<PositionView>,
> {
    let params = function_parameter_findings(tree, f, tree.node(f).children.len() as int);
    if has_return_type(tree, f) || ignore_return {
        Some(params)
    } else {
        match function_name(tree, f) {
            None => None,
            Some(name) => if name == "main"@ {
                Some(params)
            } else {
                Some(params.push(return_finding(tree, f, name)))
            },
        }
    }
}

/// Findings of the first `k` nodes in pre-order.
pub open spec fn findings_upto(tree: TreeView, k: int, ignore_return: bool) -> Option<
    Seq<PositionView>,
>
    decreases k,
{
    if k <= 0 {
        Some(seq![])
    } else {
        match findings_upto(tree, k - 1, ignore_return) {
            None => None,
            Some(prev) => if tree.node(k - 1).kind == NodeKind::FunctionDefinition {
                match function_findings(tree, k - 1, ignore_return) {
                    None => None,
                    Some(s) => Some(prev + s),
                }
            } else {
                Some(prev)
            },
        }
    }
}

/// All findings of a tree, in pre-order of the nodes they come from.
pub open spec fn detect_spec(tree: TreeView, ignore_return: bool) -> Option<Seq<PositionView>> {
    findings_upto(tree, tree.nodes.len() as int, ignore_return)
}

proof fn lemma_views_push(s: Seq<Position>, x: Position)
    ensures
        views(s.push(x)) == views(s).push(x@),
{
    assert(views(s.push(x)) =~= views(s).push(x@));
}

proof fn lemma_error_persists(tree: TreeView, k: int, m: int, ignore_return: bool)
    requires
        0 <= k <= m,
        findings_upto(tree, k, ignore_return) is None,
    ensures
        findings_upto(tree, m, ignore_return) is None,
    decreases m - k,
{
    if k < m {
        lemma_error_persists(tree, k, m - 1, ignore_return);
    }
}

fn push_parameter_findings(tree: &SyntaxTree, p: usize, out: &mut Vec<Position>)
    requires
        tree.wf(),
        p < tree.nodes@.len(),
    ensures
        views(final(out)@) == views(old(out)@) + parameter_list_findings(
            tree@,
            p as int,
            tree@.node(p as int).children.len() as int,
        ),
{
    let n = &tree.nodes[p];
    let self_name = String::from_str("self");
    let mut k: usize = 0;
    while k < n.children.len()
        invariant
            tree.wf(),
            p < tree.nodes@.len(),
            n@ == tree@.node(p as int),
            self_name@ == "self"@,
            k <= n.children@.len(),
            views(out@) == views(old(out)@) + parameter_list_findings(tree@, p as int, k as int),
        decreases n.children@.len() - k,
    {
        let c = n.children[k];
        let child = &tree.nodes[c];
        let ghost before = out@;
        if (child.kind == NodeKind::Identifier || child.kind == NodeKind::DefaultParameter) && !(
        child.text == self_name) {
            out.push(
                Position {
                    start: child.start,
                    end: child.end,
                    missing_type: MissingType::Parameter(child.text.clone()),
                },
            );
            proof {
                lemma_views_push(before, out@.last());
                assert(out@ == before.push(out@.last()));
                assert(views(old(out)@) + parameter_list_findings(tree@, p as int, k + 1) =~= (
                views(old(out)@) + parameter_list_findings(tree@, p as int, k as int)).push(
                    parameter_finding(tree@, c as int),
                ));
            }
        }
        k += 1;
    }
}

fn push_function_findings(
    tree: &SyntaxTree,
    f: usize,
    ignore_return: bool,
    out: &mut Vec<Position>,
) -> (r: Result<(), DetectError>)
    requires
        tree.wf(),
        f < tree.nodes@.len(),
    ensures
        match function_findings(tree@, f as int, ignore_return) {
            Some(s) => r is Ok && views(final(out)@) == views(old(out)@) + s,
            None => r is Err,
        },
{
    let n = &tree.nodes[f];
    let mut has_ret = false;
    let mut j: usize = 0;
    while j < n.children.len()
        invariant
            tree.wf(),
            f < tree.nodes@.len(),
            n@ == tree@.node(f as int),
            j <= n.children@.len(),
            has_ret <==> exists|jj: int|
                #![trigger tree@.child(f as int, jj)]
                0 <= jj < j && tree@.node(tree@.child(f as int, jj)).kind == NodeKind::Type,
            views(out@) == views(old(out)@) + function_parameter_findings(tree@, f as int, j as int),
        decreases n.children@.len() - j,
    {
        let c = n.children[j];
        assert(c == tree@.child(f as int, j as int));
        if tree.nodes[c].kind == NodeKind::Type {
            has_ret = true;
        }
        if tree.nodes[c].kind == NodeKind::Parameters {
            let ghost mid = out@;
            push_parameter_findings(tree, c, out);
            assert(views(old(out)@) + function_parameter_findings(tree@, f as int, j + 1) =~= views(
                mid,
            ) + parameter_list_findings(tree@, c as int, tree@.node(c as int).children.len() as int));
        }
        j += 1;
    }
    if has_ret || ignore_return {
        return Ok(());
    }
    if n.children.len() < 2 {
        return Err(DetectError::MissingFunctionName);
    }
    let mut name_idx = n.children[1];
    if tree.nodes[name_idx].text == String::from_str("def") {
        if n.children.len() < 3 {
            return Err(DetectError::MissingFunctionName);
        }
        name_idx = n.children[2];
    }
    let name = &tree.nodes[name_idx].text;
    if *name == String::from_str("main") {
        return Ok(());
    }
    let ghost before = out@;
    out.push(
        Position { start: n.start, end: n.end, missing_type: MissingType::Return(name.clone()) },
    );
    proof {
        lemma_views_push(before, out@.last());
        assert(out@ == before.push(out@.last()));
        let params = function_parameter_findings(tree@, f as int, n.children.len() as int);
        assert(views(old(out)@) + params.push(return_finding(tree@, f as int, name@)) =~= (views(
            old(out)@,
        ) + params).push(return_finding(tree@, f as int, name@)));
    }
    Ok(())
}

/// Walks the tree in pre-order and reports every parameter without a type
/// hint and, unless `ignore_return` is set, every function without a return
/// type (a function named `main` is never reported for its return type).
pub fn find_missing_types_positions(tree: &SyntaxTree, ignore_return: bool) -> (r: Result<
    Vec<Position>,
    DetectError,
>)
    requires
        tree.wf(),
    ensures
        match r {
            Ok(v) => detect_spec(tree@, ignore_return) == Some(views(v@)),
            Err(_) => detect_spec(tree@, ignore_return) is None,
        },
{
    let mut out: Vec<Position> = Vec::new();
    let mut i: usize = 0;
    assert(views(out@) =~= seq![]);
    while i < tree.nodes.len()
        invariant
            tree.wf(),
            i <= tree.nodes@.len(),
            findings_upto(tree@, i as int, ignore_return) == Some(views(out@)),
        decreases tree.nodes@.len() - i,
    {
        if tree.nodes[i].kind == NodeKind::FunctionDefinition {
            let res = push_function_findings(tree, i, ignore_return, &mut out);
            if res.is_err() {
                proof {
                    lemma_error_persists(tree@, i + 1, tree.nodes@.len() as int, ignore_return);
                }
                return Err(DetectError::MissingFunctionName);
            }
        } else {
            assert(findings_upto(tree@, i + 1, ignore_return) == Some(views(out@)));
        }
        i += 1;
    }
    Ok(out)
}

} // verus!
