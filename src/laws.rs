use vstd::prelude::*;
use crate::detect::{
    MissingTypeView, PositionView, detect_spec, findings_upto, function_findings,
    function_parameter_findings, parameter_list_findings,
};
use crate::report::{block_of, concat_blocks, indented_message_of, message_of};
use crate::syntax::{NodeKind, TreeView};

verus! {

/// A finding names neither the instance parameter nor the entry point's
/// return type.
pub open spec fn finding_allowed(p: PositionView) -> bool {
    match p.missing_type {
        MissingTypeView::Parameter(name) => name != "self"@,
        MissingTypeView::Return(name) => name != "main"@,
    }
}

pub open spec fn all_allowed(s: Seq<PositionView>) -> bool {
    forall|i: int| 0 <= i < s.len() ==> finding_allowed(#[trigger] s[i])
}

pub open spec fn all_parameters(s: Seq<PositionView>) -> bool {
    forall|i: int| 0 <= i < s.len() ==> (#[trigger] s[i]).missing_type is Parameter
}

/// The parameter findings of a sequence, in order.
pub open spec fn parameters_only(s: Seq<PositionView>) -> Seq<PositionView>
    decreases s.len(),
{
    if s.len() == 0 {
        seq![]
    } else if s.last().missing_type is Parameter {
        parameters_only(s.drop_last()).push(s.last())
    } else {
        parameters_only(s.drop_last())
    }
}

proof fn lemma_parameters_only_add(a: Seq<PositionView>, b: Seq<PositionView>)
    ensures
        parameters_only(a + b) == parameters_only(a) + parameters_only(b),
    decreases b.len(),
{
    if b.len() == 0 {
        assert(a + b =~= a);
        assert(parameters_only(a) + parameters_only(b) =~= parameters_only(a));
    } else {
        lemma_parameters_only_add(a, b.drop_last());
        assert((a + b).drop_last() =~= a + b.drop_last());
        assert((a + b).last() == b.last());
        if b.last().missing_type is Parameter {
            assert(parameters_only(a) + parameters_only(b) =~= (parameters_only(a)
                + parameters_only(b.drop_last())).push(b.last()));
        }
    }
}

proof fn lemma_parameters_only_id(s: Seq<PositionView>)
    requires
        all_parameters(s),
    ensures
        parameters_only(s) == s,
    decreases s.len(),
{
    if s.len() > 0 {
        assert(all_parameters(s.drop_last()));
        lemma_parameters_only_id(s.drop_last());
        assert(s.drop_last().push(s.last()) =~= s);
    }
}

proof fn lemma_parameter_list(tree: TreeView, p: int, k: int)
    ensures
        all_parameters(parameter_list_findings(tree, p, k)),
        all_allowed(parameter_list_findings(tree, p, k)),
    decreases k,
{
    if k > 0 {
        lemma_parameter_list(tree, p, k - 1);
        let prev = parameter_list_findings(tree, p, k - 1);
        let s = parameter_list_findings(tree, p, k);
        assert forall|i: int| 0 <= i < s.len() implies (#[trigger] s[i]).missing_type is Parameter
            && finding_allowed(s[i]) by {
            if i < prev.len() {
                assert(s[i] == prev[i]);
            }
        }
    }
}

proof fn lemma_function_parameters(tree: TreeView, f: int, k: int)
    ensures
        all_parameters(function_parameter_findings(tree, f, k)),
        all_allowed(function_parameter_findings(tree, f, k)),
    decreases k,
{
    if k > 0 {
        lemma_function_parameters(tree, f, k - 1);
        let c = tree.child(f, k - 1);
        if tree.node(c).kind == NodeKind::Parameters {
            let a = function_parameter_findings(tree, f, k - 1);
            let b = parameter_list_findings(tree, c, tree.node(c).children.len() as int);
            lemma_parameter_list(tree, c, tree.node(c).children.len() as int);
            assert forall|i: int| 0 <= i < (a + b).len() implies (#[trigger] (a + b)[i]).missing_type is Parameter
                && finding_allowed((a + b)[i]) by {
                if i < a.len() {
                    assert((a + b)[i] == a[i]);
                } else {
                    assert((a + b)[i] == b[i - a.len()]);
                }
            }
        }
    }
}

proof fn lemma_function_findings(tree: TreeView, f: int, ignore_return: bool)
    ensures
        function_findings(tree, f, true) == Some(
            function_parameter_findings(tree, f, tree.node(f).children.len() as int),
        ),
        function_findings(tree, f, ignore_return) matches Some(s) ==> all_allowed(s)
            && parameters_only(s) == function_parameter_findings(
            tree,
            f,
            tree.node(f).children.len() as int,
        ),
{
    let params = function_parameter_findings(tree, f, tree.node(f).children.len() as int);
    lemma_function_parameters(tree, f, tree.node(f).children.len() as int);
    lemma_parameters_only_id(params);
    if let Some(s) = function_findings(tree, f, ignore_return) {
        if s != params {
            let x = s.last();
            assert(s == params.push(x));
            assert(s.drop_last() =~= params);
            assert forall|i: int| 0 <= i < s.len() implies finding_allowed(#[trigger] s[i]) by {
                if i < params.len() {
                    assert(s[i] == params[i]);
                }
            }
        }
    }
}

proof fn lemma_findings_upto(tree: TreeView, k: int, ignore_return: bool)
    ensures
        findings_upto(tree, k, true) is Some,
        findings_upto(tree, k, ignore_return) matches Some(s) ==> all_allowed(s)
            && findings_upto(tree, k, true) == Some(parameters_only(s)),
    decreases k,
{
    if k > 0 {
        lemma_findings_upto(tree, k - 1, ignore_return);
        if tree.node(k - 1).kind == NodeKind::FunctionDefinition {
            lemma_function_findings(tree, k - 1, ignore_return);
            if let Some(s) = findings_upto(tree, k, ignore_return) {
                let prev = findings_upto(tree, k - 1, ignore_return).unwrap();
                let own = function_findings(tree, k - 1, ignore_return).unwrap();
                assert(s == prev + own);
                lemma_parameters_only_add(prev, own);
                assert forall|i: int| 0 <= i < s.len() implies finding_allowed(#[trigger] s[i]) by {
                    if i < prev.len() {
                        assert(s[i] == prev[i]);
                    } else {
                        assert(s[i] == own[i - prev.len()]);
                    }
                }
            }
        }
    }
}

/// A tree without function definitions gives no findings, so its file adds
/// nothing to a report.
pub proof fn lemma_no_functions_no_findings(tree: TreeView, path: Seq<char>, ignore_return: bool)
    requires
        forall|i: int| 0 <= i < tree.nodes.len() ==> (#[trigger] tree.node(i)).kind
            != NodeKind::FunctionDefinition,
    ensures
        detect_spec(tree, ignore_return) == Some(Seq::<PositionView>::empty()),
        message_of(Seq::<PositionView>::empty()) == Seq::<char>::empty(),
        block_of(path, Seq::<PositionView>::empty()) == Seq::<char>::empty(),
{
    assert forall|k: int| 0 <= k <= tree.nodes.len() implies #[trigger] findings_upto(
        tree,
        k,
        ignore_return,
    ) == Some(Seq::<PositionView>::empty()) by {
        lemma_no_functions_prefix(tree, k, ignore_return);
    }
}

proof fn lemma_no_functions_prefix(tree: TreeView, k: int, ignore_return: bool)
    requires
        0 <= k <= tree.nodes.len(),
        forall|i: int| 0 <= i < tree.nodes.len() ==> (#[trigger] tree.node(i)).kind
            != NodeKind::FunctionDefinition,
    ensures
        findings_upto(tree, k, ignore_return) == Some(Seq::<PositionView>::empty()),
    decreases k,
{
    if k > 0 {
        lemma_no_functions_prefix(tree, k - 1, ignore_return);
        assert(tree.node(k - 1).kind != NodeKind::FunctionDefinition);
    }
}

/// No parameter finding names `self`, and no return finding names `main`,
/// whether or not return types are ignored.
pub proof fn lemma_findings_exclude_self_and_main(tree: TreeView, ignore_return: bool, i: int)
    requires
        detect_spec(tree, ignore_return) is Some,
        0 <= i < detect_spec(tree, ignore_return).unwrap().len(),
    ensures
        detect_spec(tree, ignore_return).unwrap()[i].missing_type matches MissingTypeView::Parameter(
            name,
        ) ==> name != "self"@,
        detect_spec(tree, ignore_return).unwrap()[i].missing_type matches MissingTypeView::Return(
            name,
        ) ==> name != "main"@,
{
    lemma_findings_upto(tree, tree.nodes.len() as int, ignore_return);
    let s = detect_spec(tree, ignore_return).unwrap();
    assert(finding_allowed(s[i]));
}

/// Ignoring return types never fails and yields exactly the parameter
/// findings of the full run, in the same order.
pub proof fn lemma_ignore_return_keeps_parameters(tree: TreeView)
    ensures
        detect_spec(tree, true) is Some,
        detect_spec(tree, false) matches Some(s) ==> detect_spec(tree, true) == Some(
            parameters_only(s),
        ),
{
    lemma_findings_upto(tree, tree.nodes.len() as int, false);
}

/// Detection is a function of the tree: equal trees give equal findings.
pub proof fn lemma_detection_deterministic(a: TreeView, b: TreeView, ignore_return: bool)
    requires
        a == b,
    ensures
        detect_spec(a, ignore_return) == detect_spec(b, ignore_return),
{
}

/// A report over a file without findings and a file with findings, merged
/// in either order, is exactly the second file's block: one `File:` header,
/// naming that file, and its indented lines.
pub proof fn lemma_report_of_clean_and_dirty_file(
    clean: String,
    dirty: String,
    clean_path: Seq<char>,
    dirty_path: Seq<char>,
    ps: Seq<PositionView>,
)
    requires
        clean@ == block_of(clean_path, Seq::<PositionView>::empty()),
        dirty@ == block_of(dirty_path, ps),
        ps.len() > 0,
    ensures
        concat_blocks(seq![clean, dirty]) == "File: "@ + dirty_path + "\n"@ + indented_message_of(ps),
        concat_blocks(seq![dirty, clean]) == "File: "@ + dirty_path + "\n"@ + indented_message_of(ps),
{
    assert(seq![clean, dirty].drop_last() =~= seq![clean]);
    assert(seq![clean].drop_last() =~= Seq::<String>::empty());
    assert(seq![dirty, clean].drop_last() =~= seq![dirty]);
    assert(seq![dirty].drop_last() =~= Seq::<String>::empty());
    assert(clean@ =~= Seq::<char>::empty());
    assert(concat_blocks(Seq::<String>::empty()) == Seq::<char>::empty());
    assert(seq![clean].last() == clean);
    assert(concat_blocks(seq![clean]) == concat_blocks(Seq::<String>::empty()) + clean@);
    assert(concat_blocks(seq![clean]) =~= clean@);
    assert(seq![dirty].last() == dirty);
    assert(concat_blocks(seq![dirty]) == concat_blocks(Seq::<String>::empty()) + dirty@);
    assert(concat_blocks(seq![dirty]) =~= dirty@);
    assert(seq![clean, dirty].last() == dirty);
    assert(seq![dirty, clean].last() == clean);
    assert(concat_blocks(seq![clean, dirty]) =~= dirty@);
    assert(concat_blocks(seq![dirty, clean]) =~= dirty@);
}

} // verus!
