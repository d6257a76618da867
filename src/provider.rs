use vstd::prelude::*;
use vstd::utf8::{decode_utf8, encode_utf8, valid_utf8};
use crate::detect::{DetectError, detect_spec, find_missing_types_positions};
use crate::report::{block_of, file_block, get_message_from_positions, message_of};
use crate::syntax::{
    NodeView, Point, SyntaxNode, SyntaxTree, TreeView, kind_of_name, node_kind_from_name,
};

verus! {

#[verifier::external_type_specification]
#[verifier::external_body]
pub struct ExParser(tree_sitter::Parser);

/// One node of a parse as plain values: the grammar's name of its type, its
/// span in rows and columns and in bytes, and how many children it has.
#[derive(Debug)]
pub struct RawNode {
    pub kind: String,
    pub start: Point,
    pub end: Point,
    pub start_byte: usize,
    pub end_byte: usize,
    pub child_count: usize,
}

pub struct RawNodeView {
    pub kind: Seq<char>,
    pub start: Point,
    pub end: Point,
    pub start_byte: usize,
    pub end_byte: usize,
    pub child_count: usize,
}

impl View for RawNode {
    type V = RawNodeView;

    open spec fn view(&self) -> RawNodeView {
        RawNodeView {
            kind: self.kind@,
            start: self.start,
            end: self.end,
            start_byte: self.start_byte,
            end_byte: self.end_byte,
            child_count: self.child_count,
        }
    }
}

pub open spec fn raw_views(s: Seq<RawNode>) -> Seq<RawNodeView> {
    s.map_values(|n: RawNode| n@)
}

/// The nodes of the Python parse of a text, in pre-order.
pub uninterp spec fn python_nodes(source: Seq<char>) -> Seq<RawNodeView>;

/// Relies on tree_sitter::Parser::set_language and tree_sitter_python::language:
/// the language is refused only for a grammar version outside the range the
/// parser library accepts, and the bundled Python grammar lies inside it.
#[verifier::external_body]
fn set_python_language(parser: &mut tree_sitter::Parser) -> (r: bool)
    ensures
        r,
{
    parser.set_language(tree_sitter_python::language()).is_ok()
}

/// Relies on tree_sitter::Parser::new.
#[verifier::external_body]
fn new_parser() -> tree_sitter::Parser {
    tree_sitter::Parser::new()
}

/// Relies on tree_sitter::Parser::parse with the Python grammar and on
/// tree_sitter_traversal::traverse_tree: the nodes of the parse in pre-order,
/// copied as plain values. With a compatible grammar, no timeout and no
/// cancellation flag, the parse yields a tree that depends on the text alone.
#[verifier::external_body]
fn parse_python_nodes(source: &str) -> (r: Vec<RawNode>)
    ensures
        raw_views(r@) == python_nodes(source@),
{
    let mut parser = tree_sitter::Parser::new();
    parser.set_language(tree_sitter_python::language()).expect("compatible grammar");
    let tree = parser.parse(source, None).expect("a parse without limits");
    tree_sitter_traversal::traverse_tree(&tree, tree_sitter_traversal::Order::Pre).map(|n| RawNode {
        kind: n.kind().to_string(),
        start: Point { row: n.start_position().row, column: n.start_position().column },
        end: Point { row: n.end_position().row, column: n.end_position().column },
        start_byte: n.start_byte(),
        end_byte: n.end_byte(),
        child_count: n.child_count(),
    }).collect()
}

/// Relies on std::str::from_utf8: the decoded text exactly when the bytes
/// are valid UTF-8.
#[verifier::external_body]
fn utf8_string(bytes: &[u8]) -> (r: Option<String>)
    ensures
        r is Some <==> valid_utf8(bytes@),
        r matches Some(s) ==> s@ == decode_utf8(bytes@),
{
    match std::str::from_utf8(bytes) {
        Ok(s) => Some(s.to_string()),
        Err(_) => None,
    }
}

/// A parser set up with the Python grammar.
pub fn create_python_parser() -> (r: Option<tree_sitter::Parser>)
    ensures
        r is Some,
{
    let mut parser = new_parser();
    if set_python_language(&mut parser) {
        Some(parser)
    } else {
        None
    }
}

/// The text between two byte offsets; empty when they do not delimit valid
/// UTF-8 inside `bytes`.
pub open spec fn node_text(bytes: Seq<u8>, start: usize, end: usize) -> Seq<char> {
    if start <= end <= bytes.len() && valid_utf8(bytes.subrange(start as int, end as int)) {
        decode_utf8(bytes.subrange(start as int, end as int))
    } else {
        seq![]
    }
}

fn text_between(source: &[u8], start: usize, end: usize) -> (r: String)
    ensures
        r@ == node_text(source@, start, end),
{
    if start <= end && end <= source.len() {
        match utf8_string(vstd::slice::slice_subrange(source, start, end)) {
            Some(s) => s,
            None => String::new(),
        }
    } else {
        String::new()
    }
}

/// The child lists built so far while reading a pre-order listing, and the
/// nodes that still wait for children, each with how many it still expects.
pub struct Shape {
    pub children: Seq<Seq<usize>>,
    pub open: Seq<(usize, usize)>,
}

/// Reads node `k`, which has `count` children: it becomes the next child of
/// the innermost node still waiting for one, and waits for its own.
pub open spec fn shape_step(sh: Shape, k: usize, count: usize) -> Shape {
    let children = sh.children.push(seq![]);
    let attached = if sh.open.len() > 0 {
        let (p, rem) = sh.open.last();
        let c = children.update(p as int, children[p as int].push(k));
        if rem <= 1 {
            Shape { children: c, open: sh.open.drop_last() }
        } else {
            Shape { children: c, open: sh.open.drop_last().push((p, (rem - 1) as usize)) }
        }
    } else {
        Shape { children, open: sh.open }
    };
    if count > 0 {
        Shape { children: attached.children, open: attached.open.push((k, count)) }
    } else {
        attached
    }
}

/// The shape after reading the first `k` nodes of a pre-order listing.
pub open spec fn shape_upto(raw: Seq<RawNodeView>, k: int) -> Shape
    decreases k,
{
    if k <= 0 {
        Shape { children: seq![], open: seq![] }
    } else {
        shape_step(shape_upto(raw, k - 1), (k - 1) as usize, raw[k - 1].child_count)
    }
}

/// The tree described by a pre-order listing of nodes over the source bytes.
pub open spec fn arena_of(raw: Seq<RawNodeView>, bytes: Seq<u8>) -> TreeView {
    let sh = shape_upto(raw, raw.len() as int);
    TreeView {
        nodes: Seq::new(
            raw.len(),
            |i: int|
                NodeView {
                    kind: kind_of_name(raw[i].kind),
                    start: raw[i].start,
                    end: raw[i].end,
                    text: node_text(bytes, raw[i].start_byte, raw[i].end_byte),
                    children: sh.children[i],
                },
        ),
    }
}

/// The tree of the Python parse of a text.
pub open spec fn python_tree(source: Seq<char>) -> TreeView {
    arena_of(python_nodes(source), encode_utf8(source))
}

/// Builds the library's tree from a pre-order listing of parsed nodes: each
/// node keeps its category, span and text, and the nodes that follow it
/// become its children, as many as its child count says.
pub fn syntax_tree_of(raw: &Vec<RawNode>, source: &str) -> (r: SyntaxTree)
    ensures
        r.wf(),
        r@ == arena_of(raw_views(raw@), encode_utf8(source@)),
{
    let bytes = source.as_bytes();
    let ghost rv = raw_views(raw@);
    let mut nodes: Vec<SyntaxNode> = Vec::new();
    let mut open: Vec<(usize, usize)> = Vec::new();
    let mut k: usize = 0;
    while k < raw.len()
        invariant
            rv == raw_views(raw@),
            bytes@ == encode_utf8(source@),
            nodes@.len() == k,
            k <= raw@.len(),
            shape_upto(rv, k as int).children.len() == k,
            open@ == shape_upto(rv, k as int).open,
            forall|i: int|
                0 <= i < k ==> {
                    let n = #[trigger] nodes@[i];
                    &&& n.kind == kind_of_name(rv[i].kind)
                    &&& n.start == rv[i].start
                    &&& n.end == rv[i].end
                    &&& n.text@ == node_text(bytes@, rv[i].start_byte, rv[i].end_byte)
                    &&& n.children@ == shape_upto(rv, k as int).children[i]
                },
            forall|i: int, j: int|
                0 <= i < nodes@.len() && 0 <= j < nodes@[i].children@.len()
                    ==> #[trigger] nodes@[i].children@[j] < k,
            forall|s: int| 0 <= s < open@.len() ==> (#[trigger] open@[s]).0 < k,
        decreases raw@.len() - k,
    {
        let node = &raw[k];
        let ghost prev = shape_upto(rv, k as int);
        let ghost next = shape_upto(rv, k + 1);
        nodes.push(
            SyntaxNode {
                kind: node_kind_from_name(&node.kind),
                start: node.start,
                end: node.end,
                text: text_between(bytes, node.start_byte, node.end_byte),
                children: Vec::new(),
            },
        );
        let len = open.len();
        if len > 0 {
            let (parent, remaining) = open[len - 1];
            nodes[parent].children.push(k);
            if remaining <= 1 {
                open.pop();
            } else {
                open.set(len - 1, (parent, remaining - 1));
                assert(open@ =~= prev.open.drop_last().push((parent, (remaining - 1) as usize)));
            }
        }
        if node.child_count > 0 {
            open.push((k, node.child_count));
        }
        assert(open@ =~= next.open);
        assert forall|i: int| 0 <= i <= k implies (#[trigger] nodes@[i]).children@
            == next.children[i] by {
            if i < k {
                assert(nodes@[i].children@ =~= next.children[i]);
            } else {
                assert(nodes@[i].children@ =~= next.children[i]);
            }
        }
        k += 1;
    }
    let r = SyntaxTree { nodes };
    assert(r@.nodes =~= arena_of(rv, bytes@).nodes);
    r
}

/// Parses Python source text into the library's tree form.
pub fn parse_python(source: &str) -> (r: SyntaxTree)
    ensures
        r.wf(),
        r@ == python_tree(source@),
{
    let raw = parse_python_nodes(source);
    syntax_tree_of(&raw, source)
}

/// The findings of a tree rendered as diagnostic lines.
pub fn message_from_tree(tree: &SyntaxTree, ignore_return: bool) -> (r: Result<String, DetectError>)
    requires
        tree.wf(),
    ensures
        match detect_spec(tree@, ignore_return) {
            Some(ps) => r matches Ok(m) && m@ == message_of(ps),
            None => r is Err,
        },
{
    match find_missing_types_positions(tree, ignore_return) {
        Ok(positions) => Ok(get_message_from_positions(&positions)),
        Err(e) => Err(e),
    }
}

/// The findings of a tree rendered as the report block of file `path`.
pub fn block_from_tree(path: &str, tree: &SyntaxTree, ignore_return: bool) -> (r: Result<
    String,
    DetectError,
>)
    requires
        tree.wf(),
    ensures
        match detect_spec(tree@, ignore_return) {
            Some(ps) => r matches Ok(b) && b@ == block_of(path@, ps),
            None => r is Err,
        },
{
    match find_missing_types_positions(tree, ignore_return) {
        Ok(positions) => Ok(file_block(path, &positions)),
        Err(e) => Err(e),
    }
}

/// Checks one Python source text and renders its diagnostic lines.
pub fn get_message_from_file(source: &str, ignore_return: bool) -> (r: Result<String, DetectError>)
    ensures
        match detect_spec(python_tree(source@), ignore_return) {
            Some(ps) => r matches Ok(m) && m@ == message_of(ps),
            None => r is Err,
        },
{
    let tree = parse_python(source);
    message_from_tree(&tree, ignore_return)
}

/// Checks one Python source text and renders the block it adds to a report
/// under the name `path`.
pub fn get_block_from_file(path: &str, source: &str, ignore_return: bool) -> (r: Result<
    String,
    DetectError,
>)
    ensures
        match detect_spec(python_tree(source@), ignore_return) {
            Some(ps) => r matches Ok(b) && b@ == block_of(path@, ps),
            None => r is Err,
        },
{
    let tree = parse_python(source);
    block_from_tree(path, &tree, ignore_return)
}

} // verus!
