use hint_checker::detect::{find_missing_types_positions, DetectError, MissingType, Position};
use hint_checker::provider::{
    create_python_parser, get_block_from_file, get_message_from_file, message_from_tree,
    parse_python, syntax_tree_of, RawNode,
};
use hint_checker::report::{file_block, get_message_from_positions, merge_report, output_text};
use hint_checker::syntax::{NodeKind, Point, SyntaxNode, SyntaxTree};

const SAMPLE: &str = "import os\n\n\ndef no_hints(a, b=3):\n    return a\n\n\ndef hinted(a: int, b: int = 3) -> int:\n    return a\n\n\nclass Thing:\n    def method(self, value):\n        pass\n\n\ndef main():\n    pass\n";

fn positions_of(source: &str, ignore_return: bool) -> Vec<Position> {
    let tree = parse_python(source);
    find_missing_types_positions(&tree, ignore_return).expect("tree should have the grammar's shape")
}

fn message(source: &str, ignore_return: bool) -> String {
    get_message_from_file(source, ignore_return).expect("source should be checked")
}

fn leaf(kind: NodeKind, row: usize, column: usize, text: &str) -> SyntaxNode {
    SyntaxNode {
        kind,
        start: Point { row, column },
        end: Point { row, column: column + text.len() },
        text: text.to_string(),
        children: Vec::new(),
    }
}

#[test]
fn tree_from_test_file() {
    assert!(create_python_parser().is_some());
    let tree = parse_python(SAMPLE);
    assert!(!tree.nodes.is_empty());
}

#[test]
fn find_args_test() {
    let positions = positions_of(SAMPLE, false);
    println!("{:?}", positions);
    assert_eq!(positions.len(), 5);
}

#[test]
fn parameter_without_hint_and_return() {
    assert_eq!(
        message("def f(a, b: int = 5):\n    pass", false),
        "Parameter 'a' in line 1 and column 7 is missing a type hint.\n\
         Function 'f' in line 1 and column 1 is missing a return type.\n"
    );
}

#[test]
fn positions_carry_spans() {
    let positions = positions_of("def f(a, b: int = 5):\n    pass", false);
    assert_eq!(positions.len(), 2);
    assert_eq!(positions[0].start, Point { row: 0, column: 6 });
    assert_eq!(positions[0].end, Point { row: 0, column: 7 });
    assert!(matches!(&positions[0].missing_type, MissingType::Parameter(n) if n == "a"));
    assert_eq!(positions[1].start, Point { row: 0, column: 0 });
    assert!(matches!(&positions[1].missing_type, MissingType::Return(n) if n == "f"));
}

#[test]
fn self_is_never_reported() {
    let text = message("class C:\n    def f(self, x):\n        return x", false);
    assert_eq!(
        text,
        "Parameter 'x' in line 2 and column 17 is missing a type hint.\n\
         Function 'f' in line 2 and column 5 is missing a return type.\n"
    );
    assert!(!text.contains("'self'"));
}

#[test]
fn main_is_never_reported() {
    assert_eq!(message("def main():\n    pass", false), "");
    assert_eq!(message("def main():\n    pass", true), "");
}

#[test]
fn main_parameters_are_still_reported() {
    assert_eq!(
        message("def main(argv):\n    pass", false),
        "Parameter 'argv' in line 1 and column 10 is missing a type hint.\n"
    );
}

#[test]
fn no_functions_no_findings() {
    assert_eq!(message("x = 1\nprint(x)\n", false), "");
    assert_eq!(message("", false), "");
    assert_eq!(get_block_from_file("a.py", "x = 1\n", false), Ok(String::new()));
}

#[test]
fn ignore_return_keeps_only_parameters() {
    let source = "def f(a, b: int = 5):\n    pass";
    assert_eq!(
        message(source, true),
        "Parameter 'a' in line 1 and column 7 is missing a type hint.\n"
    );
    let all = positions_of(SAMPLE, false);
    let params = positions_of(SAMPLE, true);
    let expected: Vec<String> = all
        .iter()
        .filter(|p| matches!(p.missing_type, MissingType::Parameter(_)))
        .map(|p| format!("{:?}", p))
        .collect();
    let got: Vec<String> = params.iter().map(|p| format!("{:?}", p)).collect();
    assert_eq!(got, expected);
}

#[test]
fn detection_is_repeatable() {
    let first = format!("{:?}", positions_of(SAMPLE, false));
    let second = format!("{:?}", positions_of(SAMPLE, false));
    assert_eq!(first, second);
    assert_eq!(message(SAMPLE, false), message(SAMPLE, false));
}

#[test]
fn annotated_function_is_clean() {
    assert_eq!(message("def g(a: int, b: str = 'x') -> int:\n    return a", false), "");
}

#[test]
fn default_parameter_without_hint() {
    assert_eq!(
        message("def g(a=1) -> None:\n    pass", false),
        "Parameter 'a=1' in line 1 and column 7 is missing a type hint.\n"
    );
}

#[test]
fn async_function_name() {
    assert_eq!(
        message("async def g(y):\n    pass", false),
        "Parameter 'y' in line 1 and column 13 is missing a type hint.\n\
         Function 'g' in line 1 and column 1 is missing a return type.\n"
    );
}

#[test]
fn nested_functions_in_document_order() {
    assert_eq!(
        message("def outer() -> None:\n    def inner(q):\n        pass\n", false),
        "Parameter 'q' in line 2 and column 15 is missing a type hint.\n\
         Function 'inner' in line 2 and column 5 is missing a return type.\n"
    );
}

#[test]
fn large_line_numbers() {
    let mut source = String::new();
    for _ in 0..11 {
        source.push('\n');
    }
    source.push_str("def late(k) -> None:\n    pass\n");
    assert_eq!(
        message(&source, false),
        "Parameter 'k' in line 12 and column 10 is missing a type hint.\n"
    );
}

#[test]
fn missing_function_name_is_an_error() {
    let tree = SyntaxTree {
        nodes: vec![
            SyntaxNode {
                kind: NodeKind::FunctionDefinition,
                start: Point { row: 0, column: 0 },
                end: Point { row: 0, column: 3 },
                text: "def".to_string(),
                children: vec![1],
            },
            leaf(NodeKind::Other, 0, 0, "def"),
        ],
    };
    assert_eq!(
        find_missing_types_positions(&tree, false).err(),
        Some(DetectError::MissingFunctionName)
    );
    assert_eq!(find_missing_types_positions(&tree, true).map(|v| v.len()), Ok(0));
}

#[test]
fn hand_built_tree() {
    // def f(self, p, t: int)
    let tree = SyntaxTree {
        nodes: vec![
            SyntaxNode {
                kind: NodeKind::FunctionDefinition,
                start: Point { row: 3, column: 4 },
                end: Point { row: 4, column: 12 },
                text: "def f(self, p, t: int): pass".to_string(),
                children: vec![1, 2, 3],
            },
            leaf(NodeKind::Other, 3, 4, "def"),
            leaf(NodeKind::Identifier, 3, 8, "f"),
            SyntaxNode {
                kind: NodeKind::Parameters,
                start: Point { row: 3, column: 9 },
                end: Point { row: 3, column: 25 },
                text: "(self, p, t: int)".to_string(),
                children: vec![4, 5, 6],
            },
            leaf(NodeKind::Identifier, 3, 10, "self"),
            leaf(NodeKind::Identifier, 3, 16, "p"),
            leaf(NodeKind::TypedParameter, 3, 19, "t: int"),
        ],
    };
    let positions = find_missing_types_positions(&tree, false).unwrap();
    assert_eq!(
        get_message_from_positions(&positions),
        "Parameter 'p' in line 4 and column 17 is missing a type hint.\n\
         Function 'f' in line 4 and column 5 is missing a return type.\n"
    );
}

#[test]
fn empty_positions_give_empty_message() {
    assert_eq!(get_message_from_positions(&Vec::new()), "");
    assert_eq!(file_block("x.py", &Vec::new()), "");
}

#[test]
fn file_block_indents_lines() {
    let positions = vec![Position {
        start: Point { row: 9, column: 0 },
        end: Point { row: 9, column: 4 },
        missing_type: MissingType::Return("go".to_string()),
    }];
    assert_eq!(
        file_block("pkg/mod.py", &positions),
        "File: pkg/mod.py\n    Function 'go' in line 10 and column 1 is missing a return type.\n"
    );
}

#[test]
fn report_has_one_block_per_file_with_findings() {
    let clean = get_block_from_file("dir/clean.py", "def ok() -> None:\n    pass\n", false).unwrap();
    let dirty = get_block_from_file("dir/dirty.py", "def bad(a):\n    pass\n", false).unwrap();
    assert_eq!(clean, "");
    let report = merge_report(&vec![clean, dirty]);
    assert_eq!(report.matches("File:").count(), 1);
    assert_eq!(
        report,
        "File: dir/dirty.py\n    Parameter 'a' in line 1 and column 9 is missing a type hint.\n    Function 'bad' in line 1 and column 1 is missing a return type.\n"
    );
}

#[test]
fn empty_report_prints_success_line() {
    assert_eq!(output_text(&String::new()), "\u{2728} All good!\n");
    assert_eq!(output_text(&"File: a.py\n".to_string()), "File: a.py\n");
}

#[test]
fn well_formedness_of_trees() {
    let parsed = parse_python(SAMPLE);
    assert!(parsed.is_well_formed());
    let broken = SyntaxTree {
        nodes: vec![SyntaxNode {
            kind: NodeKind::Other,
            start: Point { row: 0, column: 0 },
            end: Point { row: 0, column: 0 },
            text: String::new(),
            children: vec![1],
        }],
    };
    assert!(!broken.is_well_formed());
}

#[test]
fn parsed_tree_keeps_node_texts() {
    let tree = parse_python("def f(a):\n    pass\n");
    assert_eq!(tree.nodes[0].text, "def f(a):\n    pass\n");
    let function = tree
        .nodes
        .iter()
        .find(|n| n.kind == NodeKind::FunctionDefinition)
        .expect("a function node");
    let texts: Vec<&str> = function.children.iter().map(|&c| tree.nodes[c].text.as_str()).collect();
    assert_eq!(texts[0], "def");
    assert_eq!(texts[1], "f");
    assert_eq!(texts[2], "(a)");
}

fn raw(kind: &str, start_byte: usize, end_byte: usize, child_count: usize) -> RawNode {
    RawNode {
        kind: kind.to_string(),
        start: Point { row: 0, column: start_byte },
        end: Point { row: 0, column: end_byte },
        start_byte,
        end_byte,
        child_count,
    }
}

#[test]
fn arena_from_preorder_listing() {
    let source = "def f(x): pass";
    let listing = vec![
        raw("module", 0, 14, 1),
        raw("function_definition", 0, 14, 5),
        raw("def", 0, 3, 0),
        raw("identifier", 4, 5, 0),
        raw("parameters", 5, 8, 3),
        raw("(", 5, 6, 0),
        raw("identifier", 6, 7, 0),
        raw(")", 7, 8, 0),
        raw(":", 8, 9, 0),
        raw("block", 10, 14, 1),
        raw("pass_statement", 10, 14, 0),
    ];
    let tree = syntax_tree_of(&listing, source);
    assert!(tree.is_well_formed());
    assert_eq!(tree.nodes.len(), 11);
    assert_eq!(tree.nodes[0].children, vec![1]);
    assert_eq!(tree.nodes[1].children, vec![2, 3, 4, 8, 9]);
    assert_eq!(tree.nodes[4].children, vec![5, 6, 7]);
    assert_eq!(tree.nodes[9].children, vec![10]);
    assert_eq!(tree.nodes[1].kind, NodeKind::FunctionDefinition);
    assert_eq!(tree.nodes[4].kind, NodeKind::Parameters);
    assert_eq!(tree.nodes[6].kind, NodeKind::Identifier);
    assert_eq!(tree.nodes[9].kind, NodeKind::Other);
    assert_eq!(tree.nodes[3].text, "f");
    assert_eq!(tree.nodes[6].text, "x");
    assert_eq!(
        message_from_tree(&tree, false),
        Ok("Parameter 'x' in line 1 and column 7 is missing a type hint.\n\
            Function 'f' in line 1 and column 1 is missing a return type.\n"
            .to_string())
    );
}

#[test]
fn arena_text_outside_the_source_is_empty() {
    let listing = vec![raw("identifier", 2, 40, 0)];
    let tree = syntax_tree_of(&listing, "abc");
    assert_eq!(tree.nodes[0].text, "");
}
