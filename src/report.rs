use vstd::prelude::*;
use crate::detect::{MissingType, MissingTypeView, Position, PositionView, views};

verus! {

/// The decimal digit character for `d < 10`.
pub open spec fn digit_char(d: nat) -> char {
    if d == 0 {
        '0'
    } else if d == 1 {
        '1'
    } else if d == 2 {
        '2'
    } else if d == 3 {
        '3'
    } else if d == 4 {
        '4'
    } else if d == 5 {
        '5'
    } else if d == 6 {
        '6'
    } else if d == 7 {
        '7'
    } else if d == 8 {
        '8'
    } else {
        '9'
    }
}

/// The decimal notation of `n`, without leading zeros.
pub open spec fn decimal(n: nat) -> Seq<char>
    decreases n,
{
    if n < 10 {
        seq![digit_char(n)]
    } else {
        decimal(n / 10).push(digit_char(n % 10))
    }
}

/// The diagnostic line of one finding, positions shown counting from one.
pub open spec fn line_of(p: PositionView) -> Seq<char> {
    let place = decimal(p.start.row as nat + 1) + " and column "@ + decimal(
        p.start.column as nat + 1,
    );
    match p.missing_type {
        MissingTypeView::Return(name) => "Function '"@ + name + "' in line "@ + place
            + " is missing a return type.\n"@,
        MissingTypeView::Parameter(name) => "Parameter '"@ + name + "' in line "@ + place
            + " is missing a type hint.\n"@,
    }
}

/// The diagnostic lines of a sequence of findings, in order.
pub open spec fn message_of(ps: Seq<PositionView>) -> Seq<char>
    decreases ps.len(),
{
    if ps.len() == 0 {
        seq![]
    } else {
        message_of(ps.drop_last()) + line_of(ps.last())
    }
}

/// The diagnostic lines of a sequence of findings, each after the indent.
pub open spec fn indented_message_of(ps: Seq<PositionView>) -> Seq<char>
    decreases ps.len(),
{
    if ps.len() == 0 {
        seq![]
    } else {
        indented_message_of(ps.drop_last()) + "    "@ + line_of(ps.last())
    }
}

/// The report block of one file: nothing when it has no findings, else a
/// header naming the file and one indented line per finding.
pub open spec fn block_of(path: Seq<char>, ps: Seq<PositionView>) -> Seq<char> {
    if ps.len() == 0 {
        seq![]
    } else {
        "File: "@ + path + "\n"@ + indented_message_of(ps)
    }
}

fn digit_str(d: u128) -> (r: &'static str)
    requires
        d < 10,
    ensures
        r@ == seq![digit_char(d as nat)],
{
    proof {
        reveal_strlit("0");
        reveal_strlit("1");
        reveal_strlit("2");
        reveal_strlit("3");
        reveal_strlit("4");
        reveal_strlit("5");
        reveal_strlit("6");
        reveal_strlit("7");
        reveal_strlit("8");
        reveal_strlit("9");
    }
    if d == 0 {
        "0"
    } else if d == 1 {
        "1"
    } else if d == 2 {
        "2"
    } else if d == 3 {
        "3"
    } else if d == 4 {
        "4"
    } else if d == 5 {
        "5"
    } else if d == 6 {
        "6"
    } else if d == 7 {
        "7"
    } else if d == 8 {
        "8"
    } else {
        "9"
    }
}

fn append_decimal(out: &mut String, n: u128)
    ensures
        final(out)@ == old(out)@ + decimal(n as nat),
    decreases n,
{
    if n >= 10 {
        append_decimal(out, n / 10);
    }
    out.append(digit_str(n % 10));
    assert(old(out)@ + decimal(n as nat) =~= old(out)@ + (if n >= 10 {
        decimal((n / 10) as nat)
    } else {
        seq![]
    }) + seq![digit_char((n % 10) as nat)]);
}

fn append_line(out: &mut String, p: &Position)
    ensures
        final(out)@ == old(out)@ + line_of(p@),
{
    match &p.missing_type {
        MissingType::Return(name) => {
            out.append("Function '");
            out.append(name.as_str());
            out.append("' in line ");
        },
        MissingType::Parameter(name) => {
            out.append("Parameter '");
            out.append(name.as_str());
            out.append("' in line ");
        },
    }
    append_decimal(out, p.start.row as u128 + 1);
    out.append(" and column ");
    append_decimal(out, p.start.column as u128 + 1);
    match &p.missing_type {
        MissingType::Return(_) => out.append(" is missing a return type.\n"),
        MissingType::Parameter(_) => out.append(" is missing a type hint.\n"),
    }
    assert(final(out)@ =~= old(out)@ + line_of(p@));
}

/// Renders one diagnostic line per finding, in order; no findings give the
/// empty text.
pub fn get_message_from_positions(positions: &Vec<Position>) -> (r: String)
    ensures
        r@ == message_of(views(positions@)),
{
    let mut message = String::new();
    let mut i: usize = 0;
    while i < positions.len()
        invariant
            i <= positions@.len(),
            message@ == message_of(views(positions@.subrange(0, i as int))),
        decreases positions@.len() - i,
    {
        append_line(&mut message, &positions[i]);
        assert(views(positions@.subrange(0, i + 1)).drop_last() =~= views(
            positions@.subrange(0, i as int),
        ));
        i += 1;
    }
    assert(positions@.subrange(0, i as int) =~= positions@);
    message
}

/// The block that a file contributes to a report: empty when the file has
/// no findings, otherwise `File: <path>` and the indented diagnostic lines.
pub fn file_block(path: &str, positions: &Vec<Position>) -> (r: String)
    ensures
        r@ == block_of(path@, views(positions@)),
{
    let mut block = String::new();
    if positions.len() == 0 {
        return block;
    }
    block.append("File: ");
    block.append(path);
    block.append("\n");
    let ghost header = block@;
    let mut i: usize = 0;
    while i < positions.len()
        invariant
            i <= positions@.len(),
            block@ == header + indented_message_of(views(positions@.subrange(0, i as int))),
        decreases positions@.len() - i,
    {
        let ghost before = block@;
        block.append("    ");
        append_line(&mut block, &positions[i]);
        assert(views(positions@.subrange(0, i + 1)).drop_last() =~= views(
            positions@.subrange(0, i as int),
        ));
        assert(block@ =~= header + indented_message_of(views(positions@.subrange(0, i + 1))));
        i += 1;
    }
    assert(positions@.subrange(0, i as int) =~= positions@);
    block
}

/// The concatenation of report blocks, in order.
pub open spec fn concat_blocks(blocks: Seq<String>) -> Seq<char>
    decreases blocks.len(),
{
    if blocks.len() == 0 {
        seq![]
    } else {
        concat_blocks(blocks.drop_last()) + blocks.last()@
    }
}

/// Joins the blocks of the files of a run into one report, in the order
/// given; empty blocks add nothing.
pub fn merge_report(blocks: &Vec<String>) -> (r: String)
    ensures
        r@ == concat_blocks(blocks@),
{
    let mut report = String::new();
    let mut i: usize = 0;
    while i < blocks.len()
        invariant
            i <= blocks@.len(),
            report@ == concat_blocks(blocks@.subrange(0, i as int)),
        decreases blocks@.len() - i,
    {
        report.append(blocks[i].as_str());
        assert(blocks@.subrange(0, i + 1).drop_last() =~= blocks@.subrange(0, i as int));
        i += 1;
    }
    assert(blocks@.subrange(0, i as int) =~= blocks@);
    report
}

/// The line printed when a run finds nothing.
pub open spec fn all_good() -> Seq<char> {
    "\u{2728} All good!\n"@
}

/// What a run prints: the report, or the success line when it is empty.
pub fn output_text(report: &String) -> (r: String)
    ensures
        report@.len() == 0 ==> r@ == all_good(),
        report@.len() != 0 ==> r@ == report@,
{
    if report.as_str().is_empty() {
        String::from_str("\u{2728} All good!\n")
    } else {
        report.clone()
    }
}

} // verus!
