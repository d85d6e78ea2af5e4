//! The table in which tasks are shown: one row of headings, then one row per
//! task, its cells in bold red where the task is overdue.

use vstd::prelude::*;

use prettytable::{Cell, Row, Table};

use crate::database::TodoView;
use crate::date::{due_date_passed, due_text_passed, DateOnly};

verus! {

#[verifier::external_type_specification]
#[verifier::external_body]
pub struct ExTable(Table);

#[verifier::external_type_specification]
#[verifier::external_body]
pub struct ExRow(Row);

#[verifier::external_type_specification]
#[verifier::external_body]
pub struct ExCell(Cell);

/// What a cell shows and whether it is marked: its content as
/// `Cell::get_content` gives it, and whether its style is exactly bold with a
/// red foreground.
pub uninterp spec fn cell_view(c: Cell) -> (Seq<char>, bool);

/// The cells of a row, in order, as `cell_view` sees them.
pub uninterp spec fn row_view(r: Row) -> Seq<(Seq<char>, bool)>;

/// The rows of a table, in order, as `row_view` sees them.
pub uninterp spec fn table_rows(t: Table) -> Seq<Seq<(Seq<char>, bool)>>;

/// The content of a cell made from a text: its lines joined by line feeds.
pub uninterp spec fn cell_text(s: Seq<char>) -> Seq<char>;

/// Relies on prettytable's `Table::new`: a table without rows.
#[verifier::external_body]
fn new_table() -> (t: Table)
    ensures
        table_rows(t) == Seq::<Seq<(Seq<char>, bool)>>::empty(),
{
    Table::new()
}

/// Relies on prettytable's `Table::add_row`: the row is appended.
#[verifier::external_body]
fn push_row(t: &mut Table, r: Row)
    ensures
        table_rows(*final(t)) == table_rows(*old(t)).push(row_view(r)),
{
    t.add_row(r);
}

/// Relies on prettytable's `Row::new`: a row of the given cells.
#[verifier::external_body]
fn new_row(cells: Vec<Cell>) -> (r: Row)
    ensures
        row_view(r) == cells@.map_values(|c: Cell| cell_view(c)),
{
    Row::new(cells)
}

/// Relies on prettytable's `Cell::new`: a cell holding the text's lines,
/// without style; a text without line breaks is its single line. Measuring
/// the cell's width can fail on a text that opens a terminal control
/// sequence (an escape character directly followed by `[`), so none is
/// admitted.
#[verifier::external_body]
fn new_cell(s: &str) -> (c: Cell)
    requires
        opens_none(s@),
    ensures
        cell_view(c) == (cell_text(s@), false),
        !s@.contains('\n') && !s@.contains('\r') ==> cell_view(c).0 == s@,
{
    Cell::new(s)
}

/// Relies on prettytable's `Cell::style_spec` with `bFr`: the style is reset
/// to bold with a red foreground, the content kept.
#[verifier::external_body]
fn mark_cell(c: Cell) -> (r: Cell)
    ensures
        cell_view(r) == (cell_view(c).0, true),
{
    c.style_spec("bFr")
}

/// The character that opens a terminal escape sequence.
pub const ESCAPE: char = '\u{1b}';

/// What a table shows in place of an escape character that opens a control
/// sequence.
pub const SUBSTITUTE: char = '\u{fffd}';

/// The character at `i` is an escape character directly followed by `[`:
/// the opening of a terminal control sequence.
pub open spec fn opens_sequence(s: Seq<char>, i: int) -> bool {
    s[i] == ESCAPE && i + 1 < s.len() && s[i + 1] == '['
}

/// The text opens no terminal control sequence.
pub open spec fn opens_none(s: Seq<char>) -> bool {
    forall|i: int| 0 <= i < s.len() ==> !#[trigger] opens_sequence(s, i)
}

/// A text as a table shows it: each escape character that opens a control
/// sequence is replaced, every other character stays as it is.
pub open spec fn visible(s: Seq<char>) -> Seq<char> {
    Seq::new(s.len(), |i: int| if opens_sequence(s, i) { SUBSTITUTE } else { s[i] })
}

/// The text with each escape character that opens a control sequence
/// replaced; see `visible`. A text that opens none comes back unchanged.
pub fn visible_text(s: &str) -> (r: String)
    ensures
        r@ == visible(s@),
        opens_none(r@),
        opens_none(s@) ==> r@ == s@,
{
    let n = s.unicode_len();
    let mut out = String::new();
    let mut i: usize = 0;
    while i < n
        invariant
            n == s@.len(),
            i <= n,
            out@ == visible(s@).take(i as int),
        decreases n - i,
    {
        let c = s.get_char(i);
        let opens = c == ESCAPE && i + 1 < n && s.get_char(i + 1) == '[';
        if opens {
            out.append("\u{fffd}");
            proof {
                reveal_strlit("\u{fffd}");
                assert("\u{fffd}"@ =~= seq![SUBSTITUTE]);
            }
        } else {
            let piece = s.substring_char(i, i + 1);
            assert(piece@ =~= seq![c]);
            out.append(piece);
        }
        assert(visible(s@).take(i + 1) =~= visible(s@).take(i as int).push(visible(s@)[i as int]));
        i += 1;
    }
    assert(visible(s@).take(n as int) =~= visible(s@));
    assert forall|k: int| 0 <= k < out@.len() implies !#[trigger] opens_sequence(out@, k) by {
        if opens_sequence(out@, k) {
            assert(out@[k + 1] == (if opens_sequence(s@, k + 1) { SUBSTITUTE } else { s@[k + 1] }));
        }
    }
    proof {
        if opens_none(s@) {
            assert(out@ =~= s@);
        }
    }
    out
}

/// The decimal digit for `d`.
pub open spec fn digit(d: nat) -> char {
    seq!['0', '1', '2', '3', '4', '5', '6', '7', '8', '9'][d as int]
}

/// The decimal numeral of `n`, without sign or leading zeros.
pub open spec fn decimal(n: nat) -> Seq<char>
    decreases n,
{
    if n < 10 {
        seq![digit(n)]
    } else {
        decimal(n / 10).push(digit(n % 10))
    }
}

/// The decimal numeral of `n`.
pub fn numeral(n: u64) -> (s: String)
    ensures
        s@ == decimal(n as nat),
    decreases n,
{
    let digits = "0123456789";
    proof {
        reveal_strlit("0123456789");
    }
    let last = (n % 10) as usize;
    let d = digits.substring_char(last, last + 1);
    assert(d@ =~= seq![digit(last as nat)]);
    if n < 10 {
        d.to_owned()
    } else {
        let mut s = numeral(n / 10);
        s.append(d);
        s
    }
}

/// How a flag is written in a table.
pub open spec fn flag_text(b: bool) -> Seq<char> {
    if b {
        seq!['t', 'r', 'u', 'e']
    } else {
        seq!['f', 'a', 'l', 's', 'e']
    }
}

/// The headings of the table.
pub open spec fn headings() -> Seq<Seq<char>> {
    seq![
        seq!['I', 'D'],
        seq!['P', 'R', 'O', 'J', 'E', 'C', 'T'],
        seq!['T', 'A', 'S', 'K'],
        seq!['D', 'U', 'E', ' ', 'D', 'A', 'T', 'E'],
        seq!['C', 'O', 'M', 'P', 'L', 'E', 'T', 'E'],
    ]
}

/// The texts that a task's row shows.
pub open spec fn task_texts(t: TodoView) -> Seq<Seq<char>> {
    seq![decimal(t.id as nat), t.project@, t.task@, t.due_date@, flag_text(t.complete)]
}

/// What a cell made for a text shows: the visible text itself where it has
/// no line breaks.
pub open spec fn cell_content(s: Seq<char>) -> Seq<char> {
    let v = visible(s);
    if !v.contains('\n') && !v.contains('\r') {
        v
    } else {
        cell_text(v)
    }
}

/// Cells showing the given texts, all marked or none.
pub open spec fn cells_of(texts: Seq<Seq<char>>, marked: bool) -> Seq<(Seq<char>, bool)> {
    texts.map_values(|s: Seq<char>| (cell_content(s), marked))
}

/// A task's row: marked where the task's due date has passed by `today`.
pub open spec fn task_row(t: TodoView, today: DateOnly) -> Seq<(Seq<char>, bool)> {
    cells_of(task_texts(t), due_text_passed(t.due_date@, today))
}

/// Cells for the given texts, marked or not.
fn make_cells(texts: Vec<String>, marked: bool) -> (r: Vec<Cell>)
    ensures
        r@.map_values(|c: Cell| cell_view(c)) == cells_of(texts@.map_values(|s: String| s@), marked),
{
    let mut out: Vec<Cell> = Vec::new();
    let mut i: usize = 0;
    while i < texts.len()
        invariant
            i <= texts.len(),
            out@.map_values(|c: Cell| cell_view(c)) == cells_of(
                texts@.map_values(|s: String| s@).take(i as int),
                marked,
            ),
        decreases texts.len() - i,
    {
        let shown = visible_text(texts[i].as_str());
        let c = new_cell(shown.as_str());
        let c = if marked {
            mark_cell(c)
        } else {
            c
        };
        let ghost before = out@;
        out.push(c);
        proof {
            assert(out@ == before.push(c));
            assert(out@.map_values(|c: Cell| cell_view(c)) =~= before.map_values(
                |c: Cell| cell_view(c),
            ).push(cell_view(c)));
            assert(texts@.map_values(|s: String| s@).take(i + 1) =~= texts@.map_values(
                |s: String| s@,
            ).take(i as int).push(texts@[i as int]@));
        }
        i += 1;
        proof {
            assert(out@.map_values(|c: Cell| cell_view(c)) =~= cells_of(
                texts@.map_values(|s: String| s@).take(i as int),
                marked,
            ));
        }
    }
    assert(texts@.map_values(|s: String| s@).take(texts.len() as int) =~= texts@.map_values(
        |s: String| s@,
    ));
    out
}

/// The row of headings.
fn heading_row() -> (r: Row)
    ensures
        row_view(r) == cells_of(headings(), false),
{
    let texts: Vec<String> = vec![
        "ID".to_owned(),
        "PROJECT".to_owned(),
        "TASK".to_owned(),
        "DUE DATE".to_owned(),
        "COMPLETE".to_owned(),
    ];
    proof {
        reveal_strlit("ID");
        reveal_strlit("PROJECT");
        reveal_strlit("TASK");
        reveal_strlit("DUE DATE");
        reveal_strlit("COMPLETE");
        assert(texts@[0]@ =~= headings()[0]);
        assert(texts@[1]@ =~= headings()[1]);
        assert(texts@[2]@ =~= headings()[2]);
        assert(texts@[3]@ =~= headings()[3]);
        assert(texts@[4]@ =~= headings()[4]);
        assert(texts@.map_values(|s: String| s@) =~= headings());
    }
    new_row(make_cells(texts, false))
}

/// The row of one task.
fn task_row_of(t: &TodoView, today: &DateOnly) -> (r: Row)
    ensures
        row_view(r) == task_row(*t, *today),
{
    let complete = if t.complete {
        "true".to_owned()
    } else {
        "false".to_owned()
    };
    proof {
        reveal_strlit("true");
        reveal_strlit("false");
        assert(complete@ =~= flag_text(t.complete));
    }
    let texts: Vec<String> = vec![
        numeral(t.id),
        t.project.clone(),
        t.task.clone(),
        t.due_date.clone(),
        complete,
    ];
    assert(texts@.map_values(|s: String| s@) =~= task_texts(*t));
    new_row(make_cells(texts, due_date_passed(t.due_date.as_str(), today)))
}

/// The table showing the given tasks in order, after a row of headings;
/// the row of each task whose due date has passed by `today` is in bold red.
/// A due date that is no date never marks its row. Texts are shown as they
/// are, but for an escape character that opens a terminal control
/// sequence, which is shown replaced; see `visible`.
pub fn show_data(data: Vec<TodoView>, today: &DateOnly) -> (r: Table)
    ensures
        table_rows(r) == seq![cells_of(headings(), false)] + data@.map_values(
            |t: TodoView| task_row(t, *today),
        ),
{
    let mut table = new_table();
    push_row(&mut table, heading_row());
    let mut i: usize = 0;
    while i < data.len()
        invariant
            i <= data.len(),
            table_rows(table) == seq![cells_of(headings(), false)] + data@.take(
                i as int,
            ).map_values(|t: TodoView| task_row(t, *today)),
        decreases data.len() - i,
    {
        push_row(&mut table, task_row_of(&data[i], today));
        proof {
            assert(data@.take(i + 1) =~= data@.take(i as int).push(data@[i as int]));
        }
        i += 1;
        assert(table_rows(table) =~= seq![cells_of(headings(), false)] + data@.take(
            i as int,
        ).map_values(|t: TodoView| task_row(t, *today)));
    }
    assert(data@.take(data.len() as int) =~= data@);
    table
}

} // verus!
