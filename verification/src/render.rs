//! The table renderer: projects each task onto four text cells (id,
//! summary, assignee, status), and has cli-table lay the cells out as an
//! aligned, styled console table. The projection is verified; only the
//! final layout call is trusted.

use vstd::prelude::*;
use vstd::string::StringExecFns;

use crate::task::{status_text, status_text_spec, Task};

verus! {

/// The decimal digit character for `d`.
pub open spec fn digit_char(d: int) -> char {
    if d == 0 {
        '0'
    } else if d == 1 {
        '1'
    } else if d == 2 {
        '2'
    } else if d == 3 {
        '3'
    } else if d == 4 {
        '4'
    } else if d == 5 {
        '5'
    } else if d == 6 {
        '6'
    } else if d == 7 {
        '7'
    } else if d == 8 {
        '8'
    } else {
        '9'
    }
}

/// The decimal text of `n`, most significant digit first, no sign and no
/// leading zeros (a single zero for 0).
pub open spec fn dec_str(n: nat) -> Seq<char>
    decreases n,
{
    if n < 10 {
        seq![digit_char(n as int)]
    } else {
        dec_str(n / 10) + seq![digit_char((n % 10) as int)]
    }
}

/// The decimal text of a signed integer: a `-` before the magnitude when
/// negative.
pub open spec fn dec_str_i64(n: int) -> Seq<char> {
    if n >= 0 {
        dec_str(n as nat)
    } else {
        seq!['-'] + dec_str((-n) as nat)
    }
}

/// The text of one decimal digit.
fn digit_text(d: u64) -> (r: &'static str)
    requires
        d < 10,
    ensures
        r@ == seq![digit_char(d as int)],
{
    let r = if d == 0 {
        "0"
    } else if d == 1 {
        "1"
    } else if d == 2 {
        "2"
    } else if d == 3 {
        "3"
    } else if d == 4 {
        "4"
    } else if d == 5 {
        "5"
    } else if d == 6 {
        "6"
    } else if d == 7 {
        "7"
    } else if d == 8 {
        "8"
    } else {
        "9"
    };
    proof {
        reveal_strlit("0");
        reveal_strlit("1");
        reveal_strlit("2");
        reveal_strlit("3");
        reveal_strlit("4");
        reveal_strlit("5");
        reveal_strlit("6");
        reveal_strlit("7");
        reveal_strlit("8");
        reveal_strlit("9");
        assert(r@ =~= seq![digit_char(d as int)]);
    }
    r
}

/// The decimal text of `n`.
pub fn u64_text(n: u64) -> (r: String)
    ensures
        r@ == dec_str(n as nat),
    decreases n,
{
    if n < 10 {
        digit_text(n).to_owned()
    } else {
        let mut s = u64_text(n / 10);
        s.append(digit_text(n % 10));
        proof {
            assert(s@ =~= dec_str(n as nat));
        }
        s
    }
}

/// The decimal text of `n`, with a leading `-` when negative.
pub fn i64_text(n: i64) -> (r: String)
    ensures
        r@ == dec_str_i64(n as int),
{
    if n >= 0 {
        u64_text(n as u64)
    } else {
        let m: u64 = ((-(n + 1)) as u64) + 1;
        proof {
            assert(m as nat == (-(n as int)) as nat);
        }
        let mut s = "-".to_owned();
        let digits = u64_text(m);
        s.append(digits.as_str());
        proof {
            reveal_strlit("-");
            assert(s@ =~= dec_str_i64(n as int));
        }
        s
    }
}

/// The texts of a row of cells.
pub open spec fn texts_of(v: Seq<String>) -> Seq<Seq<char>> {
    Seq::new(v.len(), |i: int| v[i]@)
}

/// The texts of a grid of cells, row by row.
pub open spec fn grid_of(v: Seq<Vec<String>>) -> Seq<Seq<Seq<char>>> {
    Seq::new(v.len(), |i: int| texts_of(v[i]@))
}

/// The four cells a task is shown as: id, summary, assignee, and the
/// status as text.
pub open spec fn task_cells_spec(t: Task) -> Seq<Seq<char>> {
    seq![dec_str_i64(t.id->0 as int), t.summary@, t.assignee@, status_text_spec(t.status)]
}

/// One rendered data row per task, each its four cells, in listing order.
pub open spec fn rows_spec(tasks: Seq<Task>) -> Seq<Seq<Seq<char>>> {
    tasks.map(|i: int, t: Task| task_cells_spec(t))
}

/// The four column headers of the task table.
pub open spec fn titles_spec() -> Seq<Seq<char>> {
    seq!["Id"@, "Summary"@, "Assignee"@, "Status"@]
}

/// A listing has exactly one rendered data row per task; in particular an
/// empty listing renders the header row alone, with zero data rows.
pub proof fn lemma_one_row_per_task(tasks: Seq<Task>)
    ensures
        rows_spec(tasks).len() == tasks.len(),
{
}

/// The four cells under which one stored task is shown.
pub fn task_cells(t: &Task) -> (r: Vec<String>)
    requires
        t.id is Some,
    ensures
        texts_of(r@) == task_cells_spec(*t),
{
    let mut r: Vec<String> = Vec::new();
    r.push(i64_text(t.id.unwrap()));
    r.push(t.summary.clone());
    r.push(t.assignee.clone());
    r.push(status_text(t.status).to_owned());
    proof {
        assert(texts_of(r@) =~= task_cells_spec(*t));
    }
    r
}

/// The data rows of the task table, one per task, in listing order.
pub fn task_rows(tasks: &Vec<Task>) -> (r: Vec<Vec<String>>)
    requires
        forall|i: int| 0 <= i < tasks@.len() ==> tasks@[i].id is Some,
    ensures
        grid_of(r@) == rows_spec(tasks@),
{
    let mut r: Vec<Vec<String>> = Vec::new();
    let mut i: usize = 0;
    while i < tasks.len()
        invariant
            0 <= i <= tasks@.len(),
            forall|j: int| 0 <= j < tasks@.len() ==> tasks@[j].id is Some,
            r@.len() == i,
            forall|j: int| 0 <= j < i ==> texts_of(r@[j]@) == task_cells_spec(tasks@[j]),
        decreases tasks@.len() - i,
    {
        r.push(task_cells(&tasks[i]));
        i = i + 1;
    }
    proof {
        assert(grid_of(r@) =~= rows_spec(tasks@));
    }
    r
}

/// The column headers of the task table.
pub fn table_titles() -> (r: Vec<String>)
    ensures
        texts_of(r@) == titles_spec(),
{
    let mut r: Vec<String> = Vec::new();
    r.push("Id".to_owned());
    r.push("Summary".to_owned());
    r.push("Assignee".to_owned());
    r.push("Status".to_owned());
    proof {
        assert(texts_of(r@) =~= titles_spec());
    }
    r
}

/// The text cli-table lays the given titles and rows out as: cells
/// center-justified, the header row bold and blue, with a fixed ANSI color
/// choice, so the text depends on the cell texts alone.
pub uninterp spec fn rendered_table(titles: Seq<Seq<char>>, rows: Seq<Seq<Seq<char>>>) -> Seq<char>;

/// Relies on cli-table's table layout (`Table::table`, `TableStruct::title`,
/// `TableStruct::display`): with the color choice fixed to `AlwaysAnsi` the
/// rendered text is a function of the cell texts alone. The layout cannot
/// fail — every write goes into an in-memory buffer, and text cells are
/// already valid UTF-8.
#[verifier::external_body]
fn format_table(titles: &Vec<String>, rows: &Vec<Vec<String>>) -> (r: String)
    ensures
        r@ == rendered_table(texts_of(titles@), grid_of(rows@)),
{
    let data: Vec<Vec<cli_table::CellStruct>> = rows
        .iter()
        .map(|row| row.iter().map(|c| cli_table::Cell::cell(c).justify(cli_table::format::Justify::Center)).collect())
        .collect();
    let title: Vec<cli_table::CellStruct> = titles
        .iter()
        .map(|t| cli_table::Style::foreground_color(cli_table::Style::bold(cli_table::Cell::cell(t), true), Some(cli_table::Color::Blue)))
        .collect();
    let table = cli_table::Style::bold(
        cli_table::Table::table(data).title(title).color_choice(cli_table::ColorChoice::AlwaysAnsi),
        true,
    );
    table.display().expect("the in-memory layout cannot fail").to_string()
}

/// Renders the given stored tasks as an aligned console table: a styled
/// header row, then one data row per task with the id, summary, assignee
/// and status text centered.
pub fn render_task_table(tasks: &Vec<Task>) -> (r: String)
    requires
        forall|i: int| 0 <= i < tasks@.len() ==> tasks@[i].id is Some,
    ensures
        r@ == rendered_table(titles_spec(), rows_spec(tasks@)),
{
    let titles = table_titles();
    let rows = task_rows(tasks);
    format_table(&titles, &rows)
}

/// The control sequence that clears the terminal and homes the cursor,
/// written before the menu and before a listing.
pub fn clear_screen_sequence() -> (r: &'static str)
    ensures
        r@ == clear_screen_spec(),
{
    "\x1B[2J\x1B[1;1H"
}

/// A full-screen terminal clear followed by a cursor-home control sequence.
pub open spec fn clear_screen_spec() -> Seq<char> {
    "\x1B[2J\x1B[1;1H"@
}

} // verus!
