//! The command line of the switch: which command a line gives, and how the answer to
//! it is shown.

use crate::json::{cell_in, read_cell, Cell, CellValue};
use crate::text::{copy_opt, decimal, decimal_text, join2, join3, opt_text, texts};
use crate::words::{split_words, trim, trimmed, words};
use vstd::prelude::*;
use vstd::string::StringSliceAdditionalSpecFns;
use vstd::utf8::encode_utf8;

verus! {

/// What `serde_json::to_string_pretty` writes for a JSON value, or its error.
pub uninterp spec fn pretty_in(value: serde_json::Value) -> Result<Seq<char>, Seq<char>>;

/// `serde_json::to_string_pretty` on a JSON value: the same text, or error, for the
/// same value.
#[verifier::external_body]
fn pretty_json(value: &serde_json::Value) -> (written: Result<String, String>)
    ensures
        match (written, pretty_in(*value)) {
            (Ok(text), Ok(expected)) => text@ == expected,
            (Err(error), Err(expected)) => error@ == expected,
            _ => false,
        },
{
    serde_json::to_string_pretty(value).map_err(|error| error.to_string())
}

/// How a cell is shown.
pub open spec fn shown(cell: Cell) -> Seq<char> {
    match cell {
        Cell::Nothing => Seq::empty(),
        Cell::Text(text) => text,
        Cell::Truth(truth) => if truth {
            "true"@
        } else {
            "false"@
        },
        Cell::Written(text) => text,
    }
}

pub fn render_cell(cell: CellValue) -> (text: String)
    ensures
        text@ == shown(cell@),
{
    match cell {
        CellValue::Nothing => {
            let text = String::new();
            assert(text@ =~= Seq::<char>::empty());
            text
        },
        CellValue::Text(text) => text,
        CellValue::Truth(truth) => if truth {
            "true".to_owned()
        } else {
            "false".to_owned()
        },
        CellValue::Written(text) => text,
    }
}

pub fn render_value(value: &serde_json::Value) -> (text: String)
    ensures
        text@ == shown(cell_in(*value)),
{
    render_cell(read_cell(value))
}

/// How many bytes a text takes.
pub open spec fn byte_len(text: Seq<char>) -> usize {
    encode_utf8(text).len() as usize
}

/// The rows of a table.
pub open spec fn grid(rows: Seq<Vec<String>>) -> Seq<Seq<Seq<char>>> {
    Seq::new(rows.len(), |i: int| texts(rows[i]@))
}

/// How wide a column is after `n` rows: as wide as its widest cell, counted in bytes.
pub open spec fn column_width(
    columns: Seq<Seq<char>>,
    rows: Seq<Seq<Seq<char>>>,
    column: int,
    n: nat,
) -> usize
    decreases n,
{
    if n == 0 {
        byte_len(columns[column])
    } else {
        let before = column_width(columns, rows, column, (n - 1) as nat);
        let row = rows[n - 1];
        if column < row.len() && byte_len(row[column]) > before {
            byte_len(row[column])
        } else {
            before
        }
    }
}

pub open spec fn column_widths(columns: Seq<Seq<char>>, rows: Seq<Seq<Seq<char>>>) -> Seq<usize> {
    Seq::new(columns.len(), |i: int| column_width(columns, rows, i, rows.len()))
}

/// A text filled up with spaces.
pub open spec fn padded(text: Seq<char>, width: usize) -> Seq<char> {
    text + Seq::new((if width > text.len() { width - text.len() } else { 0 }) as nat, |i: int| ' ')
}

pub open spec fn width_at(widths: Seq<usize>, i: int) -> usize {
    if i < widths.len() {
        widths[i]
    } else {
        0
    }
}

/// The first `n` cells of a row, two spaces apart.
pub open spec fn row_line(cells: Seq<Seq<char>>, widths: Seq<usize>, n: nat) -> Seq<char>
    decreases n,
{
    if n == 0 {
        Seq::empty()
    } else {
        let front = row_line(cells, widths, (n - 1) as nat);
        let cell = padded(cells[n - 1], width_at(widths, n - 1));
        if n > 1 {
            front + "  "@ + cell
        } else {
            cell
        }
    }
}

pub open spec fn dashes(width: usize) -> Seq<char> {
    Seq::new(width as nat, |i: int| '-')
}

/// The lines of a table: its head, a rule, and its rows.
pub open spec fn table_lines(columns: Seq<Seq<char>>, rows: Seq<Seq<Seq<char>>>) -> Seq<Seq<char>> {
    let widths = column_widths(columns, rows);
    let rule = Seq::new(widths.len(), |i: int| dashes(widths[i]));
    Seq::new(
        rows.len() + 2,
        |i: int|
            if i == 0 {
                row_line(columns, widths, columns.len())
            } else if i == 1 {
                row_line(rule, widths, rule.len())
            } else {
                row_line(rows[i - 2], widths, rows[i - 2].len())
            },
    )
}

/// How long a line with cells of the given widths is.
pub open spec fn line_len(widths: Seq<usize>, n: nat) -> nat
    decreases n,
{
    if n == 0 {
        0
    } else {
        line_len(widths, (n - 1) as nat) + widths[n - 1] as nat + (if n > 1 {
            2nat
        } else {
            0nat
        })
    }
}

proof fn lemma_char_takes_a_byte(text: Seq<char>)
    ensures
        text.len() <= encode_utf8(text).len(),
    decreases text.len(),
{
    if text.len() > 0 {
        lemma_char_takes_a_byte(text.drop_first());
    }
}

proof fn lemma_width_only_grows(
    columns: Seq<Seq<char>>,
    rows: Seq<Seq<Seq<char>>>,
    column: int,
    m: nat,
    n: nat,
)
    requires
        m <= n,
    ensures
        column_width(columns, rows, column, m) <= column_width(columns, rows, column, n),
    decreases n,
{
    if m < n {
        lemma_width_only_grows(columns, rows, column, m, (n - 1) as nat);
    }
}

proof fn lemma_line_is_full(cells: Seq<Seq<char>>, widths: Seq<usize>, n: nat)
    requires
        n <= cells.len(),
        n <= widths.len(),
        forall|i: int| 0 <= i < n ==> (#[trigger] cells[i]).len() <= widths[i],
    ensures
        row_line(cells, widths, n).len() == line_len(widths, n),
    decreases n,
{
    reveal_strlit("  ");
    if n > 0 {
        lemma_line_is_full(cells, widths, (n - 1) as nat);
        assert(cells[n - 1].len() <= widths[n - 1]);
    }
}

/// The columns of a table stand below each other: where every row has a cell for every
/// column, all lines are equally long.
pub proof fn lemma_table_lines_are_equally_long(columns: Seq<Seq<char>>, rows: Seq<Seq<Seq<char>>>)
    requires
        forall|i: int| 0 <= i < rows.len() ==> (#[trigger] rows[i]).len() == columns.len(),
        forall|i: int| 0 <= i < columns.len() ==> encode_utf8(#[trigger] columns[i]).len() <= usize::MAX,
        forall|i: int, k: int|
            0 <= i < rows.len() && 0 <= k < rows[i].len() ==> encode_utf8(#[trigger] rows[i][k]).len()
                <= usize::MAX,
    ensures
        forall|i: int|
            0 <= i < rows.len() + 2 ==> (#[trigger] table_lines(columns, rows)[i]).len()
                == line_len(column_widths(columns, rows), columns.len()),
{
    let widths = column_widths(columns, rows);
    let rule = Seq::new(widths.len(), |i: int| dashes(widths[i]));
    assert forall|i: int| 0 <= i < columns.len() implies (#[trigger] columns[i]).len()
        <= widths[i] by {
        lemma_char_takes_a_byte(columns[i]);
        lemma_width_only_grows(columns, rows, i, 0, rows.len());
    }
    lemma_line_is_full(columns, widths, columns.len());
    lemma_line_is_full(rule, widths, rule.len());
    assert forall|r: int| 0 <= r < rows.len() implies row_line(
        #[trigger] rows[r],
        widths,
        rows[r].len(),
    ).len() == line_len(widths, columns.len()) by {
        let row = rows[r];
        assert forall|i: int| 0 <= i < row.len() implies (#[trigger] row[i]).len() <= widths[i] by {
            assert(rows[r][i] == row[i]);
            lemma_char_takes_a_byte(row[i]);
            lemma_width_only_grows(columns, rows, i, (r + 1) as nat, rows.len());
        }
        lemma_line_is_full(row, widths, row.len());
    }
    assert forall|i: int| 0 <= i < rows.len() + 2 implies (#[trigger] table_lines(
        columns,
        rows,
    )[i]).len() == line_len(widths, columns.len()) by {
        if i >= 2 {
            assert(row_line(rows[i - 2], widths, rows[i - 2].len()).len() == line_len(
                widths,
                columns.len(),
            ));
        }
    }
}

fn measure(columns: &Vec<String>, rows: &Vec<Vec<String>>) -> (widths: Vec<usize>)
    ensures
        widths@ == column_widths(texts(columns@), grid(rows@)),
{
    let ghost names = texts(columns@);
    let ghost cells = grid(rows@);
    let mut widths: Vec<usize> = Vec::new();
    let mut i: usize = 0;
    while i < columns.len()
        invariant
            i <= columns.len(),
            names == texts(columns@),
            cells == grid(rows@),
            widths@ == Seq::new(i as nat, |k: int| column_width(names, cells, k, cells.len())),
        decreases columns.len() - i,
    {
        let mut width: usize = columns[i].as_str().len();
        let mut n: usize = 0;
        while n < rows.len()
            invariant
                i < columns.len(),
                n <= rows.len(),
                cells == grid(rows@),
                width == column_width(names, cells, i as int, n as nat),
            decreases rows.len() - n,
        {
            let row = &rows[n];
            assert(cells[n as int] == texts(row@));
            if i < row.len() {
                let length: usize = row[i].as_str().len();
                if length > width {
                    width = length;
                }
            }
            n = n + 1;
        }
        widths.push(width);
        i = i + 1;
        assert(widths@ =~= Seq::new(
            i as nat,
            |k: int| column_width(names, cells, k, cells.len()),
        ));
    }
    widths
}

fn pad(text: &str, width: usize) -> (line: String)
    ensures
        line@ == padded(text@, width),
{
    let mut line = text.to_owned();
    let count: usize = text.unicode_len();
    let mut k: usize = count;
    while k < width
        invariant
            count == text@.len(),
            count <= k,
            k <= width || k == count,
            line@ == text@ + Seq::new((k - count) as nat, |i: int| ' '),
        decreases width - k,
    {
        line.push(' ');
        k = k + 1;
        assert(line@ =~= text@ + Seq::new((k - count) as nat, |i: int| ' '));
    }
    line
}

fn render_row(cells: &Vec<String>, widths: &Vec<usize>) -> (line: String)
    ensures
        line@ == row_line(texts(cells@), widths@, cells@.len()),
{
    let mut line = String::new();
    assert(line@ =~= Seq::<char>::empty());
    let mut i: usize = 0;
    while i < cells.len()
        invariant
            i <= cells.len(),
            line@ == row_line(texts(cells@), widths@, i as nat),
        decreases cells.len() - i,
    {
        let width: usize = if i < widths.len() {
            widths[i]
        } else {
            0
        };
        let cell = pad(cells[i].as_str(), width);
        line = if i > 0 {
            join3(line.as_str(), "  ", cell.as_str())
        } else {
            cell
        };
        i = i + 1;
    }
    line
}

fn render_rule(widths: &Vec<usize>) -> (rule: Vec<String>)
    ensures
        texts(rule@) == Seq::new(widths@.len(), |i: int| dashes(widths@[i])),
{
    let mut rule: Vec<String> = Vec::new();
    let mut i: usize = 0;
    while i < widths.len()
        invariant
            i <= widths.len(),
            rule@.len() == i,
            forall|k: int| 0 <= k < i ==> (#[trigger] rule@[k])@ == dashes(widths@[k]),
        decreases widths.len() - i,
    {
        let mut dash = String::new();
        let mut k: usize = 0;
        assert(dash@ =~= dashes(0));
        while k < widths[i]
            invariant
                i < widths.len(),
                k <= widths@[i as int],
                dash@ == dashes(k),
            decreases widths@[i as int] - k,
        {
            dash.push('-');
            k = k + 1;
            assert(dash@ =~= dashes(k));
        }
        rule.push(dash);
        i = i + 1;
    }
    assert(texts(rule@) =~= Seq::new(widths@.len(), |i: int| dashes(widths@[i])));
    rule
}

pub fn render_table(columns: &Vec<String>, rows: &Vec<Vec<String>>) -> (lines: Vec<String>)
    ensures
        texts(lines@) == table_lines(texts(columns@), grid(rows@)),
{
    let widths = measure(columns, rows);
    let mut lines: Vec<String> = Vec::new();
    lines.push(render_row(columns, &widths));
    let rule = render_rule(&widths);
    lines.push(render_row(&rule, &widths));
    let ghost shown = table_lines(texts(columns@), grid(rows@));
    assert(texts(rule@).len() == rule@.len());
    let mut i: usize = 0;
    while i < rows.len()
        invariant
            i <= rows.len(),
            shown == table_lines(texts(columns@), grid(rows@)),
            widths@ == column_widths(texts(columns@), grid(rows@)),
            lines@.len() == i + 2,
            forall|k: int| 0 <= k < i + 2 ==> (#[trigger] lines@[k])@ == shown[k],
        decreases rows.len() - i,
    {
        assert(grid(rows@)[i as int] == texts(rows@[i as int]@));
        lines.push(render_row(&rows[i], &widths));
        i = i + 1;
    }
    assert(texts(lines@) =~= shown);
    lines
}

#[derive(Debug, Clone)]
pub struct CommandError {
    pub code: String,
    pub message: String,
}

/// What a command has to show.
pub enum CommandRenderData {
    TextLines { lines: Vec<String> },
    Table { columns: Vec<String>, rows: Vec<Vec<serde_json::Value>> },
    Kv { items: Vec<(String, serde_json::Value)> },
    Object { value: serde_json::Value },
}

pub struct CommandResult {
    pub data: CommandRenderData,
    pub warnings: Vec<String>,
}

pub struct CommandResponse {
    pub ok: bool,
    pub error: Option<CommandError>,
    pub result: Option<CommandResult>,
    pub prompt: Option<String>,
    pub exit: bool,
}

pub open spec fn shown_row(row: Seq<serde_json::Value>) -> Seq<Seq<char>> {
    Seq::new(row.len(), |i: int| shown(cell_in(row[i])))
}

pub open spec fn shown_rows(rows: Seq<Vec<serde_json::Value>>) -> Seq<Seq<Seq<char>>> {
    Seq::new(rows.len(), |i: int| shown_row(rows[i]@))
}

/// The lines that a command's data is shown as, or why it cannot be.
pub open spec fn data_lines(data: CommandRenderData) -> Result<Seq<Seq<char>>, Seq<char>> {
    match data {
        CommandRenderData::TextLines { lines } => Ok(texts(lines@)),
        CommandRenderData::Table { columns, rows } => Ok(
            table_lines(texts(columns@), shown_rows(rows@)),
        ),
        CommandRenderData::Kv { items } => Ok(
            Seq::new(
                items@.len(),
                |i: int| items@[i].0@ + ": "@ + shown(cell_in(items@[i].1)),
            ),
        ),
        CommandRenderData::Object { value } => match pretty_in(value) {
            Ok(text) => Ok(seq![text]),
            Err(error) => Err(error),
        },
    }
}

fn render_rows(rows: &Vec<Vec<serde_json::Value>>) -> (shown: Vec<Vec<String>>)
    ensures
        grid(shown@) == shown_rows(rows@),
{
    let mut shown: Vec<Vec<String>> = Vec::new();
    let mut i: usize = 0;
    while i < rows.len()
        invariant
            i <= rows.len(),
            shown@.len() == i,
            forall|k: int| 0 <= k < i ==> texts((#[trigger] shown@[k])@) == shown_row(rows@[k]@),
        decreases rows.len() - i,
    {
        let row = &rows[i];
        let mut cells: Vec<String> = Vec::new();
        let mut k: usize = 0;
        while k < row.len()
            invariant
                k <= row.len(),
                cells@.len() == k,
                forall|j: int| 0 <= j < k ==> (#[trigger] cells@[j])@ == shown_row(row@)[j],
            decreases row.len() - k,
        {
            cells.push(render_value(&row[k]));
            k = k + 1;
        }
        assert(texts(cells@) =~= shown_row(row@));
        shown.push(cells);
        i = i + 1;
    }
    assert(grid(shown@) =~= shown_rows(rows@));
    shown
}

fn copy_lines(lines: &Vec<String>) -> (copy: Vec<String>)
    ensures
        copy@ == lines@,
{
    let mut copy: Vec<String> = Vec::new();
    let mut i: usize = 0;
    while i < lines.len()
        invariant
            i <= lines.len(),
            copy@ == lines@.take(i as int),
        decreases lines.len() - i,
    {
        copy.push(lines[i].clone());
        i = i + 1;
        assert(copy@ =~= lines@.take(i as int));
    }
    assert(lines@.take(i as int) =~= lines@);
    copy
}

pub fn render_data(data: &CommandRenderData) -> (rendered: Result<Vec<String>, String>)
    ensures
        match (rendered, data_lines(*data)) {
            (Ok(lines), Ok(expected)) => texts(lines@) == expected,
            (Err(error), Err(expected)) => error@ == expected,
            _ => false,
        },
{
    match data {
        CommandRenderData::TextLines { lines } => Ok(copy_lines(lines)),
        CommandRenderData::Table { columns, rows } => {
            let shown = render_rows(rows);
            Ok(render_table(columns, &shown))
        },
        CommandRenderData::Kv { items } => {
            let ghost expected = data_lines(*data)->Ok_0;
            let mut lines: Vec<String> = Vec::new();
            let mut i: usize = 0;
            while i < items.len()
                invariant
                    i <= items.len(),
                    lines@.len() == i,
                    expected.len() == items@.len(),
                    forall|k: int|
                        0 <= k < items@.len() ==> #[trigger] expected[k] == items@[k].0@ + ": "@
                            + shown(cell_in(items@[k].1)),
                    forall|k: int| 0 <= k < i ==> (#[trigger] lines@[k])@ == expected[k],
                decreases items.len() - i,
            {
                let value = render_value(&items[i].1);
                lines.push(join3(items[i].0.as_str(), ": ", value.as_str()));
                i = i + 1;
            }
            assert(texts(lines@) =~= expected);
            Ok(lines)
        },
        CommandRenderData::Object { value } => match pretty_json(value) {
            Ok(text) => {
                let mut lines: Vec<String> = Vec::new();
                lines.push(text);
                assert(texts(lines@) =~= seq![pretty_in(*value)->Ok_0]);
                Ok(lines)
            },
            Err(error) => Err(error),
        },
    }
}

/// What an answer is shown as.
pub struct Rendered {
    pub lines: Vec<String>,
    pub warnings: Vec<String>,
}

/// Why an answer counts as an error.
pub open spec fn failure_text(response: CommandResponse) -> Seq<char> {
    match response.error {
        Some(error) => error.code@ + ": "@ + error.message@,
        None => "command failed"@,
    }
}

/// Shows an answer: its data and then its warnings, `ok` where there is no data, and an
/// error where the command failed.
pub fn render_response(response: &CommandResponse) -> (rendered: Result<Rendered, String>)
    ensures
        if !response.ok {
            rendered matches Err(text) && text@ == failure_text(*response)
        } else {
            match response.result {
                None => rendered matches Ok(shown) && texts(shown.lines@) == seq!["ok"@]
                    && shown.warnings@.len() == 0,
                Some(result) => match (rendered, data_lines(result.data)) {
                    (Ok(shown), Ok(expected)) => texts(shown.lines@) == expected && shown.warnings@
                        == result.warnings@,
                    (Err(error), Err(expected)) => error@ == expected,
                    _ => false,
                },
            }
        },
{
    if !response.ok {
        return Err(
            match &response.error {
                Some(error) => join3(error.code.as_str(), ": ", error.message.as_str()),
                None => "command failed".to_owned(),
            },
        );
    }
    match &response.result {
        None => {
            let mut lines: Vec<String> = Vec::new();
            lines.push("ok".to_owned());
            assert(texts(lines@) =~= seq!["ok"@]);
            Ok(Rendered { lines, warnings: Vec::new() })
        },
        Some(result) => match render_data(&result.data) {
            Ok(lines) => Ok(Rendered { lines, warnings: copy_lines(&result.warnings) }),
            Err(error) => Err(error),
        },
    }
}

/// The words of the command to run: those of the line that was given, else those that
/// follow the options.
pub fn command_words(execute: &Option<String>, command: &Vec<String>) -> (list: Vec<String>)
    ensures
        match execute {
            Some(line) => texts(list@) == words(line@),
            None => list@ == command@,
        },
{
    match execute {
        Some(line) => split_words(line.as_str()),
        None => copy_lines(command),
    }
}

/// Whether there is no command, so that commands are asked for.
pub fn is_interactive(execute: &Option<String>, command: &Vec<String>, json: bool) -> (interactive: bool)
    ensures
        interactive == (execute is None && command@.len() == 0 && !json),
{
    execute.is_none() && command.len() == 0 && !json
}

/// The command on a line, where there is one.
pub fn read_command(line: &str) -> (command: Option<String>)
    ensures
        opt_text(command) == (if trimmed(line@).len() == 0 {
            None
        } else {
            Some(trimmed(line@))
        }),
{
    let command = trim(line);
    if command.as_str().unicode_len() == 0 {
        None
    } else {
        Some(command)
    }
}

/// The prompt after an answer.
pub fn next_prompt(prompt: String, response: &CommandResponse) -> (next: String)
    ensures
        next == (match response.prompt {
            Some(text) => text,
            None => prompt,
        }),
{
    match copy_opt(&response.prompt) {
        Some(text) => text,
        None => prompt,
    }
}

/// How a request is named.
pub fn request_id(now_ms: u64) -> (id: String)
    ensures
        id@ == "cli-"@ + decimal(now_ms as nat),
{
    join2("cli-", decimal_text(now_ms).as_str())
}

} // verus!
