//! What holds of what is reported about the machine, and of the tables in which a
//! command shows its answer.

use crate::cli::{
    byte_len, column_width, column_widths, dashes, data_lines, failure_text, padded, row_line, shown,
    shown_row, table_lines, width_at, CommandRenderData, CommandResponse,
};
use crate::json::{cell_in, Cell};
use crate::system_metrics::{
    cpu_numbers, kib_bytes, line_from, load_between, memory_named, memory_of, named_number, numbers,
    sum, times_of, CpuTimes,
};
use crate::text::{begins_with, parsed_u64, split_at_first};
use crate::words::{lines, words};
use vstd::prelude::*;
use vstd::utf8::encode_utf8;

verus! {

// ---------------------------------------------------------------------------
// The load.

/// The load is the part of the time that was not idle, while both clocks run on and the
/// idle one no faster; time that runs backwards is no time.
pub proof fn lemma_load_is_what_was_not_idle(previous: CpuTimes, current: CpuTimes)
    ensures
        previous.total <= current.total ==> load_between(previous, current).total == current.total
            - previous.total,
        current.total < previous.total ==> load_between(previous, current).total == 0
            && load_between(previous, current).busy == 0,
        previous.total <= current.total && previous.idle <= current.idle && current.idle
            - previous.idle <= current.total - previous.total ==> load_between(
            previous,
            current,
        ).busy + (current.idle - previous.idle) == current.total - previous.total,
        previous.total <= current.total && current.idle < previous.idle ==> load_between(
            previous,
            current,
        ).busy == current.total - previous.total,
        previous.idle <= current.idle && current.idle - previous.idle > current.total
            - previous.total ==> load_between(previous, current).busy == 0,
{
}

/// A line is found by how it begins, and the first such line counts.
pub proof fn lemma_first_line_counts(all: Seq<Seq<char>>, prefix: Seq<char>, from: nat) -> (at: int)
    ensures
        line_from(all, prefix, from) matches Some(line) ==> {
            &&& from <= at < all.len()
            &&& all[at] == line && begins_with(line, prefix)
            &&& forall|k: int| from <= k < at ==> !begins_with(#[trigger] all[k], prefix)
        },
        line_from(all, prefix, from) is None <==> forall|k: int|
            from <= k < all.len() ==> !begins_with(#[trigger] all[k], prefix),
    decreases all.len() - from,
{
    if from >= all.len() || begins_with(all[from as int], prefix) {
        from as int
    } else {
        lemma_first_line_counts(all, prefix, from + 1)
    }
}

/// The numbers of a line are there where every word is a number, and then each is the
/// number of its word.
pub proof fn lemma_every_word_is_a_number(list: Seq<Seq<char>>)
    ensures
        numbers(list) is Some <==> forall|k: int|
            0 <= k < list.len() ==> parsed_u64(#[trigger] list[k]) is Some,
        numbers(list) matches Some(values) ==> values.len() == list.len() && forall|k: int|
            0 <= k < list.len() ==> parsed_u64(#[trigger] list[k]) == Some(values[k]),
    decreases list.len(),
{
    if list.len() > 0 {
        let front = list.drop_last();
        lemma_every_word_is_a_number(front);
        assert(forall|k: int| 0 <= k < front.len() ==> front[k] == list[k]);
        assert(list.last() == list[list.len() - 1]);
        if numbers(list) is None && parsed_u64(list.last()) is Some {
            let k = choose|k: int| 0 <= k < front.len() && parsed_u64(#[trigger] front[k]) is None;
            assert(parsed_u64(list[k]) is None);
        }
    }
}

/// A sum is the sum of its parts.
pub proof fn lemma_sum_of_parts(a: Seq<u64>, b: Seq<u64>, value: u64)
    ensures
        sum(Seq::<u64>::empty()) == 0,
        sum(seq![value]) == value,
        sum(a + b) == sum(a) + sum(b),
    decreases b.len(),
{
    assert(seq![value].drop_last() =~= Seq::<u64>::empty());
    if b.len() == 0 {
        assert(a + b =~= a);
    } else {
        assert((a + b).drop_last() =~= a + b.drop_last());
        lemma_sum_of_parts(a, b.drop_last(), value);
    }
}

/// The time of the processors is all that is counted, and the fourth and fifth number of
/// it are idle; with fewer than four there is nothing to tell.
pub proof fn lemma_fourth_and_fifth_are_idle(values: Seq<u64>)
    ensures
        times_of(values) is None <==> values.len() < 4,
        times_of(values) matches Some(times) ==> {
            &&& sum(values) <= u64::MAX ==> times.total == sum(values)
            &&& values.len() == 4 ==> times.idle == values[3]
            &&& values.len() >= 5 && values[3] + values[4] <= u64::MAX ==> times.idle == values[3]
                + values[4]
            &&& values.len() >= 5 && values[3] + values[4] > u64::MAX ==> times.idle == u64::MAX
        },
{
}

/// The numbers stand behind the word `cpu`, on the first line that begins with it and a
/// space.
pub proof fn lemma_numbers_stand_behind_the_name(input: Seq<char>)
    ensures
        line_from(lines(input), "cpu "@, 0) is None ==> cpu_numbers(input) is None,
        line_from(lines(input), "cpu "@, 0) matches Some(line) ==> (words(line).len() > 0
            ==> cpu_numbers(input) == numbers(words(line).skip(1))),
{
    if line_from(lines(input), "cpu "@, 0) is Some {
        let line = line_from(lines(input), "cpu "@, 0)->Some_0;
        if words(line).len() > 0 {
            assert(words(line).drop_first() =~= words(line).skip(1));
        }
    }
}

// ---------------------------------------------------------------------------
// The memory.

/// A line of the memory table names a number: the name stands before the colon, and the
/// number is the first word behind it.
pub proof fn lemma_name_colon_number(line: Seq<char>, name: Seq<char>, value: u64)
    ensures
        named_number(line) == Some((name, value)) <==> (split_at_first(line, ':') matches Some(
            parts,
        ) && parts.0 == name && words(parts.1).len() > 0 && parsed_u64(words(parts.1)[0]) == Some(
            value,
        )),
{
}

/// One malformed line makes the table useless. Otherwise the total and what is available
/// are what the last line of either name says, and are missing where there is none.
pub proof fn lemma_last_line_of_a_name_counts(all: Seq<Seq<char>>, n: nat) -> (at: (int, int))
    requires
        n <= all.len(),
    ensures
        memory_named(all, n) is Some <==> forall|k: int|
            0 <= k < n ==> named_number(#[trigger] all[k]) is Some,
        memory_named(all, n) matches Some((total, available)) ==> {
            &&& total matches Some(value) ==> 0 <= at.0 < n && named_number(all[at.0]) == Some(
                ("MemTotal"@, value),
            )
            &&& total is None ==> at.0 == -1
            &&& forall|k: int|
                at.0 < k < n ==> (named_number(#[trigger] all[k])->Some_0).0 != "MemTotal"@
            &&& available matches Some(value) ==> 0 <= at.1 < n && named_number(all[at.1]) == Some(
                ("MemAvailable"@, value),
            )
            &&& available is None ==> at.1 == -1
            &&& forall|k: int|
                at.1 < k < n ==> (named_number(#[trigger] all[k])->Some_0).0 != "MemAvailable"@
        },
    decreases n,
{
    reveal_strlit("MemTotal");
    reveal_strlit("MemAvailable");
    assert("MemTotal"@.len() == 8 && "MemAvailable"@.len() == 12);
    if n == 0 {
        (-1, -1)
    } else {
        let before = lemma_last_line_of_a_name_counts(all, (n - 1) as nat);
        let last = named_number(all[n - 1]);
        if last is Some && (last->Some_0).0 == "MemTotal"@ {
            (n - 1, before.1)
        } else if last is Some && (last->Some_0).0 == "MemAvailable"@ {
            (before.0, n - 1)
        } else {
            before
        }
    }
}

/// A kibibyte is 1024 bytes, as far as a number holds them; what is in use is what there
/// is less what is available.
pub proof fn lemma_memory_in_use(total: u64, available: u64)
    ensures
        total * 1024 <= u64::MAX ==> kib_bytes(total) == total * 1024,
        total * 1024 > u64::MAX ==> kib_bytes(total) == u64::MAX,
        memory_of(Some((Some(total), Some(available)))) matches Some((used, all)) && all
            == kib_bytes(total) && used == (if available <= total {
            kib_bytes(total) - kib_bytes(available)
        } else {
            0
        }),
        memory_of(None) is None,
        memory_of(Some((None, Some(available)))) is None,
        memory_of(Some((Some(total), None))) is None,
{
}

// ---------------------------------------------------------------------------
// Tables.

/// A cell is shown as its text; nothing is shown of nothing.
pub proof fn lemma_cells_are_shown(text: Seq<char>)
    ensures
        shown(Cell::Nothing).len() == 0,
        shown(Cell::Text(text)) == text,
        shown(Cell::Written(text)) == text,
        shown(Cell::Truth(true)) == "true"@,
        shown(Cell::Truth(false)) == "false"@,
{
}

/// A column is as wide as the longest text in it, its heading among them, counted in
/// bytes: none is longer, and one is as long.
pub proof fn lemma_column_fits_its_cells(
    columns: Seq<Seq<char>>,
    rows: Seq<Seq<Seq<char>>>,
    column: int,
    n: nat,
) -> (widest: int)
    requires
        0 <= column < columns.len(),
        n <= rows.len(),
    ensures
        column_width(columns, rows, column, n) >= encode_utf8(columns[column]).len() as usize,
        forall|r: int|
            0 <= r < n && column < (#[trigger] rows[r]).len() ==> column_width(
                columns,
                rows,
                column,
                n,
            ) >= encode_utf8(rows[r][column]).len() as usize,
        widest == -1 ==> column_width(columns, rows, column, n) == encode_utf8(
            columns[column],
        ).len() as usize,
        widest != -1 ==> 0 <= widest < n && column < rows[widest].len() && column_width(
            columns,
            rows,
            column,
            n,
        ) == encode_utf8(rows[widest][column]).len() as usize,
    decreases n,
{
    if n == 0 {
        -1
    } else {
        let before = lemma_column_fits_its_cells(columns, rows, column, (n - 1) as nat);
        let row = rows[n - 1];
        if column < row.len() && byte_len(row[column]) > column_width(
            columns,
            rows,
            column,
            (n - 1) as nat,
        ) {
            n - 1
        } else {
            before
        }
    }
}

/// A text is filled up with spaces behind it; one that is longer stays as it is.
pub proof fn lemma_text_is_filled_up(text: Seq<char>, width: usize, k: int)
    ensures
        begins_with(padded(text, width), text),
        text.len() <= width ==> padded(text, width).len() == width,
        text.len() > width ==> padded(text, width) == text,
        text.len() <= k < width ==> padded(text, width)[k] == ' ',
{
    assert(padded(text, width).take(text.len() as int) =~= text);
    if text.len() > width {
        assert(padded(text, width) =~= text);
    }
}

/// The cells of a row stand in their order, two spaces apart, each filled up to the
/// width of its column; a cell beyond the columns is not filled up.
pub proof fn lemma_cells_stand_two_spaces_apart(
    cells: Seq<Seq<char>>,
    widths: Seq<usize>,
    cell: Seq<char>,
)
    ensures
        row_line(cells, widths, 0).len() == 0,
        cells.len() == 0 && widths.len() > 0 ==> row_line(cells.push(cell), widths, 1) == padded(
            cell,
            widths[0],
        ),
        cells.len() > 0 && cells.len() < widths.len() ==> row_line(
            cells.push(cell),
            widths,
            cells.len() + 1,
        ) == row_line(cells, widths, cells.len()) + "  "@ + padded(cell, widths[cells.len() as int]),
        cells.len() > 0 && cells.len() >= widths.len() ==> row_line(
            cells.push(cell),
            widths,
            cells.len() + 1,
        ) == row_line(cells, widths, cells.len()) + "  "@ + cell,
{
    lemma_row_reads_its_cells(cells, cells.push(cell), widths, cells.len());
    assert(padded(cell, 0) =~= cell);
    assert(width_at(widths, cells.len() as int) == if cells.len() < widths.len() {
        widths[cells.len() as int]
    } else {
        0
    });
}

proof fn lemma_row_reads_its_cells(
    cells: Seq<Seq<char>>,
    more: Seq<Seq<char>>,
    widths: Seq<usize>,
    n: nat,
)
    requires
        n <= cells.len(),
        n <= more.len(),
        forall|i: int| 0 <= i < n ==> cells[i] == more[i],
    ensures
        row_line(cells, widths, n) == row_line(more, widths, n),
    decreases n,
{
    if n > 0 {
        lemma_row_reads_its_cells(cells, more, widths, (n - 1) as nat);
    }
}

/// A table is its headings, a rule of dashes as wide as each column, and then its rows in
/// their order.
pub proof fn lemma_table_is_head_rule_and_rows(
    columns: Seq<Seq<char>>,
    rows: Seq<Seq<Seq<char>>>,
    i: int,
)
    requires
        0 <= i < rows.len(),
    ensures
        ({
            let widths = column_widths(columns, rows);
            let lines = table_lines(columns, rows);
            &&& widths.len() == columns.len()
            &&& forall|c: int|
                0 <= c < columns.len() ==> #[trigger] widths[c] == column_width(
                    columns,
                    rows,
                    c,
                    rows.len(),
                )
            &&& lines.len() == rows.len() + 2
            &&& lines[0] == row_line(columns, widths, columns.len())
            &&& lines[1] == row_line(
                Seq::new(columns.len(), |c: int| dashes(widths[c])),
                widths,
                columns.len(),
            )
            &&& lines[i + 2] == row_line(rows[i], widths, rows[i].len())
        }),
{
    let widths = column_widths(columns, rows);
    assert(Seq::new(columns.len(), |c: int| dashes(widths[c])) =~= Seq::new(
        widths.len(),
        |c: int| dashes(widths[c]),
    ));
}

/// A rule is made of dashes.
pub proof fn lemma_rule_is_dashes(width: usize, k: int)
    ensures
        dashes(width).len() == width,
        0 <= k < width ==> dashes(width)[k] == '-',
{
}

/// Data is shown line by line: texts as they are, a table as a table, items as their
/// name, a colon and their value.
pub proof fn lemma_data_is_shown_in_lines(data: CommandRenderData, i: int)
    ensures
        data matches CommandRenderData::TextLines { lines } ==> (data_lines(data) matches Ok(out)
            && out.len() == lines@.len() && (0 <= i < lines@.len() ==> out[i] == lines@[i]@)),
        data matches CommandRenderData::Kv { items } ==> (data_lines(data) matches Ok(out)
            && out.len() == items@.len() && (0 <= i < items@.len() ==> out[i] == items@[i].0@ + ": "@
            + shown(cell_in(items@[i].1)))),
        data matches CommandRenderData::Table { columns, rows } ==> (data_lines(data) matches Ok(
            out,
        ) && out.len() == rows@.len() + 2),
        data_lines(data) is Err ==> data is Object,
{
}

/// A row of a table shows its values one by one.
pub proof fn lemma_row_shows_its_values(row: Seq<serde_json::Value>, i: int)
    ensures
        shown_row(row).len() == row.len(),
        0 <= i < row.len() ==> shown_row(row)[i] == shown(cell_in(row[i])),
{
}

/// A failure is told by its code and its message, or in general where there is neither.
pub proof fn lemma_failure_is_told(response: CommandResponse)
    ensures
        response.error matches Some(error) ==> failure_text(response) == error.code@ + ": "@
            + error.message@,
        response.error is None ==> failure_text(response) == "command failed"@,
{
}

} // verus!
