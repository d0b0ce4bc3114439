//! Laying out a table of text in columns.
//!
//! Every column is as wide as its widest cell, measured in bytes. A cell is
//! padded with spaces to the width of its column and followed by one space;
//! a row that is shorter than the table is wide is filled up with spaces.

use vstd::prelude::*;
use vstd::string::StringExecFns;
use crate::text::texts;

verus! {

/// The length of a text in bytes.
pub open spec fn byte_len(text: Seq<char>) -> nat {
    vstd::utf8::encode_utf8(text).len()
}

/// A table as contracts see it: rows of cells of characters.
pub open spec fn table_view(table: Seq<Vec<String>>) -> Seq<Seq<Seq<char>>> {
    table.map_values(|row: Vec<String>| texts(row@))
}

/// How many columns a table has: as many as its longest row has cells.
pub open spec fn column_count(table: Seq<Seq<Seq<char>>>) -> nat
    decreases table.len(),
{
    if table.len() == 0 {
        0
    } else if table.last().len() > column_count(table.drop_last()) {
        table.last().len()
    } else {
        column_count(table.drop_last())
    }
}

/// The width of column `i`: the byte length of its longest cell.
pub open spec fn column_width(table: Seq<Seq<Seq<char>>>, i: int) -> nat
    decreases table.len(),
{
    if table.len() == 0 {
        0
    } else if i < table.last().len() && byte_len(table.last()[i]) > column_width(
        table.drop_last(),
        i,
    ) {
        byte_len(table.last()[i])
    } else {
        column_width(table.drop_last(), i)
    }
}

/// The widths of the columns of a table.
pub open spec fn column_widths(table: Seq<Seq<Seq<char>>>) -> Seq<int> {
    Seq::new(column_count(table), |i: int| column_width(table, i) as int)
}

/// `n` spaces.
pub open spec fn spaces(n: int) -> Seq<char> {
    Seq::new(
        if n > 0 {
            n as nat
        } else {
            0nat
        },
        |i: int| ' ',
    )
}

/// What column `i` of a row looks like in a table with these widths.
pub open spec fn cell(row: Seq<Seq<char>>, widths: Seq<int>, i: int) -> Seq<char> {
    if i < row.len() {
        row[i] + spaces(widths[i] - byte_len(row[i])) + seq![' ']
    } else {
        spaces(widths[i])
    }
}

/// The first `n` columns of a row, laid out.
pub open spec fn laid_out(row: Seq<Seq<char>>, widths: Seq<int>, n: int) -> Seq<char>
    decreases n,
{
    if n <= 0 {
        Seq::empty()
    } else {
        laid_out(row, widths, n - 1) + cell(row, widths, n - 1)
    }
}

/// The line of a row in a table with these widths.
pub open spec fn line_of(row: Seq<Seq<char>>, widths: Seq<int>) -> Seq<char> {
    laid_out(row, widths, widths.len() as int)
}

/// No cell is wider than its column, and some cell of each column fills it.
pub proof fn lemma_column_width_is_max(table: Seq<Seq<Seq<char>>>, i: int)
    requires
        0 <= i,
    ensures
        forall|r: int|
            0 <= r < table.len() && i < (#[trigger] table[r]).len() ==> byte_len(table[r][i])
                <= column_width(table, i),
        i < column_count(table) ==> exists|r: int|
            0 <= r < table.len() && i < (#[trigger] table[r]).len() && byte_len(table[r][i])
                == column_width(table, i),
        forall|r: int| 0 <= r < table.len() ==> (#[trigger] table[r]).len() <= column_count(table),
    decreases table.len(),
{
    if table.len() > 0 {
        let earlier = table.drop_last();
        let last = table.len() - 1;
        lemma_column_width_is_max(earlier, i);
        assert forall|r: int| 0 <= r < table.len() && i < (#[trigger] table[r]).len() implies byte_len(
            table[r][i],
        ) <= column_width(table, i) by {
            if r < last {
                assert(earlier[r] == table[r]);
            }
        }
        assert forall|r: int| 0 <= r < table.len() implies (#[trigger] table[r]).len()
            <= column_count(table) by {
            if r < last {
                assert(earlier[r] == table[r]);
            }
        }
        if i < column_count(table) {
            if i < table.last().len() && byte_len(table.last()[i]) > column_width(earlier, i) {
                assert(i < table[last].len() && byte_len(table[last][i]) == column_width(table, i));
            } else if i < column_count(earlier) {
                let r = choose|r: int|
                    0 <= r < earlier.len() && i < (#[trigger] earlier[r]).len() && byte_len(
                        earlier[r][i],
                    ) == column_width(earlier, i);
                assert(earlier[r] == table[r]);
                assert(i < table[r].len() && byte_len(table[r][i]) == column_width(table, i));
            } else {
                lemma_no_cell_no_width(earlier, i);
                assert(i < table[last].len() && byte_len(table[last][i]) == column_width(table, i));
            }
        }
    }
}

/// A column beyond the last one has no width.
pub proof fn lemma_no_cell_no_width(table: Seq<Seq<Seq<char>>>, i: int)
    requires
        i >= column_count(table),
    ensures
        column_width(table, i) == 0,
    decreases table.len(),
{
    if table.len() > 0 {
        lemma_no_cell_no_width(table.drop_last(), i);
    }
}

/// Measures the columns of a table.
pub fn measure_columns(table: &Vec<Vec<String>>) -> (widths: Vec<usize>)
    ensures
        widths@.map_values(|w: usize| w as int) == column_widths(table_view(table@)),
{
    let ghost view = table_view(table@);
    let mut max_lengths: Vec<usize> = Vec::new();
    let mut r: usize = 0;
    assert(view.take(0) =~= Seq::empty());
    while r < table.len()
        invariant
            r <= table.len(),
            view == table_view(table@),
            max_lengths.len() == column_count(view.take(r as int)),
            forall|i: int|
                0 <= i < max_lengths.len() ==> max_lengths[i] == column_width(
                    view.take(r as int),
                    i,
                ),
        decreases table.len() - r,
    {
        let row = &table[r];
        let ghost earlier = view.take(r as int);
        let ghost upto = view.take(r + 1);
        assert(upto.drop_last() =~= earlier);
        assert(upto.last() == texts(row@));
        let mut c: usize = 0;
        while c < row.len()
            invariant
                c <= row.len(),
                r < table.len(),
                row == &table[r as int],
                view == table_view(table@),
                earlier == view.take(r as int),
                upto == view.take(r + 1),
                upto.drop_last() == earlier,
                upto.last() == texts(row@),
                max_lengths.len() == if c > column_count(earlier) {
                    c as nat
                } else {
                    column_count(earlier)
                },
                forall|i: int| 0 <= i < c ==> max_lengths[i] == column_width(upto, i),
                forall|i: int|
                    c <= i < max_lengths.len() ==> max_lengths[i] == column_width(earlier, i),
            decreases row.len() - c,
        {
            let length = row[c].as_str().as_bytes().len();
            assert(texts(row@)[c as int] == row@[c as int]@);
            assert(length == byte_len(texts(row@)[c as int]));
            assert(upto.len() > 0);
            assert(c < upto.last().len());
            assert(column_width(upto, c as int) == if length > column_width(earlier, c as int) {
                length as nat
            } else {
                column_width(earlier, c as int)
            });
            if c < max_lengths.len() {
                assert(max_lengths[c as int] == column_width(earlier, c as int));
                if length > max_lengths[c] {
                    max_lengths.set(c, length);
                }
            } else {
                proof {
                    lemma_no_cell_no_width(earlier, c as int);
                }
                max_lengths.push(length);
            }
            c += 1;
        }
        assert(upto.last().len() == row.len());
        assert(upto.len() > 0);
        assert forall|i: int| 0 <= i < max_lengths.len() implies max_lengths[i] == column_width(
            upto,
            i,
        ) by {
            if i >= c {
                assert(max_lengths[i] == column_width(earlier, i));
                assert(column_width(upto, i) == column_width(earlier, i));
            }
        }
        r += 1;
    }
    assert(view.take(r as int) =~= view);
    assert(max_lengths@.map_values(|w: usize| w as int) =~= column_widths(view));
    max_lengths
}

/// Appends `n` spaces to `line`.
fn pad(line: &mut String, n: usize)
    ensures
        final(line)@ == old(line)@ + spaces(n as int),
{
    proof {
        reveal_strlit(" ");
    }
    let mut i: usize = 0;
    assert(line@ =~= old(line)@ + spaces(0));
    while i < n
        invariant
            i <= n,
            line@ == old(line)@ + spaces(i as int),
            " "@ == seq![' '],
        decreases n - i,
    {
        line.append(" ");
        assert(line@ =~= old(line)@ + spaces(i + 1));
        i += 1;
    }
}

/// Lays out one row in a table with these column widths.
///
/// A cell that is longer than its column is wide is not padded.
pub fn format_row(row: &Vec<String>, widths: &Vec<usize>) -> (line: String)
    ensures
        line@ == line_of(texts(row@), widths@.map_values(|w: usize| w as int)),
{
    let ghost cells = texts(row@);
    let ghost columns = widths@.map_values(|w: usize| w as int);
    let mut col_string = String::from_str("");
    proof {
        reveal_strlit("");
        reveal_strlit(" ");
    }
    assert(col_string@ =~= laid_out(cells, columns, 0));
    let mut i: usize = 0;
    while i < widths.len()
        invariant
            i <= widths.len(),
            cells == texts(row@),
            columns == widths@.map_values(|w: usize| w as int),
            col_string@ == laid_out(cells, columns, i as int),
            " "@ == seq![' '],
        decreases widths.len() - i,
    {
        let len = widths[i];
        let ghost before = col_string@;
        if i < row.len() {
            let value = row[i].as_str();
            let used = value.as_bytes().len();
            assert(cells[i as int] == row@[i as int]@);
            assert(used == byte_len(cells[i as int]));
            assert(columns[i as int] == len);
            col_string.append(value);
            if used < len {
                pad(&mut col_string, len - used);
            } else {
                assert(col_string@ =~= col_string@ + spaces(len - used));
            }
            col_string.append(" ");
            assert(col_string@ =~= before + cell(cells, columns, i as int));
        } else {
            pad(&mut col_string, len);
            assert(columns[i as int] == len);
            assert(cells.len() == row.len());
            assert(col_string@ =~= before + cell(cells, columns, i as int));
        }
        i += 1;
    }
    col_string
}

/// Lays out a table: one line per row, the columns as wide as their widest
/// cell.
pub fn format_table(table: &Vec<Vec<String>>) -> (lines: Vec<String>)
    ensures
        lines.len() == table.len(),
        forall|r: int|
            0 <= r < table.len() ==> (#[trigger] lines[r])@ == line_of(
                table_view(table@)[r],
                column_widths(table_view(table@)),
            ),
{
    let max_lengths = measure_columns(table);
    let mut lines: Vec<String> = Vec::new();
    let mut r: usize = 0;
    while r < table.len()
        invariant
            r <= table.len(),
            lines.len() == r,
            max_lengths@.map_values(|w: usize| w as int) == column_widths(table_view(table@)),
            forall|k: int|
                0 <= k < r ==> (#[trigger] lines[k])@ == line_of(
                    table_view(table@)[k],
                    column_widths(table_view(table@)),
                ),
        decreases table.len() - r,
    {
        let line = format_row(&table[r], &max_lengths);
        lines.push(line);
        r += 1;
    }
    lines
}

} // verus!
