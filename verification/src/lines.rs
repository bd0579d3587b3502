//! The lines of a sheet that no die decides: column numbers, the top edge, and the slanted
//! sides of the hexes.
//!
//! Every line starts with a margin of four characters, where the middle line of a row holds
//! its number. To the right of it a line is a run of cells, one for each pair of columns, all
//! of them as wide as two horizontal and two diagonal edges.

use crate::geometry::{hexes_across, Geometry, GridGeometry};
use crate::text::{
    flush_left, flush_right, is_sheet_text, lemma_sheet_text_joined, lemma_two_digits_sheet_text,
    push_char, push_flush_left, push_flush_right, push_run, push_two_digits, run, two_digits,
};
use vstd::prelude::*;

verus! {

/// The kinds of line that are drawn without dice.
pub enum Plain {
    /// The numbers of the columns.
    Header,
    /// The upper edges of the hexes of the first row.
    TopEdge,
    /// Upper slants of a row, `step` lines below their top; `first` and `last` tell the first
    /// row of the sheet and the closing row beneath the last one.
    Upper { step: int, first: bool, last: bool },
    /// Lower slants of a row, `step` lines below the middle.
    Lower { step: int },
}

/// The margin to the left of every line.
pub open spec fn margin() -> Seq<char> {
    run(' ', 4)
}

/// The `i`-th cell of a plain line, counted from 0.
pub open spec fn plain_cell(g: Geometry, kind: Plain, i: int) -> Seq<char> {
    match kind {
        Plain::Header => if i == 0 {
            run(' ', g.diagonal + (g.horizontal - 2) / 2) + two_digits(1)
        } else {
            run(' ', g.horizontal - 2 + g.diagonal) + two_digits((i + 1) as nat)
        },
        Plain::TopEdge => run(' ', g.diagonal) + run('_', g.horizontal) + run(' ', g.diagonal)
            + run(' ', g.horizontal),
        Plain::Upper { step, first, last } => flush_right(
            if i == 0 && last {
                ' '
            } else {
                '/'
            },
            g.diagonal - step,
        ) + run(' ', g.horizontal + 2 * step) + flush_left('\\', g.diagonal - step) + run(
            ' ',
            g.horizontal,
        ),
        Plain::Lower { step } => flush_right('\\', step + 1) + run(
            ' ',
            g.horizontal + 2 * (g.diagonal - step - 1),
        ) + seq!['/'] + run(' ', g.horizontal + step),
    }
}

/// The first `count` cells of a plain line, one after the other.
pub open spec fn plain_cells(g: Geometry, kind: Plain, count: nat) -> Seq<char>
    decreases count,
{
    if count == 0 {
        Seq::empty()
    } else {
        plain_cells(g, kind, (count - 1) as nat) + plain_cell(g, kind, count - 1)
    }
}

/// The line of column numbers: one two-digit number above each column.
pub open spec fn column_headers(g: Geometry) -> Seq<char> {
    margin() + plain_cells(g, Plain::Header, g.cols as nat)
}

/// The line of upper edges above the first row.
pub open spec fn very_top_edge(g: Geometry) -> Seq<char> {
    margin() + plain_cells(g, Plain::TopEdge, hexes_across(g))
}

/// A line of upper slants. Below the first row it ends in the slant that closes the hex to
/// its right; on the closing row it starts with a blank in place of a slant.
pub open spec fn top_hex_halves(g: Geometry, step: int, first: bool, last: bool) -> Seq<char> {
    margin() + plain_cells(g, Plain::Upper { step, first, last }, hexes_across(g)) + (if first {
        Seq::empty()
    } else {
        run(' ', g.diagonal - step - 1).push('/')
    })
}

/// A line of lower slants, ending in the slant that closes the last hex.
pub open spec fn bottom_hex_halves(g: Geometry, step: int) -> Seq<char> {
    margin() + plain_cells(g, Plain::Lower { step }, hexes_across(g)) + flush_right(
        '\\',
        step + 1,
    )
}

/// Every cell of a plain line is made of sheet characters.
pub proof fn lemma_plain_cell_text(g: Geometry, kind: Plain, i: int)
    ensures
        is_sheet_text(plain_cell(g, kind, i)),
{
    match kind {
        Plain::Header => {
            lemma_two_digits_sheet_text(1);
            lemma_two_digits_sheet_text((i + 1) as nat);
            lemma_sheet_text_joined(run(' ', g.diagonal + (g.horizontal - 2) / 2), two_digits(1));
            lemma_sheet_text_joined(
                run(' ', g.horizontal - 2 + g.diagonal),
                two_digits((i + 1) as nat),
            );
        },
        Plain::TopEdge => {},
        Plain::Upper { step, first, last } => {},
        Plain::Lower { step } => {},
    }
}

/// Every run of cells of a plain line is made of sheet characters.
pub proof fn lemma_plain_cells_text(g: Geometry, kind: Plain, count: nat)
    ensures
        is_sheet_text(plain_cells(g, kind, count)),
    decreases count,
{
    if count > 0 {
        lemma_plain_cells_text(g, kind, (count - 1) as nat);
        lemma_plain_cell_text(g, kind, count - 1);
        lemma_sheet_text_joined(
            plain_cells(g, kind, (count - 1) as nat),
            plain_cell(g, kind, count - 1),
        );
    }
}

/// The lines that no die decides hold sheet characters only.
pub proof fn lemma_plain_lines_text(g: Geometry, step: int, first: bool, last: bool)
    ensures
        is_sheet_text(column_headers(g)),
        is_sheet_text(very_top_edge(g)),
        is_sheet_text(top_hex_halves(g, step, first, last)),
        is_sheet_text(bottom_hex_halves(g, step)),
{
    lemma_plain_cells_text(g, Plain::Header, g.cols as nat);
    lemma_sheet_text_joined(margin(), plain_cells(g, Plain::Header, g.cols as nat));
    lemma_plain_cells_text(g, Plain::TopEdge, hexes_across(g));
    lemma_sheet_text_joined(margin(), plain_cells(g, Plain::TopEdge, hexes_across(g)));
    let upper = Plain::Upper { step, first, last };
    lemma_plain_cells_text(g, upper, hexes_across(g));
    lemma_sheet_text_joined(margin(), plain_cells(g, upper, hexes_across(g)));
    lemma_sheet_text_joined(
        margin() + plain_cells(g, upper, hexes_across(g)),
        if first {
            Seq::empty()
        } else {
            run(' ', g.diagonal - step - 1).push('/')
        },
    );
    let lower = Plain::Lower { step };
    lemma_plain_cells_text(g, lower, hexes_across(g));
    lemma_sheet_text_joined(margin(), plain_cells(g, lower, hexes_across(g)));
    lemma_sheet_text_joined(
        margin() + plain_cells(g, lower, hexes_across(g)),
        flush_right('\\', step + 1),
    );
}

/// Draws the line of column numbers.
pub fn draw_column_headers(geometry: &GridGeometry) -> (line: String)
    ensures
        line@ == column_headers(geometry@),
{
    let cols = geometry.cols();
    let diagonal = geometry.diagonal();
    let horizontal = geometry.horizontal();
    let ghost g = geometry@;
    let mut line = String::new();
    push_run(&mut line, ' ', 4);
    push_run(&mut line, ' ', diagonal + (horizontal - 2) / 2);
    push_two_digits(&mut line, 1);
    assert(line@ =~= margin() + plain_cells(g, Plain::Header, 1)) by {
        assert(plain_cells(g, Plain::Header, 0) =~= Seq::<char>::empty());
    }
    let mut done: usize = 1;
    while done < cols
        invariant
            1 <= done <= cols,
            g == geometry@,
            cols == g.cols,
            diagonal == g.diagonal,
            horizontal == g.horizontal,
            horizontal >= 2,
            horizontal + 2 * diagonal <= usize::MAX,
            line@ == margin() + plain_cells(g, Plain::Header, done as nat),
        decreases cols - done,
    {
        let ghost before = line@;
        push_run(&mut line, ' ', horizontal - 2 + diagonal);
        push_two_digits(&mut line, done + 1);
        assert(line@ =~= before + plain_cell(g, Plain::Header, done as int));
        done = done + 1;
        assert(line@ =~= margin() + plain_cells(g, Plain::Header, done as nat));
    }
    line
}

/// Draws the line of upper edges above the first row.
pub fn draw_very_top_edge(geometry: &GridGeometry) -> (line: String)
    ensures
        line@ == very_top_edge(geometry@),
{
    let hexes = geometry.cols() / 2;
    let diagonal = geometry.diagonal();
    let horizontal = geometry.horizontal();
    let ghost g = geometry@;
    let mut line = String::new();
    push_run(&mut line, ' ', 4);
    assert(line@ =~= margin() + plain_cells(g, Plain::TopEdge, 0));
    let mut done: usize = 0;
    while done < hexes
        invariant
            done <= hexes,
            g == geometry@,
            hexes == hexes_across(g),
            diagonal == g.diagonal,
            horizontal == g.horizontal,
            line@ == margin() + plain_cells(g, Plain::TopEdge, done as nat),
        decreases hexes - done,
    {
        let ghost before = line@;
        push_run(&mut line, ' ', diagonal);
        push_run(&mut line, '_', horizontal);
        push_run(&mut line, ' ', diagonal);
        push_run(&mut line, ' ', horizontal);
        assert(line@ =~= before + plain_cell(g, Plain::TopEdge, done as int));
        done = done + 1;
        assert(line@ =~= margin() + plain_cells(g, Plain::TopEdge, done as nat));
    }
    line
}

/// Draws the upper slants of a row, `diag_row_num` lines below the top of its hexes.
pub fn draw_top_hex_halves(
    geometry: &GridGeometry,
    diag_row_num: usize,
    is_first_row: bool,
    is_last_row: bool,
) -> (line: String)
    requires
        diag_row_num < geometry@.diagonal,
    ensures
        line@ == top_hex_halves(geometry@, diag_row_num as int, is_first_row, is_last_row),
{
    let hexes = geometry.cols() / 2;
    let diagonal = geometry.diagonal();
    let horizontal = geometry.horizontal();
    let ghost g = geometry@;
    let ghost kind = Plain::Upper {
        step: diag_row_num as int,
        first: is_first_row,
        last: is_last_row,
    };
    let mut line = String::new();
    push_run(&mut line, ' ', 4);
    assert(line@ =~= margin() + plain_cells(g, kind, 0));
    let mut done: usize = 0;
    while done < hexes
        invariant
            done <= hexes,
            g == geometry@,
            hexes == hexes_across(g),
            diagonal == g.diagonal,
            horizontal == g.horizontal,
            diag_row_num < diagonal,
            horizontal + 2 * diagonal <= usize::MAX,
            kind == (Plain::Upper {
                step: diag_row_num as int,
                first: is_first_row,
                last: is_last_row,
            }),
            line@ == margin() + plain_cells(g, kind, done as nat),
        decreases hexes - done,
    {
        let ghost before = line@;
        let leading_slash = if done == 0 && is_last_row {
            ' '
        } else {
            '/'
        };
        push_flush_right(&mut line, leading_slash, diagonal - diag_row_num);
        push_run(&mut line, ' ', horizontal + diag_row_num * 2);
        push_flush_left(&mut line, '\\', diagonal - diag_row_num);
        push_run(&mut line, ' ', horizontal);
        assert(line@ =~= before + plain_cell(g, kind, done as int));
        done = done + 1;
        assert(line@ =~= margin() + plain_cells(g, kind, done as nat));
    }
    if !is_first_row {
        let ghost before = line@;
        push_run(&mut line, ' ', diagonal - diag_row_num - 1);
        push_char(&mut line, '/');
        assert(line@ =~= before + run(' ', g.diagonal - diag_row_num - 1).push('/'));
    } else {
        assert(line@ =~= line@ + Seq::<char>::empty());
    }
    line
}

/// Draws the lower slants of a row, `diag_row_num` lines below its middle.
pub fn draw_bottom_hex_halves(geometry: &GridGeometry, diag_row_num: usize) -> (line: String)
    requires
        diag_row_num < geometry@.diagonal,
    ensures
        line@ == bottom_hex_halves(geometry@, diag_row_num as int),
{
    let hexes = geometry.cols() / 2;
    let diagonal = geometry.diagonal();
    let horizontal = geometry.horizontal();
    let ghost g = geometry@;
    let ghost kind = Plain::Lower { step: diag_row_num as int };
    let mut line = String::new();
    push_run(&mut line, ' ', 4);
    assert(line@ =~= margin() + plain_cells(g, kind, 0));
    let mut done: usize = 0;
    while done < hexes
        invariant
            done <= hexes,
            g == geometry@,
            hexes == hexes_across(g),
            diagonal == g.diagonal,
            horizontal == g.horizontal,
            diag_row_num < diagonal,
            horizontal + 2 * diagonal <= usize::MAX,
            kind == (Plain::Lower { step: diag_row_num as int }),
            line@ == margin() + plain_cells(g, kind, done as nat),
        decreases hexes - done,
    {
        let ghost before = line@;
        push_flush_right(&mut line, '\\', diag_row_num + 1);
        push_run(&mut line, ' ', horizontal + (diagonal - diag_row_num - 1) * 2);
        push_char(&mut line, '/');
        push_run(&mut line, ' ', horizontal + diag_row_num);
        assert(line@ =~= before + plain_cell(g, kind, done as int));
        done = done + 1;
        assert(line@ =~= margin() + plain_cells(g, kind, done as nat));
    }
    push_flush_right(&mut line, '\\', diag_row_num + 1);
    line
}

} // verus!
