//! The sheet as a whole: which line follows which, and what drawing all of them does to the
//! star map and the stream of draws.
//!
//! Below the column numbers and the top edge, every row is a block of twice as many lines as
//! a diagonal edge is long: upper slants, the middle line, lower slants, the bottom line. One
//! more block below the last row closes its hexes: it has the upper slants and a middle line
//! without stars, and blank lines in place of the rest.

use crate::draws::{follows_script, DiceSource};
use crate::geometry::{drawable, Geometry, GridGeometry};
use crate::lines::{
    bottom_hex_halves, column_headers, draw_bottom_hex_halves, draw_column_headers,
    draw_top_hex_halves, draw_very_top_edge, lemma_plain_lines_text, margin, top_hex_halves,
    very_top_edge,
};
use crate::star_lines::{
    bottom_line, draw_hex_bottoms, draw_hex_middles, is_closing_row, lemma_star_hexes_advance,
    lemma_star_hexes_same, lemma_star_lines_text, middle_label, middle_line, Band, Strip,
};
use crate::star_map::{Profile, StarMap};
use crate::text::{is_sheet_text, texts};
use crate::util::{grew_by, same_draws};
use vstd::prelude::*;

verus! {

/// What the next line of a row is.
#[derive(Clone, Copy, Debug, PartialEq, Eq, Structural)]
pub enum DrawState {
    /// Upper slants, `diag_row_num` lines below the top of the hexes.
    DiagonalsUpper { diag_row_num: usize },
    /// The middles of the hexes, with the number of the row.
    Middles,
    /// Lower slants, `diag_row_num` lines below the middle.
    DiagonalsLower { diag_row_num: usize },
    /// The bottom edges of the hexes.
    BottomEdge,
}

/// A sheet under way: its lines so far, the star map, and the place in the stream of draws.
pub struct Sheet {
    pub lines: Seq<Seq<char>>,
    pub stars: Map<(int, int), Profile>,
    pub next: int,
}

/// The state in which line `j` of a block is drawn, counted from 0.
pub open spec fn state_at(g: Geometry, j: int) -> DrawState {
    if j < g.diagonal - 1 {
        DrawState::DiagonalsUpper { diag_row_num: j as usize }
    } else if j == g.diagonal - 1 {
        DrawState::Middles
    } else if j < 2 * g.diagonal - 1 {
        DrawState::DiagonalsLower { diag_row_num: (j - g.diagonal) as usize }
    } else {
        DrawState::BottomEdge
    }
}

/// The state that follows `state`. The last line of slants is the middle line, or the
/// bottom line, so the slants end two short of the diagonal's length.
pub open spec fn successor(state: DrawState, diagonal: int) -> DrawState {
    match state {
        DrawState::DiagonalsUpper { diag_row_num } => if diag_row_num >= diagonal - 2 {
            DrawState::Middles
        } else {
            DrawState::DiagonalsUpper { diag_row_num: (diag_row_num + 1) as usize }
        },
        DrawState::Middles => DrawState::DiagonalsLower { diag_row_num: 0 },
        DrawState::DiagonalsLower { diag_row_num } => if diag_row_num >= diagonal - 2 {
            DrawState::BottomEdge
        } else {
            DrawState::DiagonalsLower { diag_row_num: (diag_row_num + 1) as usize }
        },
        DrawState::BottomEdge => DrawState::DiagonalsUpper { diag_row_num: 0 },
    }
}

/// A state whose slants lie inside a hex of this geometry.
pub open spec fn fits(g: Geometry, state: DrawState) -> bool {
    match state {
        DrawState::DiagonalsUpper { diag_row_num } => diag_row_num < g.diagonal,
        DrawState::DiagonalsLower { diag_row_num } => diag_row_num < g.diagonal,
        _ => true,
    }
}

/// On a sheet: in one of its rows and one of its columns.
pub open spec fn on_sheet(g: Geometry, c: (int, int)) -> bool {
    1 <= c.0 <= g.rows && 1 <= c.1 <= g.cols
}

/// A hex that drawing reaches: in one of the rows, and in one of the columns that the hexes
/// of a line cover. Where the number of columns is odd, the last column is not among them.
pub open spec fn reached(g: Geometry, c: (int, int)) -> bool {
    1 <= c.0 <= g.rows && 1 <= c.1 <= 2 * (g.cols / 2)
}

/// Drawing keeps every star system that the map held, and adds systems only in hexes that it
/// reaches.
pub open spec fn charted(
    g: Geometry,
    from: Map<(int, int), Profile>,
    to: Map<(int, int), Profile>,
) -> bool {
    &&& forall|c: (int, int)| from.contains_key(c) ==> to.contains_key(c)
    &&& forall|c: (int, int)| #[trigger] to.contains_key(c) ==> from.contains_key(c) || reached(g, c)
}

/// The line that is drawn in `state` for `row`, with what it does to map and stream.
pub open spec fn step_line(
    g: Geometry,
    state: DrawState,
    row: int,
    density: int,
    drawn: Seq<int>,
    stars: Map<(int, int), Profile>,
    at: int,
) -> Strip {
    match state {
        DrawState::DiagonalsUpper { diag_row_num } => Strip {
            text: top_hex_halves(g, diag_row_num as int, row == 1, is_closing_row(g, row)),
            stars,
            next: at,
        },
        DrawState::Middles => middle_line(g, row, density, drawn, stars, at),
        DrawState::DiagonalsLower { diag_row_num } => Strip {
            text: if row <= g.rows {
                bottom_hex_halves(g, diag_row_num as int)
            } else {
                Seq::empty()
            },
            stars,
            next: at,
        },
        DrawState::BottomEdge => if row <= g.rows {
            bottom_line(g, row, density, drawn, stars, at)
        } else {
            Strip { text: Seq::empty(), stars, next: at }
        },
    }
}

/// The sheet after the first `steps` lines of the block of `row`, starting from `from`.
pub open spec fn block_steps(
    g: Geometry,
    row: int,
    density: int,
    drawn: Seq<int>,
    from: Sheet,
    steps: nat,
) -> Sheet
    decreases steps,
{
    if steps == 0 {
        from
    } else {
        let before = block_steps(g, row, density, drawn, from, (steps - 1) as nat);
        let line = step_line(
            g,
            state_at(g, steps - 1),
            row,
            density,
            drawn,
            before.stars,
            before.next,
        );
        Sheet { lines: before.lines.push(line.text), stars: line.stars, next: line.next }
    }
}

/// The sheet after the blocks of its first `rows` rows, starting from `from`.
pub open spec fn row_blocks(g: Geometry, density: int, drawn: Seq<int>, from: Sheet, rows: nat) -> Sheet
    decreases rows,
{
    if rows == 0 {
        from
    } else {
        block_steps(
            g,
            rows as int,
            density,
            drawn,
            row_blocks(g, density, drawn, from, (rows - 1) as nat),
            (2 * g.diagonal) as nat,
        )
    }
}

/// The whole sheet: column numbers, top edge, the block of every row, and the closing block.
pub open spec fn sheet(
    g: Geometry,
    density: int,
    drawn: Seq<int>,
    stars: Map<(int, int), Profile>,
    at: int,
) -> Sheet {
    row_blocks(
        g,
        density,
        drawn,
        Sheet { lines: seq![column_headers(g), very_top_edge(g)], stars, next: at },
        (g.rows + 1) as nat,
    )
}

/// The states follow one another through the lines of a block, and the state after the last
/// line is that of the first line again.
pub proof fn lemma_successor_walks_block(g: Geometry, j: int)
    requires
        drawable(g),
        0 <= j < 2 * g.diagonal,
    ensures
        fits(g, state_at(g, j)),
        j + 1 < 2 * g.diagonal ==> successor(state_at(g, j), g.diagonal) == state_at(g, j + 1),
        j + 1 == 2 * g.diagonal ==> successor(state_at(g, j), g.diagonal) == state_at(g, 0),
{
}

/// A line never moves back in the stream, keeps what the map held and adds systems on the
/// sheet only.
pub proof fn lemma_step_line_advance(
    g: Geometry,
    state: DrawState,
    row: int,
    density: int,
    drawn: Seq<int>,
    stars: Map<(int, int), Profile>,
    at: int,
)
    requires
        drawable(g),
        1 <= row <= g.rows + 1,
    ensures
        at <= step_line(g, state, row, density, drawn, stars, at).next,
        charted(g, stars, step_line(g, state, row, density, drawn, stars, at).stars),
{
    let hexes = (g.cols / 2) as nat;
    match state {
        DrawState::Middles => {
            let from = Strip { text: middle_label(g, row), stars, next: at };
            lemma_star_hexes_advance(g, Band::Middles, row, density, drawn, from, hexes);
        },
        DrawState::BottomEdge => {
            if row <= g.rows {
                let from = Strip { text: margin(), stars, next: at };
                lemma_star_hexes_advance(g, Band::Bottoms, row, density, drawn, from, hexes);
            }
        },
        _ => {},
    }
}

/// A line reads only its own draws: streams that agree on them give the same line.
pub proof fn lemma_step_line_same(
    g: Geometry,
    state: DrawState,
    row: int,
    density: int,
    a: Seq<int>,
    b: Seq<int>,
    stars: Map<(int, int), Profile>,
    at: int,
)
    requires
        same_draws(a, b, at, step_line(g, state, row, density, a, stars, at).next),
    ensures
        step_line(g, state, row, density, b, stars, at) == step_line(
            g,
            state,
            row,
            density,
            a,
            stars,
            at,
        ),
        at <= step_line(g, state, row, density, a, stars, at).next,
{
    let hexes = (g.cols / 2) as nat;
    match state {
        DrawState::Middles => {
            let from = Strip { text: middle_label(g, row), stars, next: at };
            lemma_star_hexes_same(g, Band::Middles, row, density, a, b, from, hexes);
        },
        DrawState::BottomEdge => {
            if row <= g.rows {
                let from = Strip { text: margin(), stars, next: at };
                lemma_star_hexes_same(g, Band::Bottoms, row, density, a, b, from, hexes);
            }
        },
        _ => {},
    }
}

/// The lines of a block add one line each, never move back in the stream, keep what the map
/// held and add systems on the sheet only.
pub proof fn lemma_block_steps_advance(
    g: Geometry,
    row: int,
    density: int,
    drawn: Seq<int>,
    from: Sheet,
    steps: nat,
)
    requires
        drawable(g),
        1 <= row <= g.rows + 1,
    ensures
        block_steps(g, row, density, drawn, from, steps).lines.len() == from.lines.len() + steps,
        from.next <= block_steps(g, row, density, drawn, from, steps).next,
        charted(g, from.stars, block_steps(g, row, density, drawn, from, steps).stars),
    decreases steps,
{
    if steps > 0 {
        lemma_block_steps_advance(g, row, density, drawn, from, (steps - 1) as nat);
        let before = block_steps(g, row, density, drawn, from, (steps - 1) as nat);
        lemma_step_line_advance(
            g,
            state_at(g, steps - 1),
            row,
            density,
            drawn,
            before.stars,
            before.next,
        );
    }
}

/// The lines of a block read only their own draws.
pub proof fn lemma_block_steps_same(
    g: Geometry,
    row: int,
    density: int,
    a: Seq<int>,
    b: Seq<int>,
    from: Sheet,
    steps: nat,
)
    requires
        same_draws(a, b, from.next, block_steps(g, row, density, a, from, steps).next),
    ensures
        block_steps(g, row, density, b, from, steps) == block_steps(
            g,
            row,
            density,
            a,
            from,
            steps,
        ),
        from.next <= block_steps(g, row, density, a, from, steps).next,
    decreases steps,
{
    if steps > 0 {
        let before = block_steps(g, row, density, a, from, (steps - 1) as nat);
        let state = state_at(g, steps - 1);
        // Against itself a stream shows only that the line ends at or after its start, which
        // puts the draws of the lines before it inside what `a` and `b` share.
        lemma_step_line_same(g, state, row, density, a, a, before.stars, before.next);
        lemma_block_steps_same(g, row, density, a, b, from, (steps - 1) as nat);
        lemma_step_line_same(g, state, row, density, a, b, before.stars, before.next);
    }
}

/// The blocks of the rows add as many lines as a block has for each row, never move back in
/// the stream, keep what the map held and add systems on the sheet only.
pub proof fn lemma_row_blocks_advance(
    g: Geometry,
    density: int,
    drawn: Seq<int>,
    from: Sheet,
    rows: nat,
)
    requires
        drawable(g),
        rows <= g.rows + 1,
    ensures
        row_blocks(g, density, drawn, from, rows).lines.len() == from.lines.len() + rows * (2
            * g.diagonal),
        from.next <= row_blocks(g, density, drawn, from, rows).next,
        charted(g, from.stars, row_blocks(g, density, drawn, from, rows).stars),
    decreases rows,
{
    if rows > 0 {
        lemma_row_blocks_advance(g, density, drawn, from, (rows - 1) as nat);
        let before = row_blocks(g, density, drawn, from, (rows - 1) as nat);
        lemma_block_steps_advance(g, rows as int, density, drawn, before, (2 * g.diagonal) as nat);
        assert((rows - 1) * (2 * g.diagonal) + 2 * g.diagonal == rows * (2 * g.diagonal))
            by (nonlinear_arith);
    } else {
        assert(0 * (2 * g.diagonal) == 0);
    }
}

/// The blocks of the rows read only their own draws.
pub proof fn lemma_row_blocks_same(
    g: Geometry,
    density: int,
    a: Seq<int>,
    b: Seq<int>,
    from: Sheet,
    rows: nat,
)
    requires
        same_draws(a, b, from.next, row_blocks(g, density, a, from, rows).next),
    ensures
        row_blocks(g, density, b, from, rows) == row_blocks(g, density, a, from, rows),
        from.next <= row_blocks(g, density, a, from, rows).next,
    decreases rows,
{
    if rows > 0 {
        let before = row_blocks(g, density, a, from, (rows - 1) as nat);
        // As above: the block ends at or after its start.
        lemma_block_steps_same(g, rows as int, density, a, a, before, (2 * g.diagonal) as nat);
        lemma_row_blocks_same(g, density, a, b, from, (rows - 1) as nat);
        lemma_block_steps_same(g, rows as int, density, a, b, before, (2 * g.diagonal) as nat);
    }
}

/// A sheet has two lines above its rows and a block of twice the diagonal's length for every
/// row and for the closing row.
pub proof fn lemma_sheet_line_count(
    g: Geometry,
    density: int,
    drawn: Seq<int>,
    stars: Map<(int, int), Profile>,
    at: int,
)
    requires
        drawable(g),
    ensures
        sheet(g, density, drawn, stars, at).lines.len() == 2 + (g.rows + 1) * (2 * g.diagonal),
{
    let from = Sheet { lines: seq![column_headers(g), very_top_edge(g)], stars, next: at };
    lemma_row_blocks_advance(g, density, drawn, from, (g.rows + 1) as nat);
}

/// Drawing a sheet keeps every star system that the map held, and whatever it adds lies in
/// a hex that drawing reaches, so in one of the sheet's rows and one of its columns. A map
/// that was empty before holds systems on the sheet only.
pub proof fn lemma_sheet_stars_on_sheet(
    g: Geometry,
    density: int,
    drawn: Seq<int>,
    stars: Map<(int, int), Profile>,
    at: int,
)
    requires
        drawable(g),
    ensures
        charted(g, stars, sheet(g, density, drawn, stars, at).stars),
        at <= sheet(g, density, drawn, stars, at).next,
        forall|c: (int, int)| reached(g, c) ==> on_sheet(g, c),
        stars == Map::<(int, int), Profile>::empty() ==> forall|c: (int, int)| #[trigger]
            sheet(g, density, drawn, stars, at).stars.contains_key(c) ==> on_sheet(g, c),
{
    let from = Sheet { lines: seq![column_headers(g), very_top_edge(g)], stars, next: at };
    lemma_row_blocks_advance(g, density, drawn, from, (g.rows + 1) as nat);
}

/// Drawing is decided by the draws alone: two streams that show the same faces from where
/// drawing starts to where it ends give the same lines, the same star map, and end at the
/// same place.
pub proof fn lemma_sheet_same(
    g: Geometry,
    density: int,
    a: Seq<int>,
    b: Seq<int>,
    stars: Map<(int, int), Profile>,
    at: int,
)
    requires
        same_draws(a, b, at, sheet(g, density, a, stars, at).next),
    ensures
        sheet(g, density, b, stars, at) == sheet(g, density, a, stars, at),
{
    let from = Sheet { lines: seq![column_headers(g), very_top_edge(g)], stars, next: at };
    lemma_row_blocks_same(g, density, a, b, from, (g.rows + 1) as nat);
}

/// Every line of a list holds sheet characters only.
pub open spec fn are_sheet_lines(lines: Seq<Seq<char>>) -> bool {
    forall|i: int| 0 <= i < lines.len() ==> is_sheet_text(#[trigger] lines[i])
}

/// Whatever the state and the draws, a line holds sheet characters only.
pub proof fn lemma_step_line_text(
    g: Geometry,
    state: DrawState,
    row: int,
    density: int,
    drawn: Seq<int>,
    stars: Map<(int, int), Profile>,
    at: int,
)
    ensures
        is_sheet_text(step_line(g, state, row, density, drawn, stars, at).text),
{
    lemma_star_lines_text(g, row, density, drawn, stars, at);
    match state {
        DrawState::DiagonalsUpper { diag_row_num } => {
            lemma_plain_lines_text(g, diag_row_num as int, row == 1, is_closing_row(g, row));
        },
        DrawState::DiagonalsLower { diag_row_num } => {
            lemma_plain_lines_text(g, diag_row_num as int, false, false);
        },
        _ => {},
    }
}

/// The lines of a block hold sheet characters only.
pub proof fn lemma_block_steps_text(
    g: Geometry,
    row: int,
    density: int,
    drawn: Seq<int>,
    from: Sheet,
    steps: nat,
)
    requires
        are_sheet_lines(from.lines),
    ensures
        are_sheet_lines(block_steps(g, row, density, drawn, from, steps).lines),
    decreases steps,
{
    if steps > 0 {
        let before = block_steps(g, row, density, drawn, from, (steps - 1) as nat);
        lemma_block_steps_text(g, row, density, drawn, from, (steps - 1) as nat);
        lemma_step_line_text(
            g,
            state_at(g, steps - 1),
            row,
            density,
            drawn,
            before.stars,
            before.next,
        );
    }
}

/// The blocks of the rows hold sheet characters only.
pub proof fn lemma_row_blocks_text(
    g: Geometry,
    density: int,
    drawn: Seq<int>,
    from: Sheet,
    rows: nat,
)
    requires
        are_sheet_lines(from.lines),
    ensures
        are_sheet_lines(row_blocks(g, density, drawn, from, rows).lines),
    decreases rows,
{
    if rows > 0 {
        lemma_row_blocks_text(g, density, drawn, from, (rows - 1) as nat);
        lemma_block_steps_text(
            g,
            rows as int,
            density,
            drawn,
            row_blocks(g, density, drawn, from, (rows - 1) as nat),
            (2 * g.diagonal) as nat,
        );
    }
}

/// Every line of a sheet is made of blanks, underscores, slashes, digits and star marks,
/// whatever the dice show.
pub proof fn lemma_sheet_text(
    g: Geometry,
    density: int,
    drawn: Seq<int>,
    stars: Map<(int, int), Profile>,
    at: int,
)
    ensures
        are_sheet_lines(sheet(g, density, drawn, stars, at).lines),
{
    lemma_plain_lines_text(g, 0, true, false);
    let from = Sheet { lines: seq![column_headers(g), very_top_edge(g)], stars, next: at };
    lemma_row_blocks_text(g, density, drawn, from, (g.rows + 1) as nat);
}

/// Two drawings from the same script are the same. Where both histories hold what one script
/// shows, and each ends where its drawing ended, the two drawings have the same lines and the
/// same star map, and the histories are the same.
pub proof fn lemma_scripted_sheets_agree(
    g: Geometry,
    density: int,
    script: Seq<int>,
    a: Seq<int>,
    b: Seq<int>,
    stars: Map<(int, int), Profile>,
    at: int,
)
    requires
        0 <= at,
        follows_script(a, script),
        follows_script(b, script),
        a.len() == sheet(g, density, a, stars, at).next,
        b.len() == sheet(g, density, b, stars, at).next,
    ensures
        sheet(g, density, a, stars, at) == sheet(g, density, b, stars, at),
        a == b,
{
    if a.len() <= b.len() {
        assert(same_draws(a, b, at, a.len() as int));
        lemma_sheet_same(g, density, a, b, stars, at);
    } else {
        assert(same_draws(b, a, at, b.len() as int));
        lemma_sheet_same(g, density, b, a, stars, at);
    }
    assert(a =~= b);
}

/// The state that follows `state` on a sheet of this geometry.
pub fn next_state(state: DrawState, geometry: &GridGeometry) -> (next: DrawState)
    ensures
        next == successor(state, geometry@.diagonal),
{
    let a_diagonal_length = geometry.diagonal();
    match state {
        DrawState::DiagonalsUpper { diag_row_num } => {
            if diag_row_num >= a_diagonal_length - 2 {
                DrawState::Middles
            } else {
                DrawState::DiagonalsUpper { diag_row_num: diag_row_num + 1 }
            }
        },
        DrawState::Middles => DrawState::DiagonalsLower { diag_row_num: 0 },
        DrawState::DiagonalsLower { diag_row_num } => {
            if diag_row_num >= a_diagonal_length - 2 {
                DrawState::BottomEdge
            } else {
                DrawState::DiagonalsLower { diag_row_num: diag_row_num + 1 }
            }
        },
        DrawState::BottomEdge => DrawState::DiagonalsUpper { diag_row_num: 0 },
    }
}

/// Draws the line that `state` asks for in the block of `row`. Below the last row the lower
/// slants and the bottom line are left blank.
pub fn draw_step<D: DiceSource>(
    state: DrawState,
    row: usize,
    geometry: &GridGeometry,
    density_dm: isize,
    rng: &mut D,
    starmap: &mut StarMap,
) -> (line: String)
    requires
        fits(geometry@, state),
    ensures
        ({
            let to = step_line(
                geometry@,
                state,
                row as int,
                density_dm as int,
                final(rng).drawn(),
                old(starmap)@,
                old(rng).drawn().len() as int,
            );
            &&& line@ == to.text
            &&& final(starmap)@ == to.stars
            &&& final(rng).drawn().len() == to.next
            &&& grew_by(old(rng).drawn(), final(rng).drawn(), to.next - old(rng).drawn().len())
        }),
{
    let num_rows = geometry.rows();
    match state {
        DrawState::DiagonalsUpper { diag_row_num } => {
            assert(grew_by(rng.drawn(), rng.drawn(), 0));
            draw_top_hex_halves(geometry, diag_row_num, row == 1, row == num_rows + 1)
        },
        DrawState::Middles => draw_hex_middles(row, geometry, density_dm, rng, starmap),
        DrawState::DiagonalsLower { diag_row_num } => {
            assert(grew_by(rng.drawn(), rng.drawn(), 0));
            if row <= num_rows {
                draw_bottom_hex_halves(geometry, diag_row_num)
            } else {
                String::new()
            }
        },
        DrawState::BottomEdge => {
            if row <= num_rows {
                draw_hex_bottoms(row, geometry, density_dm, rng, starmap)
            } else {
                assert(grew_by(rng.drawn(), rng.drawn(), 0));
                String::new()
            }
        },
    }
}

/// Draws a hex grid: the column numbers, the top edge, and the block of every row, the
/// closing row included. Star systems are rolled as the lines reach their hexes and filed in
/// `starmap`.
pub fn draw_grid<D: DiceSource>(
    geometry: &GridGeometry,
    density_dm: isize,
    rng: &mut D,
    starmap: &mut StarMap,
) -> (lines: Vec<String>)
    ensures
        ({
            let to = sheet(
                geometry@,
                density_dm as int,
                final(rng).drawn(),
                old(starmap)@,
                old(rng).drawn().len() as int,
            );
            &&& texts(lines@) == to.lines
            &&& final(starmap)@ == to.stars
            &&& final(rng).drawn().len() == to.next
            &&& grew_by(old(rng).drawn(), final(rng).drawn(), to.next - old(rng).drawn().len())
        }),
        lines@.len() == 2 + (geometry@.rows + 1) * (2 * geometry@.diagonal),
        charted(geometry@, old(starmap)@, final(starmap)@),
        are_sheet_lines(texts(lines@)),
{
    let num_rows = geometry.rows();
    let a_diagonal_length = geometry.diagonal();
    let ghost g = geometry@;
    let ghost density = density_dm as int;
    let ghost start = rng.drawn();
    let ghost top = Sheet {
        lines: seq![column_headers(g), very_top_edge(g)],
        stars: starmap@,
        next: start.len() as int,
    };
    let mut lines: Vec<String> = Vec::new();
    lines.push(draw_column_headers(geometry));
    lines.push(draw_very_top_edge(geometry));
    assert(texts(lines@) =~= top.lines);
    assert(grew_by(start, rng.drawn(), 0));

    let mut draw_state = DrawState::DiagonalsUpper { diag_row_num: 0 };
    let mut done_rows: usize = 0;
    while done_rows < num_rows + 1
        invariant
            g == geometry@,
            drawable(g),
            num_rows == g.rows,
            a_diagonal_length == g.diagonal,
            density == density_dm as int,
            done_rows <= num_rows + 1,
            top.next == start.len(),
            draw_state == state_at(g, 0),
            grew_by(start, rng.drawn(), rng.drawn().len() - start.len()),
            (Sheet { lines: texts(lines@), stars: starmap@, next: rng.drawn().len() as int })
                == row_blocks(g, density, rng.drawn(), top, done_rows as nat),
        decreases num_rows + 1 - done_rows,
    {
        let row = done_rows + 1;
        let ghost block_start = rng.drawn();
        let ghost above = Sheet {
            lines: texts(lines@),
            stars: starmap@,
            next: block_start.len() as int,
        };
        // Diagonals up, diagonals down: twice the diagonal's length.
        let mut i: usize = 0;
        while i < 2 * a_diagonal_length
            invariant
                g == geometry@,
                drawable(g),
                num_rows == g.rows,
                a_diagonal_length == g.diagonal,
                density == density_dm as int,
                row == done_rows + 1,
                done_rows <= num_rows,
                i <= 2 * a_diagonal_length,
                above.next == block_start.len(),
                draw_state == state_at(g, if i < 2 * a_diagonal_length { i as int } else { 0 }),
                grew_by(block_start, rng.drawn(), rng.drawn().len() - block_start.len()),
                (Sheet { lines: texts(lines@), stars: starmap@, next: rng.drawn().len() as int })
                    == block_steps(g, row as int, density, rng.drawn(), above, i as nat),
            decreases 2 * a_diagonal_length - i,
        {
            let ghost then = rng.drawn();
            let ghost listed = lines@;
            proof {
                lemma_successor_walks_block(g, i as int);
            }
            let line = draw_step(draw_state, row, geometry, density_dm, rng, starmap);
            draw_state = next_state(draw_state, geometry);
            lines.push(line);
            proof {
                lemma_block_steps_same(g, row as int, density, then, rng.drawn(), above, i as nat);
                assert(texts(lines@) =~= texts(listed).push(line@));
            }
            i = i + 1;
        }
        proof {
            lemma_row_blocks_same(g, density, block_start, rng.drawn(), top, done_rows as nat);
        }
        done_rows = done_rows + 1;
    }
    proof {
        lemma_sheet_line_count(g, density, rng.drawn(), top.stars, top.next);
        lemma_sheet_stars_on_sheet(g, density, rng.drawn(), top.stars, top.next);
        lemma_sheet_text(g, density, rng.drawn(), top.stars, top.next);
        assert(texts(lines@).len() == lines@.len());
    }
    lines
}

} // verus!
