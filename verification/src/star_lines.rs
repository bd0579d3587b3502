//! The two lines of a row where star systems appear: the middles of its hexes and their
//! bottom edges.
//!
//! In both, every hex throws two dice for a star system. Where the throw and the density
//! modifier reach 4, a system is rolled from the same stream, filed under the hex's row and
//! column, and marked in the cell.

use crate::draws::DiceSource;
use crate::geometry::{hexes_across, star_mark, Geometry, GridGeometry};
use crate::lines::margin;
use crate::star_map::{
    lemma_rolled_profile_same, rolled_draws, rolled_profile, Profile, StarMap, StarSystem,
};
use crate::text::{
    flush_left, flush_right, is_sheet_char, is_sheet_text, lemma_sheet_text_joined,
    lemma_two_digits_sheet_text, push_char, push_flush_left, push_flush_right, push_run,
    push_two_digits, run, two_digits,
};
use crate::util::{
    dice, grew_by, lemma_roll_total_bounds, lemma_roll_total_same, roll_total, same_draws,
};
use vstd::prelude::*;

verus! {

/// Which of the two lines with star systems is drawn.
#[derive(Clone, Copy, Debug, PartialEq, Eq, Structural)]
pub enum Band {
    /// The middles of the hexes in the odd columns.
    Middles,
    /// The bottom edges of those hexes, next to the middles of the even columns.
    Bottoms,
}

/// A line under way: its text so far, the star map, and the place in the stream of draws.
pub struct Strip {
    pub text: Seq<char>,
    pub stars: Map<(int, int), Profile>,
    pub next: int,
}

/// The row below the last one: it only closes the hexes above and holds no star system.
pub open spec fn is_closing_row(g: Geometry, row: int) -> bool {
    row == g.rows + 1
}

/// The column of the `i`-th hex of a line, counted from 0.
pub open spec fn star_column(band: Band, i: int) -> int {
    match band {
        Band::Middles => 2 * i + 1,
        Band::Bottoms => 2 * i + 2,
    }
}

/// Two dice and the density modifier reach 4: the hex holds a star system.
pub open spec fn has_star(drawn: Seq<int>, at: int, density: int) -> bool {
    roll_total(drawn, at, 2) + density >= 4
}

/// A cell without a star system; `lead` is the character on its left edge.
pub open spec fn wall_cell(g: Geometry, band: Band, lead: char) -> Seq<char> {
    match band {
        Band::Middles => seq![lead] + run(' ', g.horizontal + 2 * (g.diagonal - 1)) + seq!['\\']
            + run('_', g.horizontal),
        Band::Bottoms => flush_right('\\', g.diagonal) + run('_', g.horizontal) + flush_left(
            '/',
            g.diagonal,
        ) + run(' ', g.horizontal),
    }
}

/// A cell with the mark of a star system at the centre of its hex.
pub open spec fn star_cell(g: Geometry, band: Band) -> Seq<char> {
    match band {
        Band::Middles => seq!['/'] + run(' ', (g.horizontal - 1) / 2 + g.diagonal - 1)
            + seq![star_mark(g)] + run(' ', g.horizontal / 2 + g.diagonal - 1) + seq!['\\'] + run(
            '_',
            g.horizontal,
        ),
        Band::Bottoms => flush_right('\\', g.diagonal) + run('_', g.horizontal) + flush_left(
            '/',
            g.diagonal,
        ) + run(' ', (g.horizontal - 1) / 2) + seq![star_mark(g)] + run(' ', g.horizontal / 2),
    }
}

/// The line after its `i`-th hex, given the line before it.
pub open spec fn hex_step(
    g: Geometry,
    band: Band,
    row: int,
    density: int,
    drawn: Seq<int>,
    before: Strip,
    i: int,
) -> Strip {
    if band == Band::Middles && is_closing_row(g, row) {
        Strip {
            text: before.text + wall_cell(
                g,
                band,
                if i == 0 {
                    ' '
                } else {
                    '/'
                },
            ),
            stars: before.stars,
            next: before.next,
        }
    } else if !has_star(drawn, before.next, density) {
        Strip {
            text: before.text + wall_cell(g, band, '/'),
            stars: before.stars,
            next: before.next + 2,
        }
    } else {
        Strip {
            text: before.text + star_cell(g, band),
            stars: before.stars.insert(
                (row, star_column(band, i)),
                rolled_profile(drawn, before.next + 2),
            ),
            next: before.next + 2 + rolled_draws(drawn, before.next + 2),
        }
    }
}

/// The line after its first `count` hexes, starting from `from`.
pub open spec fn star_hexes(
    g: Geometry,
    band: Band,
    row: int,
    density: int,
    drawn: Seq<int>,
    from: Strip,
    count: nat,
) -> Strip
    decreases count,
{
    if count == 0 {
        from
    } else {
        hex_step(
            g,
            band,
            row,
            density,
            drawn,
            star_hexes(g, band, row, density, drawn, from, (count - 1) as nat),
            count - 1,
        )
    }
}

/// What stands in the margin of a middle line: the number of the row and two blanks, or
/// blanks only on the closing row.
pub open spec fn middle_label(g: Geometry, row: int) -> Seq<char> {
    if is_closing_row(g, row) {
        margin()
    } else {
        two_digits(row as nat) + run(' ', 2)
    }
}

/// The middle line of a row: its number, then the hexes, then the slant that closes the
/// last hex unless this is the first row. The closing row has no number and throws no dice.
pub open spec fn middle_line(
    g: Geometry,
    row: int,
    density: int,
    drawn: Seq<int>,
    stars: Map<(int, int), Profile>,
    at: int,
) -> Strip {
    let body = star_hexes(
        g,
        Band::Middles,
        row,
        density,
        drawn,
        Strip { text: middle_label(g, row), stars, next: at },
        hexes_across(g),
    );
    Strip {
        text: if row == 1 {
            body.text
        } else {
            body.text.push('/')
        },
        stars: body.stars,
        next: body.next,
    }
}

/// The bottom line of a row: the margin, the hexes, and the slant that closes the last hex.
pub open spec fn bottom_line(
    g: Geometry,
    row: int,
    density: int,
    drawn: Seq<int>,
    stars: Map<(int, int), Profile>,
    at: int,
) -> Strip {
    let body = star_hexes(
        g,
        Band::Bottoms,
        row,
        density,
        drawn,
        Strip { text: margin(), stars, next: at },
        hexes_across(g),
    );
    Strip { text: body.text + flush_right('\\', g.diagonal), stars: body.stars, next: body.next }
}

/// What a run of hexes may do to the star map and the stream: it never moves back in the
/// stream, it keeps every system that was there, and what it adds lies in its own row, in a
/// column that it has reached.
pub open spec fn advanced(g: Geometry, row: int, count: int, from: Strip, to: Strip) -> bool {
    &&& from.next <= to.next
    &&& forall|c: (int, int)| from.stars.contains_key(c) ==> to.stars.contains_key(c)
    &&& forall|c: (int, int)| #[trigger]
        to.stars.contains_key(c) ==> from.stars.contains_key(c) || (c.0 == row && 1 <= row
            <= g.rows && 1 <= c.1 <= 2 * count)
}

/// A run of hexes never moves back in the stream, keeps what the map held and adds only
/// hexes of its own row up to the column it has reached.
pub proof fn lemma_star_hexes_advance(
    g: Geometry,
    band: Band,
    row: int,
    density: int,
    drawn: Seq<int>,
    from: Strip,
    count: nat,
)
    requires
        1 <= row <= g.rows + 1,
        band == Band::Bottoms ==> row <= g.rows,
    ensures
        advanced(g, row, count as int, from, star_hexes(g, band, row, density, drawn, from, count)),
    decreases count,
{
    if count > 0 {
        lemma_star_hexes_advance(g, band, row, density, drawn, from, (count - 1) as nat);
    }
}

/// One hex reads only its own draws: streams that agree on them give the same cell, the same
/// star system and the same place in the stream.
pub proof fn lemma_hex_step_same(
    g: Geometry,
    band: Band,
    row: int,
    density: int,
    a: Seq<int>,
    b: Seq<int>,
    before: Strip,
    i: int,
)
    requires
        same_draws(a, b, before.next, hex_step(g, band, row, density, a, before, i).next),
    ensures
        hex_step(g, band, row, density, b, before, i) == hex_step(
            g,
            band,
            row,
            density,
            a,
            before,
            i,
        ),
{
    if !(band == Band::Middles && is_closing_row(g, row)) {
        lemma_roll_total_same(a, b, before.next, 2);
        if has_star(a, before.next, density) {
            lemma_rolled_profile_same(a, b, before.next + 2);
        }
    }
}

/// A run of hexes reads only its own draws: streams that agree from where it starts to where
/// it ends give the same text, the same star map and the same place in the stream.
pub proof fn lemma_star_hexes_same(
    g: Geometry,
    band: Band,
    row: int,
    density: int,
    a: Seq<int>,
    b: Seq<int>,
    from: Strip,
    count: nat,
)
    requires
        same_draws(a, b, from.next, star_hexes(g, band, row, density, a, from, count).next),
    ensures
        star_hexes(g, band, row, density, b, from, count) == star_hexes(
            g,
            band,
            row,
            density,
            a,
            from,
            count,
        ),
        from.next <= star_hexes(g, band, row, density, a, from, count).next,
    decreases count,
{
    if count > 0 {
        let before = star_hexes(g, band, row, density, a, from, (count - 1) as nat);
        let after = hex_step(g, band, row, density, a, before, count - 1);
        assert(before.next <= after.next);
        lemma_star_hexes_same(g, band, row, density, a, b, from, (count - 1) as nat);
        lemma_hex_step_same(g, band, row, density, a, b, before, count - 1);
    }
}

/// Both kinds of cell are made of sheet characters.
pub proof fn lemma_cells_text(g: Geometry, band: Band, lead: char)
    requires
        is_sheet_char(lead),
    ensures
        is_sheet_text(wall_cell(g, band, lead)),
        is_sheet_text(star_cell(g, band)),
{
}

/// A run of hexes adds sheet characters only.
pub proof fn lemma_star_hexes_text(
    g: Geometry,
    band: Band,
    row: int,
    density: int,
    drawn: Seq<int>,
    from: Strip,
    count: nat,
)
    requires
        is_sheet_text(from.text),
    ensures
        is_sheet_text(star_hexes(g, band, row, density, drawn, from, count).text),
    decreases count,
{
    if count > 0 {
        let before = star_hexes(g, band, row, density, drawn, from, (count - 1) as nat);
        lemma_star_hexes_text(g, band, row, density, drawn, from, (count - 1) as nat);
        lemma_cells_text(g, band, ' ');
        lemma_cells_text(g, band, '/');
        lemma_sheet_text_joined(before.text, wall_cell(g, band, ' '));
        lemma_sheet_text_joined(before.text, wall_cell(g, band, '/'));
        lemma_sheet_text_joined(before.text, star_cell(g, band));
    }
}

/// The middle line and the bottom line of a row hold sheet characters only.
pub proof fn lemma_star_lines_text(
    g: Geometry,
    row: int,
    density: int,
    drawn: Seq<int>,
    stars: Map<(int, int), Profile>,
    at: int,
)
    ensures
        is_sheet_text(middle_line(g, row, density, drawn, stars, at).text),
        is_sheet_text(bottom_line(g, row, density, drawn, stars, at).text),
{
    lemma_two_digits_sheet_text(row as nat);
    lemma_sheet_text_joined(two_digits(row as nat), run(' ', 2));
    let middle = Strip { text: middle_label(g, row), stars, next: at };
    lemma_star_hexes_text(g, Band::Middles, row, density, drawn, middle, hexes_across(g));
    let body = star_hexes(g, Band::Middles, row, density, drawn, middle, hexes_across(g));
    lemma_sheet_text_joined(body.text, seq!['/']);
    assert(body.text.push('/') =~= body.text + seq!['/']);
    let bottom = Strip { text: margin(), stars, next: at };
    lemma_star_hexes_text(g, Band::Bottoms, row, density, drawn, bottom, hexes_across(g));
    let edge = star_hexes(g, Band::Bottoms, row, density, drawn, bottom, hexes_across(g));
    lemma_sheet_text_joined(edge.text, flush_right('\\', g.diagonal));
}

/// Appends a cell without a star system.
fn push_wall_cell(line: &mut String, geometry: &GridGeometry, band: Band, lead: char)
    ensures
        final(line)@ == old(line)@ + wall_cell(geometry@, band, lead),
{
    let diagonal = geometry.diagonal();
    let horizontal = geometry.horizontal();
    match band {
        Band::Middles => {
            push_char(line, lead);
            push_run(line, ' ', horizontal + 2 * (diagonal - 1));
            push_char(line, '\\');
            push_run(line, '_', horizontal);
        },
        Band::Bottoms => {
            push_flush_right(line, '\\', diagonal);
            push_run(line, '_', horizontal);
            push_flush_left(line, '/', diagonal);
            push_run(line, ' ', horizontal);
        },
    }
    assert(line@ =~= old(line)@ + wall_cell(geometry@, band, lead));
}

/// Appends a cell with the mark of a star system.
fn push_star_cell(line: &mut String, geometry: &GridGeometry, band: Band)
    ensures
        final(line)@ == old(line)@ + star_cell(geometry@, band),
{
    let diagonal = geometry.diagonal();
    let horizontal = geometry.horizontal();
    let mark = geometry.star_mark();
    match band {
        Band::Middles => {
            push_char(line, '/');
            push_run(line, ' ', (horizontal - 1) / 2 + diagonal - 1);
            push_char(line, mark);
            push_run(line, ' ', horizontal / 2 + diagonal - 1);
            push_char(line, '\\');
            push_run(line, '_', horizontal);
        },
        Band::Bottoms => {
            push_flush_right(line, '\\', diagonal);
            push_run(line, '_', horizontal);
            push_flush_left(line, '/', diagonal);
            push_run(line, ' ', (horizontal - 1) / 2);
            push_char(line, mark);
            push_run(line, ' ', horizontal / 2);
        },
    }
    assert(line@ =~= old(line)@ + star_cell(geometry@, band));
}

/// Draws the `i`-th hex of a line: throws for a star system and, where there is one, rolls
/// it and files it under the hex.
fn draw_star_hex<D: DiceSource>(
    band: Band,
    row: usize,
    i: usize,
    geometry: &GridGeometry,
    density_dm: isize,
    line: &mut String,
    rng: &mut D,
    starmap: &mut StarMap,
)
    requires
        i < hexes_across(geometry@),
    ensures
        ({
            let before = Strip {
                text: old(line)@,
                stars: old(starmap)@,
                next: old(rng).drawn().len() as int,
            };
            let to = hex_step(
                geometry@,
                band,
                row as int,
                density_dm as int,
                final(rng).drawn(),
                before,
                i as int,
            );
            &&& final(line)@ == to.text
            &&& final(starmap)@ == to.stars
            &&& final(rng).drawn().len() == to.next
            &&& grew_by(old(rng).drawn(), final(rng).drawn(), to.next - before.next)
        }),
{
    let rows = geometry.rows();
    let cols = geometry.cols();
    let closing = match band {
        Band::Middles => row == rows + 1,
        Band::Bottoms => false,
    };
    if closing {
        let leading_slash = if i == 0 {
            ' '
        } else {
            '/'
        };
        push_wall_cell(line, geometry, band, leading_slash);
        assert(grew_by(rng.drawn(), rng.drawn(), 0));
        return ;
    }
    let ghost at = rng.drawn().len() as int;
    let throw = dice(2, 0, rng);
    let ghost thrown = rng.drawn();
    proof {
        lemma_roll_total_bounds(thrown, at, 2);
    }
    if density_dm < 4 - throw {
        push_wall_cell(line, geometry, band, '/');
    } else {
        let system = StarSystem::generate(rng);
        let column = match band {
            Band::Middles => 2 * i + 1,
            Band::Bottoms => 2 * (i + 1),
        };
        starmap.insert((row, column), system);
        push_star_cell(line, geometry, band);
        proof {
            lemma_roll_total_same(thrown, rng.drawn(), at, 2);
        }
    }
}

/// Draws the hexes of a line behind what `line` holds already.
fn draw_star_hexes<D: DiceSource>(
    band: Band,
    row: usize,
    geometry: &GridGeometry,
    density_dm: isize,
    line: &mut String,
    rng: &mut D,
    starmap: &mut StarMap,
)
    ensures
        ({
            let from = Strip {
                text: old(line)@,
                stars: old(starmap)@,
                next: old(rng).drawn().len() as int,
            };
            let to = star_hexes(
                geometry@,
                band,
                row as int,
                density_dm as int,
                final(rng).drawn(),
                from,
                hexes_across(geometry@),
            );
            &&& final(line)@ == to.text
            &&& final(starmap)@ == to.stars
            &&& final(rng).drawn().len() == to.next
            &&& grew_by(old(rng).drawn(), final(rng).drawn(), to.next - from.next)
        }),
{
    let hexes = geometry.cols() / 2;
    let ghost g = geometry@;
    let ghost start = rng.drawn();
    let ghost from = Strip { text: line@, stars: starmap@, next: start.len() as int };
    let mut done: usize = 0;
    while done < hexes
        invariant
            done <= hexes,
            g == geometry@,
            hexes == hexes_across(g),
            from.next == start.len(),
            grew_by(start, rng.drawn(), rng.drawn().len() - start.len()),
            (Strip { text: line@, stars: starmap@, next: rng.drawn().len() as int }) == star_hexes(
                g,
                band,
                row as int,
                density_dm as int,
                rng.drawn(),
                from,
                done as nat,
            ),
        decreases hexes - done,
    {
        let ghost then = rng.drawn();
        draw_star_hex(band, row, done, geometry, density_dm, line, rng, starmap);
        proof {
            lemma_star_hexes_same(
                g,
                band,
                row as int,
                density_dm as int,
                then,
                rng.drawn(),
                from,
                done as nat,
            );
        }
        done = done + 1;
    }
}

/// Draws the middle line of a row, and rolls a star system for each hex that has one.
pub fn draw_hex_middles<D: DiceSource>(
    row: usize,
    geometry: &GridGeometry,
    density_dm: isize,
    rng: &mut D,
    starmap: &mut StarMap,
) -> (line: String)
    ensures
        ({
            let to = middle_line(
                geometry@,
                row as int,
                density_dm as int,
                final(rng).drawn(),
                old(starmap)@,
                old(rng).drawn().len() as int,
            );
            &&& line@ == to.text
            &&& final(starmap)@ == to.stars
            &&& final(rng).drawn().len() == to.next
            &&& grew_by(old(rng).drawn(), final(rng).drawn(), to.next - old(rng).drawn().len())
        }),
{
    let is_first_row = row == 1;
    let is_last_row = row == geometry.rows() + 1;
    let mut line = String::new();
    if is_last_row {
        push_run(&mut line, ' ', 4);
    } else {
        push_two_digits(&mut line, row);
        push_run(&mut line, ' ', 2);
    }
    draw_star_hexes(Band::Middles, row, geometry, density_dm, &mut line, rng, starmap);
    if !is_first_row {
        push_char(&mut line, '/');
    }
    line
}

/// Draws the bottom line of a row, and rolls a star system for each hex that has one.
pub fn draw_hex_bottoms<D: DiceSource>(
    row: usize,
    geometry: &GridGeometry,
    density_dm: isize,
    rng: &mut D,
    starmap: &mut StarMap,
) -> (line: String)
    ensures
        ({
            let to = bottom_line(
                geometry@,
                row as int,
                density_dm as int,
                final(rng).drawn(),
                old(starmap)@,
                old(rng).drawn().len() as int,
            );
            &&& line@ == to.text
            &&& final(starmap)@ == to.stars
            &&& final(rng).drawn().len() == to.next
            &&& grew_by(old(rng).drawn(), final(rng).drawn(), to.next - old(rng).drawn().len())
        }),
{
    let diagonal = geometry.diagonal();
    let mut line = String::new();
    push_run(&mut line, ' ', 4);
    draw_star_hexes(Band::Bottoms, row, geometry, density_dm, &mut line, rng, starmap);
    push_flush_right(&mut line, '\\', diagonal);
    line
}

} // verus!
