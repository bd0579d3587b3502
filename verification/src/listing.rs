//! The listing below a sheet: one line for every hex that holds a star system.

use crate::star_map::{encoded, Profile, StarMap};
use crate::text::{push_run, push_two_digits, run, texts, two_digits};
use vstd::prelude::*;
use vstd::string::StringExecFns;

verus! {

/// How a hex is named in the listing, and in which order the hexes are listed.
#[derive(Clone, Copy, Debug, PartialEq, Eq, Structural)]
pub enum AxisStyle {
    /// Row number first, then column number; listed row by row.
    RowCol,
    /// Column number (x) first, then row number (y); listed column by column.
    XY,
}

/// The line of one star system: the two numbers of its hex, two digits each, four blanks,
/// and the system's text code.
pub open spec fn listing_entry(row: int, col: int, p: Profile, style: AxisStyle) -> Seq<char> {
    (match style {
        AxisStyle::RowCol => two_digits(row as nat) + two_digits(col as nat),
        AxisStyle::XY => two_digits(col as nat) + two_digits(row as nat),
    }) + run(' ', 4) + encoded(p)
}

/// The hex that a listing reaches at step `inner` of its pass `outer`, both counted from 1:
/// a pass is a row where rows come first, and a column where columns do.
pub open spec fn scanned_cell(style: AxisStyle, outer: int, inner: int) -> (int, int) {
    match style {
        AxisStyle::RowCol => (outer, inner),
        AxisStyle::XY => (inner, outer),
    }
}

/// The lines of the first `count` hexes of one pass.
pub open spec fn pass_entries(
    stars: Map<(int, int), Profile>,
    style: AxisStyle,
    outer: int,
    count: nat,
) -> Seq<Seq<char>>
    decreases count,
{
    if count == 0 {
        Seq::empty()
    } else {
        let before = pass_entries(stars, style, outer, (count - 1) as nat);
        let c = scanned_cell(style, outer, count as int);
        if stars.contains_key(c) {
            before.push(listing_entry(c.0, c.1, stars[c], style))
        } else {
            before
        }
    }
}

/// The lines of the first `passes` passes, each over `across` hexes.
pub open spec fn scan_entries(
    stars: Map<(int, int), Profile>,
    style: AxisStyle,
    passes: nat,
    across: nat,
) -> Seq<Seq<char>>
    decreases passes,
{
    if passes == 0 {
        Seq::empty()
    } else {
        scan_entries(stars, style, (passes - 1) as nat, across) + pass_entries(
            stars,
            style,
            passes as int,
            across,
        )
    }
}

/// The listing of a sheet of `rows` by `cols` hexes: row by row, or column by column.
pub open spec fn listing(
    stars: Map<(int, int), Profile>,
    rows: nat,
    cols: nat,
    style: AxisStyle,
) -> Seq<Seq<char>> {
    match style {
        AxisStyle::RowCol => scan_entries(stars, style, rows, cols),
        AxisStyle::XY => scan_entries(stars, style, cols, rows),
    }
}

/// A map without star systems has an empty listing.
pub proof fn lemma_listing_of_empty_map(rows: nat, cols: nat, style: AxisStyle)
    ensures
        listing(Map::<(int, int), Profile>::empty(), rows, cols, style) == Seq::<
            Seq<char>,
        >::empty(),
{
    let stars = Map::<(int, int), Profile>::empty();
    match style {
        AxisStyle::RowCol => lemma_scan_of_empty_map(style, rows, cols),
        AxisStyle::XY => lemma_scan_of_empty_map(style, cols, rows),
    }
}

proof fn lemma_pass_of_empty_map(style: AxisStyle, outer: int, count: nat)
    ensures
        pass_entries(Map::<(int, int), Profile>::empty(), style, outer, count) == Seq::<
            Seq<char>,
        >::empty(),
    decreases count,
{
    if count > 0 {
        lemma_pass_of_empty_map(style, outer, (count - 1) as nat);
    }
}

proof fn lemma_scan_of_empty_map(style: AxisStyle, passes: nat, across: nat)
    ensures
        scan_entries(Map::<(int, int), Profile>::empty(), style, passes, across) == Seq::<
            Seq<char>,
        >::empty(),
    decreases passes,
{
    if passes > 0 {
        lemma_scan_of_empty_map(style, (passes - 1) as nat, across);
        lemma_pass_of_empty_map(style, passes as int, across);
        assert(Seq::<Seq<char>>::empty() + Seq::<Seq<char>>::empty() =~= Seq::<
            Seq<char>,
        >::empty());
    }
}

/// The line that the listing shows for a hex, or `None` where the hex holds no star system.
pub fn print_star_system(row: usize, col: usize, starmap: &StarMap, axis_style: AxisStyle) -> (line:
    Option<String>)
    ensures
        line.is_some() <==> starmap@.contains_key((row as int, col as int)),
        line matches Some(text) ==> text@ == listing_entry(
            row as int,
            col as int,
            starmap@[(row as int, col as int)],
            axis_style,
        ),
{
    match starmap.get((row, col)) {
        Some(starsys) => {
            let mut text = String::new();
            match axis_style {
                AxisStyle::RowCol => {
                    push_two_digits(&mut text, row);
                    push_two_digits(&mut text, col);
                },
                AxisStyle::XY => {
                    push_two_digits(&mut text, col);
                    push_two_digits(&mut text, row);
                },
            }
            push_run(&mut text, ' ', 4);
            let code = starsys.uwp();
            text.append(code.as_str());
            assert(text@ =~= listing_entry(row as int, col as int, starsys@, axis_style));
            Some(text)
        },
        None => None,
    }
}

/// Lists the star systems of a sheet of `rows` by `cols` hexes, one line each: row by row
/// for `RowCol`, column by column for `XY`.
pub fn generate_systems(starmap: &StarMap, rows: usize, cols: usize, axis_style: AxisStyle) -> (lines:
    Vec<String>)
    ensures
        texts(lines@) == listing(starmap@, rows as nat, cols as nat, axis_style),
{
    let (passes, across) = match axis_style {
        AxisStyle::RowCol => (rows, cols),
        AxisStyle::XY => (cols, rows),
    };
    let ghost stars = starmap@;
    let mut lines: Vec<String> = Vec::new();
    assert(texts(lines@) =~= scan_entries(stars, axis_style, 0, across as nat));
    let mut pass: usize = 0;
    while pass < passes
        invariant
            pass <= passes,
            stars == starmap@,
            texts(lines@) == scan_entries(stars, axis_style, pass as nat, across as nat),
        decreases passes - pass,
    {
        let ghost above = texts(lines@);
        let mut step: usize = 0;
        assert(texts(lines@) =~= above + pass_entries(stars, axis_style, pass + 1, 0));
        while step < across
            invariant
                step <= across,
                pass < passes,
                stars == starmap@,
                texts(lines@) == above + pass_entries(
                    stars,
                    axis_style,
                    pass + 1,
                    step as nat,
                ),
            decreases across - step,
        {
            let (row, col) = match axis_style {
                AxisStyle::RowCol => (pass + 1, step + 1),
                AxisStyle::XY => (step + 1, pass + 1),
            };
            let ghost listed = lines@;
            match print_star_system(row, col, starmap, axis_style) {
                Some(text) => {
                    lines.push(text);
                    assert(texts(lines@) =~= texts(listed).push(text@));
                    assert(texts(lines@) =~= above + pass_entries(
                        stars,
                        axis_style,
                        pass + 1,
                        (step + 1) as nat,
                    ));
                },
                None => {},
            }
            step = step + 1;
        }
        pass = pass + 1;
    }
    lines
}

} // verus!
