//! The dimensions of a sector sheet: how many hexes, and how long their edges are drawn.

use vstd::prelude::*;

verus! {

/// The dimensions of a sheet, as numbers: the model that contracts speak of.
pub struct Geometry {
    pub rows: int,
    pub cols: int,
    pub horizontal: int,
    pub diagonal: int,
}

/// Why a set of dimensions cannot be drawn.
#[derive(Clone, Copy, Debug, PartialEq, Eq, Structural)]
pub enum GeometryError {
    /// The sheet has no row or no column.
    EmptyGrid,
    /// An edge is shorter than two characters.
    EdgeTooShort,
    /// A line of the sheet, or its row count, would not fit the machine's integers.
    TooLarge,
}

/// A sheet can be drawn when it has at least one row and one column, both edges are at least
/// two characters long, and the widths that drawing adds up fit a `usize`.
pub open spec fn drawable(g: Geometry) -> bool {
    &&& 1 <= g.rows < usize::MAX
    &&& 1 <= g.cols <= usize::MAX
    &&& 2 <= g.horizontal
    &&& 2 <= g.diagonal
    &&& g.horizontal + 2 * g.diagonal <= usize::MAX
}

/// What `GridGeometry::new` makes of four dimensions: the first fault found, or the sheet.
pub open spec fn checked(rows: int, cols: int, horizontal: int, diagonal: int) -> Result<
    Geometry,
    GeometryError,
> {
    if rows < 1 || cols < 1 {
        Err(GeometryError::EmptyGrid)
    } else if horizontal < 2 || diagonal < 2 {
        Err(GeometryError::EdgeTooShort)
    } else if rows >= usize::MAX || horizontal + 2 * diagonal > usize::MAX {
        Err(GeometryError::TooLarge)
    } else {
        Ok(Geometry { rows, cols, horizontal, diagonal })
    }
}

/// The mark of a star system: a capital where the hexes are drawn large.
pub open spec fn star_mark(g: Geometry) -> char {
    if g.diagonal <= 2 {
        'o'
    } else {
        'O'
    }
}

/// How many hexes one line of a row draws: a pair of columns each.
pub open spec fn hexes_across(g: Geometry) -> nat {
    (g.cols / 2) as nat
}

/// Dimensions that have been checked and can be drawn.
#[derive(Clone, Copy, Debug)]
pub struct GridGeometry {
    rows: usize,
    cols: usize,
    horizontal: usize,
    diagonal: usize,
}

impl View for GridGeometry {
    type V = Geometry;

    closed spec fn view(&self) -> Geometry {
        Geometry {
            rows: self.rows as int,
            cols: self.cols as int,
            horizontal: self.horizontal as int,
            diagonal: self.diagonal as int,
        }
    }
}

impl GridGeometry {
    #[verifier::type_invariant]
    spec fn inv(self) -> bool {
        drawable(self@)
    }

    /// Checks four dimensions and keeps them if a sheet of them can be drawn.
    pub fn new(rows: usize, cols: usize, horizontal: usize, diagonal: usize) -> (made: Result<
        GridGeometry,
        GeometryError,
    >)
        ensures
            match made {
                Ok(geometry) => checked(rows as int, cols as int, horizontal as int, diagonal as int)
                    == Ok::<Geometry, GeometryError>(geometry@) && drawable(geometry@),
                Err(fault) => checked(rows as int, cols as int, horizontal as int, diagonal as int)
                    == Err::<Geometry, GeometryError>(fault),
            },
    {
        if rows < 1 || cols < 1 {
            Err(GeometryError::EmptyGrid)
        } else if horizontal < 2 || diagonal < 2 {
            Err(GeometryError::EdgeTooShort)
        } else if rows == usize::MAX || diagonal > (usize::MAX - horizontal) / 2 {
            Err(GeometryError::TooLarge)
        } else {
            Ok(GridGeometry { rows, cols, horizontal, diagonal })
        }
    }

    /// The number of rows of hexes.
    pub fn rows(&self) -> (value: usize)
        ensures
            value == self@.rows,
            drawable(self@),
    {
        proof {
            use_type_invariant(self);
        }
        self.rows
    }

    /// The number of columns of hexes.
    pub fn cols(&self) -> (value: usize)
        ensures
            value == self@.cols,
            drawable(self@),
    {
        proof {
            use_type_invariant(self);
        }
        self.cols
    }

    /// The number of characters in a horizontal hex edge.
    pub fn horizontal(&self) -> (value: usize)
        ensures
            value == self@.horizontal,
            drawable(self@),
    {
        proof {
            use_type_invariant(self);
        }
        self.horizontal
    }

    /// The number of characters in a diagonal hex edge.
    pub fn diagonal(&self) -> (value: usize)
        ensures
            value == self@.diagonal,
            drawable(self@),
    {
        proof {
            use_type_invariant(self);
        }
        self.diagonal
    }

    /// The character that marks a star system on this sheet.
    pub fn star_mark(&self) -> (mark: char)
        ensures
            mark == star_mark(self@),
    {
        if self.diagonal <= 2 {
            'o'
        } else {
            'O'
        }
    }
}

} // verus!
