//! Hex-grid sector maps rendered as text, with star systems rolled from dice tables.
//!
//! A sheet is drawn line by line. Two lines of every row throw dice for each of their hexes;
//! where the throw succeeds a star system is rolled from the same stream of dice, filed under
//! the hex in a [`star_map::StarMap`], and marked on the sheet. A listing of the map, one line
//! for each system, goes below the sheet.
//!
//! * [`draws`]: where die faces come from, scripted or random.
//! * [`util`]: throwing dice, clamping, hexadecimal digits.
//! * [`star_map`]: the star system, its dice tables and text code, and the map of a sector.
//! * [`geometry`]: the dimensions of a sheet.
//! * [`text`]: runs, numbers and aligned marks, appended to a line.
//! * [`lines`]: the lines that no die decides.
//! * [`star_lines`]: the lines on which star systems appear.
//! * [`grid`]: the order of the lines, and the sheet as a whole.
//! * [`listing`]: the lines below the sheet.

pub mod draws;
pub mod geometry;
pub mod grid;
pub mod lines;
pub mod listing;
pub mod star_lines;
pub mod star_map;
pub mod text;
pub mod util;
