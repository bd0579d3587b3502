use quadrant_gen::draws::ScriptedDice;
use quadrant_gen::geometry::{GeometryError, GridGeometry};
use quadrant_gen::grid::{draw_grid, draw_step, next_state, DrawState};
use quadrant_gen::lines::{
    draw_bottom_hex_halves, draw_column_headers, draw_top_hex_halves, draw_very_top_edge,
};
use quadrant_gen::star_lines::{draw_hex_bottoms, draw_hex_middles};
use quadrant_gen::star_map::StarMap;

fn scripted(faces: &[isize]) -> ScriptedDice {
    ScriptedDice::new(faces.to_vec()).unwrap()
}

fn geometry(rows: usize, cols: usize, horizontal: usize, diagonal: usize) -> GridGeometry {
    GridGeometry::new(rows, cols, horizontal, diagonal).unwrap()
}

fn sheet(
    rows: usize,
    cols: usize,
    horizontal: usize,
    diagonal: usize,
    density: isize,
    faces: &[isize],
) -> (Vec<String>, StarMap, u64) {
    let mut source = scripted(faces);
    let mut map = StarMap::new();
    let lines = draw_grid(&geometry(rows, cols, horizontal, diagonal), density, &mut source, &mut map);
    (lines, map, source.draws_taken())
}

#[test]
fn geometry_keeps_its_dimensions() {
    let g = geometry(10, 8, 5, 2);
    assert_eq!(g.rows(), 10);
    assert_eq!(g.cols(), 8);
    assert_eq!(g.horizontal(), 5);
    assert_eq!(g.diagonal(), 2);
}

#[test]
fn geometry_without_rows_or_columns_is_refused() {
    assert_eq!(GridGeometry::new(0, 8, 5, 2).unwrap_err(), GeometryError::EmptyGrid);
    assert_eq!(GridGeometry::new(10, 0, 5, 2).unwrap_err(), GeometryError::EmptyGrid);
    assert_eq!(GridGeometry::new(0, 8, 1, 1).unwrap_err(), GeometryError::EmptyGrid);
}

#[test]
fn geometry_with_an_edge_below_two_is_refused() {
    assert_eq!(GridGeometry::new(10, 8, 1, 2).unwrap_err(), GeometryError::EdgeTooShort);
    assert_eq!(GridGeometry::new(10, 8, 5, 1).unwrap_err(), GeometryError::EdgeTooShort);
    assert_eq!(GridGeometry::new(10, 8, 5, 0).unwrap_err(), GeometryError::EdgeTooShort);
    assert_eq!(GridGeometry::new(usize::MAX, 8, 0, 2).unwrap_err(), GeometryError::EdgeTooShort);
}

#[test]
fn geometry_beyond_the_integers_is_refused() {
    assert_eq!(GridGeometry::new(usize::MAX, 8, 5, 2).unwrap_err(), GeometryError::TooLarge);
    assert_eq!(GridGeometry::new(10, 8, usize::MAX, 2).unwrap_err(), GeometryError::TooLarge);
    assert_eq!(GridGeometry::new(10, 8, 5, usize::MAX / 2).unwrap_err(), GeometryError::TooLarge);
}

#[test]
fn geometry_at_the_edge_of_the_integers_is_accepted() {
    assert!(GridGeometry::new(usize::MAX - 1, usize::MAX, 2, 2).is_ok());
    assert!(GridGeometry::new(1, 1, usize::MAX - 4, 2).is_ok());
    assert!(GridGeometry::new(1, 1, 3, usize::MAX / 2 - 1).is_ok());
}

#[test]
fn star_mark_is_a_capital_on_large_hexes_only() {
    assert_eq!(geometry(1, 2, 5, 2).star_mark(), 'o');
    assert_eq!(geometry(1, 2, 5, 3).star_mark(), 'O');
}

#[test]
fn column_headers_number_every_column() {
    assert_eq!(draw_column_headers(&geometry(1, 2, 5, 2)), "       01     02");
    assert_eq!(draw_column_headers(&geometry(1, 4, 5, 2)), "       01     02     03     04");
    assert_eq!(draw_column_headers(&geometry(1, 2, 4, 3)), "        01     02");
    assert_eq!(draw_column_headers(&geometry(1, 1, 2, 2)), "      01");
}

#[test]
fn column_headers_count_an_odd_last_column_too() {
    assert_eq!(draw_column_headers(&geometry(1, 3, 5, 2)), "       01     02     03");
}

#[test]
fn very_top_edge_draws_one_edge_for_each_pair_of_columns() {
    assert_eq!(draw_very_top_edge(&geometry(1, 2, 5, 2)), "      _____       ");
    assert_eq!(draw_very_top_edge(&geometry(1, 4, 5, 2)), "      _____         _____       ");
    assert_eq!(draw_very_top_edge(&geometry(1, 5, 5, 2)), "      _____         _____       ");
    assert_eq!(draw_very_top_edge(&geometry(1, 1, 5, 2)), "    ");
}

#[test]
fn top_hex_halves_of_the_first_row_have_no_closing_slant() {
    assert_eq!(draw_top_hex_halves(&geometry(1, 2, 5, 2), 0, true, false), "     /     \\      ");
}

#[test]
fn top_hex_halves_below_the_first_row_close_the_hex_on_the_right() {
    assert_eq!(
        draw_top_hex_halves(&geometry(2, 2, 5, 2), 0, false, false),
        "     /     \\       /"
    );
}

#[test]
fn top_hex_halves_of_the_closing_row_start_with_a_blank() {
    assert_eq!(
        draw_top_hex_halves(&geometry(1, 4, 5, 2), 0, false, true),
        "           \\       /     \\       /"
    );
}

#[test]
fn top_hex_halves_widen_from_line_to_line() {
    let g = geometry(1, 2, 4, 3);
    assert_eq!(draw_top_hex_halves(&g, 0, true, false), "      /    \\      ");
    assert_eq!(draw_top_hex_halves(&g, 1, true, false), "     /      \\     ");
    assert_eq!(draw_top_hex_halves(&g, 2, false, false), "    /        \\    /");
}

#[test]
fn bottom_hex_halves_narrow_from_line_to_line() {
    let g = geometry(1, 2, 4, 3);
    assert_eq!(draw_bottom_hex_halves(&g, 0), "    \\        /    \\");
    assert_eq!(draw_bottom_hex_halves(&g, 1), "     \\      /      \\");
    assert_eq!(draw_bottom_hex_halves(&g, 2), "      \\    /        \\");
}

#[test]
fn hex_middles_without_a_star_draw_walls() {
    let mut source = scripted(&[1]);
    let mut map = StarMap::new();
    let line = draw_hex_middles(1, &geometry(1, 2, 5, 2), 0, &mut source, &mut map);
    assert_eq!(line, "01  /       \\_____");
    assert!(map.is_empty());
    assert_eq!(source.draws_taken(), 2);
}

#[test]
fn hex_middles_with_a_star_mark_it_and_file_the_system() {
    let mut source = scripted(&[6]);
    let mut map = StarMap::new();
    let line = draw_hex_middles(2, &geometry(3, 4, 5, 2), 0, &mut source, &mut map);
    assert_eq!(line, "02  /   o   \\_____/   o   \\_____/");
    assert_eq!(map.len(), 2);
    assert_eq!(map.get((2, 1)).unwrap().uwp(), "A-101510101315-15");
    assert_eq!(map.get((2, 3)).unwrap().uwp(), "A-101510101315-15");
    assert_eq!(source.draws_taken(), 34);
}

#[test]
fn hex_middles_of_the_closing_row_throw_no_dice() {
    let mut source = scripted(&[6]);
    let mut map = StarMap::new();
    let line = draw_hex_middles(2, &geometry(1, 4, 5, 2), 0, &mut source, &mut map);
    assert_eq!(line, "            \\_____/       \\_____/");
    assert!(map.is_empty());
    assert_eq!(source.draws_taken(), 0);
}

#[test]
fn hex_middles_centre_the_mark_in_even_and_odd_widths() {
    let mut map = StarMap::new();
    let line = draw_hex_middles(1, &geometry(1, 2, 4, 3), 0, &mut scripted(&[6]), &mut map);
    assert_eq!(line, "01  /   O    \\____");
    let line = draw_hex_middles(1, &geometry(1, 2, 2, 2), 0, &mut scripted(&[6]), &mut map);
    assert_eq!(line, "01  / o  \\__");
}

#[test]
fn hex_middles_pad_the_row_number_to_two_digits_and_no_further() {
    let mut map = StarMap::new();
    let g = geometry(200, 2, 5, 2);
    let line = draw_hex_middles(9, &g, 0, &mut scripted(&[1]), &mut map);
    assert_eq!(line, "09  /       \\_____/");
    let line = draw_hex_middles(10, &g, 0, &mut scripted(&[1]), &mut map);
    assert_eq!(line, "10  /       \\_____/");
    let line = draw_hex_middles(123, &g, 0, &mut scripted(&[1]), &mut map);
    assert_eq!(line, "123  /       \\_____/");
}

#[test]
fn hex_bottoms_without_a_star_draw_edges() {
    let mut source = scripted(&[1]);
    let mut map = StarMap::new();
    let line = draw_hex_bottoms(1, &geometry(1, 2, 5, 2), 0, &mut source, &mut map);
    assert_eq!(line, "     \\_____/       \\");
    assert!(map.is_empty());
    assert_eq!(source.draws_taken(), 2);
}

#[test]
fn hex_bottoms_with_a_star_mark_the_even_column() {
    let mut source = scripted(&[6]);
    let mut map = StarMap::new();
    let line = draw_hex_bottoms(1, &geometry(1, 4, 5, 2), 0, &mut source, &mut map);
    assert_eq!(line, "     \\_____/   o   \\_____/   o   \\");
    assert_eq!(map.len(), 2);
    assert!(map.get((1, 2)).is_some());
    assert!(map.get((1, 4)).is_some());
    assert!(map.get((1, 1)).is_none());
    assert_eq!(source.draws_taken(), 34);
}

#[test]
fn hex_bottoms_on_large_hexes_use_the_capital_mark() {
    let mut map = StarMap::new();
    let line = draw_hex_bottoms(1, &geometry(1, 2, 4, 3), 0, &mut scripted(&[6]), &mut map);
    assert_eq!(line, "      \\____/   O    \\");
}

#[test]
fn a_star_needs_two_dice_and_the_modifier_to_reach_four() {
    let g = geometry(1, 2, 5, 2);
    let cases: [(&[isize], isize, bool); 8] = [
        (&[1], 0, false),
        (&[1], 1, false),
        (&[1], 2, true),
        (&[1, 2], 0, false),
        (&[2], 0, true),
        (&[6], -8, true),
        (&[6], -9, false),
        (&[3, 4], -4, false),
    ];
    for (faces, density, starred) in cases {
        let mut map = StarMap::new();
        draw_hex_middles(1, &g, density, &mut scripted(faces), &mut map);
        assert_eq!(!map.is_empty(), starred, "faces {:?}, modifier {}", faces, density);
    }
}

#[test]
fn a_star_is_decided_for_the_widest_modifiers() {
    let g = geometry(1, 2, 5, 2);
    let mut map = StarMap::new();
    draw_hex_middles(1, &g, isize::MAX, &mut scripted(&[1]), &mut map);
    assert_eq!(map.len(), 1);
    let mut map = StarMap::new();
    draw_hex_middles(1, &g, isize::MIN, &mut scripted(&[6]), &mut map);
    assert!(map.is_empty());
}

#[test]
fn states_follow_one_another_through_a_block() {
    let g = geometry(1, 2, 5, 2);
    let mut state = DrawState::DiagonalsUpper { diag_row_num: 0 };
    let mut seen = Vec::new();
    for _ in 0..4 {
        seen.push(state);
        state = next_state(state, &g);
    }
    assert_eq!(
        seen,
        vec![
            DrawState::DiagonalsUpper { diag_row_num: 0 },
            DrawState::Middles,
            DrawState::DiagonalsLower { diag_row_num: 0 },
            DrawState::BottomEdge,
        ]
    );
    assert_eq!(state, DrawState::DiagonalsUpper { diag_row_num: 0 });
}

#[test]
fn states_of_a_long_diagonal_spend_one_line_less_on_slants() {
    let g = geometry(1, 2, 5, 4);
    let mut state = DrawState::DiagonalsUpper { diag_row_num: 0 };
    let mut seen = Vec::new();
    for _ in 0..8 {
        seen.push(state);
        state = next_state(state, &g);
    }
    assert_eq!(
        seen,
        vec![
            DrawState::DiagonalsUpper { diag_row_num: 0 },
            DrawState::DiagonalsUpper { diag_row_num: 1 },
            DrawState::DiagonalsUpper { diag_row_num: 2 },
            DrawState::Middles,
            DrawState::DiagonalsLower { diag_row_num: 0 },
            DrawState::DiagonalsLower { diag_row_num: 1 },
            DrawState::DiagonalsLower { diag_row_num: 2 },
            DrawState::BottomEdge,
        ]
    );
    assert_eq!(state, DrawState::DiagonalsUpper { diag_row_num: 0 });
}

#[test]
fn a_step_below_the_last_row_leaves_lower_lines_blank() {
    let g = geometry(1, 2, 5, 2);
    let mut source = scripted(&[6]);
    let mut map = StarMap::new();
    let state = DrawState::DiagonalsLower { diag_row_num: 0 };
    assert_eq!(draw_step(state, 2, &g, 0, &mut source, &mut map), "");
    assert_eq!(draw_step(DrawState::BottomEdge, 2, &g, 0, &mut source, &mut map), "");
    assert!(map.is_empty());
    assert_eq!(source.draws_taken(), 0);
}

#[test]
fn a_step_draws_the_line_of_its_state() {
    let g = geometry(1, 2, 5, 2);
    let mut source = scripted(&[1]);
    let mut map = StarMap::new();
    let upper = DrawState::DiagonalsUpper { diag_row_num: 0 };
    let lower = DrawState::DiagonalsLower { diag_row_num: 0 };
    assert_eq!(draw_step(upper, 1, &g, 0, &mut source, &mut map), "     /     \\      ");
    assert_eq!(draw_step(DrawState::Middles, 1, &g, 0, &mut source, &mut map), "01  /       \\_____");
    assert_eq!(draw_step(lower, 1, &g, 0, &mut source, &mut map), "    \\       /     \\");
    assert_eq!(
        draw_step(DrawState::BottomEdge, 1, &g, 0, &mut source, &mut map),
        "     \\_____/       \\"
    );
    assert_eq!(draw_step(upper, 2, &g, 0, &mut source, &mut map), "           \\       /");
}

#[test]
fn grid_of_one_row_without_stars() {
    let (lines, map, taken) = sheet(1, 2, 5, 2, 0, &[1]);
    let expected = vec![
        "       01     02",
        "      _____       ",
        "     /     \\      ",
        "01  /       \\_____",
        "    \\       /     \\",
        "     \\_____/       \\",
        "           \\       /",
        "            \\_____/",
        "",
        "",
    ];
    assert_eq!(lines, expected);
    assert!(map.is_empty());
    assert_eq!(taken, 4);
}

#[test]
fn grid_of_one_row_with_a_star_in_every_hex() {
    let (lines, map, taken) = sheet(1, 2, 5, 2, 0, &[6]);
    let expected = vec![
        "       01     02",
        "      _____       ",
        "     /     \\      ",
        "01  /   o   \\_____",
        "    \\       /     \\",
        "     \\_____/   o   \\",
        "           \\       /",
        "            \\_____/",
        "",
        "",
    ];
    assert_eq!(lines, expected);
    assert_eq!(map.len(), 2);
    assert_eq!(map.get((1, 1)).unwrap().uwp(), "A-101510101315-15");
    assert_eq!(map.get((1, 2)).unwrap().uwp(), "A-101510101315-15");
    assert_eq!(taken, 34);
}

#[test]
fn grid_of_two_rows_and_four_columns() {
    let (lines, map, taken) = sheet(2, 4, 5, 2, 0, &[1]);
    let expected = vec![
        "       01     02     03     04",
        "      _____         _____       ",
        "     /     \\       /     \\      ",
        "01  /       \\_____/       \\_____",
        "    \\       /     \\       /     \\",
        "     \\_____/       \\_____/       \\",
        "     /     \\       /     \\       /",
        "02  /       \\_____/       \\_____/",
        "    \\       /     \\       /     \\",
        "     \\_____/       \\_____/       \\",
        "           \\       /     \\       /",
        "            \\_____/       \\_____/",
        "",
        "",
    ];
    assert_eq!(lines, expected);
    assert!(map.is_empty());
    assert_eq!(taken, 16);
}

#[test]
fn grid_with_a_diagonal_of_three() {
    let (lines, map, _) = sheet(1, 2, 4, 3, 0, &[1]);
    let expected = vec![
        "        01     02",
        "       ____       ",
        "      /    \\      ",
        "     /      \\     ",
        "01  /        \\____",
        "    \\        /    \\",
        "     \\      /      \\",
        "      \\____/        \\",
        "           \\        /",
        "            \\      /",
        "             \\____/",
        "",
        "",
        "",
    ];
    assert_eq!(lines, expected);
    assert!(map.is_empty());
}

#[test]
fn grid_takes_its_draws_in_the_order_of_the_lines() {
    // Middle hex: 2 and 2 reach 4 at once, then fifteen faces of system; the bottom hex
    // throws 1 and 2 and stays empty.
    let faces = [2, 2, 3, 4, 4, 4, 5, 2, 4, 5, 3, 3, 2, 5, 4, 4, 2, 1, 2];
    let (lines, map, taken) = sheet(1, 2, 5, 2, 0, &faces);
    assert_eq!(lines[3], "01  /   o   \\_____");
    assert_eq!(lines[5], "     \\_____/       \\");
    assert_eq!(map.len(), 1);
    assert_eq!(map.get((1, 1)).unwrap().uwp(), "C-565766-4");
    assert_eq!(taken, 19);
}

#[test]
fn grid_has_two_lines_and_a_block_for_every_row_and_the_closing_row() {
    for (rows, cols, horizontal, diagonal) in
        [(1, 2, 5, 2), (3, 4, 5, 2), (2, 3, 4, 3), (4, 1, 2, 5), (10, 8, 5, 2)]
    {
        let (lines, _, _) = sheet(rows, cols, horizontal, diagonal, 0, &[3, 5, 1, 6, 2]);
        assert_eq!(lines.len(), 2 + (rows + 1) * 2 * diagonal);
    }
}

#[test]
fn grid_lines_hold_only_the_characters_of_a_sheet() {
    for diagonal in [2, 3] {
        let (lines, _, _) = sheet(12, 8, 5, diagonal, 0, &[3, 5, 1, 6, 2, 4, 4]);
        for line in lines {
            assert!(line.chars().all(|c| " _/\\oO0123456789".contains(c)), "{:?}", line);
        }
    }
}

#[test]
fn grid_files_stars_on_the_sheet_only() {
    let (_, map, _) = sheet(3, 5, 5, 2, 0, &[6]);
    assert_eq!(map.len(), 12);
    for row in 0..6 {
        for col in 0..8 {
            let on_sheet = (1..=3).contains(&row) && (1..=4).contains(&col);
            assert_eq!(map.get((row, col)).is_some(), on_sheet, "hex {} {}", row, col);
        }
    }
}

#[test]
fn grid_keeps_the_systems_that_the_map_held() {
    let mut source = scripted(&[1]);
    let mut map = StarMap::new();
    let mut early = scripted(&[6]);
    draw_grid(&geometry(1, 2, 5, 2), 0, &mut early, &mut map);
    assert_eq!(map.len(), 2);
    draw_grid(&geometry(2, 2, 5, 2), 0, &mut source, &mut map);
    assert_eq!(map.len(), 2);
    assert_eq!(map.get((1, 1)).unwrap().size(), 10);
}

#[test]
fn grid_of_one_column_draws_no_hex() {
    let (lines, map, taken) = sheet(1, 1, 5, 2, 0, &[6]);
    let expected =
        vec!["       01", "    ", "    ", "01  ", "    \\", "     \\", "     /", "    /", "", ""];
    assert_eq!(lines, expected);
    assert!(map.is_empty());
    assert_eq!(taken, 0);
}

#[test]
fn grid_is_decided_by_the_script() {
    let faces = [4, 2, 6, 1, 3, 5, 5, 2, 6, 6, 1, 4, 3];
    let (first_lines, first_map, first_taken) = sheet(4, 6, 5, 2, 0, &faces);
    let (second_lines, second_map, second_taken) = sheet(4, 6, 5, 2, 0, &faces);
    assert_eq!(first_lines, second_lines);
    assert_eq!(first_taken, second_taken);
    assert_eq!(first_map.len(), second_map.len());
    assert!(first_map.len() > 0);
    for row in 1..=4 {
        for col in 1..=6 {
            let first = first_map.get((row, col)).map(|system| system.uwp());
            let second = second_map.get((row, col)).map(|system| system.uwp());
            assert_eq!(first, second);
        }
    }
}

#[test]
fn grid_with_a_sparse_modifier_holds_fewer_stars() {
    let faces = [4, 2, 6, 1, 3, 5, 5, 2, 6, 6, 1, 4, 3];
    let (_, dense, _) = sheet(6, 8, 5, 2, 2, &faces);
    let (_, sparse, _) = sheet(6, 8, 5, 2, -6, &faces);
    assert!(dense.len() > sparse.len());
}
