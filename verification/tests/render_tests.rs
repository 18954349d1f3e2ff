use snake_game::render::{background_cells, frame_cells};
use snake_game::{Coord, TerminalSize};

fn size(n_cols: u16, n_rows: u16) -> TerminalSize {
    TerminalSize { n_cols, n_rows }
}

#[test]
fn frame_surrounds_the_board() {
    // right edge at column 8, bottom row 5: 7 + 7 horizontal cells,
    // 4 + 4 vertical cells, 4 corners.
    let draws = frame_cells(size(8, 5));
    assert_eq!(draws.len(), 26);
    assert_eq!(draws[0].at, Coord { col: 1, row: 0 });
    assert_eq!(draws[0].glyph, '═');
    assert_eq!(draws[1].at, Coord { col: 1, row: 5 });
    assert_eq!(draws[1].glyph, '═');
    assert_eq!(draws[13].at, Coord { col: 7, row: 5 });
    assert_eq!(draws[14].at, Coord { col: 0, row: 1 });
    assert_eq!(draws[14].glyph, '║');
    assert_eq!(draws[15].at, Coord { col: 8, row: 1 });
    assert_eq!(draws[21].at, Coord { col: 8, row: 4 });
    let corners: Vec<(Coord, char)> = draws[22..].iter().map(|d| (d.at, d.glyph)).collect();
    assert_eq!(
        corners,
        vec![
            (Coord { col: 0, row: 0 }, '╔'),
            (Coord { col: 0, row: 5 }, '╚'),
            (Coord { col: 8, row: 0 }, '╗'),
            (Coord { col: 8, row: 5 }, '╝'),
        ]
    );
}

#[test]
fn frame_right_edge_sits_on_an_even_column() {
    let draws = frame_cells(size(9, 5));
    // A 9-column terminal still closes the border on column 8.
    assert!(draws.iter().all(|d| d.at.col <= 8));
    assert!(draws.iter().any(|d| d.at.col == 8 && d.glyph == '╝'));
}

#[test]
fn background_blanks_the_interior() {
    // Board columns 1..4, rows 1..5: 3 * 4 cells, two blanks each.
    let draws = background_cells(size(8, 5));
    assert_eq!(draws.len(), 24);
    assert_eq!(draws[0].at, Coord { col: 2, row: 1 });
    assert_eq!(draws[0].glyph, ' ');
    assert_eq!(draws[1].at, Coord { col: 3, row: 1 });
    assert_eq!(draws[7].at, Coord { col: 3, row: 4 });
    assert_eq!(draws[8].at, Coord { col: 4, row: 1 });
    assert!(draws.iter().all(|d| d.glyph == ' '));
    assert!(draws
        .iter()
        .all(|d| (2..8).contains(&d.at.col) && (1..5).contains(&d.at.row)));
}

#[test]
fn degenerate_boards_draw_no_interior() {
    assert!(background_cells(size(2, 5)).is_empty());
    assert!(background_cells(size(8, 1)).is_empty());
    // A tiny board still closes its four corners.
    assert_eq!(frame_cells(size(2, 1)).len(), 6);
}
