//! The static board: which cells the border and the background fill
//! occupy, and with which glyphs. The lists are computed and pinned down
//! here; pushing them to the screen happens outside the library.

use vstd::assert_seqs_equal;
use vstd::prelude::*;

use crate::{Coord, DrawCmd, TerminalSize};

verus! {

/// Pushing onto the right half of a concatenation is pushing onto the
/// whole.
proof fn lemma_concat_push<T>(a: Seq<T>, b: Seq<T>, x: T)
    ensures
        a + b.push(x) == (a + b).push(x),
{
    assert_seqs_equal!(a + b.push(x) == (a + b).push(x));
}

/// The top and bottom border runs, drawn column by column: for each
/// column strictly between the corners, one `═` on row zero and one on
/// the bottom row.
pub open spec fn frame_top_bottom(size: TerminalSize, col: int) -> Seq<DrawCmd>
    decreases col,
{
    if col <= 1 {
        Seq::empty()
    } else {
        frame_top_bottom(size, col - 1).push(
            DrawCmd { at: Coord { col: (col - 1) as u16, row: 0 }, glyph: '═' },
        ).push(DrawCmd { at: Coord { col: (col - 1) as u16, row: size.n_rows }, glyph: '═' })
    }
}

/// The side border runs, drawn row by row: for each row strictly
/// between the corners, one `║` on column zero and one on the right
/// edge.
pub open spec fn frame_sides(size: TerminalSize, row: int) -> Seq<DrawCmd>
    decreases row,
{
    if row <= 1 {
        Seq::empty()
    } else {
        frame_sides(size, row - 1).push(
            DrawCmd { at: Coord { col: 0, row: (row - 1) as u16 }, glyph: '║' },
        ).push(
            DrawCmd {
                at: Coord { col: ((size.n_cols / 2) * 2) as u16, row: (row - 1) as u16 },
                glyph: '║',
            },
        )
    }
}

/// The four corners of the border.
pub open spec fn frame_corners(size: TerminalSize) -> Seq<DrawCmd> {
    let right = ((size.n_cols / 2) * 2) as u16;
    seq![
        DrawCmd { at: Coord { col: 0, row: 0 }, glyph: '╔' },
        DrawCmd { at: Coord { col: 0, row: size.n_rows }, glyph: '╚' },
        DrawCmd { at: Coord { col: right, row: 0 }, glyph: '╗' },
        DrawCmd { at: Coord { col: right, row: size.n_rows }, glyph: '╝' },
    ]
}

/// Everything the border draws, in drawing order: the horizontal runs,
/// the vertical runs, then the corners.
pub open spec fn frame_draws(size: TerminalSize) -> Seq<DrawCmd> {
    frame_top_bottom(size, (size.n_cols / 2) * 2) + frame_sides(size, size.n_rows as int)
        + frame_corners(size)
}

/// The cells of the board's border: `═` runs on the top and bottom
/// rows, `║` runs on the left and right edges, and the four corners.
/// The right edge sits on the last even column, since board cells are
/// two columns wide.
pub fn frame_cells(size: TerminalSize) -> (r: Vec<DrawCmd>)
    ensures
        r@ == frame_draws(size),
{
    let right = (size.n_cols / 2) * 2;
    let bottom = size.n_rows;
    let mut draws: Vec<DrawCmd> = Vec::new();
    let mut col: u16 = 1;
    while col < right
        invariant
            1 <= col,
            col <= right || col == 1,
            right == (size.n_cols / 2) * 2,
            bottom == size.n_rows,
            draws@ == frame_top_bottom(size, col as int),
        decreases right - col,
    {
        draws.push(DrawCmd { at: Coord { col, row: 0 }, glyph: '═' });
        draws.push(DrawCmd { at: Coord { col, row: bottom }, glyph: '═' });
        col += 1;
    }
    assert(draws@ == frame_top_bottom(size, right as int));
    let ghost horizontal = draws@;
    let mut row: u16 = 1;
    while row < bottom
        invariant
            1 <= row,
            row <= bottom || row == 1,
            right == (size.n_cols / 2) * 2,
            bottom == size.n_rows,
            horizontal == frame_top_bottom(size, right as int),
            draws@ == horizontal + frame_sides(size, row as int),
        decreases bottom - row,
    {
        draws.push(DrawCmd { at: Coord { col: 0, row }, glyph: '║' });
        proof {
            lemma_concat_push(
                horizontal,
                frame_sides(size, row as int),
                DrawCmd { at: Coord { col: 0, row }, glyph: '║' },
            );
        }
        draws.push(DrawCmd { at: Coord { col: right, row }, glyph: '║' });
        proof {
            lemma_concat_push(
                horizontal,
                frame_sides(size, row as int).push(
                    DrawCmd { at: Coord { col: 0, row }, glyph: '║' },
                ),
                DrawCmd { at: Coord { col: right, row }, glyph: '║' },
            );
        }
        row += 1;
    }
    assert(draws@ == horizontal + frame_sides(size, bottom as int));
    draws.push(DrawCmd { at: Coord { col: 0, row: 0 }, glyph: '╔' });
    draws.push(DrawCmd { at: Coord { col: 0, row: bottom }, glyph: '╚' });
    draws.push(DrawCmd { at: Coord { col: right, row: 0 }, glyph: '╗' });
    draws.push(DrawCmd { at: Coord { col: right, row: bottom }, glyph: '╝' });
    proof {
        assert_seqs_equal!(draws@ == frame_draws(size));
    }
    draws
}

/// The background run of one board column `col`: a pair of blanks on
/// each row strictly between the top and bottom border, covering the
/// even screen column `2 * col` and the odd one beside it.
pub open spec fn background_column(size: TerminalSize, col: int, row: int) -> Seq<DrawCmd>
    decreases row,
{
    if row <= 1 {
        Seq::empty()
    } else {
        background_column(size, col, row - 1).push(
            DrawCmd { at: Coord { col: (2 * col) as u16, row: (row - 1) as u16 }, glyph: ' ' },
        ).push(
            DrawCmd { at: Coord { col: (2 * col + 1) as u16, row: (row - 1) as u16 }, glyph: ' ' },
        )
    }
}

/// Everything the background fill draws, column by column.
pub open spec fn background_draws(size: TerminalSize, col: int) -> Seq<DrawCmd>
    decreases col,
{
    if col <= 1 {
        Seq::empty()
    } else {
        background_draws(size, col - 1) + background_column(size, col - 1, size.n_rows as int)
    }
}

/// The cells of the background fill: every interior board cell blanked,
/// two screen columns per board column.
pub fn background_cells(size: TerminalSize) -> (r: Vec<DrawCmd>)
    ensures
        r@ == background_draws(size, (size.n_cols / 2) as int),
{
    let half = size.n_cols / 2;
    let mut draws: Vec<DrawCmd> = Vec::new();
    let mut col: u16 = 1;
    while col < half
        invariant
            1 <= col,
            col <= half || col == 1,
            half == size.n_cols / 2,
            draws@ == background_draws(size, col as int),
        decreases half - col,
    {
        let ghost before = draws@;
        let mut row: u16 = 1;
        while row < size.n_rows
            invariant
                1 <= row,
                row <= size.n_rows || row == 1,
                col < half,
                half == size.n_cols / 2,
                before == background_draws(size, col as int),
                draws@ == before + background_column(size, col as int, row as int),
            decreases size.n_rows - row,
        {
            draws.push(DrawCmd { at: Coord { col: 2 * col, row }, glyph: ' ' });
            proof {
                lemma_concat_push(
                    before,
                    background_column(size, col as int, row as int),
                    DrawCmd { at: Coord { col: (2 * col) as u16, row }, glyph: ' ' },
                );
            }
            draws.push(DrawCmd { at: Coord { col: 2 * col + 1, row }, glyph: ' ' });
            proof {
                lemma_concat_push(
                    before,
                    background_column(size, col as int, row as int).push(
                        DrawCmd { at: Coord { col: (2 * col) as u16, row }, glyph: ' ' },
                    ),
                    DrawCmd { at: Coord { col: (2 * col + 1) as u16, row }, glyph: ' ' },
                );
            }
            row += 1;
        }
        col += 1;
    }
    draws
}

} // verus!
