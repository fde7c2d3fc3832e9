//! The board: a fixed grid of cells, with collision testing, placement and
//! the clearing of full rows.

use vstd::prelude::*;

use crate::catalog::Color;
use crate::grid::{grid_view, occupied};
use crate::piece::Tetromino;

verus! {

/// Number of columns of the board.
pub const BOARD_WIDTH: usize = 10;

/// Number of rows of the board; row 0 is the top.
pub const BOARD_HEIGHT: usize = 20;

/// One cell of the board.
#[derive(Clone, Copy, PartialEq, Eq, Structural, Debug)]
pub enum Cell {
    Empty,
    Filled(Color),
}

/// The rows of a board, top to bottom, each from left to right.
pub open spec fn is_board(b: Seq<Seq<Cell>>) -> bool {
    &&& b.len() == BOARD_HEIGHT
    &&& forall|r: int| 0 <= r < BOARD_HEIGHT ==> (#[trigger] b[r]).len() == BOARD_WIDTH
}

/// Cell `(r, c)` of a grid whose corner stands at column `x`, row `y` may be
/// occupied: it lies between the walls and above the floor and, where it is
/// not above the top, the board is empty there.
pub open spec fn cell_fits(b: Seq<Seq<Cell>>, x: int, y: int, r: int, c: int) -> bool {
    &&& 0 <= x + c < BOARD_WIDTH
    &&& y + r < BOARD_HEIGHT
    &&& (0 <= y + r ==> b[y + r][x + c] == Cell::Empty)
}

/// Every occupied cell of `grid`, with its corner at `(x, y)`, fits.
pub open spec fn valid_position(b: Seq<Seq<Cell>>, grid: Seq<Seq<bool>>, x: int, y: int) -> bool {
    forall|r: int, c: int| #[trigger] occupied(grid, r, c) ==> cell_fits(b, x, y, r, c)
}

/// The board after the occupied cells of `grid`, with its corner at `(x, y)`,
/// were filled with `color`. Cells of the grid that lie off the board leave
/// no mark.
pub open spec fn placed(b: Seq<Seq<Cell>>, grid: Seq<Seq<bool>>, x: int, y: int, color: Color) -> Seq<
    Seq<Cell>,
> {
    Seq::new(
        BOARD_HEIGHT as nat,
        |row: int|
            Seq::new(
                BOARD_WIDTH as nat,
                |col: int|
                    if occupied(grid, row - y, col - x) {
                        Cell::Filled(color)
                    } else {
                        b[row][col]
                    },
            ),
    )
}

/// No cell of the row is empty.
pub open spec fn row_full(row: Seq<Cell>) -> bool {
    forall|c: int| 0 <= c < row.len() ==> #[trigger] row[c] != Cell::Empty
}

/// A row of empty cells.
pub open spec fn empty_row() -> Seq<Cell> {
    Seq::new(BOARD_WIDTH as nat, |c: int| Cell::Empty)
}

/// `n` rows of empty cells.
pub open spec fn empty_rows(n: nat) -> Seq<Seq<Cell>> {
    Seq::new(n, |r: int| empty_row())
}

/// The test that a row passes when clearing leaves it on the board.
pub open spec fn stays() -> spec_fn(Seq<Cell>) -> bool {
    |row: Seq<Cell>| !row_full(row)
}

/// The rows that are not full, in their order.
pub open spec fn kept_rows(b: Seq<Seq<Cell>>) -> Seq<Seq<Cell>> {
    b.filter(stays())
}

/// Some row below the top row is full. The sweep for full rows runs from the
/// bottom up and stops short of row 0, so only such a row starts a clearing.
pub open spec fn sweep_finds(b: Seq<Seq<Cell>>) -> bool {
    exists|r: int| 1 <= r < b.len() && row_full(#[trigger] b[r])
}

/// How many rows a clearing removes. Once a row below the top is removed, the
/// top row moves down and is swept like the others; a board whose only full
/// row is the top row loses none.
pub open spec fn cleared_count(b: Seq<Seq<Cell>>) -> nat {
    if sweep_finds(b) {
        (b.len() - kept_rows(b).len()) as nat
    } else {
        0
    }
}

/// The board after its full rows were removed: the rows that stay sink to the
/// bottom in their order, and empty rows fill the top.
pub open spec fn cleared(b: Seq<Seq<Cell>>) -> Seq<Seq<Cell>> {
    if sweep_finds(b) {
        empty_rows(cleared_count(b)) + kept_rows(b)
    } else {
        b
    }
}

#[derive(Clone, Copy, Debug)]
pub struct Board {
    pub cells: [[Cell; BOARD_WIDTH]; BOARD_HEIGHT],
}

impl View for Board {
    type V = Seq<Seq<Cell>>;

    open spec fn view(&self) -> Seq<Seq<Cell>> {
        Seq::new(BOARD_HEIGHT as nat, |r: int| self.cells@[r]@)
    }
}

impl Board {
    /// A board of empty cells.
    pub fn new() -> (board: Board)
        ensures
            board@ == empty_rows(BOARD_HEIGHT as nat),
    {
        let board = Board { cells: [[Cell::Empty; BOARD_WIDTH]; BOARD_HEIGHT] };
        assert forall|r: int| 0 <= r < BOARD_HEIGHT implies #[trigger] board@[r] == empty_row() by {
            assert(board@[r] =~= empty_row());
        }
        board
    }

    /// Whether `shape`, with its corner at column `x` and row `y`, stands
    /// free on the board.
    pub fn is_valid_position(&self, shape: &Vec<Vec<bool>>, x: i32, y: i32) -> (valid: bool)
        ensures
            valid == valid_position(self@, grid_view(shape), x as int, y as int),
            (exists|r: int, c: int|
                occupied(grid_view(shape), r, c) && !(0 <= x + c < BOARD_WIDTH && y + r
                    < BOARD_HEIGHT)) ==> !valid,
    {
        let ghost grid = grid_view(shape);
        let mut r: usize = 0;
        while r < shape.len()
            invariant
                grid == grid_view(shape),
                r <= shape.len(),
                forall|i: int, j: int|
                    i < r && #[trigger] occupied(grid, i, j) ==> cell_fits(
                        self@,
                        x as int,
                        y as int,
                        i,
                        j,
                    ),
            decreases shape.len() - r,
        {
            let row = &shape[r];
            let mut c: usize = 0;
            while c < row.len()
                invariant
                    grid == grid_view(shape),
                    r < shape.len(),
                    row@ == grid[r as int],
                    c <= row.len(),
                    forall|i: int, j: int|
                        (i < r || (i == r && j < c)) && #[trigger] occupied(grid, i, j)
                            ==> cell_fits(self@, x as int, y as int, i, j),
                decreases row.len() - c,
            {
                if row[c] {
                    let board_x: i128 = x as i128 + c as i128;
                    let board_y: i128 = y as i128 + r as i128;
                    assert(occupied(grid, r as int, c as int));
                    if board_x < 0 || board_x >= BOARD_WIDTH as i128 || board_y
                        >= BOARD_HEIGHT as i128 {
                        return false;
                    }
                    if board_y >= 0 {
                        match self.cells[board_y as usize][board_x as usize] {
                            Cell::Empty => {},
                            Cell::Filled(_) => {
                                return false;
                            },
                        }
                    }
                }
                c += 1;
            }
            r += 1;
        }
        true
    }

    /// Whether no cell of row `y` is empty.
    pub fn row_is_full(&self, y: usize) -> (full: bool)
        requires
            y < BOARD_HEIGHT,
        ensures
            full == row_full(self@[y as int]),
    {
        let mut c: usize = 0;
        while c < BOARD_WIDTH
            invariant
                y < BOARD_HEIGHT,
                c <= BOARD_WIDTH,
                forall|j: int| 0 <= j < c ==> #[trigger] self@[y as int][j] != Cell::Empty,
            decreases BOARD_WIDTH - c,
        {
            match self.cells[y][c] {
                Cell::Empty => {
                    return false;
                },
                Cell::Filled(_) => {},
            }
            c += 1;
        }
        true
    }

    /// Fills every cell of the board that an occupied cell of the piece
    /// covers with the piece's color. All other cells stay as they are.
    pub fn place(&mut self, piece: &Tetromino)
        ensures
            final(self)@ == placed(
                old(self)@,
                piece@.grid,
                piece@.x,
                piece@.y,
                piece@.kind.spec_color(),
            ),
            forall|row: int, col: int|
                0 <= row < BOARD_HEIGHT && 0 <= col < BOARD_WIDTH ==> #[trigger] final(self)@[row][col]
                    == if occupied(piece@.grid, row - piece@.y, col - piece@.x) {
                    Cell::Filled(piece@.kind.spec_color())
                } else {
                    old(self)@[row][col]
                },
    {
        let color = piece.color();
        let shape = piece.shape();
        let x = piece.x();
        let y = piece.y();
        let ghost grid = grid_view(shape);
        let ghost start = self@;
        let mut r: usize = 0;
        while r < shape.len()
            invariant
                grid == grid_view(shape),
                r <= shape.len(),
                forall|row: int, col: int|
                    0 <= row < BOARD_HEIGHT && 0 <= col < BOARD_WIDTH ==> #[trigger] self@[row][col]
                        == if occupied(grid, row - y, col - x) && row - y < r {
                        Cell::Filled(color)
                    } else {
                        start[row][col]
                    },
            decreases shape.len() - r,
        {
            let cells = &shape[r];
            let mut c: usize = 0;
            while c < cells.len()
                invariant
                    grid == grid_view(shape),
                    r < shape.len(),
                    cells@ == grid[r as int],
                    c <= cells.len(),
                    forall|row: int, col: int|
                        0 <= row < BOARD_HEIGHT && 0 <= col < BOARD_WIDTH
                            ==> #[trigger] self@[row][col] == if occupied(grid, row - y, col - x) && (row
                            - y < r || (row - y == r && col - x < c)) {
                            Cell::Filled(color)
                        } else {
                            start[row][col]
                        },
                decreases cells.len() - c,
            {
                if cells[c] {
                    let board_x: i128 = x as i128 + c as i128;
                    let board_y: i128 = y as i128 + r as i128;
                    if 0 <= board_x && board_x < BOARD_WIDTH as i128 && 0 <= board_y && board_y
                        < BOARD_HEIGHT as i128 {
                        self.cells[board_y as usize][board_x as usize] = Cell::Filled(color);
                    }
                }
                c += 1;
            }
            r += 1;
        }
        proof {
            let goal = placed(start, grid, x as int, y as int, color);
            assert forall|row: int| 0 <= row < BOARD_HEIGHT implies #[trigger] self@[row] == goal[row] by {
                assert(self@[row] =~= goal[row]);
            }
            assert(self@ =~= goal);
        }
    }

    /// Removes row `y`: every row above it moves down by one, and the top row
    /// becomes empty.
    fn drop_row(&mut self, y: usize)
        requires
            y < BOARD_HEIGHT,
        ensures
            final(self)@ == seq![empty_row()] + old(self)@.remove(y as int),
    {
        let ghost before = self@;
        let mut row: usize = y;
        while row > 0
            invariant
                row <= y < BOARD_HEIGHT,
                before.len() == BOARD_HEIGHT,
                forall|i: int| row < i <= y ==> #[trigger] self@[i] == before[i - 1],
                forall|i: int|
                    (0 <= i <= row || y < i < BOARD_HEIGHT) ==> #[trigger] self@[i] == before[i],
            decreases row,
        {
            let ghost above = self@;
            self.cells[row] = self.cells[row - 1];
            assert(self@ == above.update(row as int, above[row - 1]));
            row -= 1;
        }
        let ghost shifted = self@;
        self.cells[0] = [Cell::Empty; BOARD_WIDTH];
        proof {
            assert(self@ == shifted.update(0, self@[0]));
            assert(self@[0] =~= empty_row());
        }
    }

    /// Sweeps the rows from the bottom up to row 1 and removes each full row
    /// it meets, looking again at the row that sank into its place. Returns
    /// how many rows it removed.
    pub fn clear_full_lines(&mut self) -> (count: u32)
        ensures
            final(self)@ == cleared(old(self)@),
            count == cleared_count(old(self)@),
            count <= BOARD_HEIGHT,
            count == 0 ==> final(self)@ == old(self)@,
            // Clearing again at once would remove nothing and change nothing.
            cleared_count(final(self)@) == 0,
            cleared(final(self)@) == final(self)@,
    {
        let ghost start = self@;
        // Rows of `start` that the sweep has not looked at yet: rows 0 to `rest - 1`.
        let ghost mut rest: int = BOARD_HEIGHT as int;
        let mut lines_cleared: u32 = 0;
        let mut y: usize = BOARD_HEIGHT - 1;
        proof {
            assert(start.subrange(BOARD_HEIGHT as int, BOARD_HEIGHT as int).filter(stays()) =~= Seq::empty())
                by {
                reveal(Seq::filter);
            }
            assert(self@ =~= empty_rows(0) + start.subrange(0, rest) + start.subrange(
                rest,
                BOARD_HEIGHT as int,
            ).filter(stays()));
        }
        while y > 0
            invariant
                is_board(start),
                y < BOARD_HEIGHT,
                0 <= rest,
                lines_cleared + rest <= BOARD_HEIGHT,
                y + 1 == lines_cleared + rest || (rest == 0 && y + 1 <= lines_cleared),
                self@ == empty_rows(lines_cleared as nat) + start.subrange(0, rest) + start.subrange(
                    rest,
                    BOARD_HEIGHT as int,
                ).filter(stays()),
                lines_cleared == 0 ==> self@ == start,
                lines_cleared == 0 ==> forall|i: int|
                    rest <= i < BOARD_HEIGHT ==> !row_full(#[trigger] start[i]),
                lines_cleared > 0 ==> sweep_finds(start),
            decreases y + (BOARD_HEIGHT - lines_cleared),
        {
            let ghost swept = start.subrange(rest, BOARD_HEIGHT as int).filter(stays());
            if self.row_is_full(y) {
                proof {
                    // A full row is no empty row, so it is row `rest - 1` of `start`.
                    lemma_empty_row_not_full();
                    assert(self@[y as int] == start[rest - 1]);
                    lemma_kept_rows_step(start, rest);
                }
                self.drop_row(y);
                lines_cleared += 1;
                proof {
                    rest = rest - 1;
                    assert(self@ =~= empty_rows(lines_cleared as nat) + start.subrange(0, rest) + swept);
                }
            } else {
                proof {
                    if rest > 0 {
                        assert(self@[y as int] == start[rest - 1]);
                        lemma_kept_rows_step(start, rest);
                        rest = rest - 1;
                        assert(self@ =~= empty_rows(lines_cleared as nat) + start.subrange(0, rest)
                            + (seq![start[rest]] + swept));
                    }
                }
                y -= 1;
            }
        }
        proof {
            if lines_cleared > 0 {
                assert(start.subrange(0, BOARD_HEIGHT as int) =~= start);
                assert(self@ =~= empty_rows(lines_cleared as nat) + kept_rows(start));
            }
            lemma_clear_twice(start);
        }
        lines_cleared
    }
}

/// Taking one more row at the front: a full row adds nothing to the rows that
/// stay, any other row leads them.
proof fn lemma_kept_rows_step(b: Seq<Seq<Cell>>, rest: int)
    requires
        0 < rest <= b.len(),
    ensures
        b.subrange(rest - 1, b.len() as int).filter(stays()) == if row_full(b[rest - 1]) {
            b.subrange(rest, b.len() as int).filter(stays())
        } else {
            seq![b[rest - 1]] + b.subrange(rest, b.len() as int).filter(stays())
        },
{
    let head = seq![b[rest - 1]];
    let tail = b.subrange(rest, b.len() as int);
    assert(b.subrange(rest - 1, b.len() as int) =~= head + tail);
    Seq::filter_distributes_over_add(head, tail, stays());
    assert(head.filter(stays()) =~= if row_full(b[rest - 1]) {
        Seq::empty()
    } else {
        head
    }) by {
        reveal_with_fuel(Seq::filter, 2);
    }
}

/// A grid with an occupied cell beyond a wall or below the floor stands free
/// on no board, whatever the board holds.
pub proof fn lemma_off_board_is_invalid(
    b: Seq<Seq<Cell>>,
    grid: Seq<Seq<bool>>,
    x: int,
    y: int,
    r: int,
    c: int,
)
    requires
        occupied(grid, r, c),
        x + c < 0 || x + c >= BOARD_WIDTH || y + r >= BOARD_HEIGHT,
    ensures
        !valid_position(b, grid, x, y),
{
}

/// An empty row is not full.
pub proof fn lemma_empty_row_not_full()
    ensures
        !row_full(empty_row()),
{
    assert(empty_row()[0] == Cell::Empty);
}

/// Clearing keeps the board's size, removes no more rows than there are, and
/// leaves no full row below the top row; if it removed any, no full row at
/// all.
pub proof fn lemma_cleared_is_board(b: Seq<Seq<Cell>>)
    requires
        is_board(b),
    ensures
        is_board(cleared(b)),
        cleared_count(b) <= BOARD_HEIGHT,
        !sweep_finds(cleared(b)),
        cleared_count(b) > 0 ==> forall|r: int|
            0 <= r < BOARD_HEIGHT ==> !row_full(#[trigger] cleared(b)[r]),
{
    if sweep_finds(b) {
        let kept = kept_rows(b);
        let count = cleared_count(b);
        b.lemma_filter_len(stays());
        lemma_empty_row_not_full();
        assert forall|r: int| 0 <= r < BOARD_HEIGHT implies !row_full(#[trigger] cleared(b)[r])
            && cleared(b)[r].len() == BOARD_WIDTH by {
            if r >= count {
                // A row that stayed is a row of `b`, and one that is not full.
                let row = kept[r - count];
                b.lemma_filter_pred(stays(), r - count);
                assert(kept.contains(row));
                b.lemma_filter_contains_rev(stays(), row);
            }
        }
    }
}

/// Clearing a board on which no row is full removes nothing and leaves the
/// board as it is.
pub proof fn lemma_clear_without_full_row(b: Seq<Seq<Cell>>)
    requires
        is_board(b),
        forall|r: int| 0 <= r < BOARD_HEIGHT ==> !row_full(#[trigger] b[r]),
    ensures
        cleared(b) == b,
        cleared_count(b) == 0,
{
}

/// Clearing again right after a clearing removes nothing and leaves the
/// board as the first clearing left it.
pub proof fn lemma_clear_twice(b: Seq<Seq<Cell>>)
    requires
        is_board(b),
    ensures
        cleared_count(cleared(b)) == 0,
        cleared(cleared(b)) == cleared(b),
{
    lemma_cleared_is_board(b);
}

} // verus!
