//! A live piece: its kind, its grid after the rotations so far, and where its
//! grid's top-left corner stands on the board.

use rand::seq::SliceRandom;
use vstd::prelude::*;

use crate::board::BOARD_WIDTH;
use crate::catalog::{Color, TetrominoType};
use crate::grid::{grid_view, is_square, rotate_grid};

verus! {

/// What a piece is: kind, occupancy grid, and origin in board coordinates
/// (`x` counts columns from the left, `y` rows from the top).
pub struct PieceModel {
    pub kind: TetrominoType,
    pub grid: Seq<Seq<bool>>,
    pub x: int,
    pub y: int,
}

/// The column at which the grid of `kind` spawns: it is centered, and the odd
/// column is left to the right of it.
pub open spec fn spawn_x(kind: TetrominoType) -> int {
    (BOARD_WIDTH - kind.spec_side()) / 2
}

/// A piece of `kind` as it enters the board.
pub open spec fn spawned(kind: TetrominoType) -> PieceModel {
    PieceModel { kind, grid: kind.spec_shape(), x: spawn_x(kind), y: 0 }
}

/// A grid that a piece of `kind` can have: square, with the side of the kind.
pub open spec fn is_piece_grid(kind: TetrominoType, grid: Seq<Seq<bool>>) -> bool {
    grid.len() == kind.spec_side() && is_square(grid)
}

/// A piece on its way down the board.
pub struct Tetromino {
    piece_type: TetrominoType,
    shape: Vec<Vec<bool>>,
    x: i32,
    y: i32,
}

impl View for Tetromino {
    type V = PieceModel;

    closed spec fn view(&self) -> PieceModel {
        PieceModel {
            kind: self.piece_type,
            grid: grid_view(&self.shape),
            x: self.x as int,
            y: self.y as int,
        }
    }
}

/// Picks one element of `kinds` by `rand::seq::SliceRandom::choose`, with the
/// generator of `rand::thread_rng()`. Nothing is claimed of which element
/// comes: only that an empty slice gives `None` and any other slice gives one
/// of its elements.
#[verifier::external_body]
fn choose_kind(kinds: &[TetrominoType]) -> (picked: Option<TetrominoType>)
    ensures
        match picked {
            Some(kind) => kinds@.contains(kind),
            None => kinds@.len() == 0,
        },
{
    kinds.choose(&mut rand::thread_rng()).copied()
}

impl Tetromino {
    /// The grid is square and has the side of the piece's kind. This holds
    /// of every piece.
    #[verifier::type_invariant]
    pub open spec fn wf(&self) -> bool {
        is_piece_grid(self@.kind, self@.grid)
    }

    /// A piece of `kind` at its spawn position.
    pub fn new(kind: TetrominoType) -> (piece: Tetromino)
        ensures
            piece.wf(),
            piece@ == spawned(kind),
    {
        let shape = kind.shape();
        proof {
            kind.lemma_shape_square();
        }
        let width = shape[0].len();
        Tetromino { piece_type: kind, shape, x: ((BOARD_WIDTH - width) / 2) as i32, y: 0 }
    }

    /// A piece of a kind drawn at random, at its spawn position.
    pub fn new_random() -> (piece: Tetromino)
        ensures
            piece.wf(),
            exists|kind: TetrominoType| piece@ == spawned(kind),
    {
        let piece_types = [
            TetrominoType::I,
            TetrominoType::O,
            TetrominoType::T,
            TetrominoType::L,
            TetrominoType::J,
            TetrominoType::S,
            TetrominoType::Z,
        ];
        let piece_type = choose_kind(piece_types.as_slice()).unwrap();
        Tetromino::new(piece_type)
    }

    /// The grid turned by a quarter clockwise. The piece itself stays as it is.
    pub fn rotate_clockwise(&self) -> (rotated: Vec<Vec<bool>>)
        ensures
            grid_view(&rotated) == rotate_grid(self@.grid),
    {
        proof {
            use_type_invariant(self);
        }
        let n = self.shape.len();
        let mut rotated: Vec<Vec<bool>> = Vec::new();
        let mut r: usize = 0;
        while r < n
            invariant
                self.wf(),
                n == self.shape@.len(),
                r <= n,
                rotated@.len() == r,
                forall|i: int| 0 <= i < r ==> (#[trigger] rotated@[i])@ == rotate_grid(self@.grid)[i],
            decreases n - r,
        {
            let mut row: Vec<bool> = Vec::new();
            let mut c: usize = 0;
            while c < n
                invariant
                    self.wf(),
                    n == self.shape@.len(),
                    r < n,
                    c <= n,
                    row@.len() == c,
                    forall|j: int| 0 <= j < c ==> #[trigger] row@[j] == self@.grid[n - 1 - j][r as int],
                decreases n - c,
            {
                assert(self@.grid[n - 1 - c].len() == n);
                row.push(self.shape[n - 1 - c][r]);
                c += 1;
            }
            assert(row@ =~= rotate_grid(self@.grid)[r as int]);
            rotated.push(row);
            r += 1;
        }
        assert(grid_view(&rotated) =~= rotate_grid(self@.grid));
        rotated
    }

    /// Moves the grid's corner to column `x`, row `y`.
    pub(crate) fn move_to(&mut self, x: i32, y: i32)
        ensures
            final(self)@ == (PieceModel { x: x as int, y: y as int, ..old(self)@ }),
    {
        proof {
            use_type_invariant(&*self);
        }
        self.x = x;
        self.y = y;
    }

    /// Takes `shape` as the piece's grid and moves its corner to column `x`.
    pub(crate) fn turn_to(&mut self, shape: Vec<Vec<bool>>, x: i32)
        requires
            is_piece_grid(old(self)@.kind, grid_view(&shape)),
        ensures
            final(self)@ == (PieceModel { grid: grid_view(&shape), x: x as int, ..old(self)@ }),
    {
        self.shape = shape;
        self.x = x;
    }

    pub fn color(&self) -> (color: Color)
        ensures
            color == self@.kind.spec_color(),
    {
        self.piece_type.color()
    }

    pub fn kind(&self) -> (kind: TetrominoType)
        ensures
            kind == self@.kind,
    {
        self.piece_type
    }

    pub fn shape(&self) -> (shape: &Vec<Vec<bool>>)
        ensures
            grid_view(shape) == self@.grid,
    {
        &self.shape
    }

    pub fn x(&self) -> (x: i32)
        ensures
            x == self@.x,
    {
        self.x
    }

    pub fn y(&self) -> (y: i32)
        ensures
            y == self@.y,
    {
        self.y
    }
}

} // verus!
