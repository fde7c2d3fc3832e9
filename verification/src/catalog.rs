//! The seven piece kinds, their spawn grids and their colors.

use vstd::prelude::*;

use crate::grid::{grid_view, is_square, lemma_rotate_four_times, rotate_grid};

verus! {

/// A display color of a piece or of a locked cell.
#[derive(Clone, Copy, PartialEq, Eq, Structural, Debug)]
pub enum Color {
    Cyan,
    Yellow,
    Magenta,
    White,
    Blue,
    Green,
    Red,
}

/// One of the seven piece kinds.
#[derive(Clone, Copy, PartialEq, Eq, Structural, Debug)]
pub enum TetrominoType {
    I,
    O,
    T,
    L,
    J,
    S,
    Z,
}

impl TetrominoType {
    /// The color that belongs to each kind.
    pub open spec fn spec_color(self) -> Color {
        match self {
            TetrominoType::I => Color::Cyan,
            TetrominoType::O => Color::Yellow,
            TetrominoType::T => Color::Magenta,
            TetrominoType::L => Color::White,
            TetrominoType::J => Color::Blue,
            TetrominoType::S => Color::Green,
            TetrominoType::Z => Color::Red,
        }
    }

    /// The side of the square grid that holds the kind.
    pub open spec fn spec_side(self) -> nat {
        match self {
            TetrominoType::I => 4,
            TetrominoType::O => 2,
            _ => 3,
        }
    }

    /// The occupancy grid of each kind as it spawns; `true` marks an occupied cell.
    pub open spec fn spec_shape(self) -> Seq<Seq<bool>> {
        match self {
            TetrominoType::I => seq![
                seq![true, true, true, true],
                seq![false, false, false, false],
                seq![false, false, false, false],
                seq![false, false, false, false],
            ],
            TetrominoType::O => seq![seq![true, true], seq![true, true]],
            TetrominoType::T => seq![
                seq![false, true, false],
                seq![true, true, true],
                seq![false, false, false],
            ],
            TetrominoType::L => seq![
                seq![false, false, true],
                seq![true, true, true],
                seq![false, false, false],
            ],
            TetrominoType::J => seq![
                seq![true, false, false],
                seq![true, true, true],
                seq![false, false, false],
            ],
            TetrominoType::S => seq![
                seq![false, true, true],
                seq![true, true, false],
                seq![false, false, false],
            ],
            TetrominoType::Z => seq![
                seq![true, true, false],
                seq![false, true, true],
                seq![false, false, false],
            ],
        }
    }

    /// The spawn grid of every kind is square, with the side of the kind.
    pub proof fn lemma_shape_square(self)
        ensures
            self.spec_shape().len() == self.spec_side(),
            is_square(self.spec_shape()),
    {
    }

    /// Four quarter turns bring the grid of every kind back to what it was.
    pub proof fn lemma_four_turns(self)
        ensures
            rotate_grid(rotate_grid(rotate_grid(rotate_grid(self.spec_shape())))) == self.spec_shape(),
    {
        self.lemma_shape_square();
        lemma_rotate_four_times(self.spec_shape());
    }

    pub fn color(&self) -> (color: Color)
        ensures
            color == self.spec_color(),
    {
        match self {
            TetrominoType::I => Color::Cyan,
            TetrominoType::O => Color::Yellow,
            TetrominoType::T => Color::Magenta,
            TetrominoType::L => Color::White,
            TetrominoType::J => Color::Blue,
            TetrominoType::S => Color::Green,
            TetrominoType::Z => Color::Red,
        }
    }

    pub fn shape(&self) -> (shape: Vec<Vec<bool>>)
        ensures
            grid_view(&shape) == self.spec_shape(),
    {
        let shape = match self {
            TetrominoType::I => vec![
                vec![true, true, true, true],
                vec![false, false, false, false],
                vec![false, false, false, false],
                vec![false, false, false, false],
            ],
            TetrominoType::O => vec![vec![true, true], vec![true, true]],
            TetrominoType::T => vec![
                vec![false, true, false],
                vec![true, true, true],
                vec![false, false, false],
            ],
            TetrominoType::L => vec![
                vec![false, false, true],
                vec![true, true, true],
                vec![false, false, false],
            ],
            TetrominoType::J => vec![
                vec![true, false, false],
                vec![true, true, true],
                vec![false, false, false],
            ],
            TetrominoType::S => vec![
                vec![false, true, true],
                vec![true, true, false],
                vec![false, false, false],
            ],
            TetrominoType::Z => vec![
                vec![true, true, false],
                vec![false, true, true],
                vec![false, false, false],
            ],
        };
        shape
    }
}

} // verus!
