//! Occupancy grids: the model of a piece's shape and its rotation.

use vstd::prelude::*;

verus! {

/// The grid that a vector of rows stands for.
pub open spec fn grid_view(shape: &Vec<Vec<bool>>) -> Seq<Seq<bool>> {
    Seq::new(shape@.len(), |r: int| shape@[r]@)
}

/// Every row is as long as the grid is high.
pub open spec fn is_square(g: Seq<Seq<bool>>) -> bool {
    forall|r: int| 0 <= r < g.len() ==> (#[trigger] g[r]).len() == g.len()
}

/// Cell `(r, c)` lies in the grid and is occupied.
pub open spec fn occupied(g: Seq<Seq<bool>>, r: int, c: int) -> bool {
    0 <= r < g.len() && 0 <= c < g[r].len() && g[r][c]
}

/// The grid turned by a quarter clockwise: cell `(i, j)` of `g` goes to
/// `(j, n - 1 - i)`, so cell `(r, c)` of the result comes from `(n - 1 - c, r)`.
pub open spec fn rotate_grid(g: Seq<Seq<bool>>) -> Seq<Seq<bool>> {
    Seq::new(g.len(), |r: int| Seq::new(g.len(), |c: int| g[g.len() - 1 - c][r]))
}

/// A quarter turn keeps the side of a grid and leaves it square.
pub proof fn lemma_rotate_keeps_square(g: Seq<Seq<bool>>)
    ensures
        rotate_grid(g).len() == g.len(),
        is_square(rotate_grid(g)),
{
}

/// A quarter turn moves every cell of a square grid from `(i, j)` to `(j, n - 1 - i)`.
pub proof fn lemma_rotate_moves_cells(g: Seq<Seq<bool>>, i: int, j: int)
    requires
        is_square(g),
        0 <= i < g.len(),
        0 <= j < g.len(),
    ensures
        rotate_grid(g)[j][g.len() - 1 - i] == g[i][j],
{
}

/// Four quarter turns give a square grid back.
pub proof fn lemma_rotate_four_times(g: Seq<Seq<bool>>)
    requires
        is_square(g),
    ensures
        rotate_grid(rotate_grid(rotate_grid(rotate_grid(g)))) == g,
{
    let n = g.len() as int;
    let g1 = rotate_grid(g);
    let g2 = rotate_grid(g1);
    let g3 = rotate_grid(g2);
    let g4 = rotate_grid(g3);
    assert forall|r: int| 0 <= r < n implies #[trigger] g4[r] == g[r] by {
        assert forall|c: int| 0 <= c < n implies g4[r][c] == g[r][c] by {
            // Each turn takes the cell from where the one before had put it.
            assert(g4[r][c] == g3[n - 1 - c][r]);
            assert(g3[n - 1 - c][r] == g2[n - 1 - r][n - 1 - c]);
            assert(g2[n - 1 - r][n - 1 - c] == g1[c][n - 1 - r]);
            assert(g1[c][n - 1 - r] == g[r][c]);
        }
        assert(g4[r] =~= g[r]);
    }
    assert(g4 =~= g);
}

} // verus!
