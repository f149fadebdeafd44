//! Small shared types.

use vstd::prelude::*;

verus! {

/// A pair of coordinates that can stand in a constant.
#[derive(Debug)]
pub struct V2<T> {
    pub x: T,
    pub y: T,
}

impl V2<usize> {
    /// The number of cells of a grid with `x` columns and `y` rows.
    pub open spec fn cells(&self) -> int {
        self.x * self.y
    }

    /// The number of cells of the grid, or `None` where it does not fit a
    /// machine word.
    pub fn cell_count(&self) -> (count: Option<usize>)
        ensures
            self.cells() <= usize::MAX ==> count == Some(self.cells() as usize),
            self.cells() > usize::MAX ==> count is None,
    {
        self.x.checked_mul(self.y)
    }

    /// The column and the row of cell `index`, where the cells are counted
    /// column by column, each from its first row.
    pub fn cell_of(&self, index: usize) -> (cell: (usize, usize))
        requires
            index < self.cells(),
        ensures
            cell.0 == index / self.y,
            cell.1 == index % self.y,
            cell.0 < self.x,
            cell.1 < self.y,
    {
        proof {
            let x = self.x as int;
            let y = self.y as int;
            let i = index as int;
            assert(y > 0) by (nonlinear_arith)
                requires
                    0 <= i < x * y,
                    0 <= x,
                    0 <= y,
            ;
            assert(i / y < x) by (nonlinear_arith)
                requires
                    0 <= i < x * y,
                    y > 0,
            ;
        }
        (index / self.y, index % self.y)
    }
}

} // verus!
