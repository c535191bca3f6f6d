//! A dashboard: a named grid of cells, each of which may hold a trading panel.

use vstd::prelude::*;

verus! {

/// The grid shapes offered to the user, as (columns, rows).
pub open spec fn spec_grid_presets() -> Seq<(usize, usize)> {
    seq![(1, 1), (2, 1), (3, 1), (4, 1), (8, 1), (2, 2), (3, 2), (4, 2), (2, 3), (3, 3)]
}

pub fn grid_presets() -> (v: Vec<(usize, usize)>)
    ensures
        v@ == spec_grid_presets(),
{
    vec![(1, 1), (2, 1), (3, 1), (4, 1), (8, 1), (2, 2), (3, 2), (4, 2), (2, 3), (3, 3)]
}

/// Flat index of the cell in column `col` and row `row` of a grid with
/// `cols` columns (row-major).
pub open spec fn spec_cell_index(cols: int, col: int, row: int) -> int {
    row * cols + col
}

/// `after` is `before` given the grid shape `cols` x `rows` (see `resize_grid`).
pub open spec fn spec_resized<P>(before: Dashboard<P>, after: Dashboard<P>, cols: usize, rows: usize) -> bool {
    &&& after.name == before.name
    &&& after.cols == cols
    &&& after.rows == rows
    &&& after.wf()
    &&& forall|i: int|
        0 <= i < after.panels@.len() ==> #[trigger] after.panels@[i] == if i < before.panels@.len() {
            before.panels@[i]
        } else {
            None
        }
}

/// Position of the first cell that holds a panel.
pub open spec fn spec_first_occupied<P>(cells: Seq<Option<P>>) -> Option<int>
    decreases cells.len(),
{
    if cells.len() == 0 {
        None
    } else if cells[0] is Some {
        Some(0)
    } else {
        match spec_first_occupied(cells.drop_first()) {
            Some(i) => Some(i + 1),
            None => None,
        }
    }
}

/// The first occupied cell holds a panel and every cell before it is empty;
/// where there is none, every cell is empty.
pub proof fn lemma_first_occupied<P>(cells: Seq<Option<P>>)
    ensures
        match spec_first_occupied(cells) {
            Some(i) => 0 <= i < cells.len() && cells[i] is Some && forall|j: int|
                0 <= j < i ==> cells[j] is None,
            None => forall|j: int| 0 <= j < cells.len() ==> cells[j] is None,
        },
    decreases cells.len(),
{
    if cells.len() > 0 {
        lemma_first_occupied(cells.drop_first());
        if cells[0] is None {
            assert forall|j: int| 1 <= j < cells.len() implies cells[j] == cells.drop_first()[j - 1] by {}
        }
    }
}

/// Position of the first cell that holds a panel.
pub fn first_occupied<P>(cells: &Vec<Option<P>>) -> (r: Option<usize>)
    ensures
        match r {
            Some(i) => spec_first_occupied(cells@) == Some(i as int),
            None => spec_first_occupied(cells@) is None,
        },
{
    proof {
        lemma_first_occupied(cells@);
    }
    let mut i: usize = 0;
    while i < cells.len()
        invariant
            i <= cells@.len(),
            forall|j: int| 0 <= j < i ==> cells@[j] is None,
        decreases cells.len() - i,
    {
        if cells[i].is_some() {
            proof {
                lemma_first_occupied(cells@);
                let k = spec_first_occupied(cells@);
                if k is None {
                    assert(cells@[i as int] is None);
                } else {
                    assert(k->0 >= i) by {
                        if k->0 < i {
                            assert(cells@[k->0] is None);
                        }
                    }
                    assert(k->0 <= i);
                }
            }
            return Some(i);
        }
        i = i + 1;
    }
    None
}

/// A named grid of `cols` x `rows` cells, stored row-major.
pub struct Dashboard<P> {
    pub name: String,
    pub cols: usize,
    pub rows: usize,
    pub panels: Vec<Option<P>>,
}

impl<P> Dashboard<P> {
    /// A grid holds one cell per column and row.
    pub open spec fn wf(&self) -> bool {
        self.panels@.len() == self.cols * self.rows
    }

    /// An empty grid of the given shape.
    pub fn new(name: String, cols: usize, rows: usize) -> (d: Self)
        requires
            cols * rows <= usize::MAX,
        ensures
            d.name@ == name@,
            d.cols == cols,
            d.rows == rows,
            d.wf(),
            forall|i: int| 0 <= i < d.panels@.len() ==> d.panels@[i] is None,
    {
        let n: usize = cols * rows;
        let mut panels: Vec<Option<P>> = Vec::new();
        let mut i: usize = 0;
        while i < n
            invariant
                i <= n,
                panels@.len() == i,
                forall|j: int| 0 <= j < i ==> panels@[j] is None,
            decreases n - i,
        {
            panels.push(None);
            i = i + 1;
        }
        Dashboard { name, cols, rows, panels }
    }

    /// Gives the grid a new shape. Cells keep their flat index; cells beyond
    /// the new size are dropped and new cells are empty.
    pub fn resize_grid(&mut self, cols: usize, rows: usize)
        requires
            cols * rows <= usize::MAX,
        ensures
            spec_resized(*old(self), *final(self), cols, rows),
    {
        let n: usize = cols * rows;
        self.panels.truncate(n);
        let mut i: usize = self.panels.len();
        while i < n
            invariant
                self.panels@.len() == i,
                i <= n,
                i >= old(self).panels@.len() || i == n,
                self.name == old(self).name,
                forall|j: int|
                    0 <= j < self.panels@.len() ==> #[trigger] self.panels@[j] == if j
                        < old(self).panels@.len() {
                        old(self).panels@[j]
                    } else {
                        None
                    },
            decreases n - i,
        {
            self.panels.push(None);
            i = i + 1;
        }
        self.cols = cols;
        self.rows = rows;
    }

    /// The panel in a cell, if the cell exists and holds one.
    pub fn panel_at(&self, col: usize, row: usize) -> (r: Option<&P>)
        requires
            spec_cell_index(self.cols as int, col as int, row as int) <= usize::MAX,
        ensures
            ({
                let idx = spec_cell_index(self.cols as int, col as int, row as int);
                r == (if idx < self.panels@.len() && self.panels@[idx] is Some {
                    Some(&self.panels@[idx]->0)
                } else {
                    None
                })
            }),
    {
        let idx = row * self.cols + col;
        if idx < self.panels.len() {
            match &self.panels[idx] {
                Some(p) => Some(p),
                None => None,
            }
        } else {
            None
        }
    }

    /// Mutable access to the panel in a cell, if the cell exists and holds one.
    pub fn panel_at_mut(&mut self, col: usize, row: usize) -> (r: Option<&mut P>)
        requires
            spec_cell_index(old(self).cols as int, col as int, row as int) <= usize::MAX,
        ensures
            ({
                let idx = spec_cell_index(old(self).cols as int, col as int, row as int);
                if idx < old(self).panels@.len() && old(self).panels@[idx] is Some {
                    &&& r is Some
                    &&& *r->0 == old(self).panels@[idx]->0
                    &&& final(self).panels@ == old(self).panels@.update(idx, Some(*final(r->0)))
                    &&& final(self).name == old(self).name
                    &&& final(self).cols == old(self).cols
                    &&& final(self).rows == old(self).rows
                } else {
                    &&& r is None
                    &&& *final(self) == *old(self)
                }
            }),
    {
        let idx = row * self.cols + col;
        if idx < self.panels.len() {
            if self.panels[idx].is_some() {
                self.panels[idx].as_mut()
            } else {
                None
            }
        } else {
            None
        }
    }

    /// Flat index of a cell.
    pub fn panel_idx(cols: usize, col: usize, row: usize) -> (i: usize)
        requires
            spec_cell_index(cols as int, col as int, row as int) <= usize::MAX,
        ensures
            i == spec_cell_index(cols as int, col as int, row as int),
    {
        row * cols + col
    }
}

} // verus!
