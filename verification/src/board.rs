//! Raw storage of the nine cell marks; no game-rule knowledge.

use vstd::prelude::*;

verus! {

/// The value stored in a cell that no player has marked yet.
pub const EMPTY_VALUE: i32 = 0;

/// A cell mark: `1` for player one, `-1` for player two, `0` for empty.
pub open spec fn valid_mark(v: i32) -> bool {
    v == -1 || v == EMPTY_VALUE || v == 1
}

/// The grid right after construction or a reset: nine empty cells.
pub open spec fn empty_grid() -> Seq<i32> {
    Seq::new(9, |i: int| EMPTY_VALUE)
}

/// The 3x3 grid as a flat, row-major sequence of nine cell values.
pub struct Board {
    pub grid: Vec<i32>,
}

impl View for Board {
    type V = Seq<i32>;

    open spec fn view(&self) -> Seq<i32> {
        self.grid@
    }
}

impl Board {
    /// There are exactly nine cells and each holds one of the three marks.
    pub open spec fn wf(self) -> bool {
        &&& self.grid@.len() == 9
        &&& forall|i: int| 0 <= i < 9 ==> valid_mark(#[trigger] self.grid@[i])
    }

    /// Sets all nine cells back to empty.
    pub fn reset_board(&mut self)
        ensures
            final(self).wf(),
            final(self)@ == empty_grid(),
    {
        let mut grid: Vec<i32> = Vec::new();
        while grid.len() < 9
            invariant
                grid@.len() <= 9,
                forall|i: int| 0 <= i < grid@.len() ==> grid@[i] == EMPTY_VALUE,
            decreases 9 - grid.len(),
        {
            grid.push(EMPTY_VALUE);
        }
        self.grid = grid;
        proof {
            assert(self.grid@ =~= empty_grid());
        }
    }

    /// Returns the raw value stored at `cell_id`.
    pub fn get_play(&self, cell_id: u8) -> (r: i32)
        requires
            self.wf(),
            cell_id < 9,
        ensures
            r == self@[cell_id as int],
            valid_mark(r),
    {
        self.grid[cell_id as usize]
    }

    /// Writes `play_value` at `cell_id`; the caller enforces the game rules.
    pub fn set_play(&mut self, cell_id: u8, play_value: i32)
        requires
            old(self).wf(),
            cell_id < 9,
            valid_mark(play_value),
        ensures
            final(self).wf(),
            final(self)@ == old(self)@.update(cell_id as int, play_value),
    {
        self.grid[cell_id as usize] = play_value;
    }

    /// Returns true iff the cell at `cell_id` holds no mark.
    pub fn is_cell_empty(&self, cell_id: u8) -> (r: bool)
        requires
            self.wf(),
            cell_id < 9,
        ensures
            r == (self@[cell_id as int] == EMPTY_VALUE),
    {
        self.grid[cell_id as usize] == EMPTY_VALUE
    }
}

impl Default for Board {
    /// A fresh board with all nine cells empty.
    fn default() -> (r: Self)
        ensures
            r.wf(),
            r@ == empty_grid(),
    {
        let mut new_board = (Board { grid: Vec::new() });
        new_board.reset_board();
        new_board
    }
}

} // verus!
