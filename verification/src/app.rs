//! The game engine: turn sequencing, cursor movement, win detection, and the
//! read model that a presentation layer draws from.

use vstd::prelude::*;

use crate::board::Board;
use crate::board::EMPTY_VALUE;
use crate::board::empty_grid;
use crate::board::valid_mark;

verus! {

/// What the external event loop should do after handling an input event.
#[allow(dead_code)]
pub enum Action {
    Quit,
    Render,
    Idle,
}

/// A cursor movement over the 3x3 grid.
pub enum Direction {
    Up,
    Down,
    Left,
    Right,
}

/// A display color token for a player's mark; the presentation layer maps it
/// to whatever its drawing backend understands.
#[derive(Clone, Copy, PartialEq, Eq, Structural, Debug)]
pub enum SymbolColor {
    Green,
    Red,
    Reset,
}

/// A player identity: display symbol and color, fixed at construction.
#[derive(Clone, Copy, PartialEq, Eq, Structural, Debug)]
pub struct Player {
    pub play_symbol: char,
    pub symbol_color: SymbolColor,
}

/// The symbol shown for a cell that no player has marked.
pub const EMPTY_SYMBOL: char = ' ';

/// The first player: marks cells with `1`.
pub open spec fn spec_player_x() -> Player {
    Player { play_symbol: 'x', symbol_color: SymbolColor::Green }
}

/// The second player: marks cells with `-1`.
pub open spec fn spec_player_o() -> Player {
    Player { play_symbol: 'o', symbol_color: SymbolColor::Red }
}

/// The mark that the player at `idx` writes on the board.
pub open spec fn play_value_of(idx: usize) -> i32 {
    if idx == 0 {
        1i32
    } else {
        -1i32
    }
}

/// The three cell indices of line `l`: rows 0-2, columns 3-5, then the
/// top-left and the top-right diagonal.
pub open spec fn line(l: int) -> (int, int, int) {
    if l == 0 {
        (0, 1, 2)
    } else if l == 1 {
        (3, 4, 5)
    } else if l == 2 {
        (6, 7, 8)
    } else if l == 3 {
        (0, 3, 6)
    } else if l == 4 {
        (1, 4, 7)
    } else if l == 5 {
        (2, 5, 8)
    } else if l == 6 {
        (0, 4, 8)
    } else {
        (2, 4, 6)
    }
}

/// The arithmetic sum of the three cell values along line `l`.
pub open spec fn line_sum(b: Seq<i32>, l: int) -> int {
    let (i, j, k) = line(l);
    b[i] + b[j] + b[k]
}

/// Line `l` is fully marked with value `v`.
pub open spec fn line_swept(b: Seq<i32>, l: int, v: i32) -> bool {
    let (i, j, k) = line(l);
    b[i] == v && b[j] == v && b[k] == v
}

/// The first line at or after `l` whose sum is `3` or `-3`, mapped to the
/// winning player index; `None` when no such line remains.
pub open spec fn winner_from(b: Seq<i32>, l: int) -> Option<usize>
    decreases 8 - l,
{
    if l >= 8 {
        None
    } else if line_sum(b, l) == 3 {
        Some(0usize)
    } else if line_sum(b, l) == -3 {
        Some(1usize)
    } else {
        winner_from(b, l + 1)
    }
}

/// The winner that a scan of rows, then columns, then diagonals finds.
pub open spec fn spec_winner(b: Seq<i32>) -> Option<usize> {
    winner_from(b, 0)
}

/// How many cells of `b` are still empty.
pub open spec fn num_empty(b: Seq<i32>) -> int
    decreases b.len(),
{
    if b.len() == 0 {
        0
    } else {
        num_empty(b.drop_last()) + if b.last() == EMPTY_VALUE {
            1int
        } else {
            0int
        }
    }
}

/// Where the selection cursor lands after moving `dir` from cell `s`,
/// clamped at the grid edges (no wraparound).
pub open spec fn spec_move(s: u8, dir: Direction) -> u8 {
    match dir {
        Direction::Up => if s > 2 {
            (s - 3) as u8
        } else {
            s
        },
        Direction::Down => if s < 6 {
            (s + 3) as u8
        } else {
            s
        },
        Direction::Left => if s % 3 > 0 {
            (s - 1) as u8
        } else {
            s
        },
        Direction::Right => if s % 3 < 2 {
            (s + 1) as u8
        } else {
            s
        },
    }
}

/// Cell `s` sits on the grid edge that `dir` points at, so a move in that
/// direction cannot go further.
pub open spec fn at_edge(s: u8, dir: Direction) -> bool {
    match dir {
        Direction::Up => s <= 2,
        Direction::Down => s >= 6,
        Direction::Left => s % 3 == 0,
        Direction::Right => s % 3 == 2,
    }
}

/// The whole game state.
pub struct App {
    pub board: Board,
    pub players: [Player; 2],
    pub selected_cell_id: u8,
    pub current_player_index: usize,
    pub winner_index: Option<usize>,
    pub missing_free_cells: u8,
    pub game_over: bool,
    pub should_quit: bool,
}

/// The two states agree on every observable field.
pub open spec fn same_state(a: App, b: App) -> bool {
    &&& b.board@ == a.board@
    &&& b.players == a.players
    &&& b.selected_cell_id == a.selected_cell_id
    &&& b.current_player_index == a.current_player_index
    &&& b.winner_index == a.winner_index
    &&& b.missing_free_cells == a.missing_free_cells
    &&& b.game_over == a.game_over
    &&& b.should_quit == a.should_quit
}

/// How a call of `play_on_selection` relates the state after (`post`) to the
/// state before (`pre`).
pub open spec fn play_post(pre: App, post: App) -> bool {
    if pre.game_over || pre.board@[pre.selected_cell_id as int] != EMPTY_VALUE {
        same_state(pre, post)
    } else {
        let nb = pre.board@.update(
            pre.selected_cell_id as int,
            play_value_of(pre.current_player_index),
        );
        &&& post.board@ == nb
        &&& post.players == pre.players
        &&& post.selected_cell_id == pre.selected_cell_id
        &&& post.should_quit == pre.should_quit
        &&& post.missing_free_cells == pre.missing_free_cells - 1
        &&& post.winner_index == spec_winner(nb)
        &&& if spec_winner(nb) is Some {
            post.game_over && post.current_player_index == pre.current_player_index
        } else if pre.missing_free_cells == 1 {
            post.game_over && post.current_player_index == pre.current_player_index
        } else {
            !post.game_over && post.current_player_index == 1 - pre.current_player_index
        }
    }
}

impl App {
    /// The engine invariant: the board is well formed, the players are the
    /// two fixed identities, the cursor and the turn index are in range, the
    /// free-cell count matches the board, the recorded winner matches what a
    /// scan of the board finds, and the game is over exactly when there is a
    /// winner or no free cell is left.
    pub open spec fn wf(self) -> bool {
        &&& self.board.wf()
        &&& self.players@[0] == spec_player_x()
        &&& self.players@[1] == spec_player_o()
        &&& self.selected_cell_id < 9
        &&& self.current_player_index <= 1
        &&& self.missing_free_cells as int == num_empty(self.board@)
        &&& self.winner_index == spec_winner(self.board@)
        &&& (self.game_over <==> (self.winner_index is Some || self.missing_free_cells == 0))
    }

    /// The exact state right after construction: empty board, cursor on the
    /// center cell, first player to move, no winner, nine free cells.
    pub open spec fn is_initial(self) -> bool {
        &&& self.board@ == empty_grid()
        &&& self.players@[0] == spec_player_x()
        &&& self.players@[1] == spec_player_o()
        &&& self.selected_cell_id == 4
        &&& self.current_player_index == 0
        &&& self.winner_index is None
        &&& self.missing_free_cells == 9
        &&& !self.game_over
        &&& !self.should_quit
    }

    /// A fresh game in its initial state.
    pub fn new() -> (r: Self)
        ensures
            r.wf(),
            r.is_initial(),
    {
        let players: [Player; 2] = [
            Player { play_symbol: 'x', symbol_color: SymbolColor::Green },
            Player { play_symbol: 'o', symbol_color: SymbolColor::Red },
        ];
        let r = App {
            board: Board::default(),
            players,
            selected_cell_id: 4,
            current_player_index: 0,
            winner_index: None,
            game_over: false,
            missing_free_cells: 9,
            should_quit: false,
        };
        proof {
            lemma_empty_grid_state();
        }
        r
    }

    /// Puts every turn, selection, and winner field back to its initial
    /// value and empties the board; the player identities and the quit flag
    /// are left as they are.
    pub fn restart(&mut self)
        requires
            old(self).wf(),
        ensures
            final(self).wf(),
            final(self).board@ == empty_grid(),
            final(self).selected_cell_id == 4,
            final(self).current_player_index == 0,
            final(self).winner_index is None,
            !final(self).game_over,
            final(self).missing_free_cells == 9,
            final(self).players == old(self).players,
            final(self).should_quit == old(self).should_quit,
            !old(self).should_quit ==> final(self).is_initial(),
    {
        self.board.reset_board();
        self.selected_cell_id = 4;
        self.current_player_index = 0;
        self.winner_index = None;
        self.game_over = false;
        self.missing_free_cells = 9;
        proof {
            lemma_empty_grid_state();
        }
    }

    /// Moves the selection cursor one cell in `dir`, clamped at the grid
    /// edges; once the game is over the cursor no longer moves.
    pub fn move_selection(&mut self, dir: Direction)
        requires
            old(self).wf(),
        ensures
            final(self).wf(),
            final(self).selected_cell_id == (if old(self).game_over {
                old(self).selected_cell_id
            } else {
                spec_move(old(self).selected_cell_id, dir)
            }),
            final(self).board@ == old(self).board@,
            final(self).players == old(self).players,
            final(self).current_player_index == old(self).current_player_index,
            final(self).winner_index == old(self).winner_index,
            final(self).missing_free_cells == old(self).missing_free_cells,
            final(self).game_over == old(self).game_over,
            final(self).should_quit == old(self).should_quit,
    {
        if self.game_over {
            return;
        }
        match dir {
            Direction::Up => if self.selected_cell_id > 2 {
                self.selected_cell_id -= 3;
            },
            Direction::Down => if self.selected_cell_id < 6 {
                self.selected_cell_id += 3;
            },
            Direction::Left => if self.selected_cell_id % 3 > 0 {
                self.selected_cell_id -= 1;
            },
            Direction::Right => if self.selected_cell_id % 3 < 2 {
                self.selected_cell_id += 1;
            },
        }
    }

    /// Plays the current player's mark on the selected cell. Playing on an
    /// occupied cell, or after the game is over, is a silent no-op. After a
    /// winning move the winner is recorded and the game ends; after the last
    /// free cell is filled with no winner the game ends in a tie; otherwise
    /// the turn passes to the other player.
    pub fn play_on_selection(&mut self)
        requires
            old(self).wf(),
        ensures
            final(self).wf(),
            play_post(*old(self), *final(self)),
    {
        if self.game_over {
            return;
        }
        if !self.board.is_cell_empty(self.selected_cell_id) {
            return;
        }

        // The invariant pins the turn index to 0 or 1, so no other mark
        // value can arise here.
        let play_value: i32 = if self.current_player_index == 0 {
            1
        } else {
            -1
        };

        self.board.set_play(self.selected_cell_id, play_value);
        proof {
            lemma_num_empty_update(
                old(self).board@,
                old(self).selected_cell_id as int,
                play_value,
            );
            lemma_num_empty_bounds(self.board@);
        }
        self.missing_free_cells -= 1;

        self.winner_index = self.check_for_winner();
        if self.winner_index.is_some() {
            self.game_over = true;
            return;
        }

        // There are no more empty cells. Game over with a tie!
        if self.missing_free_cells == 0 {
            self.game_over = true;
            return;
        }

        self.current_player_index = 1 - self.current_player_index;
    }

    /// The display symbol and color for a cell: the empty symbol and the
    /// neutral color if unplayed, otherwise the owning player's.
    pub fn get_play(&self, cell_id: u8) -> (r: (char, SymbolColor))
        requires
            self.wf(),
            cell_id < 9,
        ensures
            self.board@[cell_id as int] == EMPTY_VALUE ==> r == ((EMPTY_SYMBOL, SymbolColor::Reset)),
            self.board@[cell_id as int] == 1 ==> r == ((self.players@[0].play_symbol, self.players@[0].symbol_color)),
            self.board@[cell_id as int] == -1 ==> r == ((self.players@[1].play_symbol, self.players@[1].symbol_color)),
    {
        if self.board.is_cell_empty(cell_id) {
            return (EMPTY_SYMBOL, SymbolColor::Reset);
        }

        let play: i32 = self.board.get_play(cell_id);
        // The board invariant keeps every cell in {-1, 0, 1}, so a non-empty
        // cell belongs to one of the two players.
        let player: &Player = if play == 1 {
            &self.players[0]
        } else {
            &self.players[1]
        };

        (player.play_symbol, player.symbol_color)
    }

    /// The winning player, or `None` while the game is ongoing or tied.
    pub fn get_winner(&self) -> (r: Option<&Player>)
        requires
            self.wf(),
        ensures
            match self.winner_index {
                Some(w) => r matches Some(p) && *p == self.players@[w as int],
                None => r is None,
            },
    {
        proof {
            lemma_winner_from_bounded(self.board@, 0);
        }
        match self.winner_index {
            Some(w) => Some(&self.players[w]),
            None => None,
        }
    }

    /// The player whose turn it currently is.
    pub fn get_current_player(&self) -> (r: &Player)
        requires
            self.wf(),
        ensures
            *r == self.players@[self.current_player_index as int],
    {
        &self.players[self.current_player_index]
    }

    /// Returns the index of the winning player: the first of the eight line
    /// sums (rows, then columns, then the two diagonals) that reaches `3`
    /// names player 0, the first that reaches `-3` names player 1.
    pub fn check_for_winner(&self) -> (r: Option<usize>)
        requires
            self.board.wf(),
        ensures
            r == spec_winner(self.board@),
    {
        let b = &self.board;
        let row0: i32 = b.get_play(0) + b.get_play(1) + b.get_play(2);
        let row1: i32 = b.get_play(3) + b.get_play(4) + b.get_play(5);
        let row2: i32 = b.get_play(6) + b.get_play(7) + b.get_play(8);
        let col0: i32 = b.get_play(0) + b.get_play(3) + b.get_play(6);
        let col1: i32 = b.get_play(1) + b.get_play(4) + b.get_play(7);
        let col2: i32 = b.get_play(2) + b.get_play(5) + b.get_play(8);
        let diag0: i32 = b.get_play(0) + b.get_play(4) + b.get_play(8);
        let diag1: i32 = b.get_play(2) + b.get_play(4) + b.get_play(6);

        proof {
            reveal_with_fuel(winner_from, 9);
        }

        if row0 == 3 {
            Some(0)
        } else if row0 == -3 {
            Some(1)
        } else if row1 == 3 {
            Some(0)
        } else if row1 == -3 {
            Some(1)
        } else if row2 == 3 {
            Some(0)
        } else if row2 == -3 {
            Some(1)
        } else if col0 == 3 {
            Some(0)
        } else if col0 == -3 {
            Some(1)
        } else if col1 == 3 {
            Some(0)
        } else if col1 == -3 {
            Some(1)
        } else if col2 == 3 {
            Some(0)
        } else if col2 == -3 {
            Some(1)
        } else if diag0 == 3 {
            Some(0)
        } else if diag0 == -3 {
            Some(1)
        } else if diag1 == 3 {
            Some(0)
        } else if diag1 == -3 {
            Some(1)
        } else {
            None
        }
    }
}

/// The count of empty cells never leaves `[0, len]`.
pub proof fn lemma_num_empty_bounds(b: Seq<i32>)
    ensures
        0 <= num_empty(b) <= b.len(),
    decreases b.len(),
{
    if b.len() > 0 {
        lemma_num_empty_bounds(b.drop_last());
    }
}

/// Marking an empty cell with a non-empty value lowers the count of empty
/// cells by exactly one.
pub proof fn lemma_num_empty_update(b: Seq<i32>, i: int, v: i32)
    requires
        0 <= i < b.len(),
        b[i] == EMPTY_VALUE,
        v != EMPTY_VALUE,
    ensures
        num_empty(b.update(i, v)) == num_empty(b) - 1,
    decreases b.len(),
{
    let ub = b.update(i, v);
    if i == b.len() - 1 {
        assert(ub.drop_last() =~= b.drop_last());
    } else {
        assert(ub.drop_last() =~= b.drop_last().update(i, v));
        lemma_num_empty_update(b.drop_last(), i, v);
    }
}

/// A board whose cells are all empty has as many empty cells as it has cells.
pub proof fn lemma_num_empty_all_empty(b: Seq<i32>)
    requires
        forall|i: int| 0 <= i < b.len() ==> b[i] == EMPTY_VALUE,
    ensures
        num_empty(b) == b.len(),
    decreases b.len(),
{
    if b.len() > 0 {
        lemma_num_empty_all_empty(b.drop_last());
    }
}

/// A scan that only looks at lines whose sums all miss `3` and `-3` finds no
/// winner.
pub proof fn lemma_winner_from_none(b: Seq<i32>, l: int)
    requires
        forall|k: int| l <= k < 8 ==> line_sum(b, k) != 3 && line_sum(b, k) != -3,
    ensures
        winner_from(b, l) is None,
    decreases 8 - l,
{
    if l < 8 {
        lemma_winner_from_none(b, l + 1);
    }
}

/// The scan can only name player 0 or player 1.
pub proof fn lemma_winner_from_bounded(b: Seq<i32>, l: int)
    ensures
        winner_from(b, l) matches Some(w) ==> w <= 1,
    decreases 8 - l,
{
    if l < 8 {
        lemma_winner_from_bounded(b, l + 1);
    }
}

/// The empty grid has nine free cells and no winner.
pub proof fn lemma_empty_grid_state()
    ensures
        num_empty(empty_grid()) == 9,
        spec_winner(empty_grid()) is None,
{
    lemma_num_empty_all_empty(empty_grid());
    assert forall|k: int| 0 <= k < 8 implies line_sum(empty_grid(), k) != 3 && line_sum(
        empty_grid(),
        k,
    ) != -3 by {
        let (i, j, m) = line(k);
        assert(empty_grid()[i] == EMPTY_VALUE);
        assert(empty_grid()[j] == EMPTY_VALUE);
        assert(empty_grid()[m] == EMPTY_VALUE);
    };
    lemma_winner_from_none(empty_grid(), 0);
}

/// A board with no three like-signed marks aligned on any row, column, or
/// diagonal has no winner.
pub proof fn lemma_no_triple_no_winner(b: Seq<i32>)
    requires
        b.len() == 9,
        forall|i: int| 0 <= i < 9 ==> valid_mark(#[trigger] b[i]),
        forall|l: int|
            #![trigger line_swept(b, l, 1i32)]
            #![trigger line_swept(b, l, -1i32)]
            0 <= l < 8 ==> !line_swept(b, l, 1i32) && !line_swept(b, l, -1i32),
    ensures
        spec_winner(b) is None,
{
    assert forall|k: int| 0 <= k < 8 implies line_sum(b, k) != 3 && line_sum(b, k) != -3 by {
        let (i, j, m) = line(k);
        assert(valid_mark(b[i]) && valid_mark(b[j]) && valid_mark(b[m]));
        assert(!line_swept(b, k, 1i32) && !line_swept(b, k, -1i32));
    };
    lemma_winner_from_none(b, 0);
}

/// Immediately after construction or restart every cell of the board is
/// empty and all nine cells are counted as free.
pub proof fn lemma_initial_all_cells_empty(a: App)
    requires
        a.is_initial(),
    ensures
        forall|i: int| 0 <= i < 9 ==> a.board@[i] == EMPTY_VALUE,
        a.missing_free_cells == 9,
{
    assert forall|i: int| 0 <= i < 9 implies a.board@[i] == EMPTY_VALUE by {
        assert(a.board@[i] == empty_grid()[i]);
    };
}

/// Moving against a grid edge leaves the cursor where it is, so repeated
/// moves in that direction change nothing once the edge is reached.
pub proof fn lemma_move_at_edge_is_noop(s: u8, dir: Direction)
    requires
        s < 9,
        at_edge(s, dir),
    ensures
        spec_move(s, dir) == s,
{
}

} // verus!
