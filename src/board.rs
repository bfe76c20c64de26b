use vstd::prelude::*;

use crate::model::{seeded, GridModel};
use crate::text::{frame, heading, heading_text, lines, push_line};

verus! {

/// A grid of cells, each holding either the live or the dead symbol, with the
/// number of generations computed so far.
pub struct Board {
    width: usize,
    height: usize,
    alive: char,
    dead: char,
    board: Vec<Vec<char>>,
    gen: u64,
}

impl View for Board {
    type V = GridModel;

    closed spec fn view(&self) -> GridModel {
        GridModel {
            width: self.width as nat,
            height: self.height as nat,
            alive: self.alive,
            dead: self.dead,
            cells: self.board@.map_values(|row: Vec<char>| row@),
            generation: self.gen as nat,
        }
    }
}

/// Relies on rand::random::<bool>: one draw of a fair coin from the
/// thread-local generator. Nothing is known of the outcome.
#[verifier::external_body]
fn coin_flip() -> bool {
    rand::random::<bool>()
}

impl Board {
    /// A grid of `width` columns of `height` cells at generation 0, where
    /// `live[x][y]` says whether cell `(x, y)` starts alive. A zero width or
    /// height gives an empty grid, which every step leaves empty.
    pub fn from_pattern(
        width: usize,
        height: usize,
        alive: char,
        dead: char,
        live: &Vec<Vec<bool>>,
    ) -> (r: Board)
        requires
            alive != dead,
            live@.len() == width,
            forall|x: int| 0 <= x < width ==> #[trigger] live@[x]@.len() == height,
        ensures
            r@ == seeded(
                width as nat,
                height as nat,
                alive,
                dead,
                live@.map_values(|row: Vec<bool>| row@),
            ),
            r@.wf(),
    {
        let ghost target = seeded(
            width as nat,
            height as nat,
            alive,
            dead,
            live@.map_values(|row: Vec<bool>| row@),
        );
        let mut board: Vec<Vec<char>> = Vec::new();
        let mut x: usize = 0;
        while x < width
            invariant
                target == seeded(
                    width as nat,
                    height as nat,
                    alive,
                    dead,
                    live@.map_values(|row: Vec<bool>| row@),
                ),
                x <= width,
                live@.len() == width,
                forall|k: int| 0 <= k < width ==> #[trigger] live@[k]@.len() == height,
                board@.len() == x,
                forall|k: int| 0 <= k < x ==> #[trigger] board@[k]@ == target.cells[k],
            decreases width - x,
        {
            let mut row: Vec<char> = Vec::new();
            let mut y: usize = 0;
            proof {
                assert(live@[x as int]@.len() == height);
            }
            while y < height
                invariant
                    target == seeded(
                        width as nat,
                        height as nat,
                        alive,
                        dead,
                        live@.map_values(|row: Vec<bool>| row@),
                    ),
                    x < width,
                    y <= height,
                    live@.len() == width,
                    live@[x as int]@.len() == height,
                    row@.len() == y,
                    forall|k: int| 0 <= k < y ==> #[trigger] row@[k] == target.cells[x as int][k],
                decreases height - y,
            {
                let c = if live[x][y] {
                    alive
                } else {
                    dead
                };
                row.push(c);
                y = y + 1;
            }
            proof {
                assert(row@ =~= target.cells[x as int]);
            }
            board.push(row);
            x = x + 1;
        }
        let r = Board { width, height, alive, dead, board, gen: 0 };
        proof {
            assert(r@.cells =~= target.cells);
        }
        r
    }

    /// A grid of `width` columns of `height` cells at generation 0, each cell
    /// set alive or dead by its own fair coin flip. A zero width or height
    /// gives an empty grid.
    pub fn new(width: usize, height: usize, alive: char, dead: char) -> (r: Board)
        requires
            alive != dead,
        ensures
            r@.wf(),
            r@.width == width,
            r@.height == height,
            r@.alive == alive,
            r@.dead == dead,
            r@.generation == 0,
    {
        let mut live: Vec<Vec<bool>> = Vec::new();
        let mut x: usize = 0;
        while x < width
            invariant
                x <= width,
                live@.len() == x,
                forall|k: int| 0 <= k < x ==> #[trigger] live@[k]@.len() == height,
            decreases width - x,
        {
            let mut row: Vec<bool> = Vec::new();
            let mut y: usize = 0;
            while y < height
                invariant
                    y <= height,
                    row@.len() == y,
                decreases height - y,
            {
                row.push(coin_flip());
                y = y + 1;
            }
            live.push(row);
            x = x + 1;
        }
        Board::from_pattern(width, height, alive, dead, &live)
    }

    /// Number of columns.
    pub fn width(&self) -> (r: usize)
        ensures
            r == self@.width,
    {
        self.width
    }

    /// Number of cells in each column.
    pub fn height(&self) -> (r: usize)
        ensures
            r == self@.height,
    {
        self.height
    }

    /// The symbol of a live cell.
    pub fn alive(&self) -> (r: char)
        ensures
            r == self@.alive,
    {
        self.alive
    }

    /// The symbol of a dead cell.
    pub fn dead(&self) -> (r: char)
        ensures
            r == self@.dead,
    {
        self.dead
    }

    /// How many generations have been computed since the grid was made.
    pub fn generation(&self) -> (r: u64)
        ensures
            r == self@.generation,
    {
        self.gen
    }

    /// The symbol at `(x, y)`.
    pub fn cell(&self, x: usize, y: usize) -> (r: char)
        requires
            self@.wf(),
            x < self@.width,
            y < self@.height,
        ensures
            r == self@.cells[x as int][y as int],
    {
        proof {
            assert(self@.cells[x as int].len() == self@.height);
        }
        self.board[x][y]
    }

    /// A copy of the cell matrix, indexed `[x][y]`; changing it leaves the
    /// grid as it is.
    pub fn snapshot(&self) -> (r: Vec<Vec<char>>)
        requires
            self@.wf(),
        ensures
            r@.map_values(|row: Vec<char>| row@) == self@.cells,
    {
        let mut out: Vec<Vec<char>> = Vec::new();
        let mut x: usize = 0;
        while x < self.width
            invariant
                self@.wf(),
                x <= self@.width,
                out@.len() == x,
                forall|k: int| 0 <= k < x ==> #[trigger] out@[k]@ == self@.cells[k],
            decreases self@.width - x,
        {
            let mut row: Vec<char> = Vec::new();
            let mut y: usize = 0;
            while y < self.height
                invariant
                    self@.wf(),
                    x < self@.width,
                    y <= self@.height,
                    row@.len() == y,
                    forall|k: int| 0 <= k < y ==> #[trigger] row@[k] == self@.cells[x as int][k],
                decreases self@.height - y,
            {
                row.push(self.cell(x, y));
                y = y + 1;
            }
            proof {
                assert(row@ =~= self@.cells[x as int]);
            }
            out.push(row);
            x = x + 1;
        }
        proof {
            assert(out@.map_values(|row: Vec<char>| row@) =~= self@.cells);
        }
        out
    }
    /// Whether `(x, y)` holds a live cell.
    fn is_live(&self, x: usize, y: usize) -> (r: bool)
        requires
            self@.wf(),
            x < self@.width,
            y < self@.height,
        ensures
            r == self@.live_at(x as int, y as int),
    {
        proof {
            assert(self@.cells[x as int].len() == self@.height);
        }
        self.board[x][y] == self.alive
    }

    /// Counts the live cells among the (up to eight) positions around
    /// `(x, y)`; positions off the grid are left out, the grid does not wrap.
    pub fn live_neighbors(&self, x: usize, y: usize) -> (r: u8)
        requires
            self@.wf(),
            x < self@.width,
            y < self@.height,
        ensures
            r == self@.live_neighbors(x as int, y as int),
    {
        let w = self.width;
        let h = self.height;
        let mut n: u8 = 0;
        if x > 0 && y > 0 && self.is_live(x - 1, y - 1) {
            n = n + 1;
        }
        if x > 0 && self.is_live(x - 1, y) {
            n = n + 1;
        }
        if x > 0 && y + 1 < h && self.is_live(x - 1, y + 1) {
            n = n + 1;
        }
        if y > 0 && self.is_live(x, y - 1) {
            n = n + 1;
        }
        if y + 1 < h && self.is_live(x, y + 1) {
            n = n + 1;
        }
        if x + 1 < w && y > 0 && self.is_live(x + 1, y - 1) {
            n = n + 1;
        }
        if x + 1 < w && self.is_live(x + 1, y) {
            n = n + 1;
        }
        if x + 1 < w && y + 1 < h && self.is_live(x + 1, y + 1) {
            n = n + 1;
        }
        n
    }

    /// Replaces the grid by the next generation and counts one more
    /// generation. Every new cell is computed from the cells as they stood
    /// before the call, into a fresh matrix that then takes the old one's
    /// place.
    pub fn check_cells(&mut self)
        requires
            old(self)@.wf(),
            old(self)@.generation < u64::MAX,
        ensures
            final(self)@ == old(self)@.advanced(),
            final(self)@.wf(),
    {
        let ghost pre = self@;
        let mut new_board: Vec<Vec<char>> = Vec::new();
        let mut x: usize = 0;
        while x < self.width
            invariant
                self@ == pre,
                pre.wf(),
                x <= pre.width,
                new_board@.len() == x,
                forall|k: int| 0 <= k < x ==> #[trigger] new_board@[k]@ == pre.advanced().cells[k],
            decreases pre.width - x,
        {
            let mut row: Vec<char> = Vec::new();
            let mut y: usize = 0;
            while y < self.height
                invariant
                    self@ == pre,
                    pre.wf(),
                    x < pre.width,
                    y <= pre.height,
                    row@.len() == y,
                    forall|k: int| 0 <= k < y ==> #[trigger] row@[k] == pre.next_cell(x as int, k),
                decreases pre.height - y,
            {
                let n = self.live_neighbors(x, y);
                let next = if self.is_live(x, y) {
                    if n == 2 || n == 3 {
                        self.alive
                    } else {
                        self.dead
                    }
                } else if n == 3 {
                    self.alive
                } else {
                    self.dead
                };
                row.push(next);
                y = y + 1;
            }
            proof {
                assert(row@ =~= pre.advanced().cells[x as int]);
            }
            new_board.push(row);
            x = x + 1;
        }
        self.gen = self.gen + 1;
        self.board = new_board;
        proof {
            assert(self@.cells =~= pre.advanced().cells);
            crate::model::lemma_cells_stay_binary(pre, 1);
            assert(pre.advanced_by(1) == pre.advanced_by(0).advanced());
        }
    }

    /// The text of the current frame: `Generation: <n>` on its own line, then
    /// one line per column of the matrix, each cell's symbol in turn.
    pub fn render(&self) -> (r: String)
        requires
            self@.wf(),
        ensures
            r@ == frame(self@),
    {
        let mut s = heading_text(self.gen);
        let mut x: usize = 0;
        while x < self.width
            invariant
                self@.wf(),
                x <= self@.width,
                s@ == heading(self@.generation) + lines(self@.cells.take(x as int)),
            decreases self@.width - x,
        {
            push_line(&mut s, &self.board[x]);
            proof {
                let done = self@.cells.take(x as int + 1);
                assert(done.drop_last() =~= self@.cells.take(x as int));
                assert(s@ =~= heading(self@.generation) + lines(done));
            }
            x = x + 1;
        }
        proof {
            assert(self@.cells.take(x as int) =~= self@.cells);
        }
        s
    }

    /// One frame of a run: computes the next generation, then gives the text
    /// that shows it.
    pub fn step_frame(&mut self) -> (r: String)
        requires
            old(self)@.wf(),
            old(self)@.generation < u64::MAX,
        ensures
            final(self)@ == old(self)@.advanced(),
            r@ == frame(final(self)@),
    {
        self.check_cells();
        self.render()
    }
}

} // verus!
