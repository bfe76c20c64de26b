use vstd::prelude::*;

verus! {

/// The abstract state of a grid: its dimensions, the two symbols that stand for
/// the two cell states, the cell matrix (indexed `cells[x][y]` with
/// `x < width`, `y < height`) and the generation counter.
pub struct GridModel {
    pub width: nat,
    pub height: nat,
    pub alive: char,
    pub dead: char,
    pub cells: Seq<Seq<char>>,
    pub generation: nat,
}

/// 1 for a true condition, 0 for a false one.
pub open spec fn one_if(b: bool) -> nat {
    if b {
        1
    } else {
        0
    }
}

impl GridModel {
    /// The matrix has `width` columns of `height` cells, the two symbols differ,
    /// and every cell holds one of them.
    pub open spec fn wf(self) -> bool {
        &&& self.alive != self.dead
        &&& self.cells.len() == self.width
        &&& forall|x: int| 0 <= x < self.width ==> #[trigger] self.cells[x].len() == self.height
        &&& forall|x: int, y: int|
            0 <= x < self.width && 0 <= y < self.height ==> #[trigger] self.cells[x][y] == self.alive
                || self.cells[x][y] == self.dead
    }

    /// Whether `(x, y)` lies on the grid.
    pub open spec fn in_bounds(self, x: int, y: int) -> bool {
        0 <= x < self.width && 0 <= y < self.height
    }

    /// Whether `(x, y)` lies on the grid and holds a live cell; positions off
    /// the grid count as dead.
    pub open spec fn live_at(self, x: int, y: int) -> bool {
        self.in_bounds(x, y) && self.cells[x][y] == self.alive
    }

    /// How many of the eight positions around `(x, y)` lie on the grid.
    pub open spec fn candidate_neighbors(self, x: int, y: int) -> nat {
        one_if(self.in_bounds(x - 1, y - 1)) + one_if(self.in_bounds(x - 1, y)) + one_if(
            self.in_bounds(x - 1, y + 1),
        ) + one_if(self.in_bounds(x, y - 1)) + one_if(self.in_bounds(x, y + 1)) + one_if(
            self.in_bounds(x + 1, y - 1),
        ) + one_if(self.in_bounds(x + 1, y)) + one_if(self.in_bounds(x + 1, y + 1))
    }

    /// How many of the eight positions around `(x, y)` hold a live cell.
    pub open spec fn live_neighbors(self, x: int, y: int) -> nat {
        one_if(self.live_at(x - 1, y - 1)) + one_if(self.live_at(x - 1, y)) + one_if(
            self.live_at(x - 1, y + 1),
        ) + one_if(self.live_at(x, y - 1)) + one_if(self.live_at(x, y + 1)) + one_if(
            self.live_at(x + 1, y - 1),
        ) + one_if(self.live_at(x + 1, y)) + one_if(self.live_at(x + 1, y + 1))
    }

    /// The standard rule: a live cell survives with two or three live
    /// neighbours, a dead cell comes alive with exactly three.
    pub open spec fn next_live(self, x: int, y: int) -> bool {
        let n = self.live_neighbors(x, y);
        if self.live_at(x, y) {
            n == 2 || n == 3
        } else {
            n == 3
        }
    }

    /// The symbol at `(x, y)` in the next generation.
    pub open spec fn next_cell(self, x: int, y: int) -> char {
        if self.next_live(x, y) {
            self.alive
        } else {
            self.dead
        }
    }

    /// The grid one generation later: every cell is computed from this
    /// generation's cells alone, and the counter goes up by one.
    pub open spec fn advanced(self) -> GridModel {
        GridModel {
            cells: Seq::new(
                self.width,
                |x: int| Seq::new(self.height, |y: int| self.next_cell(x, y)),
            ),
            generation: self.generation + 1,
            ..self
        }
    }

    /// The grid `k` generations later.
    pub open spec fn advanced_by(self, k: nat) -> GridModel
        decreases k,
    {
        if k == 0 {
            self
        } else {
            self.advanced_by((k - 1) as nat).advanced()
        }
    }

    /// No cell of the grid is alive.
    pub open spec fn all_dead(self) -> bool {
        forall|x: int, y: int| !#[trigger] self.live_at(x, y)
    }
}

/// The grid at generation 0 whose cell `(x, y)` is live exactly where
/// `live[x][y]` holds.
pub open spec fn seeded(
    width: nat,
    height: nat,
    alive: char,
    dead: char,
    live: Seq<Seq<bool>>,
) -> GridModel {
    GridModel {
        width,
        height,
        alive,
        dead,
        cells: Seq::new(
            width,
            |x: int|
                Seq::new(
                    height,
                    |y: int|
                        if live[x][y] {
                            alive
                        } else {
                            dead
                        },
                ),
        ),
        generation: 0,
    }
}

/// Advancing never changes the grid's dimensions or symbols, however many
/// generations pass.
pub proof fn lemma_dimensions_fixed(m: GridModel, k: nat)
    ensures
        m.advanced_by(k).width == m.width,
        m.advanced_by(k).height == m.height,
        m.advanced_by(k).alive == m.alive,
        m.advanced_by(k).dead == m.dead,
    decreases k,
{
    if k > 0 {
        lemma_dimensions_fixed(m, (k - 1) as nat);
    }
}

/// After any number of generations every cell still holds one of the two
/// symbols, and the matrix keeps its shape.
pub proof fn lemma_cells_stay_binary(m: GridModel, k: nat)
    requires
        m.wf(),
    ensures
        m.advanced_by(k).wf(),
    decreases k,
{
    if k > 0 {
        lemma_cells_stay_binary(m, (k - 1) as nat);
        let p = m.advanced_by((k - 1) as nat);
        let q = p.advanced();
        assert forall|x: int| 0 <= x < q.width implies #[trigger] q.cells[x].len() == q.height by {}
        assert forall|x: int, y: int| 0 <= x < q.width && 0 <= y < q.height implies #[trigger] q.cells[x][y]
            == q.alive || q.cells[x][y] == q.dead by {}
    }
}

/// `k` generations after generation `g0` the counter reads `g0 + k`.
pub proof fn lemma_generation_counts_steps(m: GridModel, k: nat)
    ensures
        m.advanced_by(k).generation == m.generation + k,
    decreases k,
{
    if k > 0 {
        lemma_generation_counts_steps(m, (k - 1) as nat);
    }
}

/// The step depends on the current grid alone: two equal grids have equal
/// successors.
pub proof fn lemma_advance_deterministic(a: GridModel, b: GridModel)
    requires
        a == b,
    ensures
        a.advanced() == b.advanced(),
{
}

/// A corner of a grid at least two cells wide and high has exactly three
/// positions around it on the grid.
pub proof fn lemma_corner_has_three_candidates(m: GridModel, x: int, y: int)
    requires
        m.width >= 2,
        m.height >= 2,
        x == 0 || x == m.width - 1,
        y == 0 || y == m.height - 1,
    ensures
        m.candidate_neighbors(x, y) == 3,
{
}

/// A cell on an edge of a grid at least two cells wide and high, but not in
/// a corner, has exactly five positions around it on the grid.
pub proof fn lemma_edge_has_five_candidates(m: GridModel, x: int, y: int)
    requires
        m.width >= 2,
        m.height >= 2,
        m.in_bounds(x, y),
        x == 0 || x == m.width - 1 || y == 0 || y == m.height - 1,
        !((x == 0 || x == m.width - 1) && (y == 0 || y == m.height - 1)),
    ensures
        m.candidate_neighbors(x, y) == 5,
{
}

/// A cell never has more live neighbours than positions around it on the
/// grid.
pub proof fn lemma_live_within_candidates(m: GridModel, x: int, y: int)
    ensures
        m.live_neighbors(x, y) <= m.candidate_neighbors(x, y) <= 8,
{
}

/// A grid with no live cell stays without one for any number of
/// generations.
pub proof fn lemma_dead_grid_stays_dead(m: GridModel, k: nat)
    requires
        m.wf(),
        m.all_dead(),
    ensures
        m.advanced_by(k).all_dead(),
    decreases k,
{
    if k > 0 {
        lemma_dead_grid_stays_dead(m, (k - 1) as nat);
        lemma_dimensions_fixed(m, (k - 1) as nat);
        let p = m.advanced_by((k - 1) as nat);
        assert forall|x: int, y: int| !#[trigger] p.advanced().live_at(x, y) by {
            assert(!p.live_at(x - 1, y - 1) && !p.live_at(x - 1, y) && !p.live_at(x - 1, y + 1));
            assert(!p.live_at(x, y - 1) && !p.live_at(x, y + 1) && !p.live_at(x, y));
            assert(!p.live_at(x + 1, y - 1) && !p.live_at(x + 1, y) && !p.live_at(x + 1, y + 1));
        }
    }
}

} // verus!
