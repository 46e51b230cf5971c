use vstd::prelude::*;

verus! {

/// Whether the cell at `(row, col)` of `g` is live; a coordinate outside the
/// grid counts as dead.
pub open spec fn live_at(g: Seq<Seq<bool>>, row: int, col: int) -> bool {
    0 <= row < g.len() && 0 <= col < g[row].len() && g[row][col]
}

pub open spec fn as_count(b: bool) -> int {
    if b { 1 } else { 0 }
}

/// The number of live cells among the eight neighbours of `(row, col)`.
pub open spec fn live_neighbors(g: Seq<Seq<bool>>, row: int, col: int) -> int {
    as_count(live_at(g, row - 1, col - 1)) + as_count(live_at(g, row - 1, col))
        + as_count(live_at(g, row - 1, col + 1)) + as_count(live_at(g, row, col - 1))
        + as_count(live_at(g, row, col + 1)) + as_count(live_at(g, row + 1, col - 1))
        + as_count(live_at(g, row + 1, col)) + as_count(live_at(g, row + 1, col + 1))
}

/// Conway's rule: a live cell survives on two or three neighbours, a dead one
/// is born on exactly three.
pub open spec fn next_state(alive: bool, neighbors: int) -> bool {
    if alive {
        neighbors == 2 || neighbors == 3
    } else {
        neighbors == 3
    }
}

/// A grid of `height` rows of `width` cells each.
pub open spec fn is_grid(g: Seq<Seq<bool>>, height: int, width: int) -> bool {
    &&& g.len() == height
    &&& forall|r: int| 0 <= r < height ==> (#[trigger] g[r]).len() == width
}

/// The generation that follows `g`, every cell computed from `g` alone.
pub open spec fn next_generation(g: Seq<Seq<bool>>) -> Seq<Seq<bool>> {
    Seq::new(
        g.len(),
        |r: int| Seq::new(g[r].len(), |c: int| next_state(g[r][c], live_neighbors(g, r, c))),
    )
}

/// `g` with the cell at `(row, col)` inverted, or `g` itself where that cell
/// lies outside the grid.
pub open spec fn toggled(g: Seq<Seq<bool>>, row: int, col: int) -> Seq<Seq<bool>> {
    if 0 <= row < g.len() && 0 <= col < g[row].len() {
        g.update(row, g[row].update(col, !g[row][col]))
    } else {
        g
    }
}

/// A cell with fewer than two or more than three live neighbours is dead in
/// the next generation.
pub proof fn lemma_lonely_or_crowded_cell_dies(g: Seq<Seq<bool>>, height: int, width: int, row: int, col: int)
    requires
        is_grid(g, height, width),
        0 <= row < height,
        0 <= col < width,
        live_neighbors(g, row, col) < 2 || live_neighbors(g, row, col) > 3,
    ensures
        !next_generation(g)[row][col],
{
}

/// A live cell with two or three live neighbours stays live, and a dead cell
/// with exactly three comes to life.
pub proof fn lemma_survival_and_birth(g: Seq<Seq<bool>>, height: int, width: int, row: int, col: int)
    requires
        is_grid(g, height, width),
        0 <= row < height,
        0 <= col < width,
    ensures
        g[row][col] && (live_neighbors(g, row, col) == 2 || live_neighbors(g, row, col) == 3)
            ==> next_generation(g)[row][col],
        !g[row][col] && live_neighbors(g, row, col) == 3 ==> next_generation(g)[row][col],
{
}

/// A grid with every cell dead stays so.
pub proof fn lemma_all_dead_is_fixed(height: nat, width: nat)
    ensures
        next_generation(all_dead(height as int, width as int)) == all_dead(height as int, width as int),
{
    let g = all_dead(height as int, width as int);
    assert forall|r: int, c: int| 0 <= r < height && 0 <= c < width implies live_neighbors(g, r, c) == 0 by {
    }
    assert(next_generation(g) =~~= g);
}

/// A grid whose only live cells are the three of `row` from `col - 1` to
/// `col + 1`.
pub open spec fn horizontal_triple(height: int, width: int, row: int, col: int) -> Seq<Seq<bool>> {
    Seq::new(height as nat, |r: int| Seq::new(width as nat, |c: int| r == row && col - 1 <= c <= col + 1))
}

/// A grid whose only live cells are the three of `col` from `row - 1` to
/// `row + 1`.
pub open spec fn vertical_triple(height: int, width: int, row: int, col: int) -> Seq<Seq<bool>> {
    Seq::new(height as nat, |r: int| Seq::new(width as nat, |c: int| c == col && row - 1 <= r <= row + 1))
}

/// The blinker: three cells in a row turn into three in a column about the
/// same centre, and back, on a grid that has room for both.
pub proof fn lemma_blinker_oscillates(height: int, width: int, row: int, col: int)
    requires
        1 <= row,
        row + 1 < height,
        1 <= col,
        col + 1 < width,
    ensures
        next_generation(horizontal_triple(height, width, row, col)) == vertical_triple(height, width, row, col),
        next_generation(vertical_triple(height, width, row, col)) == horizontal_triple(height, width, row, col),
{
    let h = horizontal_triple(height, width, row, col);
    let v = vertical_triple(height, width, row, col);
    assert(next_generation(h) =~~= v);
    assert(next_generation(v) =~~= h);
}

/// A corner cell has at most three neighbours inside the grid, and so at most
/// three live ones.
pub proof fn lemma_corner_neighbors(g: Seq<Seq<bool>>, height: int, width: int, row: int, col: int)
    requires
        is_grid(g, height, width),
        row == 0 || row == height - 1,
        col == 0 || col == width - 1,
        0 <= row < height,
        0 <= col < width,
    ensures
        live_neighbors(g, row, col) <= 3,
{
}

/// Toggling inverts the one cell named and keeps every other.
pub proof fn lemma_toggle_flips_one(g: Seq<Seq<bool>>, height: int, width: int, row: int, col: int)
    requires
        is_grid(g, height, width),
        0 <= row < height,
        0 <= col < width,
    ensures
        is_grid(toggled(g, row, col), height, width),
        forall|r: int, c: int|
            0 <= r < height && 0 <= c < width ==> #[trigger] toggled(g, row, col)[r][c] == if r == row
                && c == col {
                !g[r][c]
            } else {
                g[r][c]
            },
{
}

/// Toggling the same cell twice changes nothing.
pub proof fn lemma_toggle_twice(g: Seq<Seq<bool>>, row: int, col: int)
    ensures
        toggled(toggled(g, row, col), row, col) == g,
{
    if 0 <= row < g.len() && 0 <= col < g[row].len() {
        assert(toggled(toggled(g, row, col), row, col) =~~= g);
    }
}

/// The simulated grid, with the size in pixels of the window that shows it.
pub struct Game {
    field: Vec<Vec<bool>>,
    width: usize,
    height: usize,
    window_width: usize,
    window_height: usize,
}

impl View for Game {
    type V = Seq<Seq<bool>>;

    closed spec fn view(&self) -> Seq<Seq<bool>> {
        self.field@.map_values(|row: Vec<bool>| row@)
    }
}

/// The odds that a cell is seeded live: one in ten.
pub const SEED_NUMERATOR: u32 = 1;

pub const SEED_DENOMINATOR: u32 = 10;

/// Relies on rand::random_ratio: `true` with chance `numerator / denominator`,
/// certainly `false` for a zero numerator and certainly `true` when the two are
/// equal; it panics when `denominator` is zero or below `numerator`.
#[verifier::external_body]
fn random_ratio(numerator: u32, denominator: u32) -> (r: bool)
    requires
        0 < denominator,
        numerator <= denominator,
    ensures
        numerator == 0 ==> !r,
        numerator == denominator ==> r,
{
    rand::random_ratio(numerator, denominator)
}

/// A grid of `height` rows of `width` cells, all dead.
pub open spec fn all_dead(height: int, width: int) -> Seq<Seq<bool>> {
    Seq::new(height as nat, |r: int| Seq::new(width as nat, |c: int| false))
}

impl Game {
    fn seeded(width: usize, height: usize, window_width: usize, window_height: usize, numerator: u32, denominator: u32) -> (g: Game)
        requires
            0 < denominator,
            numerator <= denominator,
        ensures
            g.wf(),
            g.spec_width() == width,
            g.spec_height() == height,
            g.spec_window_width() == window_width,
            g.spec_window_height() == window_height,
            numerator == 0 ==> g@ == all_dead(height as int, width as int),
    {
        let mut field: Vec<Vec<bool>> = Vec::new();
        let mut r: usize = 0;
        while r < height
            invariant
                r <= height,
                field@.len() == r,
                forall|i: int| 0 <= i < r ==> (#[trigger] field@[i])@.len() == width,
                numerator == 0 ==> forall|i: int|
                    0 <= i < r ==> (#[trigger] field@[i])@ == all_dead(height as int, width as int)[i],
                0 < denominator,
                numerator <= denominator,
            decreases height - r,
        {
            let mut row: Vec<bool> = Vec::new();
            let mut c: usize = 0;
            while c < width
                invariant
                    c <= width,
                    row@.len() == c,
                    numerator == 0 ==> forall|j: int| 0 <= j < c ==> !(#[trigger] row@[j]),
                    0 < denominator,
                    numerator <= denominator,
                decreases width - c,
            {
                row.push(random_ratio(numerator, denominator));
                c = c + 1;
            }
            proof {
                if numerator == 0 {
                    assert(row@ =~= all_dead(height as int, width as int)[r as int]);
                }
            }
            field.push(row);
            r = r + 1;
        }
        let g = Game { field, width, height, window_width, window_height };
        proof {
            if numerator == 0 {
                assert(g@ =~= all_dead(height as int, width as int));
            }
        }
        g
    }

    /// A `height` by `width` grid whose cells are each seeded live with
    /// chance one in ten, shown in a window of the given size in pixels.
    pub fn new(width: usize, height: usize, window_width: usize, window_height: usize) -> (g: Game)
        ensures
            g.wf(),
            g.spec_width() == width,
            g.spec_height() == height,
            g.spec_window_width() == window_width,
            g.spec_window_height() == window_height,
    {
        Game::seeded(width, height, window_width, window_height, SEED_NUMERATOR, SEED_DENOMINATOR)
    }

    /// A `height` by `width` grid with every cell dead.
    pub fn dead(width: usize, height: usize, window_width: usize, window_height: usize) -> (g: Game)
        ensures
            g.wf(),
            g@ == all_dead(height as int, width as int),
            g.spec_width() == width,
            g.spec_height() == height,
            g.spec_window_width() == window_width,
            g.spec_window_height() == window_height,
    {
        Game::seeded(width, height, window_width, window_height, 0, 1)
    }

    pub fn width(&self) -> (r: usize)
        ensures
            r == self.spec_width(),
    {
        self.width
    }

    pub fn height(&self) -> (r: usize)
        ensures
            r == self.spec_height(),
    {
        self.height
    }

    pub fn window_width(&self) -> (r: usize)
        ensures
            r == self.spec_window_width(),
    {
        self.window_width
    }

    pub fn window_height(&self) -> (r: usize)
        ensures
            r == self.spec_window_height(),
    {
        self.window_height
    }

    /// Whether the cell at `(row, col)` is live; `false` outside the grid.
    pub fn is_alive(&self, row: usize, col: usize) -> (r: bool)
        requires
            self.wf(),
        ensures
            r == live_at(self@, row as int, col as int),
    {
        if row < self.height && col < self.width {
            assert(self@[row as int] == self.field@[row as int]@);
            self.field[row][col]
        } else {
            false
        }
    }

    /// Inverts the cell at `(row, col)`; nothing changes outside the grid.
    pub fn toggle(&mut self, row: usize, col: usize)
        requires
            old(self).wf(),
        ensures
            final(self).wf(),
            final(self)@ == toggled(old(self)@, row as int, col as int),
            final(self).spec_width() == old(self).spec_width(),
            final(self).spec_height() == old(self).spec_height(),
            final(self).spec_window_width() == old(self).spec_window_width(),
            final(self).spec_window_height() == old(self).spec_window_height(),
    {
        if row < self.height && col < self.width {
            let ghost g = self@;
            assert(self.field@[row as int]@ == g[row as int]);
            let v = self.field[row][col];
            self.field[row].set(col, !v);
            assert(self@ =~= toggled(g, row as int, col as int));
        }
    }

    pub closed spec fn spec_width(&self) -> nat {
        self.width as nat
    }

    pub closed spec fn spec_height(&self) -> nat {
        self.height as nat
    }

    pub closed spec fn spec_window_width(&self) -> nat {
        self.window_width as nat
    }

    pub closed spec fn spec_window_height(&self) -> nat {
        self.window_height as nat
    }

    /// The cells form a `height` by `width` rectangle.
    pub open spec fn wf(&self) -> bool {
        is_grid(self@, self.spec_height() as int, self.spec_width() as int)
    }

    fn live_offset(&self, row: usize, col: usize, dr: usize, dc: usize) -> (r: bool)
        requires
            self.wf(),
            row < self.height,
            col < self.width,
            dr <= 2,
            dc <= 2,
        ensures
            r == live_at(self@, row + dr - 1, col + dc - 1),
    {
        let r: usize = if dr == 0 {
            if row == 0 {
                return false;
            }
            row - 1
        } else if dr == 1 {
            row
        } else {
            if row + 1 >= self.height {
                return false;
            }
            row + 1
        };
        let c: usize = if dc == 0 {
            if col == 0 {
                return false;
            }
            col - 1
        } else if dc == 1 {
            col
        } else {
            if col + 1 >= self.width {
                return false;
            }
            col + 1
        };
        assert(self@[r as int] == self.field@[r as int]@);
        self.field[r][c]
    }

    /// The number of live neighbours of the cell at `(row, col)`; neighbours
    /// beyond the edges count as dead.
    pub fn count_neighbors(&self, row: usize, col: usize) -> (n: u8)
        requires
            self.wf(),
            row < self.spec_height(),
            col < self.spec_width(),
        ensures
            n == live_neighbors(self@, row as int, col as int),
            n <= 8,
    {
        let mut n: u8 = 0;
        if self.live_offset(row, col, 0, 0) { n = n + 1; }
        if self.live_offset(row, col, 0, 1) { n = n + 1; }
        if self.live_offset(row, col, 0, 2) { n = n + 1; }
        if self.live_offset(row, col, 1, 0) { n = n + 1; }
        if self.live_offset(row, col, 1, 2) { n = n + 1; }
        if self.live_offset(row, col, 2, 0) { n = n + 1; }
        if self.live_offset(row, col, 2, 1) { n = n + 1; }
        if self.live_offset(row, col, 2, 2) { n = n + 1; }
        n
    }

    /// Replaces the grid by the next generation.
    pub fn update(&mut self)
        requires
            old(self).wf(),
        ensures
            final(self).wf(),
            final(self)@ == next_generation(old(self)@),
            final(self).spec_width() == old(self).spec_width(),
            final(self).spec_height() == old(self).spec_height(),
            final(self).spec_window_width() == old(self).spec_window_width(),
            final(self).spec_window_height() == old(self).spec_window_height(),
    {
        let ghost g = self@;
        let mut next: Vec<Vec<bool>> = Vec::new();
        let mut r: usize = 0;
        while r < self.height
            invariant
                self.wf(),
                self@ == g,
                r <= self.height,
                next@.len() == r,
                forall|i: int|
                    0 <= i < r ==> (#[trigger] next@[i])@ == next_generation(g)[i],
            decreases self.height - r,
        {
            let mut row: Vec<bool> = Vec::new();
            let mut c: usize = 0;
            while c < self.width
                invariant
                    self.wf(),
                    self@ == g,
                    r < self.height,
                    c <= self.width,
                    row@.len() == c,
                    forall|j: int|
                        0 <= j < c ==> #[trigger] row@[j] == next_state(
                            g[r as int][j],
                            live_neighbors(g, r as int, j),
                        ),
                decreases self.width - c,
            {
                let n = self.count_neighbors(r, c);
                assert(self@[r as int] == self.field@[r as int]@);
                let alive = self.field[r][c];
                let cell = if alive { n == 2 || n == 3 } else { n == 3 };
                row.push(cell);
                c = c + 1;
            }
            assert(row@ =~= next_generation(g)[r as int]);
            next.push(row);
            r = r + 1;
        }
        self.field = next;
        assert(self@ =~= next_generation(g));
    }
}

} // verus!
