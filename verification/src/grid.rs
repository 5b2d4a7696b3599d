//! The grid/wall map: a static boolean occupancy grid parsed from a
//! newline-delimited character layout, answering occupancy queries.

use vstd::prelude::*;
use vstd::string::StrSliceExecFns;
use crate::entity::Hue;
use crate::rng::rng_next;
use crate::GRID_HEIGHT;
use crate::GRID_WIDTH;

verus! {

/// The occupancy grid, stored row-major: cell `(row, col)` is
/// `cells[row * GRID_WIDTH + col]`.
pub struct WallMap {
    pub color: Hue,
    pub cells: Vec<bool>,
}

/// The row-major position of cell `(row, col)` in the stored grid.
pub open spec fn cell_index(row: int, col: int) -> int {
    row * GRID_WIDTH as int + col
}

/// The all-free grid every map starts from.
pub open spec fn empty_cells() -> Seq<bool> {
    Seq::new((GRID_WIDTH * GRID_HEIGHT) as nat, |i: int| false)
}

/// One parsing step over the layout text.  A newline moves the cursor to the
/// start of the next row; any other character marks its cell occupied exactly
/// when it is `'#'`, and is silently dropped when the cursor lies beyond the
/// fixed grid.
pub open spec fn parse_step(cells: Seq<bool>, row: int, col: int, c: char) -> (Seq<bool>, int, int) {
    if c == '\n' {
        (cells, row + 1, 0)
    } else if 0 <= row < GRID_HEIGHT as int && 0 <= col < GRID_WIDTH as int {
        (cells.update(cell_index(row, col), c == '#'), row, col + 1)
    } else {
        (cells, row, col + 1)
    }
}

/// The grid and cursor after parsing the first `n` characters of the layout.
pub open spec fn parse_prefix(s: Seq<char>, n: int) -> (Seq<bool>, int, int)
    decreases n,
{
    if n <= 0 {
        (empty_cells(), 0, 0)
    } else {
        let prev = parse_prefix(s, n - 1);
        parse_step(prev.0, prev.1, prev.2, s[n - 1])
    }
}

/// The occupancy grid a layout text denotes.
pub open spec fn parse_layout(s: Seq<char>) -> Seq<bool> {
    parse_prefix(s, s.len() as int).0
}

impl WallMap {
    /// The grid holds exactly one cell per position of the fixed surface.
    pub open spec fn wf(self) -> bool {
        self.cells@.len() == (GRID_WIDTH * GRID_HEIGHT) as int
    }

    /// Occupancy of cell `(row, col)`.
    pub open spec fn cell(self, row: int, col: int) -> bool {
        self.cells@[cell_index(row, col)]
    }

    /// Parses a newline-delimited layout into the occupancy grid: `'#'` marks
    /// a wall, every other character a free cell.  Rows and columns beyond
    /// the fixed grid dimensions are ignored.
    pub fn new(map: &str, color: Hue) -> (m: WallMap)
        ensures
            m.wf(),
            m.color == color,
            m.cells@ == parse_layout(map@),
    {
        let mut cells: Vec<bool> = Vec::new();
        let mut i: usize = 0;
        while i < GRID_WIDTH * GRID_HEIGHT
            invariant
                i <= GRID_WIDTH * GRID_HEIGHT,
                cells@.len() == i as int,
                forall|j: int| 0 <= j < i as int ==> !cells@[j],
            decreases GRID_WIDTH * GRID_HEIGHT - i,
        {
            cells.push(false);
            i = i + 1;
        }
        proof {
            assert(cells@ =~= empty_cells());
        }
        let n = map.unicode_len();
        let mut k: usize = 0;
        let mut row: usize = 0;
        let mut col: usize = 0;
        while k < n
            invariant
                n as int == map@.len(),
                k <= n,
                row <= k,
                col <= k,
                cells@.len() == (GRID_WIDTH * GRID_HEIGHT) as int,
                parse_prefix(map@, k as int) == (cells@, row as int, col as int),
            decreases n - k,
        {
            let c = map.get_char(k);
            if c == '\n' {
                row = row + 1;
                col = 0;
            } else {
                if row < GRID_HEIGHT && col < GRID_WIDTH {
                    cells.set(row * GRID_WIDTH + col, c == '#');
                }
                col = col + 1;
            }
            k = k + 1;
            proof {
                let prev = parse_prefix(map@, k as int - 1);
                assert(parse_prefix(map@, k as int) == parse_step(prev.0, prev.1, prev.2, map@[k as int - 1]));
            }
        }
        WallMap { color, cells }
    }

    /// Marks a uniformly chosen cell strictly inside the row-0/column-0 frame
    /// as occupied; meant for generic item or obstacle placement.
    pub fn add_random_item(&mut self, rng: &mut rand::rngs::SmallRng)
        requires
            old(self).wf(),
        ensures
            final(self).wf(),
            final(self).color == old(self).color,
            exists|row: int, col: int|
                1 <= row < GRID_HEIGHT as int && 1 <= col < GRID_WIDTH as int
                    && final(self).cells@ == old(self).cells@.update(#[trigger] cell_index(row, col), true),
    {
        let col: usize = 1 + (rng_next(rng) as usize) % (GRID_WIDTH - 1);
        let row: usize = 1 + (rng_next(rng) as usize) % (GRID_HEIGHT - 1);
        self.add(row, col);
        proof {
            assert(self.cells@ == old(self).cells@.update(cell_index(row as int, col as int), true));
        }
    }

    /// Repaints the map.
    pub fn change_color(&mut self, color: Hue)
        ensures
            final(self).color == color,
            final(self).cells@ == old(self).cells@,
    {
        self.color = color;
    }

    /// Occupancy lookup for cell `(row, col)`.
    pub fn occupied(&self, row: usize, col: usize) -> (r: bool)
        requires
            self.wf(),
            row < GRID_HEIGHT,
            col < GRID_WIDTH,
        ensures
            r == self.cell(row as int, col as int),
    {
        self.cells[row * GRID_WIDTH + col]
    }

    /// Marks cell `(row, col)` occupied.
    pub fn add(&mut self, row: usize, col: usize)
        requires
            old(self).wf(),
            row < GRID_HEIGHT,
            col < GRID_WIDTH,
        ensures
            final(self).wf(),
            final(self).color == old(self).color,
            final(self).cells@ == old(self).cells@.update(cell_index(row as int, col as int), true),
    {
        self.cells.set(row * GRID_WIDTH + col, true);
    }

    /// Marks cell `(row, col)` free.
    pub fn remove(&mut self, row: usize, col: usize)
        requires
            old(self).wf(),
            row < GRID_HEIGHT,
            col < GRID_WIDTH,
        ensures
            final(self).wf(),
            final(self).color == old(self).color,
            final(self).cells@ == old(self).cells@.update(cell_index(row as int, col as int), false),
    {
        self.cells.set(row * GRID_WIDTH + col, false);
    }

    /// The character a cell renders as: `'#'` for a wall, a blank otherwise.
    pub fn char_at(&self, row: usize, col: usize) -> (c: char)
        requires
            self.wf(),
            row < GRID_HEIGHT,
            col < GRID_WIDTH,
        ensures
            c == (if self.cell(row as int, col as int) { '#' } else { ' ' }),
    {
        if self.occupied(row, col) {
            '#'
        } else {
            ' '
        }
    }
}

impl Default for WallMap {
    /// An all-free white map.
    fn default() -> (m: WallMap)
        ensures
            m.wf(),
            m.color == Hue::White,
            m.cells@ == empty_cells(),
    {
        let mut cells: Vec<bool> = Vec::new();
        let mut i: usize = 0;
        while i < GRID_WIDTH * GRID_HEIGHT
            invariant
                i <= GRID_WIDTH * GRID_HEIGHT,
                cells@.len() == i as int,
                forall|j: int| 0 <= j < i as int ==> !cells@[j],
            decreases GRID_WIDTH * GRID_HEIGHT - i,
        {
            cells.push(false);
            i = i + 1;
        }
        proof {
            assert(cells@ =~= empty_cells());
        }
        WallMap { color: Hue::White, cells }
    }
}

} // verus!
