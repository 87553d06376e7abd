//! The grid on which a field lives, and the saturating amplitude range.

use vstd::prelude::*;

verus! {

/// The alpha channel of an opaque colour: the top byte of a packed colour.
pub const ALPHA: u32 = 0xFF00_0000;

/// Least amplitude: half of the least 32-bit integer.
pub const I32_CAP_MIN: i32 = -0x4000_0000;

/// Greatest amplitude: half of the greatest 32-bit integer.
pub const I32_CAP_MAX: i32 = 0x3fff_ffff;

/// Why a request was turned down.
#[derive(Clone, Copy, Debug, PartialEq, Eq, Structural)]
pub enum WaveError {
    /// A grid needs three rows and three columns to have a cell inside its wall.
    GridTooSmall,
    /// A row or a column that lies outside the grid.
    OutOfBounds,
}

/// What a cell of the grid is: `Default` cells evolve, `Wall` cells never do.
#[derive(Clone, Copy, Debug, PartialEq, Eq, Structural)]
pub enum Status {
    Default,
    Wall,
}

/// Whether cell `idx` of a `width` by `height` grid, counted row by row, lies
/// in the first or last row or in the first or last column.
pub open spec fn on_wall(width: int, height: int, idx: int) -> bool {
    idx / width == 0 || idx / width == height - 1 || idx % width == 0 || idx % width == width - 1
}

/// The status of cell `idx` of a `width` by `height` grid.
pub open spec fn status_at(width: int, height: int, idx: int) -> Status {
    if on_wall(width, height, idx) {
        Status::Wall
    } else {
        Status::Default
    }
}

/// A rectangular grid of cells, stored row by row, with a wall one cell thick
/// around it.
#[derive(Clone, Debug)]
pub struct Arena {
    pub width: u32,
    pub height: u32,
    pub status: Vec<Status>,
}

impl Arena {
    /// The number of cells.
    pub open spec fn size(&self) -> int {
        self.width as int * self.height as int
    }

    /// The grid has a cell inside its wall, and `status` says of every cell
    /// what its place makes it.
    pub open spec fn wf(&self) -> bool {
        &&& self.width >= 3
        &&& self.height >= 3
        &&& self.size() <= usize::MAX
        &&& self.status@.len() == self.size()
        &&& forall|i: int|
            0 <= i < self.size() ==> #[trigger] self.status@[i] == status_at(
                self.width as int,
                self.height as int,
                i,
            )
    }

    /// Whether `idx` is a cell inside the wall.
    pub open spec fn interior(&self, idx: int) -> bool {
        0 <= idx < self.size() && !on_wall(self.width as int, self.height as int, idx)
    }

    /// The place of cell `idx` seen from the centre of the grid: `x` grows to
    /// the right, `y` grows upwards.
    pub open spec fn centered(&self, idx: int) -> (int, int) {
        (idx % (self.width as int) - self.width as int / 2, self.height as int / 2 - idx / (
        self.width as int))
    }

    /// Whether the place `(x, y)`, seen from the centre, is a cell of the grid.
    pub open spec fn holds(&self, x: int, y: int) -> bool {
        &&& 0 <= x + self.width as int / 2 < self.width
        &&& 0 <= self.height as int / 2 - y < self.height
    }

    /// The cell at the place `(x, y)` seen from the centre.
    pub open spec fn index_of(&self, x: int, y: int) -> int {
        (self.height as int / 2 - y) * self.width as int + (x + self.width as int / 2)
    }
}

/// The status of cell `idx` of a `width` by `height` grid.
pub fn classify(width: u32, height: u32, idx: usize) -> (s: Status)
    requires
        width >= 1,
        height >= 1,
    ensures
        s == status_at(width as int, height as int, idx as int),
{
    let w: usize = width as usize;
    let row: usize = idx / w;
    let col: usize = idx % w;
    if row == 0 || row == height as usize - 1 || col == 0 || col == w - 1 {
        Status::Wall
    } else {
        Status::Default
    }
}

impl Arena {
    /// Lays out a `width` by `height` grid. A grid with fewer than three rows
    /// or columns has no cell inside its wall and is turned down. The number
    /// of cells has to fit in a `usize`.
    pub fn new(width: u32, height: u32) -> (made: Result<Arena, WaveError>)
        requires
            width as int * height as int <= usize::MAX,
        ensures
            width < 3 || height < 3 <==> made == Err::<Arena, WaveError>(WaveError::GridTooSmall),
            width >= 3 && height >= 3 <==> made is Ok,
            made is Ok ==> {
                let arena = made->Ok_0;
                &&& arena.wf()
                &&& arena.width == width
                &&& arena.height == height
            },
    {
        if width < 3 || height < 3 {
            return Err(WaveError::GridTooSmall);
        }
        let w: usize = width as usize;
        let h: usize = height as usize;
        assert(w * h == width as int * height as int) by (nonlinear_arith)
            requires
                w == width,
                h == height,
        ;
        let n: usize = w * h;
        let mut status: Vec<Status> = Vec::with_capacity(n);
        let mut i: usize = 0;
        while i < n
            invariant
                i <= n,
                width >= 1,
                height >= 1,
                status@.len() == i,
                forall|k: int|
                    0 <= k < i ==> #[trigger] status@[k] == status_at(
                        width as int,
                        height as int,
                        k,
                    ),
            decreases n - i,
        {
            status.push(classify(width, height, i));
            i += 1;
        }
        Ok(Arena { width, height, status })
    }

    /// The place of cell `idx`, a cell of the grid, seen from its centre.
    pub fn to_xy(&self, idx: usize) -> (place: (i32, i32))
        requires
            self.wf(),
            idx < self.size(),
        ensures
            (place.0 as int, place.1 as int) == self.centered(idx as int),
            self.holds(place.0 as int, place.1 as int),
    {
        let w: usize = self.width as usize;
        let h: usize = self.height as usize;
        let col: usize = idx % w;
        let row: usize = idx / w;
        assert(row < h) by (nonlinear_arith)
            requires
                row == idx / w,
                idx < w * h,
                w > 0,
        ;
        let x: i64 = col as i64 - (w / 2) as i64;
        let y: i64 = (h / 2) as i64 - row as i64;
        (x as i32, y as i32)
    }

    /// The cell at the place `(x, y)`, a place on the grid seen from its
    /// centre: what `to_xy` started from.
    pub fn to_idx(&self, x: i32, y: i32) -> (idx: usize)
        requires
            self.wf(),
            self.holds(x as int, y as int),
        ensures
            idx == self.index_of(x as int, y as int),
            idx < self.size(),
    {
        let w: usize = self.width as usize;
        let h: usize = self.height as usize;
        let col: usize = (x as i64 + (self.width / 2) as i64) as usize;
        let row: usize = ((self.height / 2) as i64 - y as i64) as usize;
        assert(row * w + col < w * h && row * w >= 0) by (nonlinear_arith)
            requires
                0 <= row < h,
                0 <= col < w,
        ;
        row * w + col
    }
}

/// `x` brought into the amplitude range: the nearest value between
/// `I32_CAP_MIN` and `I32_CAP_MAX`.
pub open spec fn cap(x: int) -> int {
    if x < I32_CAP_MIN {
        I32_CAP_MIN as int
    } else if x > I32_CAP_MAX {
        I32_CAP_MAX as int
    } else {
        x
    }
}

/// Values that can be brought into the amplitude range.
pub trait Rectified: Sized {
    /// The value brought into the amplitude range.
    spec fn capped(self) -> Self;

    fn apply_cap(self) -> (r: Self)
        ensures
            r == self.capped(),
    ;
}

impl Rectified for i32 {
    open spec fn capped(self) -> i32 {
        cap(self as int) as i32
    }

    fn apply_cap(self) -> (r: i32) {
        if self < I32_CAP_MIN {
            I32_CAP_MIN
        } else if self > I32_CAP_MAX {
            I32_CAP_MAX
        } else {
            self
        }
    }
}

/// A sum of amplitudes, held in 64 bits, brought into the amplitude range.
pub fn saturate(x: i64) -> (r: i32)
    ensures
        r == cap(x as int),
{
    if x < I32_CAP_MIN as i64 {
        I32_CAP_MIN
    } else if x > I32_CAP_MAX as i64 {
        I32_CAP_MAX
    } else {
        x as i32
    }
}

/// Capping lands in the amplitude range, leaves a value of that range as it
/// is, and so changes nothing when applied a second time.
pub proof fn cap_idempotent(x: int)
    ensures
        I32_CAP_MIN <= cap(x) <= I32_CAP_MAX,
        I32_CAP_MIN <= x <= I32_CAP_MAX ==> cap(x) == x,
        cap(cap(x)) == cap(x),
{
}

/// The same for 32-bit values: capping twice is capping once.
pub proof fn apply_cap_idempotent(x: i32)
    ensures
        I32_CAP_MIN <= x.capped() <= I32_CAP_MAX,
        x.capped().capped() == x.capped(),
        x.capped() == cap(x as int),
{
}

/// Going from a cell to its place and back gives the cell.
pub proof fn index_of_centered(arena: Arena, idx: int)
    requires
        arena.wf(),
        0 <= idx < arena.size(),
    ensures
        arena.holds(arena.centered(idx).0, arena.centered(idx).1),
        arena.index_of(arena.centered(idx).0, arena.centered(idx).1) == idx,
{
    let w = arena.width as int;
    let h = arena.height as int;
    assert(idx / w < h) by (nonlinear_arith)
        requires
            0 <= idx < w * h,
            w > 0,
    ;
    assert(idx == (idx / w) * w + idx % w) by (nonlinear_arith)
        requires
            w > 0,
    ;
}

/// A well-formed grid has a cell inside its wall: the second cell of the
/// second row.
pub proof fn has_interior_cell(arena: Arena)
    requires
        arena.wf(),
    ensures
        arena.interior(arena.width as int + 1),
        arena.status@[arena.width as int + 1] == Status::Default,
{
    let w = arena.width as int;
    let h = arena.height as int;
    assert((w + 1) / w == 1 && (w + 1) % w == 1) by (nonlinear_arith)
        requires
            w >= 3,
    ;
    assert(w + 1 < w * h) by (nonlinear_arith)
        requires
            w >= 3,
            h >= 3,
    ;
}

} // verus!
