//! Game-of-Life stepping over a dense 2D grid of binary cells: Moore
//! neighborhood, finite (non-wrapping) boundary, synchronous update
//! through a scratch buffer.

use vstd::prelude::*;
use crate::utils::Array2d;
use crate::utils::lemma_index_pos_round_trip;

verus! {

/// The state of one cell: alive (`On`) or dead (`Off`).
#[derive(Clone, Copy, Debug, PartialEq, Eq, Structural)]
pub enum BlockState {
    On,
    Off,
}

impl Default for BlockState {
    /// A cell is dead by default.
    fn default() -> (r: BlockState)
        ensures
            r == BlockState::Off,
    {
        BlockState::Off
    }
}

/// One if the coordinate holds a live cell, zero otherwise; coordinates
/// off the grid count as permanently dead.
pub open spec fn live_contribution(g: Array2d<BlockState>, x: int, y: int) -> int {
    if g.in_bounds(x, y) && g.spec_cell(x, y) is On {
        1
    } else {
        0
    }
}

/// How many of the eight Moore neighbors of `(x, y)` are alive; neighbors
/// outside the grid contribute nothing.
pub open spec fn neighbor_count(g: Array2d<BlockState>, x: int, y: int) -> int {
    live_contribution(g, x - 1, y - 1) + live_contribution(g, x, y - 1) + live_contribution(
        g,
        x + 1,
        y - 1,
    ) + live_contribution(g, x - 1, y) + live_contribution(g, x + 1, y) + live_contribution(
        g,
        x - 1,
        y + 1,
    ) + live_contribution(g, x, y + 1) + live_contribution(g, x + 1, y + 1)
}

/// The standard rule: a dead cell comes alive on exactly three live
/// neighbors; a live cell survives on two or three.
pub open spec fn next_state(cur: BlockState, n: int) -> BlockState {
    match cur {
        BlockState::Off => if n == 3 {
            BlockState::On
        } else {
            BlockState::Off
        },
        BlockState::On => if n == 2 || n == 3 {
            BlockState::On
        } else {
            BlockState::Off
        },
    }
}

/// `next` is `prev` advanced by exactly one generation: same dimensions,
/// and every cell carries the rule applied to its old state and old
/// neighbor count.
pub open spec fn steps_to(prev: Array2d<BlockState>, next: Array2d<BlockState>) -> bool {
    &&& next.wf()
    &&& next.spec_width() == prev.spec_width()
    &&& next.spec_height() == prev.spec_height()
    &&& forall|x: int, y: int|
        prev.in_bounds(x, y) ==> #[trigger] next.spec_cell(x, y) == next_state(
            prev.spec_cell(x, y),
            neighbor_count(prev, x, y),
        )
}

/// Applies the rule to one cell.
fn next_cell(cur: BlockState, n: u8) -> (r: BlockState)
    ensures
        r == next_state(cur, n as int),
{
    match cur {
        BlockState::Off => if n == 3 {
            BlockState::On
        } else {
            BlockState::Off
        },
        BlockState::On => if n == 2 || n == 3 {
            BlockState::On
        } else {
            BlockState::Off
        },
    }
}

/// Looks up the neighbor of `(x, y)` at offset `(dx, dy)` through the
/// checked accessor, counting coordinates off the grid as dead.
fn neighbor_live(g: &Array2d<BlockState>, x: usize, y: usize, dx: i8, dy: i8) -> (c: u8)
    requires
        g.wf(),
        g.in_bounds(x as int, y as int),
        -1 <= dx <= 1,
        -1 <= dy <= 1,
    ensures
        c == live_contribution(*g, x + dx, y + dy),
{
    if (dx < 0 && x == 0) || (dy < 0 && y == 0) {
        return 0;
    }
    let nx = if dx < 0 {
        x - 1
    } else if dx > 0 {
        x + 1
    } else {
        x
    };
    let ny = if dy < 0 {
        y - 1
    } else if dy > 0 {
        y + 1
    } else {
        y
    };
    match g.try_index((nx, ny)) {
        Some(BlockState::On) => 1,
        _ => 0,
    }
}

/// Counts the live cells among the eight Moore neighbors of `(x, y)`.
fn count_live_neighbors(g: &Array2d<BlockState>, x: usize, y: usize) -> (n: u8)
    requires
        g.wf(),
        g.in_bounds(x as int, y as int),
    ensures
        n == neighbor_count(*g, x as int, y as int),
        n <= 8,
{
    let mut n: u8 = 0;
    n = n + neighbor_live(g, x, y, -1, -1);
    n = n + neighbor_live(g, x, y, 0, -1);
    n = n + neighbor_live(g, x, y, 1, -1);
    n = n + neighbor_live(g, x, y, -1, 0);
    n = n + neighbor_live(g, x, y, 1, 0);
    n = n + neighbor_live(g, x, y, -1, 1);
    n = n + neighbor_live(g, x, y, 0, 1);
    n = n + neighbor_live(g, x, y, 1, 1);
    n
}

/// Computes the next generation of `grid` into a fresh scratch buffer,
/// reading only the live grid so that the update is synchronous.
fn compute_next(grid: &Array2d<BlockState>) -> (buf: Array2d<BlockState>)
    requires
        grid.wf(),
    ensures
        steps_to(*grid, buf),
{
    let (w, h) = grid.dimensions();
    let mut buf = Array2d::<BlockState>::new((w, h));
    let mut y: usize = 0;
    while y < h
        invariant
            grid.wf(),
            buf.wf(),
            w == grid.spec_width(),
            h == grid.spec_height(),
            buf.spec_width() == grid.spec_width(),
            buf.spec_height() == grid.spec_height(),
            y <= h,
            forall|x2: int, y2: int|
                grid.in_bounds(x2, y2) && y2 < y ==> #[trigger] buf.spec_cell(x2, y2)
                    == next_state(grid.spec_cell(x2, y2), neighbor_count(*grid, x2, y2)),
        decreases h - y,
    {
        let mut x: usize = 0;
        while x < w
            invariant
                grid.wf(),
                buf.wf(),
                w == grid.spec_width(),
                h == grid.spec_height(),
                buf.spec_width() == grid.spec_width(),
                buf.spec_height() == grid.spec_height(),
                y < h,
                x <= w,
                forall|x2: int, y2: int|
                    grid.in_bounds(x2, y2) && (y2 < y || (y2 == y && x2 < x))
                        ==> #[trigger] buf.spec_cell(x2, y2) == next_state(
                        grid.spec_cell(x2, y2),
                        neighbor_count(*grid, x2, y2),
                    ),
            decreases w - x,
        {
            let n = count_live_neighbors(grid, x, y);
            let cur = grid.get((x, y));
            buf.set((x, y), next_cell(cur, n));
            x = x + 1;
        }
        y = y + 1;
    }
    buf
}

/// Overwrites every cell of `dst` with the cell of `src` at the same
/// coordinate; the grids must have equal dimensions.
fn copy_into(dst: &mut Array2d<BlockState>, src: &Array2d<BlockState>)
    requires
        old(dst).wf(),
        src.wf(),
        old(dst).spec_width() == src.spec_width(),
        old(dst).spec_height() == src.spec_height(),
    ensures
        final(dst).wf(),
        final(dst).spec_width() == old(dst).spec_width(),
        final(dst).spec_height() == old(dst).spec_height(),
        forall|x: int, y: int|
            src.in_bounds(x, y) ==> #[trigger] final(dst).spec_cell(x, y) == src.spec_cell(x, y),
{
    let (w, h) = src.dimensions();
    let mut y: usize = 0;
    while y < h
        invariant
            dst.wf(),
            src.wf(),
            w == src.spec_width(),
            h == src.spec_height(),
            dst.spec_width() == src.spec_width(),
            dst.spec_height() == src.spec_height(),
            y <= h,
            forall|x2: int, y2: int|
                src.in_bounds(x2, y2) && y2 < y ==> #[trigger] dst.spec_cell(x2, y2)
                    == src.spec_cell(x2, y2),
        decreases h - y,
    {
        let mut x: usize = 0;
        while x < w
            invariant
                dst.wf(),
                src.wf(),
                w == src.spec_width(),
                h == src.spec_height(),
                dst.spec_width() == src.spec_width(),
                dst.spec_height() == src.spec_height(),
                y < h,
                x <= w,
                forall|x2: int, y2: int|
                    src.in_bounds(x2, y2) && (y2 < y || (y2 == y && x2 < x))
                        ==> #[trigger] dst.spec_cell(x2, y2) == src.spec_cell(x2, y2),
            decreases w - x,
        {
            dst.set((x, y), src.get((x, y)));
            x = x + 1;
        }
        y = y + 1;
    }
}

/// Advances grids of binary cells one generation at a time.
pub struct GameOfLife;

impl GameOfLife {
    /// Advances `grid` by exactly one generation of the standard rule,
    /// under the finite-edge policy. A grid with zero width or height has
    /// an empty domain and is left as it is.
    pub fn step(grid: &mut Array2d<BlockState>)
        requires
            old(grid).wf(),
        ensures
            steps_to(*old(grid), *final(grid)),
    {
        let buf = compute_next(grid);
        copy_into(grid, &buf);
    }
}

/// Relies on rand::random_range over the thread-local generator: the
/// sampled value lies in the given range, here `0..bound`; an empty
/// range would panic, so the bound must be positive.
#[verifier::external_body]
fn random_below(bound: u32) -> (r: u32)
    requires
        1 <= bound,
    ensures
        r < bound,
{
    rand::random_range(0..bound)
}

/// Seeds every cell of the grid independently at random, alive or dead
/// with equal weight; the dimensions stay as they are.
pub fn randomize(grid: &mut Array2d<BlockState>)
    requires
        old(grid).wf(),
    ensures
        final(grid).wf(),
        final(grid).spec_width() == old(grid).spec_width(),
        final(grid).spec_height() == old(grid).spec_height(),
{
    let (w, h) = grid.dimensions();
    let mut y: usize = 0;
    while y < h
        invariant
            grid.wf(),
            w == grid.spec_width(),
            h == grid.spec_height(),
            y <= h,
        decreases h - y,
    {
        let mut x: usize = 0;
        while x < w
            invariant
                grid.wf(),
                w == grid.spec_width(),
                h == grid.spec_height(),
                y < h,
                x <= w,
            decreases w - x,
        {
            let state = if random_below(2) == 0 {
                BlockState::Off
            } else {
                BlockState::On
            };
            grid.set((x, y), state);
            x = x + 1;
        }
        y = y + 1;
    }
}

/// Determinism law: stepping is a function of the grid contents alone.
/// Two grids of equal dimensions holding equal cell sequences step to
/// equal cell sequences.
pub proof fn lemma_step_deterministic(
    a0: Array2d<BlockState>,
    a1: Array2d<BlockState>,
    b0: Array2d<BlockState>,
    b1: Array2d<BlockState>,
)
    requires
        a0.wf(),
        b0.wf(),
        a0.spec_width() == b0.spec_width(),
        a0.spec_height() == b0.spec_height(),
        a0.values() == b0.values(),
        steps_to(a0, a1),
        steps_to(b0, b1),
    ensures
        a1.values() == b1.values(),
{
    let w = a0.spec_width();
    let h = a0.spec_height();
    assert forall|i: int| 0 <= i < w * h implies a1.values()[i] == b1.values()[i] by {
        lemma_index_pos_round_trip(w, h, i);
        let x = i % w;
        let y = i / w;
        assert(a1.spec_cell(x, y) == next_state(a0.spec_cell(x, y), neighbor_count(a0, x, y)));
        assert(b1.spec_cell(x, y) == next_state(b0.spec_cell(x, y), neighbor_count(b0, x, y)));
        assert(neighbor_count(a0, x, y) == neighbor_count(b0, x, y));
    }
    assert(a1.values() =~= b1.values());
}

/// Degenerate-grid law: a grid with zero width or zero height has no
/// cells, so one step leaves its contents unchanged.
pub proof fn lemma_degenerate_step(prev: Array2d<BlockState>, next: Array2d<BlockState>)
    requires
        prev.wf(),
        steps_to(prev, next),
        prev.spec_width() == 0 || prev.spec_height() == 0,
    ensures
        next.values() == prev.values(),
{
    let w = prev.spec_width();
    let h = prev.spec_height();
    assert(w * h == 0) by (nonlinear_arith)
        requires
            w == 0 || h == 0,
    ;
    assert(next.values() =~= prev.values());
}

/// Finite-boundary law for the corner: at `(0, 0)` the Moore
/// neighborhood is cut to at most three in-grid cells, and after one
/// step the corner is alive exactly on a neighbor count of three. The
/// one configuration the rule decides otherwise — a live corner with
/// exactly two live neighbors, which survives — is left out.
pub proof fn lemma_corner_cell(prev: Array2d<BlockState>, next: Array2d<BlockState>)
    requires
        prev.wf(),
        1 <= prev.spec_width(),
        1 <= prev.spec_height(),
        steps_to(prev, next),
        !(prev.spec_cell(0, 0) is On && neighbor_count(prev, 0, 0) == 2),
    ensures
        0 <= neighbor_count(prev, 0, 0) <= 3,
        next.spec_cell(0, 0) is On <==> neighbor_count(prev, 0, 0) == 3,
{
    assert(prev.in_bounds(0, 0));
    assert(next.spec_cell(0, 0) == next_state(prev.spec_cell(0, 0), neighbor_count(prev, 0, 0)));
}

} // verus!
