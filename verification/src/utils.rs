//! A fixed-size, dense, row-major 2D container with explicit bounds
//! semantics: coordinate/index conversion is the single bounds-checking
//! chokepoint, and every accessor routes through it.

use vstd::prelude::*;

verus! {

/// A dense 2D array of copyable values, stored row-major: the cell at
/// coordinate `(x, y)` lives at storage index `y * width + x`.
pub struct Array2d<T: Default + Clone> {
    data: Vec<T>,
    dim: (usize, usize),
}

impl<T: Default + Clone + Copy> Array2d<T> {
    /// Number of columns.
    pub closed spec fn spec_width(&self) -> int {
        self.dim.0 as int
    }

    /// Number of rows.
    pub closed spec fn spec_height(&self) -> int {
        self.dim.1 as int
    }

    /// All stored values, in row-major order.
    pub closed spec fn values(&self) -> Seq<T> {
        self.data@
    }

    /// Structural invariant: the storage holds exactly one slot per
    /// coordinate of the `width x height` domain.
    pub open spec fn wf(&self) -> bool {
        &&& self.values().len() == self.spec_width() * self.spec_height()
        &&& self.spec_width() * self.spec_height() <= usize::MAX
        &&& 0 <= self.spec_width() <= usize::MAX
        &&& 0 <= self.spec_height() <= usize::MAX
    }

    /// The coordinates that map to a storage slot.
    pub open spec fn in_bounds(&self, x: int, y: int) -> bool {
        0 <= x < self.spec_width() && 0 <= y < self.spec_height()
    }

    /// Row-major storage index of a coordinate.
    pub open spec fn index_of(&self, x: int, y: int) -> int {
        y * self.spec_width() + x
    }

    /// The value stored at an in-bounds coordinate.
    pub open spec fn spec_cell(&self, x: int, y: int) -> T
        recommends
            self.wf(),
            self.in_bounds(x, y),
    {
        self.values()[self.index_of(x, y)]
    }

    /// Allocates a `dim.0 x dim.1` array with every cell default-valued.
    pub fn new(dim: (usize, usize)) -> (a: Array2d<T>)
        requires
            dim.0 * dim.1 <= usize::MAX,
        ensures
            a.wf(),
            a.spec_width() == dim.0,
            a.spec_height() == dim.1,
            forall|i: int|
                0 <= i < a.values().len() ==> call_ensures(
                    T::default,
                    (),
                    #[trigger] a.values()[i],
                ),
    {
        let len = dim.0 * dim.1;
        let mut data: Vec<T> = Vec::new();
        while data.len() < len
            invariant
                data.len() <= len,
                forall|i: int|
                    0 <= i < data.len() ==> call_ensures(T::default, (), #[trigger] data@[i]),
            decreases len - data.len(),
        {
            data.push(T::default());
        }
        Array2d { data, dim }
    }

    /// Returns the stored `(width, height)` pair.
    pub fn dimensions(&self) -> (d: (usize, usize))
        ensures
            d.0 == self.spec_width(),
            d.1 == self.spec_height(),
    {
        self.dim
    }

    /// Converts a coordinate to its storage index; the single bounds check:
    /// the index comes back exactly when the coordinate is in bounds.
    pub fn pos_to_i(&self, pos: (usize, usize)) -> (r: Option<usize>)
        requires
            self.wf(),
        ensures
            r is Some <==> self.in_bounds(pos.0 as int, pos.1 as int),
            r is Some ==> r->Some_0 == self.index_of(pos.0 as int, pos.1 as int)
                && r->Some_0 < self.values().len(),
    {
        let (x, y) = pos;
        let (wid, hei) = self.dim;
        if x < wid && y < hei {
            proof {
                lemma_pos_index_round_trip(wid as int, hei as int, x as int, y as int);
            }
            Some(wid * y + x)
        } else {
            None
        }
    }

    /// Converts a storage index back to its coordinate; the index is valid
    /// exactly when it is below `width * height`.
    pub fn i_to_pos(&self, i: usize) -> (r: Option<(usize, usize)>)
        requires
            self.wf(),
        ensures
            r is Some <==> i < self.values().len(),
            r is Some ==> {
                &&& r->Some_0.0 == i as int % self.spec_width()
                &&& r->Some_0.1 == i as int / self.spec_width()
                &&& self.in_bounds(r->Some_0.0 as int, r->Some_0.1 as int)
                &&& self.index_of(r->Some_0.0 as int, r->Some_0.1 as int) == i
            },
    {
        let (wid, hei) = self.dim;
        let total = wid * hei;
        if i < total {
            proof {
                lemma_index_pos_round_trip(wid as int, hei as int, i as int);
            }
            Some((i % wid, i / wid))
        } else {
            None
        }
    }

    /// Checked read: the cell value when the coordinate is in bounds,
    /// `None` otherwise. Never fails.
    pub fn try_index(&self, pos: (usize, usize)) -> (r: Option<T>)
        requires
            self.wf(),
        ensures
            r is Some <==> self.in_bounds(pos.0 as int, pos.1 as int),
            r is Some ==> r->Some_0 == self.spec_cell(pos.0 as int, pos.1 as int),
    {
        match self.pos_to_i(pos) {
            Some(i) => Some(self.data[i]),
            None => None,
        }
    }

    /// Direct read of a coordinate the caller knows to be valid.
    pub fn get(&self, pos: (usize, usize)) -> (v: T)
        requires
            self.wf(),
            self.in_bounds(pos.0 as int, pos.1 as int),
        ensures
            v == self.spec_cell(pos.0 as int, pos.1 as int),
    {
        let i = self.pos_to_i(pos).unwrap();
        self.data[i]
    }

    /// Direct write to a coordinate the caller knows to be valid; every
    /// other cell keeps its value.
    pub fn set(&mut self, pos: (usize, usize), value: T)
        requires
            old(self).wf(),
            old(self).in_bounds(pos.0 as int, pos.1 as int),
        ensures
            final(self).wf(),
            final(self).spec_width() == old(self).spec_width(),
            final(self).spec_height() == old(self).spec_height(),
            final(self).values() == old(self).values().update(
                old(self).index_of(pos.0 as int, pos.1 as int),
                value,
            ),
            final(self).spec_cell(pos.0 as int, pos.1 as int) == value,
            forall|x: int, y: int|
                old(self).in_bounds(x, y) && (x != pos.0 || y != pos.1)
                    ==> final(self).spec_cell(x, y) == old(self).spec_cell(x, y),
    {
        let i = self.pos_to_i(pos).unwrap();
        self.data.set(i, value);
        proof {
            let w = self.spec_width();
            let h = self.spec_height();
            assert forall|x: int, y: int|
                self.in_bounds(x, y) && (x != pos.0 || y != pos.1)
                    implies self.spec_cell(x, y) == old(self).spec_cell(x, y) by {
                lemma_pos_index_round_trip(w, h, x, y);
                lemma_pos_index_round_trip(w, h, pos.0 as int, pos.1 as int);
                assert(self.index_of(x, y) != self.index_of(pos.0 as int, pos.1 as int));
            }
        }
    }

    /// Hands out all stored values in row-major order, for bulk export.
    pub fn into_values(self) -> (v: Vec<T>)
        ensures
            v@ == self.values(),
    {
        self.data
    }
}

/// Row-major round-trip law: an in-bounds coordinate maps to a storage
/// index inside the array, and modulus and division by the width recover
/// the coordinate from that index.
pub proof fn lemma_pos_index_round_trip(w: int, h: int, x: int, y: int)
    by (nonlinear_arith)
    requires
        0 <= x < w,
        0 <= y < h,
    ensures
        0 <= y * w + x < w * h,
        (y * w + x) % w == x,
        (y * w + x) / w == y,
{
}

/// Inverse round-trip law: splitting a valid storage index into a
/// coordinate by modulus and division lands in bounds and indexes back
/// to the same slot.
pub proof fn lemma_index_pos_round_trip(w: int, h: int, i: int)
    by (nonlinear_arith)
    requires
        0 <= w,
        0 <= h,
        0 <= i < w * h,
    ensures
        0 < w,
        0 <= i % w < w,
        0 <= i / w < h,
        (i / w) * w + i % w == i,
{
}

} // verus!
