//! A two-dimensional grid of fuse bits.

use vstd::prelude::*;

verus! {

/// Relates a cell's rectangle coordinates to its slot in the flat storage:
/// cells inside the rectangle stay inside the storage.
proof fn lemma_grid_index_bound(w: int, h: int, x: int, y: int)
    by (nonlinear_arith)
    requires
        0 <= x < w,
        0 <= y < h,
    ensures
        0 <= y * w + x < w * h,
{
}

/// Two distinct cells of the rectangle occupy distinct slots of the flat
/// storage.
proof fn lemma_grid_index_injective(w: int, x1: int, y1: int, x2: int, y2: int)
    by (nonlinear_arith)
    requires
        0 <= x1 < w,
        0 <= x2 < w,
        0 <= y1,
        0 <= y2,
        y1 * w + x1 == y2 * w + x2,
    ensures
        x1 == x2,
        y1 == y2,
{
}

/// A two-dimensional grid of fuse bits, addressed in absolute device
/// coordinates. The grid is owned by the caller; the physical encoders
/// fill it in place, one region per macrocell slot.
pub struct FuseArray {
    w: usize,
    h: usize,
    data: Vec<bool>,
}

impl FuseArray {
    /// Width of the grid, in fuse columns.
    pub closed spec fn width(self) -> int {
        self.w as int
    }

    /// Height of the grid, in fuse rows.
    pub closed spec fn height(self) -> int {
        self.h as int
    }

    /// The storage covers the whole rectangle.
    pub closed spec fn wf(self) -> bool {
        self.data@.len() == self.w * self.h
    }

    /// The fuse bit at column `x`, row `y`.
    pub closed spec fn bit(self, x: int, y: int) -> bool {
        self.data@[y * (self.w as int) + x]
    }

    /// The grid's dimensions are machine sizes.
    pub proof fn lemma_dims_bounded(self)
        ensures
            0 <= self.width() <= usize::MAX,
            0 <= self.height() <= usize::MAX,
    {
    }

    /// A fresh grid with every fuse cleared.
    pub fn new(w: usize, h: usize) -> (r: FuseArray)
        requires
            w * h <= usize::MAX,
        ensures
            r.wf(),
            r.width() == w as int,
            r.height() == h as int,
            forall|x: int, y: int| 0 <= x < w && 0 <= y < h ==> !r.bit(x, y),
    {
        let n = w * h;
        let mut data: Vec<bool> = Vec::new();
        let mut i: usize = 0;
        while i < n
            invariant
                i <= n,
                data@.len() == i,
                forall|k: int| 0 <= k < i ==> !data@[k],
            decreases n - i,
        {
            data.push(false);
            i = i + 1;
        }
        let r = FuseArray { w, h, data };
        proof {
            assert forall|x: int, y: int| 0 <= x < w && 0 <= y < h implies !r.bit(x, y) by {
                lemma_grid_index_bound(w as int, h as int, x, y);
            }
        }
        r
    }

    /// Reads the fuse bit at column `x`, row `y`.
    pub fn get(&self, x: usize, y: usize) -> (r: bool)
        requires
            self.wf(),
            x < self.width(),
            y < self.height(),
        ensures
            r == self.bit(x as int, y as int),
    {
        let _n = self.data.len();
        proof {
            lemma_grid_index_bound(self.w as int, self.h as int, x as int, y as int);
        }
        self.data[y * self.w + x]
    }

    /// Writes `v` to the fuse bit at column `x`, row `y`, leaving every
    /// other cell as it was.
    pub fn set(&mut self, x: usize, y: usize, v: bool)
        requires
            old(self).wf(),
            x < old(self).width(),
            y < old(self).height(),
        ensures
            final(self).wf(),
            final(self).width() == old(self).width(),
            final(self).height() == old(self).height(),
            final(self).bit(x as int, y as int) == v,
            forall|xx: int, yy: int|
                0 <= xx < final(self).width() && 0 <= yy < final(self).height() && !(xx == x as int
                    && yy == y as int) ==> final(self).bit(xx, yy) == old(self).bit(xx, yy),
    {
        let _n = self.data.len();
        proof {
            lemma_grid_index_bound(self.w as int, self.h as int, x as int, y as int);
        }
        let idx = y * self.w + x;
        self.data.set(idx, v);
        proof {
            assert forall|xx: int, yy: int|
                0 <= xx < self.width() && 0 <= yy < self.height() && !(xx == x as int && yy
                    == y as int) implies self.bit(xx, yy) == old(self).bit(xx, yy) by {
                lemma_grid_index_bound(self.w as int, self.h as int, xx, yy);
                if yy * (self.w as int) + xx == idx as int {
                    lemma_grid_index_injective(self.w as int, xx, yy, x as int, y as int);
                }
            }
        }
    }
}

} // verus!
