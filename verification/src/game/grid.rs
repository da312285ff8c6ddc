use vstd::prelude::*;

use crate::game::vec2::Vec2;

verus! {

/// The play field: a rectangle of cells addressed by `(x, y)` positions or
/// by a flat index, row by row.
#[derive(Debug)]
pub struct Grid {
    pub size: Vec2,
}

impl Grid {
    /// Both sides are at least one cell, and the area fits the machine.
    pub open spec fn wf(&self) -> bool {
        1 <= self.size.x && 1 <= self.size.y && self.size.x * self.size.y <= usize::MAX
    }

    /// A grid of `width` by `height` cells.  A side of zero, a side beyond
    /// `i32`, or an area beyond `usize` makes no grid.
    pub fn new(width: usize, height: usize) -> (r: Option<Grid>)
        ensures
            r is Some <==> 1 <= width <= i32::MAX && 1 <= height <= i32::MAX && width * height
                <= usize::MAX,
            r matches Some(g) ==> g.size == (Vec2 { x: width as i32, y: height as i32 }) && g.wf(),
    {
        if width == 0 || height == 0 {
            return None;
        }
        if width > i32::MAX as usize || height > i32::MAX as usize {
            return None;
        }
        if width.checked_mul(height).is_none() {
            return None;
        }
        Some(Grid { size: Vec2 { x: width as i32, y: height as i32 } })
    }

    /// The bounds of the grid as a vector.
    pub fn bounds(&self) -> (r: &Vec2)
        ensures
            *r == self.size,
    {
        &self.size
    }

    /// The area of the grid.
    pub fn len(&self) -> (r: usize)
        requires
            self.wf(),
        ensures
            r == self.size.x * self.size.y,
    {
        proof {
            assert(self.size.x * self.size.y >= 1 && self.size.x * self.size.y <= usize::MAX)
                by (nonlinear_arith)
                requires 1 <= self.size.x && 1 <= self.size.y && self.size.x * self.size.y <= usize::MAX;
        }
        self.size.x as usize * self.size.y as usize
    }

    /// Never true of a well-formed grid: both sides are at least one.
    pub fn is_empty(&self) -> (r: bool)
        ensures
            r == (self.size.x == 0 && self.size.y == 0),
    {
        self.size.x == 0 && self.size.y == 0
    }

    /// The width of the grid.
    pub fn width(&self) -> (r: usize)
        requires
            self.wf(),
        ensures
            r == self.size.x,
    {
        self.size.x as usize
    }

    /// The height of the grid.
    pub fn height(&self) -> (r: usize)
        requires
            self.wf(),
        ensures
            r == self.size.y,
    {
        self.size.y as usize
    }

    /// The number of columns: the width.
    pub fn columns(&self) -> (r: usize)
        requires
            self.wf(),
        ensures
            r == self.size.x,
    {
        self.size.x as usize
    }

    /// The number of rows: the height.
    pub fn rows(&self) -> (r: usize)
        requires
            self.wf(),
        ensures
            r == self.size.y,
    {
        self.size.y as usize
    }

    /// The centre cell of the grid.
    pub fn centre(&self) -> (r: Vec2)
        requires
            self.wf(),
        ensures
            r == (Vec2 { x: (self.size.x as int / 2) as i32, y: (self.size.y as int / 2) as i32 }),
    {
        Vec2 { x: self.size.x / 2, y: self.size.y / 2 }
    }

    /// `pos` wrapped into `bounds`: each component reduced to its
    /// non-negative remainder.
    pub fn wrap(bounds: &Vec2, pos: &Vec2) -> (r: Vec2)
        requires
            bounds.x >= 1,
            bounds.y >= 1,
        ensures
            r.x == pos.x as int % bounds.x as int,
            r.y == pos.y as int % bounds.y as int,
            0 <= r.x < bounds.x,
            0 <= r.y < bounds.y,
    {
        let x = wrap_coord(pos.x as i64, bounds.x);
        let y = wrap_coord(pos.y as i64, bounds.y);
        Vec2 { x, y }
    }

    /// The cell at flat index `idx`, row by row, or `None` past the area.
    /// The row is the index divided by the height, as the game has always
    /// counted it.
    pub fn xy_at_index(&self, idx: usize) -> (r: Option<Vec2>)
        requires
            self.wf(),
        ensures
            r is Some <==> idx < self.size.x * self.size.y,
            r matches Some(v) ==> v.x == idx as int % self.size.x as int && v.y == idx as int
                / self.size.y as int,
    {
        if idx >= self.len() {
            None
        } else {
            let x = idx % self.width();
            let y = idx / self.height();
            proof {
                assert((idx as int) % (self.size.x as int) < self.size.x) by (nonlinear_arith)
                    requires
                        self.size.x >= 1,
                        idx >= 0,
                ;
                assert(idx as int / self.size.y as int <= i32::MAX) by (nonlinear_arith)
                    requires
                        self.size.y >= 1,
                        0 <= idx,
                        idx < self.size.x * self.size.y,
                        self.size.x <= i32::MAX,
                ;
            }
            Some(Vec2 { x: x as i32, y: y as i32 })
        }
    }

    /// The flat index of the cell at `xy`, or `None` outside the grid.
    pub fn index_at_xy(&self, xy: Vec2) -> (r: Option<usize>)
        requires
            self.wf(),
        ensures
            r is Some <==> 0 <= xy.x < self.size.x && 0 <= xy.y < self.size.y,
            r matches Some(i) ==> i == xy.x + self.size.x * xy.y,
    {
        if xy.x < 0 || xy.y < 0 || xy.x >= self.size.x || xy.y >= self.size.y {
            None
        } else {
            proof {
                assert(xy.x + self.size.x * xy.y < self.size.x * self.size.y) by (nonlinear_arith)
                    requires
                        0 <= xy.x < self.size.x,
                        0 <= xy.y < self.size.y,
                ;
                assert(self.size.x * xy.y >= 0) by (nonlinear_arith)
                    requires self.size.x >= 1 && xy.y >= 0;
            }
            let idx = xy.x as usize + self.size.x as usize * xy.y as usize;
            Some(idx)
        }
    }

    /// A cursor over the cells of the grid, in flat-index order.
    pub fn iter(&self) -> (r: GridIter<'_>)
        requires
            self.wf(),
        ensures
            r.grid == self,
            r.pos == 0,
    {
        GridIter { grid: self, pos: 0 }
    }
}

impl Default for Grid {
    /// A stock ten-by-ten grid.
    fn default() -> (r: Grid)
        ensures
            r.size == (Vec2 { x: 10, y: 10 }),
            r.wf(),
    {
        Grid { size: Vec2 { x: 10, y: 10 } }
    }
}

/// A walk over the cells of a grid, one flat index at a time.
pub struct GridIter<'a> {
    pub grid: &'a Grid,
    pub pos: usize,
}

impl<'a> GridIter<'a> {
    /// The next cell, or `None` once every cell has been seen.
    pub fn next(&mut self) -> (r: Option<Vec2>)
        requires
            old(self).grid.wf(),
        ensures
            final(self).grid == old(self).grid,
            r is Some <==> old(self).pos < old(self).grid.size.x * old(self).grid.size.y,
            r is Some ==> final(self).pos == old(self).pos + 1,
            r is None ==> final(self).pos == old(self).pos,
            r matches Some(v) ==> v.x == old(self).pos as int % old(self).grid.size.x as int && v.y
                == old(self).pos as int / old(self).grid.size.y as int,
    {
        if self.pos < self.grid.len() {
            let xy = self.grid.xy_at_index(self.pos);
            self.pos = self.pos + 1;
            xy
        } else {
            None
        }
    }
}

/// The non-negative remainder of `v` by `b`, for any value a sum of two
/// `i32` components can take, computed from remainders of non-negative
/// values alone.
pub(crate) fn wrap_coord(v: i64, b: i32) -> (r: i32)
    requires
        b >= 1,
        i32::MIN + i32::MIN <= v <= i32::MAX + i32::MAX,
    ensures
        r == (v as int) % (b as int),
        0 <= r < b,
{
    let bv = b as i64;
    if v >= 0 {
        let m = v % bv;
        proof {
            assert(0 <= (v as int) % (b as int) < b) by (nonlinear_arith)
                requires
                    b >= 1,
                    v >= 0,
            ;
        }
        m as i32
    } else {
        let m = (-v) % bv;
        proof {
            assert(0 <= (-(v as int)) % (b as int) < b) by (nonlinear_arith)
                requires
                    b >= 1,
            ;
        }
        let r64: i64 = if m == 0 {
            0
        } else {
            bv - m
        };
        proof {
            let a = v as int;
            let d = b as int;
            let qm = (-a) / d;
            vstd::arithmetic::div_mod::lemma_fundamental_div_mod(-a, d);
            if m == 0 {
                assert(a == (-qm) * d + 0) by (nonlinear_arith)
                    requires -a == d * qm;
                vstd::arithmetic::div_mod::lemma_fundamental_div_mod_converse_mod(a, d, -qm, 0);
            } else {
                assert(a == (-qm - 1) * d + (d - m)) by (nonlinear_arith)
                    requires
                        -a == d * qm + m,
                        d >= 1,
                ;
                vstd::arithmetic::div_mod::lemma_fundamental_div_mod_converse_mod(
                    a,
                    d,
                    -qm - 1,
                    d - m,
                );
            }
        }
        r64 as i32
    }
}

} // verus!
