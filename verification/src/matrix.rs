use vstd::prelude::*;

use crate::{ErrorCorrectLv, Mode, Version};

verus! {

/// A square grid of modules, bit-packed row by row: bit x%8 of byte
/// x/8 + y*stride holds the module at (x, y), true meaning dark.
#[derive(Debug, Clone, PartialEq, Eq)]
pub struct QrMatrix {
    bitmap: Vec<u8>,
    size: usize,
    stride: usize,
}

impl QrMatrix {
    /// The storage invariant: one stride of whole bytes per row.
    pub closed spec fn wf(&self) -> bool {
        &&& 1 <= self.size <= 177
        &&& self.stride == (self.size + 7) / 8
        &&& self.bitmap@.len() == self.stride * self.size
    }

    /// The side length.
    pub closed spec fn spec_size(&self) -> int {
        self.size as int
    }

    /// The module at (x, y).
    pub closed spec fn spec_get(&self, x: int, y: int) -> bool {
        (self.bitmap@[x / 8 + y * (self.stride as int)] >> ((x % 8) as u8)) & 1 == 1
    }

    /// A fresh all-light matrix of the given side length.
    pub fn new(size: usize) -> (r: Self)
        requires
            1 <= size <= 177,
        ensures
            r.wf(),
            r.spec_size() == size,
            forall|x: int, y: int|
                0 <= x < size && 0 <= y < size ==> !r.spec_get(x, y),
    {
        let stride = (size + 7) / 8;
        proof {
            assert(stride * size <= 23 * 177) by (nonlinear_arith)
                requires
                    stride <= 23,
                    size <= 177,
            ;
        }
        let r = QrMatrix { bitmap: vec![0u8; stride * size], size, stride };
        proof {
            assert forall|x: int, y: int|
                0 <= x < size && 0 <= y < size implies !r.spec_get(x, y) by {
                lemma_cell_index_bounds(x, y, size as int, stride as int);
                let kk = (x % 8) as u8;
                assert((0u8 >> kk) & 1 == 0) by (bit_vector);
            }
        }
        r
    }

    /// The side length.
    pub fn size(&self) -> (r: usize)
        ensures
            r == self.spec_size(),
    {
        self.size
    }

    /// The module at (x, y).
    pub fn get(&self, x: usize, y: usize) -> (r: bool)
        requires
            self.wf(),
            x < self.spec_size(),
            y < self.spec_size(),
        ensures
            r == self.spec_get(x as int, y as int),
    {
        proof {
            lemma_cell_index_bounds(x as int, y as int, self.size as int, self.stride as int);
        }
        let b = self.bitmap[x / 8 + y * self.stride];
        let r = b & (1u8 << (x % 8) as u8) != 0;
        proof {
            let kk = ((x as int) % 8) as u8;
            assert((b & (1u8 << kk) != 0) == ((b >> kk) & 1 == 1)) by (bit_vector)
                requires
                    kk < 8,
            ;
        }
        r
    }

    /// Writes the module at (x, y); every other module keeps its value.
    pub fn set(&mut self, x: usize, y: usize, v: bool)
        requires
            old(self).wf(),
            x < old(self).spec_size(),
            y < old(self).spec_size(),
        ensures
            final(self).wf(),
            final(self).spec_size() == old(self).spec_size(),
            final(self).spec_get(x as int, y as int) == v,
            forall|xx: int, yy: int|
                0 <= xx < old(self).spec_size() && 0 <= yy < old(self).spec_size() && !(xx == x
                    && yy == y) ==> final(self).spec_get(xx, yy) == old(self).spec_get(xx, yy),
    {
        proof {
            lemma_cell_index_bounds(x as int, y as int, self.size as int, self.stride as int);
        }
        let idx = x / 8 + y * self.stride;
        let k = (x % 8) as u8;
        proof {
            assert(k < 8);
        }
        let old_byte = self.bitmap[idx];
        let bit: u8 = if v {
            1
        } else {
            0
        };
        let new_byte = (old_byte & !(1u8 << k)) | (bit << k);
        self.bitmap.set(idx, new_byte);
        proof {
            let stride = self.stride as int;
            let size = self.size as int;
            assert(((new_byte >> k) & 1 == 1) == (bit == 1)) by (bit_vector)
                requires
                    k < 8,
                    new_byte == (old_byte & !(1u8 << k)) | (bit << k),
                    bit == 0 || bit == 1,
            ;
            assert forall|xx: int, yy: int|
                0 <= xx < size && 0 <= yy < size && !(xx == x && yy == y) implies self.spec_get(
                xx,
                yy,
            ) == old(self).spec_get(xx, yy) by {
                lemma_cell_index_bounds(xx, yy, size, stride);
                if xx / 8 + yy * stride == idx {
                    assert(yy == y) by (nonlinear_arith)
                        requires
                            xx / 8 + yy * stride == x / 8 + y * stride,
                            0 <= xx / 8 < stride,
                            0 <= x / 8 < stride,
                            stride >= 1,
                            yy >= 0,
                            y >= 0,
                    ;
                    assert(xx / 8 == x / 8);
                    assert(xx % 8 != x % 8);
                    let kk = (xx % 8) as u8;
                    assert((new_byte >> kk) & 1 == (old_byte >> kk) & 1) by (bit_vector)
                        requires
                            kk < 8,
                            k < 8,
                            kk != k,
                            bit == 0 || bit == 1,
                            new_byte == (old_byte & !(1u8 << k)) | (bit << k),
                    ;
                }
            }
        }
    }
}

proof fn lemma_cell_index_bounds(x: int, y: int, size: int, stride: int)
    requires
        0 <= x < size,
        0 <= y < size,
        size <= 177,
        stride == (size + 7) / 8,
    ensures
        0 <= x / 8 < stride,
        0 <= x / 8 + y * stride < stride * size,
        stride * size <= 23 * 177,
        0 <= y * stride <= 176 * 23,
{
    assert(x / 8 < stride);
    assert(x / 8 + y * stride < stride * size) by (nonlinear_arith)
        requires
            0 <= x / 8 < stride,
            0 <= y < size,
    ;
    assert(x / 8 + y * stride >= 0 && 0 <= y * stride <= 176 * 23 && stride * size <= 23 * 177)
        by (nonlinear_arith)
        requires
            x / 8 >= 0,
            0 <= y <= 176,
            0 <= stride <= 23,
            0 <= size <= 177,
    ;
}

/// The storage invariant keeps every side length in the defined range.
pub proof fn lemma_size_bound(m: &QrMatrix)
    requires
        m.wf(),
    ensures
        1 <= m.spec_size() <= 177,
{
}

/// A matrix under construction, with a parallel overlay marking the modules
/// already claimed; a claimed module is never overwritten.
pub struct UnfinishedMatrix {
    pub matrix: QrMatrix,
    pub done: QrMatrix,
}

impl UnfinishedMatrix {
    /// Both grids share one side length.
    pub open spec fn wf(&self) -> bool {
        &&& self.matrix.wf()
        &&& self.done.wf()
        &&& self.done.spec_size() == self.matrix.spec_size()
    }

    /// The side length.
    pub open spec fn spec_size(&self) -> int {
        self.matrix.spec_size()
    }

    /// Whether the module at (x, y) has been claimed.
    pub open spec fn claimed(&self, x: int, y: int) -> bool {
        self.done.spec_get(x, y)
    }

    /// The value of the module at (x, y).
    pub open spec fn val(&self, x: int, y: int) -> bool {
        self.matrix.spec_get(x, y)
    }

    /// A fresh matrix with no module claimed.
    pub fn new(size: usize) -> (r: Self)
        requires
            1 <= size <= 177,
        ensures
            r.wf(),
            r.spec_size() == size,
            forall|x: int, y: int| 0 <= x < size && 0 <= y < size ==> !r.claimed(x, y),
            forall|x: int, y: int| 0 <= x < size && 0 <= y < size ==> !r.val(x, y),
    {
        UnfinishedMatrix { matrix: QrMatrix::new(size), done: QrMatrix::new(size) }
    }

    /// The value at (x, y), when the module is claimed.
    pub fn get(&self, x: usize, y: usize) -> (r: Option<bool>)
        requires
            self.wf(),
            x < self.spec_size(),
            y < self.spec_size(),
        ensures
            r == (if self.claimed(x as int, y as int) {
                Some(self.val(x as int, y as int))
            } else {
                None::<bool>
            }),
    {
        if self.done.get(x, y) {
            Some(self.matrix.get(x, y))
        } else {
            None
        }
    }

    /// Claims the module at (x, y) with value v; a module already claimed is
    /// left as it is.
    pub fn set(&mut self, x: usize, y: usize, v: bool)
        requires
            old(self).wf(),
            x < old(self).spec_size(),
            y < old(self).spec_size(),
        ensures
            final(self).wf(),
            final(self).spec_size() == old(self).spec_size(),
            final(self).claimed(x as int, y as int),
            final(self).val(x as int, y as int) == (if old(self).claimed(x as int, y as int) {
                old(self).val(x as int, y as int)
            } else {
                v
            }),
            forall|xx: int, yy: int|
                0 <= xx < old(self).spec_size() && 0 <= yy < old(self).spec_size() && !(xx == x
                    && yy == y) ==> final(self).claimed(xx, yy) == old(self).claimed(xx, yy)
                    && final(self).val(xx, yy) == old(self).val(xx, yy),
    {
        if !self.done.get(x, y) {
            self.done.set(x, y, true);
            self.matrix.set(x, y, v);
        }
    }
}

/// How one construction step relates the overlay states: inside the region
/// every module is claimed, newly claimed ones with value v; outside it
/// nothing changes.
pub open spec fn claimed_write(
    pre: UnfinishedMatrix,
    post: UnfinishedMatrix,
    region: spec_fn(int, int) -> bool,
    v: bool,
) -> bool {
    &&& post.spec_size() == pre.spec_size()
    &&& forall|x: int, y: int|
        0 <= x < pre.spec_size() && 0 <= y < pre.spec_size() ==> #[trigger] post.claimed(x, y) == (
        pre.claimed(x, y) || region(x, y))
    &&& forall|x: int, y: int|
        0 <= x < pre.spec_size() && 0 <= y < pre.spec_size() ==> #[trigger] post.val(x, y) == (
        if pre.claimed(x, y) || !region(x, y) {
            pre.val(x, y)
        } else {
            v
        })
}

/// How one construction step relates the overlay states when the written
/// values vary over the region: inside the region every module is claimed,
/// newly claimed ones with the region's value at their coordinates; outside
/// it nothing changes.
pub open spec fn claimed_write_map(
    pre: UnfinishedMatrix,
    post: UnfinishedMatrix,
    region: spec_fn(int, int) -> bool,
    val: spec_fn(int, int) -> bool,
) -> bool {
    &&& post.spec_size() == pre.spec_size()
    &&& forall|x: int, y: int|
        0 <= x < pre.spec_size() && 0 <= y < pre.spec_size() ==> #[trigger] post.claimed(x, y) == (
        pre.claimed(x, y) || region(x, y))
    &&& forall|x: int, y: int|
        0 <= x < pre.spec_size() && 0 <= y < pre.spec_size() ==> #[trigger] post.val(x, y) == (
        if pre.claimed(x, y) || !region(x, y) {
            pre.val(x, y)
        } else {
            val(x, y)
        })
}

/// Construction never rewrites a claimed module.
pub open spec fn preserves_claimed(pre: UnfinishedMatrix, post: UnfinishedMatrix) -> bool {
    &&& post.spec_size() == pre.spec_size()
    &&& forall|x: int, y: int|
        0 <= x < pre.spec_size() && 0 <= y < pre.spec_size() && pre.claimed(x, y)
            ==> #[trigger] post.claimed(x, y) && post.val(x, y) == pre.val(x, y)
}

impl UnfinishedMatrix {
    /// Claims a horizontal run of dist modules starting at (x, y).
    pub fn set_hline(&mut self, x: usize, y: usize, dist: usize, v: bool)
        requires
            old(self).wf(),
            x + dist <= old(self).spec_size(),
            y < old(self).spec_size(),
        ensures
            final(self).wf(),
            claimed_write(
                *old(self),
                *final(self),
                (|xx: int, yy: int| x <= xx < x + dist && yy == y),
                v,
            ),
    {
        let mut i: usize = 0;
        while i < dist
            invariant
                self.wf(),
                i <= dist,
                x + dist <= self.spec_size(),
                y < self.spec_size(),
                claimed_write(
                    *old(self),
                    *self,
                    (|xx: int, yy: int| x <= xx < x + i && yy == y),
                    v,
                ),
            decreases dist - i,
        {
            self.set(x + i, y, v);
            i += 1;
        }
    }

    /// Claims a vertical run of dist modules starting at (x, y).
    pub fn set_vline(&mut self, x: usize, y: usize, dist: usize, v: bool)
        requires
            old(self).wf(),
            x < old(self).spec_size(),
            y + dist <= old(self).spec_size(),
        ensures
            final(self).wf(),
            claimed_write(
                *old(self),
                *final(self),
                (|xx: int, yy: int| xx == x && y <= yy < y + dist),
                v,
            ),
    {
        let mut i: usize = 0;
        while i < dist
            invariant
                self.wf(),
                i <= dist,
                x < self.spec_size(),
                y + dist <= self.spec_size(),
                claimed_write(
                    *old(self),
                    *self,
                    (|xx: int, yy: int| xx == x && y <= yy < y + i),
                    v,
                ),
            decreases dist - i,
        {
            self.set(x, y + i, v);
            i += 1;
        }
    }

    /// Claims a filled sx-by-sy box with top-left corner (x, y).
    pub fn set_filled_box(&mut self, x: usize, y: usize, sx: usize, sy: usize, v: bool)
        requires
            old(self).wf(),
            x + sx <= old(self).spec_size(),
            y + sy <= old(self).spec_size(),
        ensures
            final(self).wf(),
            claimed_write(
                *old(self),
                *final(self),
                (|xx: int, yy: int| x <= xx < x + sx && y <= yy < y + sy),
                v,
            ),
    {
        let mut j: usize = 0;
        while j < sy
            invariant
                self.wf(),
                j <= sy,
                x + sx <= self.spec_size(),
                y + sy <= self.spec_size(),
                claimed_write(
                    *old(self),
                    *self,
                    (|xx: int, yy: int| x <= xx < x + sx && y <= yy < y + j),
                    v,
                ),
            decreases sy - j,
        {
            self.set_hline(x, y + j, sx, v);
            j += 1;
        }
    }

    /// Claims the border of an sx-by-sy box with top-left corner (x, y).
    pub fn set_outline_box(&mut self, x: usize, y: usize, sx: usize, sy: usize, v: bool)
        requires
            old(self).wf(),
            1 <= sx,
            1 <= sy,
            x + sx <= old(self).spec_size(),
            y + sy <= old(self).spec_size(),
        ensures
            final(self).wf(),
            claimed_write(
                *old(self),
                *final(self),
                (|xx: int, yy: int| x <= xx < x + sx && y <= yy < y + sy && (xx == x || xx == x
                    + sx - 1 || yy == y || yy == y + sy - 1)),
                v,
            ),
    {
        self.set_hline(x, y, sx, v);
        self.set_hline(x, y + sy - 1, sx, v);
        self.set_vline(x, y, sy, v);
        self.set_vline(x + sx - 1, y, sy, v);
    }
}

impl QrMatrix {
    /// An identical copy of the grid.
    pub fn duplicate(&self) -> (r: Self)
        requires
            self.wf(),
        ensures
            r.wf(),
            r.spec_size() == self.spec_size(),
            forall|x: int, y: int|
                0 <= x < self.spec_size() && 0 <= y < self.spec_size() ==> r.spec_get(x, y)
                    == self.spec_get(x, y),
    {
        let r = QrMatrix { bitmap: self.bitmap.clone(), size: self.size, stride: self.stride };
        proof {
            assert(r.bitmap@ =~= self.bitmap@);
        }
        r
    }
}

/// The distance from (x, y) to (cx, cy) under which the nested rings of a
/// finder or alignment pattern are drawn: the larger of the two coordinate
/// distances.
pub open spec fn ring_dist(cx: int, cy: int, x: int, y: int) -> int {
    let dx = if x >= cx {
        x - cx
    } else {
        cx - x
    };
    let dy = if y >= cy {
        y - cy
    } else {
        cy - y
    };
    if dx >= dy {
        dx
    } else {
        dy
    }
}

/// The row or column that carries the separator beside a finder pattern
/// whose box starts at coordinate c0: the far side when the box sits at the
/// symbol edge, the near side otherwise.
pub open spec fn finder_sep(c0: int) -> int {
    if c0 == 0 {
        7
    } else {
        c0 - 1
    }
}

/// The modules a finder pattern placed at (x0, y0) claims: its 7x7 box and
/// the separator line along each inner side, corner included.
pub open spec fn finder_region(x0: int, y0: int, x: int, y: int) -> bool {
    ||| (x0 <= x < x0 + 7 && y0 <= y < y0 + 7)
    ||| (x == finder_sep(x0) && y0 <= y < y0 + 7)
    ||| (y == finder_sep(y0) && x0 <= x < x0 + 7)
    ||| (x == finder_sep(x0) && y == finder_sep(y0))
}

/// The value a finder pattern gives each module of its region: dark on the
/// outer ring and the 3x3 core, light on the ring between and on the
/// separator.
pub open spec fn finder_value(x0: int, y0: int, x: int, y: int) -> bool {
    if x0 <= x < x0 + 7 && y0 <= y < y0 + 7 {
        ring_dist(x0 + 3, y0 + 3, x, y) != 2
    } else {
        false
    }
}

/// Places a 7x7 finder pattern with its top-left corner at (x, y), with its
/// white separator border clipped at the symbol edges.
#[verifier::loop_isolation(false)]
#[verifier::rlimit(100)]
pub fn place_finder(mat: &mut UnfinishedMatrix, x: usize, y: usize)
    requires
        old(mat).wf(),
        old(mat).spec_size() >= 9,
        x + 7 <= old(mat).spec_size(),
        y + 7 <= old(mat).spec_size(),
    ensures
        final(mat).wf(),
        final(mat).spec_size() == old(mat).spec_size(),
        preserves_claimed(*old(mat), *final(mat)),
        claimed_write_map(
            *old(mat),
            *final(mat),
            (|xx: int, yy: int| finder_region(x as int, y as int, xx, yy)),
            (|xx: int, yy: int| finder_value(x as int, y as int, xx, yy)),
        ),
{
    mat.set_outline_box(x, y, 7, 7, true);
    proof {
        assert(preserves_claimed(*old(mat), *mat));
    }
    let ghost m1 = *mat;
    mat.set_outline_box(x + 1, y + 1, 5, 5, false);
    proof {
        assert(preserves_claimed(m1, *mat));
        assert(preserves_claimed(*old(mat), *mat));
    }
    let ghost m2 = *mat;
    mat.set_filled_box(x + 2, y + 2, 3, 3, true);
    proof {
        assert(preserves_claimed(m2, *mat));
        assert(preserves_claimed(*old(mat), *mat));
    }

    let ghost m3 = *mat;
    mat.set_vline(
        if x == 0 {
            7
        } else {
            x - 1
        },
        y,
        7,
        false,
    );
    proof {
        assert(preserves_claimed(m3, *mat));
        assert(preserves_claimed(*old(mat), *mat));
    }
    let ghost m4 = *mat;
    mat.set_hline(
        x,
        if y == 0 {
            7
        } else {
            y - 1
        },
        7,
        false,
    );
    proof {
        assert(preserves_claimed(m4, *mat));
        assert(preserves_claimed(*old(mat), *mat));
    }

    let ghost m5 = *mat;
    mat.set(
        if x == 0 {
            7
        } else {
            x - 1
        },
        if y == 0 {
            7
        } else {
            y - 1
        },
        false,
    );
    proof {
        assert(preserves_claimed(m5, *mat));
        assert(preserves_claimed(*old(mat), *mat));
        let sz = old(mat).spec_size();
        let x0 = x as int;
        let y0 = y as int;
        assert forall|xx: int, yy: int| 0 <= xx < sz && 0 <= yy < sz implies (#[trigger] mat.claimed(
            xx,
            yy,
        ) == (old(mat).claimed(xx, yy) || finder_region(x0, y0, xx, yy))) && (mat.val(xx, yy) == (
        if old(mat).claimed(xx, yy) || !finder_region(x0, y0, xx, yy) {
            old(mat).val(xx, yy)
        } else {
            finder_value(x0, y0, xx, yy)
        })) by {
            assert(m1.claimed(xx, yy) == (old(mat).claimed(xx, yy) || (x0 <= xx < x0 + 7 && y0
                <= yy < y0 + 7 && (xx == x0 || xx == x0 + 6 || yy == y0 || yy == y0 + 6))));
        }
    }
}

/// Places a 5x5 alignment pattern centred on (x, y), unless its centre is
/// already claimed by another pattern. The pattern is dark on its border and
/// centre and light on the ring between.
#[verifier::rlimit(100)]
pub fn place_alignment(mat: &mut UnfinishedMatrix, x: usize, y: usize)
    requires
        old(mat).wf(),
        2 <= x,
        2 <= y,
        x + 3 <= old(mat).spec_size(),
        y + 3 <= old(mat).spec_size(),
    ensures
        final(mat).wf(),
        final(mat).spec_size() == old(mat).spec_size(),
        preserves_claimed(*old(mat), *final(mat)),
        old(mat).claimed(x as int, y as int) ==> *final(mat) == *old(mat),
        !old(mat).claimed(x as int, y as int) ==> claimed_write_map(
            *old(mat),
            *final(mat),
            (|xx: int, yy: int| ring_dist(x as int, y as int, xx, yy) <= 2),
            (|xx: int, yy: int| ring_dist(x as int, y as int, xx, yy) != 1),
        ),
{
    if mat.done.get(x, y) {
        return ;
    }
    mat.set_outline_box(x - 2, y - 2, 5, 5, true);
    proof {
        assert(preserves_claimed(*old(mat), *mat));
    }
    let ghost m1 = *mat;
    mat.set_outline_box(x - 1, y - 1, 3, 3, false);
    proof {
        assert(preserves_claimed(m1, *mat));
        assert(preserves_claimed(*old(mat), *mat));
    }
    let ghost m2 = *mat;
    mat.set(x, y, true);
    proof {
        assert(preserves_claimed(m2, *mat));
        assert(preserves_claimed(*old(mat), *mat));
        let sz = old(mat).spec_size();
        let cx = x as int;
        let cy = y as int;
        assert forall|xx: int, yy: int| 0 <= xx < sz && 0 <= yy < sz implies (#[trigger] mat.claimed(
            xx,
            yy,
        ) == (old(mat).claimed(xx, yy) || ring_dist(cx, cy, xx, yy) <= 2)) && (mat.val(xx, yy) == (
        if old(mat).claimed(xx, yy) || !(ring_dist(cx, cy, xx, yy) <= 2) {
            old(mat).val(xx, yy)
        } else {
            ring_dist(cx, cy, xx, yy) != 1
        })) by {
            assert(m1.claimed(xx, yy) == (old(mat).claimed(xx, yy) || ring_dist(cx, cy, xx, yy)
                == 2));
        }
    }
}

/// One step of the zig-zag traversal, or None when the walk stops at the
/// grid's edge. The cursor is (x, y, moving upward, sideways flag): within a
/// two-column band it alternates between the right and the left column,
/// moving one row per pair; leaving the top or bottom it steps one band left
/// (two columns, or three from x == 7, across the timing column) and
/// reverses direction.
pub open spec fn spec_cursor_next(c: (int, int, bool, bool), size: int) -> Option<
    (int, int, bool, bool),
> {
    if c.2 {
        if c.3 {
            if c.0 == 0 {
                None
            } else {
                Some((c.0 - 1, c.1, true, false))
            }
        } else {
            if c.1 == 0 {
                if c.0 == 0 {
                    None
                } else {
                    Some(
                        (
                            c.0 - (if c.0 == 7 {
                                2int
                            } else {
                                1int
                            }),
                            c.1,
                            false,
                            c.3,
                        ),
                    )
                }
            } else {
                if c.0 + 1 >= size {
                    None
                } else {
                    Some((c.0 + 1, c.1 - 1, true, true))
                }
            }
        }
    } else {
        if c.3 {
            if c.1 + 1 >= size {
                if c.0 == 0 {
                    None
                } else {
                    Some(
                        (
                            c.0 - (if c.0 == 7 {
                                2int
                            } else {
                                1int
                            }),
                            c.1,
                            true,
                            c.3,
                        ),
                    )
                }
            } else {
                if c.0 + 1 >= size {
                    None
                } else {
                    Some((c.0 + 1, c.1 + 1, false, false))
                }
            }
        } else {
            if c.0 == 0 {
                None
            } else {
                Some((c.0 - 1, c.1, false, true))
            }
        }
    }
}

/// Where the cursor rests after walking from c across modules the given
/// predicate marks as claimed: the first unclaimed module along the
/// traversal, or the state where the walk stops at the grid's edge, or —
/// only when no unclaimed module remains along the whole traversal — where
/// the step budget runs out.
pub open spec fn spec_cursor_walk_on(
    claimed: spec_fn(int, int) -> bool,
    c: (int, int, bool, bool),
    size: int,
    fuel: nat,
) -> (int, int, bool, bool)
    decreases fuel,
{
    if fuel == 0 {
        c
    } else if !claimed(c.0, c.1) {
        c
    } else {
        match spec_cursor_next(c, size) {
            Option::None => c,
            Option::Some(c2) => spec_cursor_walk_on(claimed, c2, size, (fuel - 1) as nat),
        }
    }
}

/// The walk across the modules an overlay has claimed.
pub open spec fn spec_cursor_walk(
    m: UnfinishedMatrix,
    c: (int, int, bool, bool),
    size: int,
    fuel: nat,
) -> (int, int, bool, bool) {
    spec_cursor_walk_on((|x: int, y: int| m.claimed(x, y)), c, size, fuel)
}

/// The walk visits only grid modules, so a claimed predicate that agrees
/// with the overlay on the grid drives it to the same rest state.
proof fn lemma_walk_congruent(
    m: UnfinishedMatrix,
    c2: spec_fn(int, int) -> bool,
    c: (int, int, bool, bool),
    size: int,
    fuel: nat,
)
    requires
        forall|x: int, y: int|
            0 <= x < size && 0 <= y < size ==> #[trigger] m.claimed(x, y) == c2(x, y),
        0 <= c.0 < size,
        0 <= c.1 < size,
    ensures
        spec_cursor_walk(m, c, size, fuel) == spec_cursor_walk_on(c2, c, size, fuel),
    decreases fuel,
{
    if fuel > 0 && m.claimed(c.0, c.1) {
        match spec_cursor_next(c, size) {
            Option::None => {},
            Option::Some(cn) => {
                assert(0 <= cn.0 < size && 0 <= cn.1 < size);
                lemma_walk_congruent(m, c2, cn, size, (fuel - 1) as nat);
            },
        }
    }
}

/// No module holds a value before something claims it: unclaimed modules
/// are light.
pub open spec fn vals_false(m: UnfinishedMatrix, size: int) -> bool {
    forall|x: int, y: int|
        0 <= x < size && 0 <= y < size && !m.claimed(x, y) ==> !(#[trigger] m.val(x, y))
}

/// A claimed-write step keeps unclaimed modules light: it writes only what
/// it claims.
proof fn lemma_vals_false_write_map(
    pre: UnfinishedMatrix,
    post: UnfinishedMatrix,
    size: int,
    region: spec_fn(int, int) -> bool,
    val: spec_fn(int, int) -> bool,
)
    requires
        vals_false(pre, size),
        pre.spec_size() == size,
        claimed_write_map(pre, post, region, val),
    ensures
        vals_false(post, size),
{
    assert forall|x: int, y: int|
        0 <= x < size && 0 <= y < size && !post.claimed(x, y) implies !(#[trigger] post.val(
        x,
        y,
    )) by {
        assert(!pre.claimed(x, y));
    }
}

/// One data bit placed at the cursor's module, followed by the walk to the
/// next unclaimed module: the successor of an abstract placement state made
/// of the claimed set, the module values and the cursor.
pub open spec fn spec_place_one(
    claimed: spec_fn(int, int) -> bool,
    vals: spec_fn(int, int) -> bool,
    cur: (int, int, bool, bool),
    size: int,
    bit: bool,
) -> (spec_fn(int, int) -> bool, spec_fn(int, int) -> bool, (int, int, bool, bool)) {
    let c2 = (|x: int, y: int| claimed(x, y) || (x == cur.0 && y == cur.1));
    let v2 = (|x: int, y: int|
        if x == cur.0 && y == cur.1 && !claimed(x, y) {
            bit
        } else {
            vals(x, y)
        });
    (c2, v2, spec_cursor_walk_on(c2, cur, size, spec_walk_fuel(size)))
}

/// The abstract placement state after laying down a whole bit sequence,
/// first bit first.
pub open spec fn spec_place_bits(
    claimed: spec_fn(int, int) -> bool,
    vals: spec_fn(int, int) -> bool,
    cur: (int, int, bool, bool),
    size: int,
    bits: Seq<bool>,
) -> (spec_fn(int, int) -> bool, spec_fn(int, int) -> bool, (int, int, bool, bool))
    decreases bits.len(),
{
    if bits.len() == 0 {
        (claimed, vals, cur)
    } else {
        let s = spec_place_one(claimed, vals, cur, size, bits[0]);
        spec_place_bits(s.0, s.1, s.2, size, bits.skip(1))
    }
}

/// Laying down one more bit steps the placement state once.
proof fn lemma_place_bits_snoc(
    claimed: spec_fn(int, int) -> bool,
    vals: spec_fn(int, int) -> bool,
    cur: (int, int, bool, bool),
    size: int,
    bits: Seq<bool>,
    bit: bool,
)
    ensures
        spec_place_bits(claimed, vals, cur, size, bits.push(bit)) == spec_place_one(
            spec_place_bits(claimed, vals, cur, size, bits).0,
            spec_place_bits(claimed, vals, cur, size, bits).1,
            spec_place_bits(claimed, vals, cur, size, bits).2,
            size,
            bit,
        ),
    decreases bits.len(),
{
    if bits.len() == 0 {
        assert(bits.push(bit).skip(1) =~= Seq::<bool>::empty());
        assert(bits.push(bit)[0] == bit);
        let s0 = spec_place_one(claimed, vals, cur, size, bit);
        assert((s0.0, s0.1, s0.2) == s0);
        assert(spec_place_bits(s0.0, s0.1, s0.2, size, Seq::<bool>::empty()) == (
            s0.0,
            s0.1,
            s0.2,
        ));
    } else {
        assert(bits.push(bit)[0] == bits[0]);
        assert(bits.push(bit).skip(1) =~= bits.skip(1).push(bit));
        let s = spec_place_one(claimed, vals, cur, size, bits[0]);
        lemma_place_bits_snoc(s.0, s.1, s.2, size, bits.skip(1), bit);
        assert(spec_place_bits(claimed, vals, cur, size, bits.push(bit)) == spec_place_bits(
            s.0,
            s.1,
            s.2,
            size,
            bits.skip(1).push(bit),
        ));
    }
}

/// The function-module overlay of a version as the starting claimed set of
/// data placement.
pub open spec fn base_claimed(locs: Seq<usize>, size: int, wv: bool) -> spec_fn(int, int) -> bool {
    |x: int, y: int| spec_function_module(locs, size, wv, x, y)
}

/// All modules light before any data bit lands.
pub open spec fn base_vals() -> spec_fn(int, int) -> bool {
    |x: int, y: int| false
}

/// The placement state after laying the structured codeword bits onto the
/// function-module overlay of a version, starting at the bottom-right
/// corner: the claimed set, the module values (light where nothing was ever
/// written), and the final cursor.
pub open spec fn data_state(locs: Seq<usize>, size: int, wv: bool, bits: Seq<bool>) -> (
    spec_fn(int, int) -> bool,
    spec_fn(int, int) -> bool,
    (int, int, bool, bool),
) {
    spec_place_bits(
        base_claimed(locs, size, wv),
        base_vals(),
        (size - 1, size - 1, true, true),
        size,
        bits,
    )
}

proof fn lemma_shifted_top_bit(by: u8, t: u8)
    by (bit_vector)
    requires
        t < 8,
    ensures
        (((by << t) & 0x80) != 0) == (((by >> ((7 - t) as u8)) & 1) == 1),
        t < 7 ==> ((by << t) << 1u8) == (by << ((t + 1) as u8)),
        (by << 0u8) == by,
{
}

/// The cursor tuple with its coordinates as mathematical integers.
pub open spec fn cursor_view(c: (usize, usize, bool, bool)) -> (int, int, bool, bool) {
    (c.0 as int, c.1 as int, c.2, c.3)
}

/// The walk's step budget: more than twice the module count, beyond any
/// single traversal of the grid, so on a well-formed symbol the budget never
/// runs out before an unclaimed module or the left edge is reached.
pub open spec fn spec_walk_fuel(size: int) -> nat {
    (2 * (size * size) + 4) as nat
}

/// Writes one data bit at the cursor, then walks the zig-zag traversal to
/// the next unclaimed module. No other module changes, and the final cursor
/// is exactly the walk's rest state.
#[verifier::loop_isolation(false)]
pub fn place_data(
    mat: &mut UnfinishedMatrix,
    cursor: &mut (usize, usize, bool, bool),
    data: bool,
)
    requires
        old(mat).wf(),
        old(cursor).0 < old(mat).spec_size(),
        old(cursor).1 < old(mat).spec_size(),
    ensures
        final(mat).wf(),
        final(mat).spec_size() == old(mat).spec_size(),
        preserves_claimed(*old(mat), *final(mat)),
        final(mat).claimed(old(cursor).0 as int, old(cursor).1 as int),
        final(mat).val(old(cursor).0 as int, old(cursor).1 as int) == (if old(mat).claimed(
            old(cursor).0 as int,
            old(cursor).1 as int,
        ) {
            old(mat).val(old(cursor).0 as int, old(cursor).1 as int)
        } else {
            data
        }),
        forall|xx: int, yy: int|
            0 <= xx < old(mat).spec_size() && 0 <= yy < old(mat).spec_size() && !(xx == old(
                cursor,
            ).0 && yy == old(cursor).1) ==> final(mat).claimed(xx, yy) == old(mat).claimed(xx, yy)
                && final(mat).val(xx, yy) == old(mat).val(xx, yy),
        final(cursor).0 < old(mat).spec_size(),
        final(cursor).1 < old(mat).spec_size(),
        cursor_view(*final(cursor)) == spec_cursor_walk(
            *final(mat),
            cursor_view(*old(cursor)),
            old(mat).spec_size(),
            spec_walk_fuel(old(mat).spec_size()),
        ),
{
    mat.set(cursor.0, cursor.1, data);
    let sz = mat.done.size();
    proof {
        assert(sz * sz <= 31329) by (nonlinear_arith)
            requires
                sz <= 177,
        ;
        assert(preserves_claimed(*old(mat), *mat));
    }
    let ss = sz * sz;
    let mut fuel: usize = 2 * ss + 4;
    let ghost start = cursor_view(*cursor);
    let ghost fuel0 = spec_walk_fuel(sz as int);
    proof {
        assert(fuel as nat == fuel0);
    }
    while fuel > 0
        invariant
            cursor.0 < sz,
            cursor.1 < sz,
            spec_cursor_walk(*mat, cursor_view(*cursor), sz as int, fuel as nat)
                == spec_cursor_walk(*mat, start, sz as int, fuel0),
        decreases fuel,
    {
        if mat.get(cursor.0, cursor.1).is_none() {
            break ;
        }
        let ghost pre_c = cursor_view(*cursor);
        if cursor.2 {
            if cursor.3 {
                if cursor.0 == 0 {
                    break ;
                }
                cursor.0 -= 1;
                cursor.3 = false;
            } else {
                if cursor.1 == 0 {
                    if cursor.0 == 0 {
                        break ;
                    }
                    cursor.0 -= if cursor.0 == 7 {
                        2
                    } else {
                        1
                    };
                    cursor.2 = false;
                } else {
                    if cursor.0 + 1 >= sz {
                        break ;
                    }
                    cursor.0 += 1;
                    cursor.1 -= 1;
                    cursor.3 = true;
                }
            }
        } else {
            if cursor.3 {
                if cursor.1 + 1 >= sz {
                    if cursor.0 == 0 {
                        break ;
                    }
                    cursor.0 -= if cursor.0 == 7 {
                        2
                    } else {
                        1
                    };
                    cursor.2 = true;
                } else {
                    if cursor.0 + 1 >= sz {
                        break ;
                    }
                    cursor.0 += 1;
                    cursor.1 += 1;
                    cursor.3 = false;
                }
            } else {
                if cursor.0 == 0 {
                    break ;
                }
                cursor.0 -= 1;
                cursor.3 = true;
            }
        }
        proof {
            assert(spec_cursor_next(pre_c, sz as int) == Some(cursor_view(*cursor)));
            assert(spec_cursor_walk(*mat, pre_c, sz as int, fuel as nat) == spec_cursor_walk(
                *mat,
                cursor_view(*cursor),
                sz as int,
                (fuel - 1) as nat,
            ));
        }
        fuel -= 1;
    }
}

/// The modules belonging to one of the three finder patterns or their
/// separators.
pub open spec fn in_finder_area(size: int, x: int, y: int) -> bool {
    ||| finder_region(0, 0, x, y)
    ||| finder_region(size - 7, 0, x, y)
    ||| finder_region(0, size - 7, x, y)
}

/// The value of a module inside the finder areas of a symbol with the given
/// side length.
pub open spec fn finder_pattern_value(size: int, x: int, y: int) -> bool {
    if finder_region(0, 0, x, y) {
        finder_value(0, 0, x, y)
    } else if finder_region(size - 7, 0, x, y) {
        finder_value(size - 7, 0, x, y)
    } else {
        finder_value(0, size - 7, x, y)
    }
}

/// Every finder-area module is claimed and carries its pattern value.
pub open spec fn finders_placed(m: UnfinishedMatrix, size: int) -> bool {
    forall|x: int, y: int|
        0 <= x < size && 0 <= y < size && #[trigger] in_finder_area(size, x, y) ==> m.claimed(
            x,
            y,
        ) && m.val(x, y) == finder_pattern_value(size, x, y)
}

proof fn lemma_preserve_finders(pre: UnfinishedMatrix, post: UnfinishedMatrix, size: int)
    requires
        finders_placed(pre, size),
        preserves_claimed(pre, post),
        pre.spec_size() == size,
    ensures
        finders_placed(post, size),
{
    assert forall|x: int, y: int|
        0 <= x < size && 0 <= y < size && #[trigger] in_finder_area(size, x, y) implies post.claimed(
        x,
        y,
    ) && post.val(x, y) == finder_pattern_value(size, x, y) by {
        assert(pre.claimed(x, y));
    }
}

/// Any module of the timing lines or the dark-module position that is
/// already claimed carries the value the later construction steps would
/// write there: the finder and alignment patterns agree with the timing
/// pattern wherever they meet it.
pub open spec fn timing_compat(m: UnfinishedMatrix, size: int) -> bool {
    &&& forall|t: int|
        8 <= t < size - 8 ==> ((#[trigger] m.claimed(t, 6)) ==> m.val(t, 6) == (t % 2 == 0))
    &&& forall|t: int|
        8 <= t < size - 8 ==> ((#[trigger] m.claimed(6, t)) ==> m.val(6, t) == (t % 2 == 0))
    &&& (m.claimed(8, size - 8) ==> m.val(8, size - 8))
}

/// Row 6 and column 6 hold the alternating timing pattern between the
/// finder areas, claimed in the overlay.
pub open spec fn timing_ok(m: UnfinishedMatrix, size: int) -> bool {
    forall|t: int|
        8 <= t < size - 8 ==> (#[trigger] m.claimed(t, 6)) && m.claimed(6, t) && m.val(t, 6) == (t
            % 2 == 0) && m.val(6, t) == (t % 2 == 0)
}

/// The dark module is claimed and dark.
pub open spec fn dark_ok(m: UnfinishedMatrix, size: int) -> bool {
    m.claimed(8, size - 8) && m.val(8, size - 8)
}

proof fn lemma_finder_unclaimed_lines(
    m0: UnfinishedMatrix,
    m1: UnfinishedMatrix,
    m2: UnfinishedMatrix,
    m3: UnfinishedMatrix,
    size: int,
)
    requires
        21 <= size <= 177,
        m0.spec_size() == size,
        forall|x: int, y: int| 0 <= x < size && 0 <= y < size ==> !m0.claimed(x, y),
        claimed_write_map(
            m0,
            m1,
            (|x: int, y: int| finder_region(0, 0, x, y)),
            (|x: int, y: int| finder_value(0, 0, x, y)),
        ),
        claimed_write_map(
            m1,
            m2,
            (|x: int, y: int| finder_region(size - 7, 0, x, y)),
            (|x: int, y: int| finder_value(size - 7, 0, x, y)),
        ),
        claimed_write_map(
            m2,
            m3,
            (|x: int, y: int| finder_region(0, size - 7, x, y)),
            (|x: int, y: int| finder_value(0, size - 7, x, y)),
        ),
    ensures
        forall|t: int| 8 <= t < size - 8 ==> !(#[trigger] m3.claimed(t, 6)) && !m3.claimed(6, t),
        !m3.claimed(8, size - 8),
{
    assert forall|t: int|
        8 <= t < size - 8 implies !(#[trigger] m3.claimed(t, 6)) && !m3.claimed(6, t) by {
        assert(!finder_region(0, 0, t, 6));
        assert(!finder_region(size - 7, 0, t, 6));
        assert(!finder_region(0, size - 7, t, 6));
        assert(!finder_region(0, 0, 6, t));
        assert(!finder_region(size - 7, 0, 6, t));
        assert(!finder_region(0, size - 7, 6, t));
    }
    assert(!finder_region(0, 0, 8, size - 8));
    assert(!finder_region(size - 7, 0, 8, size - 8));
    assert(!finder_region(0, size - 7, 8, size - 8));
}

proof fn lemma_alignment_keeps_compat(
    pre: UnfinishedMatrix,
    post: UnfinishedMatrix,
    cx: int,
    cy: int,
    size: int,
)
    requires
        21 <= size <= 177,
        pre.spec_size() == size,
        timing_compat(pre, size),
        cx % 2 == 0,
        cy % 2 == 0,
        cx == 6 || cx >= 18,
        cy == 6 || cy >= 18,
        cx + 11 <= size || cx == size - 7,
        cy + 11 <= size || cy == size - 7,
        claimed_write_map(
            pre,
            post,
            (|x: int, y: int| ring_dist(cx, cy, x, y) <= 2),
            (|x: int, y: int| ring_dist(cx, cy, x, y) != 1),
        ),
    ensures
        timing_compat(post, size),
{
    assert forall|t: int|
        8 <= t < size - 8 && #[trigger] post.claimed(t, 6) implies post.val(t, 6) == (t % 2
        == 0) by {
        if !pre.claimed(t, 6) {
            assert(ring_dist(cx, cy, t, 6) <= 2);
            assert(cy == 6);
            let d = if t >= cx {
                t - cx
            } else {
                cx - t
            };
            assert(ring_dist(cx, cy, t, 6) == d);
            if t % 2 == 0 {
                assert(d != 1);
            } else {
                assert(d == 1);
            }
        }
    }
    assert forall|t: int|
        8 <= t < size - 8 && #[trigger] post.claimed(6, t) implies post.val(6, t) == (t % 2
        == 0) by {
        if !pre.claimed(6, t) {
            assert(ring_dist(cx, cy, 6, t) <= 2);
            assert(cx == 6);
            let d = if t >= cy {
                t - cy
            } else {
                cy - t
            };
            assert(ring_dist(cx, cy, 6, t) == d);
            if t % 2 == 0 {
                assert(d != 1);
            } else {
                assert(d == 1);
            }
        }
    }
    if post.claimed(8, size - 8) && !pre.claimed(8, size - 8) {
        assert(ring_dist(cx, cy, 8, size - 8) <= 2);
        assert(cx == 6);
        assert(cy == size - 7);
        assert(ring_dist(cx, cy, 8, size - 8) == 2);
    }
}

proof fn lemma_preserve_timing(pre: UnfinishedMatrix, post: UnfinishedMatrix, size: int)
    requires
        21 <= size,
        timing_ok(pre, size),
        preserves_claimed(pre, post),
        pre.spec_size() == size,
    ensures
        timing_ok(post, size),
{
    assert forall|t: int| 8 <= t < size - 8 implies #[trigger] post.claimed(t, 6) by {
        assert(pre.claimed(t, 6));
    }
    assert forall|t: int| 8 <= t < size - 8 implies #[trigger] post.claimed(6, t) by {
        assert(pre.claimed(t, 6));
        assert(pre.claimed(6, t));
    }
    assert forall|t: int| 8 <= t < size - 8 implies #[trigger] post.val(t, 6) == (t % 2 == 0) by {
        assert(pre.claimed(t, 6));
        assert(pre.val(t, 6) == (t % 2 == 0));
        assert(post.claimed(t, 6));
    }
    assert forall|t: int| 8 <= t < size - 8 implies #[trigger] post.val(6, t) == (t % 2 == 0) by {
        assert(pre.claimed(t, 6));
        assert(pre.claimed(6, t));
        assert(pre.val(6, t) == (t % 2 == 0));
        assert(post.claimed(6, t));
    }
}

proof fn lemma_preserve_patterns(pre: UnfinishedMatrix, post: UnfinishedMatrix, size: int)
    requires
        21 <= size,
        finders_placed(pre, size),
        timing_ok(pre, size),
        dark_ok(pre, size),
        preserves_claimed(pre, post),
        pre.spec_size() == size,
    ensures
        finders_placed(post, size),
        timing_ok(post, size),
        dark_ok(post, size),
{
    lemma_preserve_finders(pre, post, size);
    lemma_preserve_timing(pre, post, size);
    assert(pre.claimed(8, size - 8));
}

/// The modules of one alignment pattern centred on (cx, cy) all stand in
/// the overlay with their ring values: dark border and centre, light ring
/// between.
pub open spec fn alignment_placed(m: UnfinishedMatrix, cx: int, cy: int) -> bool {
    forall|x: int, y: int|
        #[trigger] ring_dist(cx, cy, x, y) <= 2 ==> m.claimed(x, y) && m.val(x, y) == (ring_dist(
            cx,
            cy,
            x,
            y,
        ) != 1)
}

/// Whether (x, y) lies within an alignment pattern already visited by the
/// placement order — centre row index below a, or equal to a with centre
/// column index below b — whose centre the finders left unclaimed, so the
/// pattern was really placed.
pub open spec fn in_processed_ring(
    locs: Seq<usize>,
    size: int,
    a: int,
    b: int,
    x: int,
    y: int,
) -> bool {
    exists|i: int, j: int|
        0 <= i < locs.len() && 0 <= j < locs.len() && (i < a || (i == a && j < b))
            && !in_finder_area(size, locs[j] as int, locs[i] as int) && #[trigger] ring_dist(
            locs[j] as int,
            locs[i] as int,
            x,
            y,
        ) <= 2
}

/// Every claimed module so far belongs to a finder area or to an alignment
/// pattern already visited.
pub open spec fn claims_within(
    m: UnfinishedMatrix,
    locs: Seq<usize>,
    size: int,
    a: int,
    b: int,
) -> bool {
    forall|x: int, y: int|
        0 <= x < size && 0 <= y < size && #[trigger] m.claimed(x, y) ==> in_finder_area(size, x, y)
            || in_processed_ring(locs, size, a, b, x, y)
}

/// Every visited centre pair outside the finder areas carries its alignment
/// pattern.
pub open spec fn alignments_done(
    m: UnfinishedMatrix,
    locs: Seq<usize>,
    size: int,
    a: int,
    b: int,
) -> bool {
    forall|i: int, j: int|
        0 <= i < locs.len() && 0 <= j < locs.len() && (i < a || (i == a && j < b))
            && !in_finder_area(size, locs[j] as int, locs[i] as int)
            ==> #[trigger] alignment_placed(m, locs[j] as int, locs[i] as int)
}

/// The coordinate facts the alignment proofs use, as the version table
/// states them.
pub open spec fn align_coords_ok(locs: Seq<usize>, size: int) -> bool {
    &&& forall|k: int| 0 <= k < locs.len() ==> 6 <= #[trigger] locs[k] && locs[k] + 3 <= size
    &&& forall|k: int| 0 <= k < locs.len() ==> #[trigger] locs[k] == 6 || locs[k] >= 18
    &&& forall|k: int| 0 <= k < locs.len() ==> #[trigger] locs[k] + 11 <= size || locs[k] == size - 7
    &&& forall|k: int, k2: int|
        0 <= k < locs.len() && 0 <= k2 < locs.len() && k != k2 ==> #[trigger] locs[k] + 5
            <= #[trigger] locs[k2] || locs[k2] + 5 <= locs[k]
}

/// After the three finder patterns on a fresh grid, the claimed modules are
/// exactly the finder areas.
proof fn lemma_finder_claims_exact(
    m0: UnfinishedMatrix,
    m1: UnfinishedMatrix,
    m2: UnfinishedMatrix,
    m3: UnfinishedMatrix,
    size: int,
)
    requires
        21 <= size <= 177,
        m0.spec_size() == size,
        forall|x: int, y: int| 0 <= x < size && 0 <= y < size ==> !m0.claimed(x, y),
        claimed_write_map(
            m0,
            m1,
            (|x: int, y: int| finder_region(0, 0, x, y)),
            (|x: int, y: int| finder_value(0, 0, x, y)),
        ),
        claimed_write_map(
            m1,
            m2,
            (|x: int, y: int| finder_region(size - 7, 0, x, y)),
            (|x: int, y: int| finder_value(size - 7, 0, x, y)),
        ),
        claimed_write_map(
            m2,
            m3,
            (|x: int, y: int| finder_region(0, size - 7, x, y)),
            (|x: int, y: int| finder_value(0, size - 7, x, y)),
        ),
    ensures
        forall|x: int, y: int|
            0 <= x < size && 0 <= y < size ==> #[trigger] m3.claimed(x, y) == in_finder_area(
                size,
                x,
                y,
            ),
{
    assert forall|x: int, y: int|
        0 <= x < size && 0 <= y < size implies #[trigger] m3.claimed(x, y) == in_finder_area(
        size,
        x,
        y,
    ) by {
        assert(m1.claimed(x, y) == finder_region(0, 0, x, y));
        assert(m2.claimed(x, y) == (m1.claimed(x, y) || finder_region(size - 7, 0, x, y)));
    }
}

/// A module of a finder area within ring distance 2 of an alignment centre
/// puts the centre itself inside a finder area.
proof fn lemma_ring_cell_in_finder(size: int, cx: int, cy: int, x: int, y: int)
    requires
        21 <= size <= 177,
        cx == 6 || cx >= 18,
        cy == 6 || cy >= 18,
        cx + 11 <= size || cx == size - 7,
        cy + 11 <= size || cy == size - 7,
        6 <= cx && cx + 3 <= size,
        6 <= cy && cy + 3 <= size,
        ring_dist(cx, cy, x, y) <= 2,
        in_finder_area(size, x, y),
    ensures
        in_finder_area(size, cx, cy),
{
    if finder_region(0, 0, x, y) {
        assert(x <= 7 && y <= 7);
        assert(cx == 6 && cy == 6);
        assert(finder_region(0, 0, cx, cy));
    } else if finder_region(size - 7, 0, x, y) {
        assert(x >= size - 8 && y <= 7);
        assert(cx == size - 7 && cy == 6);
        assert(finder_region(size - 7, 0, cx, cy));
    } else {
        assert(x <= 7 && y >= size - 8);
        assert(cx == 6 && cy == size - 7);
        assert(finder_region(0, size - 7, cx, cy));
    }
}

/// One step of the alignment placement order: either the centre was already
/// claimed — then it lies in a finder area and nothing changed — or the
/// whole pattern went onto unclaimed modules.
#[verifier::rlimit(100)]
proof fn lemma_alignment_step(
    pre: UnfinishedMatrix,
    post: UnfinishedMatrix,
    locs: Seq<usize>,
    size: int,
    a: int,
    b: int,
    cx: int,
    cy: int,
)
    requires
        21 <= size <= 177,
        pre.spec_size() == size,
        0 <= a < locs.len(),
        0 <= b < locs.len(),
        cx == locs[b],
        cy == locs[a],
        align_coords_ok(locs, size),
        finders_placed(pre, size),
        claims_within(pre, locs, size, a, b),
        alignments_done(pre, locs, size, a, b),
        pre.claimed(cx, cy) ==> post == pre,
        !pre.claimed(cx, cy) ==> claimed_write_map(
            pre,
            post,
            (|x: int, y: int| ring_dist(cx, cy, x, y) <= 2),
            (|x: int, y: int| ring_dist(cx, cy, x, y) != 1),
        ),
    ensures
        post.spec_size() == size,
        claims_within(post, locs, size, a, b + 1),
        alignments_done(post, locs, size, a, b + 1),
{
    if pre.claimed(cx, cy) {
        // the centre cannot lie in an earlier pattern: distinct centres sit
        // at least 5 apart in one coordinate, so it lies in a finder area
        assert(in_finder_area(size, cx, cy)) by {
            if in_processed_ring(locs, size, a, b, cx, cy) {
                let (i, j) = choose|i: int, j: int|
                    0 <= i < locs.len() && 0 <= j < locs.len() && (i < a || (i == a && j < b))
                        && !in_finder_area(size, locs[j] as int, locs[i] as int)
                        && #[trigger] ring_dist(locs[j] as int, locs[i] as int, cx, cy) <= 2;
                assert(i != a || j != b);
                assert(false);
            }
        }
        assert forall|x: int, y: int|
            0 <= x < size && 0 <= y < size && #[trigger] post.claimed(x, y) implies in_finder_area(
            size,
            x,
            y,
        ) || in_processed_ring(locs, size, a, b + 1, x, y) by {
            if in_processed_ring(locs, size, a, b, x, y) {
                let (i, j) = choose|i: int, j: int|
                    0 <= i < locs.len() && 0 <= j < locs.len() && (i < a || (i == a && j < b))
                        && !in_finder_area(size, locs[j] as int, locs[i] as int)
                        && #[trigger] ring_dist(locs[j] as int, locs[i] as int, x, y) <= 2;
                assert(in_processed_ring(locs, size, a, b + 1, x, y));
            }
        }
        assert forall|i: int, j: int|
            0 <= i < locs.len() && 0 <= j < locs.len() && (i < a || (i == a && j < b + 1))
                && !in_finder_area(size, locs[j] as int, locs[i] as int)
                implies #[trigger] alignment_placed(post, locs[j] as int, locs[i] as int) by {
            assert(i < a || (i == a && j < b));
        }
    } else {
        // the pattern went down whole: its modules were all unclaimed, being
        // neither finder modules (the centre is outside every finder area)
        // nor modules of an earlier pattern (centres sit apart)
        assert(!in_finder_area(size, cx, cy)) by {
            if in_finder_area(size, cx, cy) {
                assert(pre.claimed(cx, cy));
            }
        }
        assert forall|x: int, y: int| #[trigger] ring_dist(cx, cy, x, y) <= 2 implies post.claimed(
            x,
            y,
        ) && post.val(x, y) == (ring_dist(cx, cy, x, y) != 1) by {
            assert(0 <= x < size && 0 <= y < size);
            assert(!pre.claimed(x, y)) by {
                if pre.claimed(x, y) {
                    if in_finder_area(size, x, y) {
                        lemma_ring_cell_in_finder(size, cx, cy, x, y);
                        assert(false);
                    } else {
                        let (i, j) = choose|i: int, j: int|
                            0 <= i < locs.len() && 0 <= j < locs.len() && (i < a || (i == a && j
                                < b)) && !in_finder_area(size, locs[j] as int, locs[i] as int)
                                && #[trigger] ring_dist(
                                locs[j] as int,
                                locs[i] as int,
                                x,
                                y,
                            ) <= 2;
                        assert(i != a || j != b);
                        assert(false);
                    }
                }
            }
        }
        assert(alignment_placed(post, cx, cy));
        assert forall|x: int, y: int|
            0 <= x < size && 0 <= y < size && #[trigger] post.claimed(x, y) implies in_finder_area(
            size,
            x,
            y,
        ) || in_processed_ring(locs, size, a, b + 1, x, y) by {
            if pre.claimed(x, y) {
                if in_processed_ring(locs, size, a, b, x, y) {
                    let (i, j) = choose|i: int, j: int|
                        0 <= i < locs.len() && 0 <= j < locs.len() && (i < a || (i == a && j < b))
                            && !in_finder_area(size, locs[j] as int, locs[i] as int)
                            && #[trigger] ring_dist(locs[j] as int, locs[i] as int, x, y) <= 2;
                    assert(in_processed_ring(locs, size, a, b + 1, x, y));
                }
            } else {
                assert(ring_dist(cx, cy, x, y) <= 2);
                assert(in_processed_ring(locs, size, a, b + 1, x, y));
            }
        }
        assert forall|i: int, j: int|
            0 <= i < locs.len() && 0 <= j < locs.len() && (i < a || (i == a && j < b + 1))
                && !in_finder_area(size, locs[j] as int, locs[i] as int)
                implies #[trigger] alignment_placed(post, locs[j] as int, locs[i] as int) by {
            if i < a || (i == a && j < b) {
                assert(alignment_placed(pre, locs[j] as int, locs[i] as int));
                assert forall|x: int, y: int|
                    #[trigger] ring_dist(locs[j] as int, locs[i] as int, x, y) <= 2 implies
                    post.claimed(x, y) && post.val(x, y) == (ring_dist(
                    locs[j] as int,
                    locs[i] as int,
                    x,
                    y,
                ) != 1) by {
                    assert(pre.claimed(x, y));
                    assert(0 <= x < size && 0 <= y < size);
                }
            } else {
                assert(i == a && j == b);
            }
        }
    }
}

/// Visiting the next centre row starts again at column 0: the visited sets
/// coincide.
proof fn lemma_processed_rollover(
    m: UnfinishedMatrix,
    locs: Seq<usize>,
    size: int,
    a: int,
)
    requires
        claims_within(m, locs, size, a, locs.len() as int),
        alignments_done(m, locs, size, a, locs.len() as int),
    ensures
        claims_within(m, locs, size, a + 1, 0),
        alignments_done(m, locs, size, a + 1, 0),
{
    assert forall|x: int, y: int|
        0 <= x < size && 0 <= y < size && #[trigger] m.claimed(x, y) implies in_finder_area(
        size,
        x,
        y,
    ) || in_processed_ring(locs, size, a + 1, 0, x, y) by {
        if in_processed_ring(locs, size, a, locs.len() as int, x, y) {
            let (i, j) = choose|i: int, j: int|
                0 <= i < locs.len() && 0 <= j < locs.len() && (i < a || (i == a && j < locs.len()))
                    && !in_finder_area(size, locs[j] as int, locs[i] as int)
                    && #[trigger] ring_dist(locs[j] as int, locs[i] as int, x, y) <= 2;
            assert(i < a + 1);
            assert(in_processed_ring(locs, size, a + 1, 0, x, y));
        }
    }
}

/// Placed alignment patterns persist: their modules are claimed, so later
/// construction never rewrites them.
proof fn lemma_preserve_alignments(
    pre: UnfinishedMatrix,
    post: UnfinishedMatrix,
    locs: Seq<usize>,
    size: int,
)
    requires
        21 <= size <= 177,
        pre.spec_size() == size,
        align_coords_ok(locs, size),
        alignments_done(pre, locs, size, locs.len() as int, 0),
        preserves_claimed(pre, post),
    ensures
        alignments_done(post, locs, size, locs.len() as int, 0),
{
    assert forall|i: int, j: int|
        0 <= i < locs.len() && 0 <= j < locs.len() && (i < locs.len() || (i == locs.len() && j
            < 0)) && !in_finder_area(size, locs[j] as int, locs[i] as int)
        implies #[trigger] alignment_placed(post, locs[j] as int, locs[i] as int) by {
        assert(alignment_placed(pre, locs[j] as int, locs[i] as int));
        assert forall|x: int, y: int|
            #[trigger] ring_dist(locs[j] as int, locs[i] as int, x, y) <= 2 implies post.claimed(
            x,
            y,
        ) && post.val(x, y) == (ring_dist(locs[j] as int, locs[i] as int, x, y) != 1) by {
            assert(pre.claimed(x, y));
            assert(0 <= x < size && 0 <= y < size);
        }
    }
}

/// The modules of the alignment pattern centred on (cx, cy) in the finished
/// grids: ring values in the module grid, claims in the overlay.
pub open spec fn alignment_modules_ok(m: QrMatrix, f: QrMatrix, cx: int, cy: int) -> bool {
    forall|x: int, y: int|
        #[trigger] ring_dist(cx, cy, x, y) <= 2 ==> m.spec_get(x, y) == (ring_dist(cx, cy, x, y)
            != 1) && f.spec_get(x, y)
}

/// The function modules of a symbol, as a function of the version's
/// alignment-centre list, the side length and whether the version carries
/// version-information blocks: finder areas with separators, the timing
/// lines, the dark module, the reserved format strips, the version blocks,
/// and the alignment patterns whose centres the finders leave free.
pub open spec fn spec_function_module(
    locs: Seq<usize>,
    size: int,
    with_version: bool,
    x: int,
    y: int,
) -> bool {
    ||| in_finder_area(size, x, y)
    ||| (y == 6 && 8 <= x < size - 8)
    ||| (x == 6 && 8 <= y < size - 8)
    ||| (x == 8 && y == size - 8)
    ||| (y == 8 && (x <= 8 || x >= size - 8))
    ||| (x == 8 && (y <= 8 || y >= size - 7))
    ||| (with_version && size - 11 <= x < size - 8 && 0 <= y < 6)
    ||| (with_version && size - 11 <= y < size - 8 && 0 <= x < 6)
    ||| in_processed_ring(locs, size, locs.len() as int, 0, x, y)
}

/// Every claimed module is a function module.
pub open spec fn overlay_bounded(
    m: UnfinishedMatrix,
    locs: Seq<usize>,
    size: int,
    with_version: bool,
) -> bool {
    forall|x: int, y: int|
        0 <= x < size && 0 <= y < size && #[trigger] m.claimed(x, y) ==> spec_function_module(
            locs,
            size,
            with_version,
            x,
            y,
        )
}

/// The reserved format strips beside the finder patterns are claimed.
pub open spec fn reserved_claimed(m: UnfinishedMatrix, size: int) -> bool {
    forall|x: int, y: int|
        0 <= x < size && 0 <= y < size && ((y == 8 && (x <= 8 || x >= size - 8)) || (x == 8 && (y
            <= 8 || y >= size - 8))) ==> #[trigger] m.claimed(x, y)
}

/// The two reserved 3x6 version-information blocks are claimed.
pub open spec fn version_area_claimed(m: UnfinishedMatrix, size: int) -> bool {
    forall|x: int, y: int|
        ((size - 11 <= x < size - 8 && 0 <= y < 6) || (size - 11 <= y < size - 8 && 0 <= x < 6))
            ==> #[trigger] m.claimed(x, y)
}

proof fn lemma_preserve_claims(pre: UnfinishedMatrix, post: UnfinishedMatrix, size: int)
    requires
        21 <= size,
        reserved_claimed(pre, size),
        preserves_claimed(pre, post),
        pre.spec_size() == size,
    ensures
        reserved_claimed(post, size),
{
    assert forall|x: int, y: int|
        0 <= x < size && 0 <= y < size && ((y == 8 && (x <= 8 || x >= size - 8)) || (x == 8 && (y
            <= 8 || y >= size - 8))) implies #[trigger] post.claimed(x, y) by {
        assert(pre.claimed(x, y));
    }
}

/// Builds the unmasked symbol: all function patterns, reservations and the
/// zig-zag data placement. Returns the module grid, carrying the finder
/// patterns, the timing lines and the dark module at their exact values,
/// and the frozen overlay of function modules, which claims all of those
/// and the reserved format and version areas; masking must never flip a
/// claimed module.
#[verifier::loop_isolation(false)]
#[verifier::rlimit(100)]
pub fn generate_unmasked_matrix(version: Version, data: &[u8]) -> (r: (QrMatrix, QrMatrix))
    requires
        version.wf(),
    ensures
        r.0.wf(),
        r.1.wf(),
        r.0.spec_size() == 4 * (version.0 as int) + 21,
        r.1.spec_size() == 4 * (version.0 as int) + 21,
        forall|x: int, y: int|
            0 <= x < r.0.spec_size() && 0 <= y < r.0.spec_size() && in_finder_area(
                r.0.spec_size(),
                x,
                y,
            ) ==> r.0.spec_get(x, y) == finder_pattern_value(r.0.spec_size(), x, y)
                && r.1.spec_get(x, y),
        forall|t: int|
            8 <= t < r.0.spec_size() - 8 ==> #[trigger] r.0.spec_get(t, 6) == (t % 2 == 0),
        forall|t: int|
            8 <= t < r.0.spec_size() - 8 ==> #[trigger] r.0.spec_get(6, t) == (t % 2 == 0),
        forall|t: int| 8 <= t < r.0.spec_size() - 8 ==> #[trigger] r.1.spec_get(t, 6),
        forall|t: int| 8 <= t < r.0.spec_size() - 8 ==> #[trigger] r.1.spec_get(6, t),
        r.0.spec_get(8, r.0.spec_size() - 8) && r.1.spec_get(8, r.0.spec_size() - 8),
        forall|x: int, y: int|
            0 <= x < r.0.spec_size() && 0 <= y < r.0.spec_size() && ((y == 8 && (x <= 8 || x
                >= r.0.spec_size() - 8)) || (x == 8 && (y <= 8 || y >= r.0.spec_size() - 8)))
                ==> #[trigger] r.1.spec_get(x, y),
        version.0 >= 6 ==> forall|x: int, y: int|
            ((r.0.spec_size() - 11 <= x < r.0.spec_size() - 8 && 0 <= y < 6) || (r.0.spec_size()
                - 11 <= y < r.0.spec_size() - 8 && 0 <= x < 6)) ==> #[trigger] r.1.spec_get(x, y),
        forall|i: int, j: int|
            0 <= i < version.spec_align_locations().len() && 0 <= j
                < version.spec_align_locations().len() && !in_finder_area(
                r.0.spec_size(),
                version.spec_align_locations()[j] as int,
                version.spec_align_locations()[i] as int,
            ) ==> #[trigger] alignment_modules_ok(
                r.0,
                r.1,
                version.spec_align_locations()[j] as int,
                version.spec_align_locations()[i] as int,
            ),
        forall|x: int, y: int|
            0 <= x < r.0.spec_size() && 0 <= y < r.0.spec_size() ==> #[trigger] r.1.spec_get(x, y)
                == spec_function_module(
                version.spec_align_locations(),
                r.0.spec_size(),
                version.0 >= 6,
                x,
                y,
            ),
        forall|x: int, y: int|
            0 <= x < r.0.spec_size() && 0 <= y < r.0.spec_size() && !spec_function_module(
                version.spec_align_locations(),
                r.0.spec_size(),
                version.0 >= 6,
                x,
                y,
            ) ==> #[trigger] r.0.spec_get(x, y) == data_state(
                version.spec_align_locations(),
                r.0.spec_size(),
                version.0 >= 6,
                crate::bits::bytes_bits(data@),
            ).1(x, y),
{
    let size = version.0 as usize * 4 + 21;
    let ghost szi = size as int;
    let mut mat = UnfinishedMatrix::new(size);
    let ghost g0 = mat;

    place_finder(&mut mat, 0, 0);
    let ghost g1 = mat;
    place_finder(&mut mat, size - 7, 0);
    let ghost g2 = mat;
    place_finder(&mut mat, 0, size - 7);
    let ghost g3 = mat;
    proof {
        assert(finders_placed(mat, szi));
        lemma_finder_unclaimed_lines(g0, g1, g2, mat, szi);
        lemma_finder_claims_exact(g0, g1, g2, mat, szi);
        assert(timing_compat(mat, szi));
        assert forall|x: int, y: int|
            0 <= x < szi && 0 <= y < szi && !mat.claimed(x, y) implies !(#[trigger] mat.val(
            x,
            y,
        )) by {
            assert(!g2.claimed(x, y));
            assert(!g1.claimed(x, y));
            assert(!g0.claimed(x, y));
        }
        assert(vals_false(mat, szi));
    }

    let locs = version.align_locations();
    proof {
        assert(claims_within(mat, locs@, szi, 0, 0));
    }
    let mut a: usize = 0;
    while a < locs.len()
        invariant
            mat.wf(),
            mat.spec_size() == size,
            a <= locs@.len(),
            finders_placed(mat, szi),
            timing_compat(mat, szi),
            claims_within(mat, locs@, szi, a as int, 0),
            alignments_done(mat, locs@, szi, a as int, 0),
            vals_false(mat, szi),
        decreases locs@.len() - a,
    {
        let mut b: usize = 0;
        while b < locs.len()
            invariant
                mat.wf(),
                mat.spec_size() == size,
                a < locs@.len(),
                b <= locs@.len(),
                finders_placed(mat, szi),
                timing_compat(mat, szi),
                claims_within(mat, locs@, szi, a as int, b as int),
                alignments_done(mat, locs@, szi, a as int, b as int),
                vals_false(mat, szi),
            decreases locs@.len() - b,
        {
            let ghost pre = mat;
            let cx = locs[b];
            let cy = locs[a];
            place_alignment(&mut mat, cx, cy);
            proof {
                if pre.claimed(cx as int, cy as int) {
                    assert(timing_compat(mat, szi));
                } else {
                    lemma_alignment_keeps_compat(pre, mat, cx as int, cy as int, szi);
                    lemma_vals_false_write_map(
                        pre,
                        mat,
                        szi,
                        (|xx: int, yy: int| ring_dist(cx as int, cy as int, xx, yy) <= 2),
                        (|xx: int, yy: int| ring_dist(cx as int, cy as int, xx, yy) != 1),
                    );
                }
                assert(vals_false(mat, szi));
                lemma_alignment_step(
                    pre,
                    mat,
                    locs@,
                    szi,
                    a as int,
                    b as int,
                    cx as int,
                    cy as int,
                );
            }
            b += 1;
        }
        proof {
            lemma_processed_rollover(mat, locs@, szi, a as int);
        }
        a += 1;
    }
    let ghost wv = version.0 >= 6;
    proof {
        assert(alignments_done(mat, locs@, szi, locs@.len() as int, 0));
        assert forall|x: int, y: int|
            0 <= x < szi && 0 <= y < szi && #[trigger] mat.claimed(x, y) implies
            spec_function_module(locs@, szi, wv, x, y) by {
            if in_processed_ring(locs@, szi, locs@.len() as int, 0, x, y) {
            }
        }
        assert(overlay_bounded(mat, locs@, szi, wv));
    }

    let mut i: usize = 8;
    while i < size - 8
        invariant
            mat.wf(),
            mat.spec_size() == size,
            8 <= i <= size - 8,
            finders_placed(mat, szi),
            forall|t: int| 8 <= t < i ==> #[trigger] mat.claimed(t, 6),
            forall|t: int| 8 <= t < i ==> #[trigger] mat.claimed(6, t),
            forall|t: int| 8 <= t < i ==> #[trigger] mat.val(t, 6) == (t % 2 == 0),
            forall|t: int| 8 <= t < i ==> #[trigger] mat.val(6, t) == (t % 2 == 0),
            forall|t: int|
                i <= t < size - 8 ==> ((#[trigger] mat.claimed(t, 6)) ==> mat.val(t, 6) == (t % 2
                    == 0)),
            forall|t: int|
                i <= t < size - 8 ==> ((#[trigger] mat.claimed(6, t)) ==> mat.val(6, t) == (t % 2
                    == 0)),
            mat.claimed(8, szi - 8) ==> mat.val(8, szi - 8),
            alignments_done(mat, locs@, szi, locs@.len() as int, 0),
            overlay_bounded(mat, locs@, szi, wv),
            vals_false(mat, szi),
        decreases size - 8 - i,
    {
        proof {
            assert(((i & 1) == 0) == (i % 2 == 0)) by (bit_vector);
        }
        let ghost e0 = mat;
        mat.set(i, 6, i & 1 == 0);
        let ghost e1 = mat;
        mat.set(6, i, i & 1 == 0);
        proof {
            if e0.claimed(i as int, 6) {
                assert(e0.val(i as int, 6) == (i as int % 2 == 0));
            }
            assert(mat.claimed(i as int, 6) && mat.val(i as int, 6) == (i as int % 2 == 0));
            if e1.claimed(6, i as int) {
                assert(e0.claimed(6, i as int));
                assert(e0.val(6, i as int) == (i as int % 2 == 0));
            }
            assert(mat.claimed(6, i as int) && mat.val(6, i as int) == (i as int % 2 == 0));
            assert(preserves_claimed(e0, mat));
            lemma_preserve_alignments(e0, mat, locs@, szi);
            assert forall|x: int, y: int|
                0 <= x < szi && 0 <= y < szi && #[trigger] mat.claimed(x, y) implies
                spec_function_module(locs@, szi, wv, x, y) by {
                if !e0.claimed(x, y) {
                    assert((x == i as int && y == 6) || (x == 6 && y == i as int));
                }
            }
            assert forall|x: int, y: int|
                0 <= x < szi && 0 <= y < szi && !mat.claimed(x, y) implies !(#[trigger] mat.val(
                x,
                y,
            )) by {
                assert(!e1.claimed(x, y));
                assert(!e0.claimed(x, y));
            }
            assert(vals_false(mat, szi));
        }
        i += 1;
    }
    proof {
        assert(timing_ok(mat, szi));
    }

    let ghost td = mat;
    mat.set(8, 4 * (version.0 as usize + 1) + 9, true);
    proof {
        assert(preserves_claimed(td, mat));
        lemma_preserve_finders(td, mat, szi);
        lemma_preserve_timing(td, mat, szi);
        lemma_preserve_alignments(td, mat, locs@, szi);
        assert(dark_ok(mat, szi));
        assert forall|x: int, y: int|
            0 <= x < szi && 0 <= y < szi && #[trigger] mat.claimed(x, y) implies
            spec_function_module(locs@, szi, wv, x, y) by {
            if !td.claimed(x, y) {
                assert(x == 8 && y == szi - 8);
            }
        }
        assert(overlay_bounded(mat, locs@, szi, wv));
        assert forall|x: int, y: int|
            0 <= x < szi && 0 <= y < szi && !mat.claimed(x, y) implies !(#[trigger] mat.val(
            x,
            y,
        )) by {
            assert(!td.claimed(x, y));
        }
        assert(vals_false(mat, szi));
    }
    let ghost h0 = mat;

    mat.set_hline(0, 8, 9, false);
    let ghost h1 = mat;
    mat.set_vline(8, 0, 9, false);
    let ghost h2 = mat;
    proof {
        assert(preserves_claimed(h1, mat));
    }
    mat.set_hline(size - 8, 8, 8, false);
    let ghost h3 = mat;
    proof {
        assert(preserves_claimed(h1, mat));
        assert(preserves_claimed(h2, mat));
    }
    mat.set_vline(8, size - 7, 7, false);
    proof {
        assert(preserves_claimed(h0, mat));
        assert(preserves_claimed(h1, mat));
        assert(preserves_claimed(h2, mat));
        assert(preserves_claimed(h3, mat));
        lemma_preserve_patterns(h0, mat, szi);
        lemma_preserve_alignments(h0, mat, locs@, szi);
        assert forall|x: int, y: int|
            0 <= x < szi && 0 <= y < szi && ((y == 8 && (x <= 8 || x >= szi - 8)) || (x == 8 && (
            y <= 8 || y >= szi - 8))) implies #[trigger] mat.claimed(x, y) by {
            if y == 8 && x <= 8 {
                assert(h1.claimed(x, y));
            } else if x == 8 && y <= 8 {
                assert(h2.claimed(x, y));
            } else if y == 8 {
                assert(h3.claimed(x, y));
            } else if y == szi - 8 {
                assert(h0.claimed(x, y));
            }
        }
        assert(reserved_claimed(mat, szi));
        assert forall|x: int, y: int|
            0 <= x < szi && 0 <= y < szi && #[trigger] mat.claimed(x, y) implies
            spec_function_module(locs@, szi, wv, x, y) by {
            if !h0.claimed(x, y) {
                assert(h1.claimed(x, y) || h2.claimed(x, y) || h3.claimed(x, y) || (x == 8 && szi
                    - 7 <= y < szi));
            }
        }
        assert(overlay_bounded(mat, locs@, szi, wv));
        assert forall|x: int, y: int|
            0 <= x < szi && 0 <= y < szi && !mat.claimed(x, y) implies !(#[trigger] mat.val(
            x,
            y,
        )) by {
            assert(!h3.claimed(x, y));
            assert(!h2.claimed(x, y));
            assert(!h1.claimed(x, y));
            assert(!h0.claimed(x, y));
        }
        assert(vals_false(mat, szi));
    }
    let ghost h4 = mat;

    if version.0 + 1 >= 7 {
        mat.set_filled_box(size - 11, 0, 3, 6, false);
        let ghost v1 = mat;
        mat.set_filled_box(0, size - 11, 6, 3, false);
        proof {
            assert(preserves_claimed(h4, mat));
            assert(preserves_claimed(v1, mat));
            lemma_preserve_patterns(h4, mat, szi);
            lemma_preserve_claims(h4, mat, szi);
            lemma_preserve_alignments(h4, mat, locs@, szi);
            assert forall|x: int, y: int|
                ((szi - 11 <= x < szi - 8 && 0 <= y < 6) || (szi - 11 <= y < szi - 8 && 0 <= x
                    < 6)) implies #[trigger] mat.claimed(x, y) by {
                if szi - 11 <= x < szi - 8 && 0 <= y < 6 {
                    assert(v1.claimed(x, y));
                }
            }
            assert(version_area_claimed(mat, szi));
            assert forall|x: int, y: int|
                0 <= x < szi && 0 <= y < szi && #[trigger] mat.claimed(x, y) implies
                spec_function_module(locs@, szi, wv, x, y) by {
                if !h4.claimed(x, y) {
                    assert(v1.claimed(x, y) || (szi - 11 <= y < szi - 8 && 0 <= x < 6));
                }
            }
            assert(overlay_bounded(mat, locs@, szi, wv));
            assert forall|x: int, y: int|
                0 <= x < szi && 0 <= y < szi && !mat.claimed(x, y) implies !(#[trigger] mat.val(
                x,
                y,
            )) by {
                assert(!v1.claimed(x, y));
                assert(!h4.claimed(x, y));
            }
            assert(vals_false(mat, szi));
        }
    }

    let ghost snap = mat;
    let functions = mat.done.duplicate();
    proof {
        assert(finders_placed(snap, szi));
        assert(timing_ok(snap, szi));
        assert(dark_ok(snap, szi));
        assert(reserved_claimed(snap, szi));
        assert(version.0 >= 6 ==> version_area_claimed(snap, szi));
        assert(alignments_done(snap, locs@, szi, locs@.len() as int, 0));
        assert(overlay_bounded(snap, locs@, szi, wv));
        assert(vals_false(snap, szi));
        assert forall|x: int, y: int|
            0 <= x < szi && 0 <= y < szi && spec_function_module(locs@, szi, wv, x, y) implies
            #[trigger] snap.claimed(x, y) by {
            if in_finder_area(szi, x, y) {
            } else if y == 6 && 8 <= x < szi - 8 {
                assert(snap.claimed(x, 6));
            } else if x == 6 && 8 <= y < szi - 8 {
                assert(snap.claimed(6, y));
            } else if in_processed_ring(locs@, szi, locs@.len() as int, 0, x, y) {
                let (i, j) = choose|i: int, j: int|
                    0 <= i < locs@.len() && 0 <= j < locs@.len() && (i < locs@.len() || (i
                        == locs@.len() && j < 0)) && !in_finder_area(
                        szi,
                        locs@[j] as int,
                        locs@[i] as int,
                    ) && #[trigger] ring_dist(locs@[j] as int, locs@[i] as int, x, y) <= 2;
                assert(alignment_placed(snap, locs@[j] as int, locs@[i] as int));
            }
        }
    }

    let mut cursor: (usize, usize, bool, bool) = (size - 1, size - 1, true, true);
    let ghost allbits = crate::bits::bytes_bits(data@);
    proof {
        assert(allbits.take(0) =~= Seq::<bool>::empty());
        assert forall|x: int, y: int|
            0 <= x < szi && 0 <= y < szi implies #[trigger] mat.claimed(x, y) == data_state(
            locs@,
            szi,
            wv,
            allbits.take(0),
        ).0(x, y) by {
            assert(snap.claimed(x, y) ==> spec_function_module(locs@, szi, wv, x, y));
        }
        assert forall|x: int, y: int|
            0 <= x < szi && 0 <= y < szi && !spec_function_module(locs@, szi, wv, x, y) implies
            #[trigger] mat.val(x, y) == data_state(locs@, szi, wv, allbits.take(0)).1(x, y) by {
            assert(!snap.claimed(x, y));
        }
        assert(cursor_view(cursor) == data_state(locs@, szi, wv, allbits.take(0)).2);
    }
    let mut d: usize = 0;
    while d < data.len()
        invariant
            mat.wf(),
            mat.spec_size() == size,
            cursor.0 < size,
            cursor.1 < size,
            d <= data@.len(),
            finders_placed(mat, szi),
            timing_ok(mat, szi),
            dark_ok(mat, szi),
            alignments_done(mat, locs@, szi, locs@.len() as int, 0),
            forall|x: int, y: int|
                0 <= x < szi && 0 <= y < szi ==> #[trigger] mat.claimed(x, y) == data_state(
                    locs@,
                    szi,
                    wv,
                    allbits.take(8 * (d as int)),
                ).0(x, y),
            forall|x: int, y: int|
                0 <= x < szi && 0 <= y < szi && !spec_function_module(locs@, szi, wv, x, y)
                    ==> #[trigger] mat.val(x, y) == data_state(
                    locs@,
                    szi,
                    wv,
                    allbits.take(8 * (d as int)),
                ).1(x, y),
            cursor_view(cursor) == data_state(locs@, szi, wv, allbits.take(8 * (d as int))).2,
        decreases data@.len() - d,
    {
        let mut b = data[d];
        let ghost byv = data@[d as int];
        proof {
            lemma_shifted_top_bit(byv, 0);
        }
        let mut t: usize = 0;
        while t < 8
            invariant
                mat.wf(),
                mat.spec_size() == size,
                cursor.0 < size,
                cursor.1 < size,
                d < data@.len(),
                t <= 8,
                byv == data@[d as int],
                t < 8 ==> b == byv << (t as u8),
                finders_placed(mat, szi),
                timing_ok(mat, szi),
                dark_ok(mat, szi),
                alignments_done(mat, locs@, szi, locs@.len() as int, 0),
                forall|x: int, y: int|
                    0 <= x < szi && 0 <= y < szi ==> #[trigger] mat.claimed(x, y) == data_state(
                        locs@,
                        szi,
                        wv,
                        allbits.take(8 * (d as int) + (t as int)),
                    ).0(x, y),
                forall|x: int, y: int|
                    0 <= x < szi && 0 <= y < szi && !spec_function_module(locs@, szi, wv, x, y)
                        ==> #[trigger] mat.val(x, y) == data_state(
                        locs@,
                        szi,
                        wv,
                        allbits.take(8 * (d as int) + (t as int)),
                    ).1(x, y),
                cursor_view(cursor) == data_state(
                    locs@,
                    szi,
                    wv,
                    allbits.take(8 * (d as int) + (t as int)),
                ).2,
            decreases 8 - t,
        {
            let ghost n = 8 * (d as int) + (t as int);
            let ghost pb = data_state(locs@, szi, wv, allbits.take(n));
            let ghost bitv = allbits[n];
            let ghost prec = cursor_view(cursor);
            proof {
                lemma_shifted_top_bit(byv, t as u8);
                assert(n / 8 == d as int && n % 8 == t as int);
                assert(((b & 0x80) != 0) == bitv);
            }
            let ghost pre = mat;
            place_data(&mut mat, &mut cursor, b & 0x80 != 0);
            proof {
                lemma_preserve_patterns(pre, mat, szi);
                lemma_preserve_alignments(pre, mat, locs@, szi);
                assert(allbits.take(n + 1) =~= allbits.take(n).push(bitv));
                lemma_place_bits_snoc(
                    base_claimed(locs@, szi, wv),
                    base_vals(),
                    (szi - 1, szi - 1, true, true),
                    szi,
                    allbits.take(n),
                    bitv,
                );
                let s2 = spec_place_one(pb.0, pb.1, pb.2, szi, bitv);
                assert(data_state(locs@, szi, wv, allbits.take(n + 1)) == s2);
                assert forall|x: int, y: int|
                    0 <= x < szi && 0 <= y < szi implies #[trigger] mat.claimed(x, y) == s2.0(
                    x,
                    y,
                ) by {
                    assert(pre.claimed(x, y) == pb.0(x, y));
                }
                assert forall|x: int, y: int|
                    0 <= x < szi && 0 <= y < szi && !spec_function_module(locs@, szi, wv, x, y)
                    implies #[trigger] mat.val(x, y) == s2.1(x, y) by {
                    if x == prec.0 && y == prec.1 {
                        assert(pre.claimed(x, y) == pb.0(x, y));
                        assert(pre.val(x, y) == pb.1(x, y));
                    } else {
                        assert(pre.val(x, y) == pb.1(x, y));
                    }
                }
                assert(0 <= prec.0 < szi && 0 <= prec.1 < szi);
                lemma_walk_congruent(mat, s2.0, prec, szi, spec_walk_fuel(szi));
                assert(cursor_view(cursor) == s2.2);
            }
            b = b << 1;
            t += 1;
        }
        d += 1;
    }

    proof {
        assert(allbits.take(8 * (data@.len() as int)) =~= allbits);
        assert forall|x: int, y: int|
            0 <= x < szi && 0 <= y < szi && !spec_function_module(locs@, szi, wv, x, y) implies
            #[trigger] mat.matrix.spec_get(x, y) == data_state(locs@, szi, wv, allbits).1(
            x,
            y,
        ) by {
            assert(mat.val(x, y) == data_state(
                locs@,
                szi,
                wv,
                allbits.take(8 * (data@.len() as int)),
            ).1(x, y));
        }
    }

    proof {
        assert forall|x: int, y: int|
            0 <= x < szi && 0 <= y < szi && in_finder_area(szi, x, y) implies mat.matrix.spec_get(
            x,
            y,
        ) == finder_pattern_value(szi, x, y) && functions.spec_get(x, y) by {
            assert(snap.claimed(x, y));
        }
        assert forall|t: int|
            8 <= t < szi - 8 implies #[trigger] mat.matrix.spec_get(t, 6) == (t % 2 == 0) by {
            assert(mat.claimed(t, 6));
        }
        assert forall|t: int|
            8 <= t < szi - 8 implies #[trigger] mat.matrix.spec_get(6, t) == (t % 2 == 0) by {
            assert(mat.claimed(t, 6));
            assert(mat.claimed(6, t));
            assert(mat.val(6, t) == (t % 2 == 0));
        }
        assert forall|t: int| 8 <= t < szi - 8 implies #[trigger] functions.spec_get(t, 6) by {
            assert(snap.claimed(t, 6));
        }
        assert forall|t: int| 8 <= t < szi - 8 implies #[trigger] functions.spec_get(6, t) by {
            assert(snap.claimed(t, 6));
            assert(snap.claimed(6, t));
        }
        assert(snap.claimed(8, szi - 8));
        assert(mat.matrix.spec_get(8, szi - 8) && functions.spec_get(8, szi - 8));
        assert forall|x: int, y: int|
            0 <= x < szi && 0 <= y < szi && ((y == 8 && (x <= 8 || x >= szi - 8)) || (x == 8 && (
            y <= 8 || y >= szi - 8))) implies #[trigger] functions.spec_get(x, y) by {
            assert(snap.claimed(x, y));
        }
        if version.0 >= 6 {
            assert forall|x: int, y: int|
                ((szi - 11 <= x < szi - 8 && 0 <= y < 6) || (szi - 11 <= y < szi - 8 && 0 <= x
                    < 6)) implies #[trigger] functions.spec_get(x, y) by {
                assert(snap.claimed(x, y));
            }
        }
        assert forall|x: int, y: int|
            0 <= x < szi && 0 <= y < szi implies #[trigger] functions.spec_get(x, y)
                == spec_function_module(locs@, szi, wv, x, y) by {
            assert(functions.spec_get(x, y) == snap.claimed(x, y));
        }
        assert forall|i: int, j: int|
            0 <= i < locs@.len() && 0 <= j < locs@.len() && !in_finder_area(
                szi,
                locs@[j] as int,
                locs@[i] as int,
            ) implies #[trigger] alignment_modules_ok(
            mat.matrix,
            functions,
            locs@[j] as int,
            locs@[i] as int,
        ) by {
            assert(alignment_placed(mat, locs@[j] as int, locs@[i] as int));
            assert(alignment_placed(snap, locs@[j] as int, locs@[i] as int));
            assert forall|x: int, y: int|
                #[trigger] ring_dist(locs@[j] as int, locs@[i] as int, x, y) <= 2 implies
                mat.matrix.spec_get(x, y) == (ring_dist(locs@[j] as int, locs@[i] as int, x, y)
                != 1) && functions.spec_get(x, y) by {
                assert(mat.claimed(x, y));
                assert(snap.claimed(x, y));
                assert(0 <= x < szi && 0 <= y < szi);
            }
        }
    }

    (mat.matrix, functions)
}

/// The mask predicate of a mask id: the module at (x, y) is flipped when the
/// predicate is 0.
pub open spec fn mask_pred(mask: int, x: int, y: int) -> int {
    if mask == 0 {
        (x + y) % 2
    } else if mask == 1 {
        y % 2
    } else if mask == 2 {
        x % 3
    } else if mask == 3 {
        (x + y) % 3
    } else if mask == 4 {
        (y / 2 + x / 3) % 2
    } else if mask == 5 {
        (x * y) % 2 + (x * y) % 3
    } else if mask == 6 {
        ((x * y) % 2 + (x * y) % 3) % 2
    } else {
        ((x + y) % 2 + (x * y) % 3) % 2
    }
}

/// One module after masking: flipped exactly when it is not a function
/// module and the mask predicate is 0 at its coordinates.
pub open spec fn spec_masked_cell(v: bool, f: bool, mask: int, x: int, y: int) -> bool {
    if !f && mask_pred(mask, x, y) == 0 {
        !v
    } else {
        v
    }
}

/// Applying the same mask twice gives every module back: each cell is either
/// left alone or flipped, and a flip undoes a flip.
pub proof fn lemma_masked_cell_involution(v: bool, f: bool, mask: int, x: int, y: int)
    ensures
        spec_masked_cell(spec_masked_cell(v, f, mask, x, y), f, mask, x, y) == v,
{
}

/// Applying one mask to a matrix twice restores the matrix: masking is an
/// involution on the module grid.
pub proof fn lemma_apply_mask_involution(
    m0: QrMatrix,
    m1: QrMatrix,
    m2: QrMatrix,
    functions: QrMatrix,
    mask: int,
)
    requires
        m0.spec_size() == m1.spec_size(),
        m1.spec_size() == m2.spec_size(),
        forall|x: int, y: int|
            0 <= x < m0.spec_size() && 0 <= y < m0.spec_size() ==> m1.spec_get(x, y)
                == spec_masked_cell(m0.spec_get(x, y), functions.spec_get(x, y), mask, x, y),
        forall|x: int, y: int|
            0 <= x < m0.spec_size() && 0 <= y < m0.spec_size() ==> m2.spec_get(x, y)
                == spec_masked_cell(m1.spec_get(x, y), functions.spec_get(x, y), mask, x, y),
    ensures
        forall|x: int, y: int|
            0 <= x < m0.spec_size() && 0 <= y < m0.spec_size() ==> m2.spec_get(x, y)
                == m0.spec_get(x, y),
{
}

/// Flips every non-function module whose mask predicate is 0.
#[verifier::loop_isolation(false)]
pub fn apply_mask(mat: &mut QrMatrix, functions: &QrMatrix, mask: usize)
    requires
        old(mat).wf(),
        functions.wf(),
        functions.spec_size() == old(mat).spec_size(),
        mask < 8,
    ensures
        final(mat).wf(),
        final(mat).spec_size() == old(mat).spec_size(),
        forall|x: int, y: int|
            0 <= x < old(mat).spec_size() && 0 <= y < old(mat).spec_size()
                ==> final(mat).spec_get(x, y) == spec_masked_cell(
                old(mat).spec_get(x, y),
                functions.spec_get(x, y),
                mask as int,
                x,
                y,
            ),
{
    let size = mat.size();
    proof {
        lemma_size_bound(mat);
    }
    let mut y: usize = 0;
    while y < size
        invariant
            y <= size,
            mat.wf(),
            mat.spec_size() == size,
            forall|xx: int, yy: int|
                0 <= xx < size && 0 <= yy < y ==> mat.spec_get(xx, yy) == spec_masked_cell(
                    old(mat).spec_get(xx, yy),
                    functions.spec_get(xx, yy),
                    mask as int,
                    xx,
                    yy,
                ),
            forall|xx: int, yy: int|
                0 <= xx < size && y <= yy < size ==> mat.spec_get(xx, yy) == old(mat).spec_get(
                    xx,
                    yy,
                ),
        decreases size - y,
    {
        let mut x: usize = 0;
        while x < size
            invariant
                x <= size,
                y < size,
                mat.wf(),
                mat.spec_size() == size,
                forall|xx: int, yy: int|
                    0 <= xx < size && 0 <= yy < y ==> mat.spec_get(xx, yy) == spec_masked_cell(
                        old(mat).spec_get(xx, yy),
                        functions.spec_get(xx, yy),
                        mask as int,
                        xx,
                        yy,
                    ),
                forall|xx: int|
                    0 <= xx < x ==> mat.spec_get(xx, y as int) == spec_masked_cell(
                        old(mat).spec_get(xx, y as int),
                        functions.spec_get(xx, y as int),
                        mask as int,
                        xx,
                        y as int,
                    ),
                forall|xx: int|
                    x <= xx < size ==> mat.spec_get(xx, y as int) == old(mat).spec_get(
                        xx,
                        y as int,
                    ),
                forall|xx: int, yy: int|
                    0 <= xx < size && y < yy < size ==> mat.spec_get(xx, yy) == old(
                        mat,
                    ).spec_get(xx, yy),
            decreases size - x,
        {
            proof {
                assert(x * y <= 30976) by (nonlinear_arith)
                    requires
                        x <= 176,
                        y <= 176,
                ;
            }
            let p: usize = if mask == 0 {
                (x + y) % 2
            } else if mask == 1 {
                y % 2
            } else if mask == 2 {
                x % 3
            } else if mask == 3 {
                (x + y) % 3
            } else if mask == 4 {
                (y / 2 + x / 3) % 2
            } else if mask == 5 {
                (x * y) % 2 + (x * y) % 3
            } else if mask == 6 {
                ((x * y) % 2 + (x * y) % 3) % 2
            } else {
                ((x + y) % 2 + (x * y) % 3) % 2
            };
            proof {
                assert(p == mask_pred(mask as int, x as int, y as int));
            }
            if !functions.get(x, y) && p == 0 {
                let cur = mat.get(x, y);
                mat.set(x, y, !cur);
            }
            x += 1;
        }
        y += 1;
    }
}

/// Tries all 8 masks on a disposable copy, scores each with the penalty
/// rules, and applies the lowest-penalty mask (lowest id on ties) to the
/// matrix for good. Returns the chosen mask id.
#[verifier::loop_isolation(false)]
pub fn apply_best_mask(mat: &mut QrMatrix, functions: &QrMatrix) -> (r: usize)
    requires
        old(mat).wf(),
        functions.wf(),
        functions.spec_size() == old(mat).spec_size(),
    ensures
        r < 8,
        final(mat).wf(),
        final(mat).spec_size() == old(mat).spec_size(),
        forall|x: int, y: int|
            0 <= x < old(mat).spec_size() && 0 <= y < old(mat).spec_size()
                ==> final(mat).spec_get(x, y) == spec_masked_cell(
                old(mat).spec_get(x, y),
                functions.spec_get(x, y),
                r as int,
                x,
                y,
            ),
        forall|m: int|
            0 <= m < 8 ==> crate::penalty::masked_penalty(*old(mat), *functions, m)
                >= crate::penalty::masked_penalty(*old(mat), *functions, r as int),
        forall|m: int|
            0 <= m < r ==> crate::penalty::masked_penalty(*old(mat), *functions, m)
                > crate::penalty::masked_penalty(*old(mat), *functions, r as int),
{
    let size = mat.size();
    let mut best_mask: usize = 0;
    let mut best_penalty: usize = usize::MAX;
    let mut m: usize = 0;
    while m < 8
        invariant
            m <= 8,
            m == 0 ==> best_penalty == usize::MAX && best_mask == 0,
            m >= 1 ==> best_mask < m,
            m >= 1 ==> best_penalty == crate::penalty::masked_penalty(
                *mat,
                *functions,
                best_mask as int,
            ),
            m >= 1 ==> best_penalty <= 40000000,
            forall|mm: int|
                0 <= mm < m ==> crate::penalty::masked_penalty(*mat, *functions, mm)
                    >= best_penalty,
            forall|mm: int|
                0 <= mm < best_mask ==> crate::penalty::masked_penalty(*mat, *functions, mm)
                    > best_penalty,
        decreases 8 - m,
    {
        let mut try_mat = mat.duplicate();
        apply_mask(&mut try_mat, functions, m);
        proof {
            assert forall|x: int, y: int|
                0 <= x < size && 0 <= y < size implies #[trigger] crate::penalty::grid_of(
                try_mat,
            )(x, y) == crate::penalty::masked_grid(*mat, *functions, m as int)(x, y) by {
            }
            crate::penalty::lemma_penalty_congruence(
                crate::penalty::grid_of(try_mat),
                crate::penalty::masked_grid(*mat, *functions, m as int),
                size as int,
            );
        }
        let p = crate::penalty::calculate_penalty(&try_mat);
        if best_penalty > p {
            best_mask = m;
            best_penalty = p;
        }
        m += 1;
    }
    apply_mask(mat, functions, best_mask);
    best_mask
}

/// The modules that carry format or version information: the two strips
/// flanking the finder patterns in row 8 and column 8, and — only for
/// versions 7 and up, where `with_version` is set — the two 3-by-6 blocks by
/// the top-right and bottom-left corners.
pub open spec fn format_region(size: int, with_version: bool, x: int, y: int) -> bool {
    ||| (y == 8 && (x <= 5 || x == 7 || x == 8 || x >= size - 8))
    ||| (x == 8 && (y <= 5 || y == 7 || y == 8 || y >= size - 7))
    ||| (with_version && size - 11 <= x < size - 8 && 0 <= y < 6)
    ||| (with_version && size - 11 <= y < size - 8 && 0 <= x < 6)
}

/// Bit k of a 15-bit format word, most significant first.
pub open spec fn format_bit(f: u16, k: int) -> bool {
    (f >> ((14 - k) as u16)) & 1 == 1
}

/// Bit k of an 18-bit version word, least significant first.
pub open spec fn version_bit(vi: u32, k: int) -> bool {
    (vi >> (k as u32)) & 1 == 1
}

/// Where bit k of the format word stands in the strip flanking the top-left
/// finder: along row 8 left to right, then up column 8, skipping the timing
/// row and column.
pub open spec fn format_pos_a(size: int, k: int) -> (int, int) {
    if k <= 5 {
        (k, 8)
    } else if k == 6 {
        (7, 8)
    } else if k <= 8 {
        (8, 15 - k)
    } else {
        (8, 14 - k)
    }
}

/// Where bit k of the format word stands in the mirrored strip: up the
/// bottom end of column 8, then along the right end of row 8.
pub open spec fn format_pos_b(size: int, k: int) -> (int, int) {
    if k <= 5 {
        (8, size - 1 - k)
    } else if k == 6 {
        (8, size - 7)
    } else {
        (size - 15 + k, 8)
    }
}

/// The first n bits of the format word stand at their positions in both
/// strips.
pub open spec fn format_placed(m: QrMatrix, f: u16, size: int, n: int) -> bool {
    forall|k: int|
        0 <= k < n ==> #[trigger] format_bit(f, k) == m.spec_get(
            format_pos_a(size, k).0,
            format_pos_a(size, k).1,
        ) && format_bit(f, k) == m.spec_get(format_pos_b(size, k).0, format_pos_b(size, k).1)
}

/// The first n bits of the version word stand in both 3x6 blocks, bit k in
/// column k%3 of row k/3 of the top-right block and transposed in the
/// bottom-left one.
pub open spec fn version_placed(m: QrMatrix, vi: u32, size: int, n: int) -> bool {
    forall|k: int|
        0 <= k < n ==> #[trigger] version_bit(vi, k) == m.spec_get(size - 11 + k % 3, k / 3)
            && version_bit(vi, k) == m.spec_get(k / 3, size - 11 + k % 3)
}

proof fn lemma_format_bit_shift(f: u16, sh: u16)
    by (bit_vector)
    requires
        sh < 15,
    ensures
        (((f << sh) & 0x4000) != 0) == (((f >> ((14 - sh) as u16)) & 1) == 1),
{
}

proof fn lemma_version_bit_step(o: u32, k: u32)
    by (bit_vector)
    requires
        k < 20,
    ensures
        (o >> k) >> 1u32 == o >> ((k + 1) as u32),
        (((o >> k) & 1) != 0) == (((o >> k) & 1) == 1),
{
}

proof fn lemma_format_extend(pre: QrMatrix, post: QrMatrix, f: u16, size: int, n: int)
    requires
        21 <= size <= 177,
        pre.spec_size() == size,
        post.spec_size() == size,
        format_placed(pre, f, size, n),
        0 <= n < 15,
        format_bit(f, n) == post.spec_get(format_pos_a(size, n).0, format_pos_a(size, n).1),
        format_bit(f, n) == post.spec_get(format_pos_b(size, n).0, format_pos_b(size, n).1),
        forall|x: int, y: int|
            0 <= x < size && 0 <= y < size && !(x == format_pos_a(size, n).0 && y
                == format_pos_a(size, n).1) && !(x == format_pos_b(size, n).0 && y
                == format_pos_b(size, n).1) ==> post.spec_get(x, y) == pre.spec_get(x, y),
    ensures
        format_placed(post, f, size, n + 1),
{
    assert forall|k: int| 0 <= k < n + 1 implies #[trigger] format_bit(f, k) == post.spec_get(
        format_pos_a(size, k).0,
        format_pos_a(size, k).1,
    ) && format_bit(f, k) == post.spec_get(format_pos_b(size, k).0, format_pos_b(size, k).1) by {
        if k < n {
            assert(format_bit(f, k) == pre.spec_get(
                format_pos_a(size, k).0,
                format_pos_a(size, k).1,
            ));
        }
    }
}

proof fn lemma_version_step(pre: QrMatrix, post: QrMatrix, f: u16, vi: u32, size: int, n: int)
    requires
        45 <= size <= 177,
        pre.spec_size() == size,
        post.spec_size() == size,
        format_placed(pre, f, size, 15),
        version_placed(pre, vi, size, n),
        0 <= n < 18,
        version_bit(vi, n) == post.spec_get(size - 11 + n % 3, n / 3),
        version_bit(vi, n) == post.spec_get(n / 3, size - 11 + n % 3),
        forall|x: int, y: int|
            0 <= x < size && 0 <= y < size && !(x == size - 11 + n % 3 && y == n / 3) && !(x == n
                / 3 && y == size - 11 + n % 3) ==> post.spec_get(x, y) == pre.spec_get(x, y),
    ensures
        format_placed(post, f, size, 15),
        version_placed(post, vi, size, n + 1),
{
    assert forall|k: int| 0 <= k < 15 implies #[trigger] format_bit(f, k) == post.spec_get(
        format_pos_a(size, k).0,
        format_pos_a(size, k).1,
    ) && format_bit(f, k) == post.spec_get(format_pos_b(size, k).0, format_pos_b(size, k).1) by {
        assert(format_bit(f, k) == pre.spec_get(format_pos_a(size, k).0, format_pos_a(size, k).1));
    }
    assert forall|k: int| 0 <= k < n + 1 implies #[trigger] version_bit(vi, k) == post.spec_get(
        size - 11 + k % 3,
        k / 3,
    ) && version_bit(vi, k) == post.spec_get(k / 3, size - 11 + k % 3) by {
        if k < n {
            assert(version_bit(vi, k) == pre.spec_get(size - 11 + k % 3, k / 3));
        }
    }
}

/// Writes the 15-bit format word MSB-first into its two mirrored strips, and
/// for versions 7 and up the 18-bit version word LSB-first, in groups of 3,
/// into its two reserved 3x6 blocks; every module outside those areas keeps
/// its value.
#[verifier::loop_isolation(false)]
#[verifier::rlimit(100)]
pub fn place_format_and_version(
    mat: &mut QrMatrix,
    version: Version,
    ec: ErrorCorrectLv,
    mask: usize,
)
    requires
        old(mat).wf(),
        version.wf(),
        mask < 8,
        old(mat).spec_size() == 4 * (version.0 as int) + 21,
    ensures
        final(mat).wf(),
        final(mat).spec_size() == old(mat).spec_size(),
        forall|x: int, y: int|
            0 <= x < old(mat).spec_size() && 0 <= y < old(mat).spec_size() && !format_region(
                old(mat).spec_size() as int,
                version.0 >= 6,
                x,
                y,
            ) ==> final(mat).spec_get(x, y) == old(mat).spec_get(x, y),
        format_placed(
            *final(mat),
            crate::tables::spec_format_info(ec, mask as int),
            old(mat).spec_size(),
            15,
        ),
        version.0 >= 6 ==> version_placed(
            *final(mat),
            version.spec_version_info(),
            old(mat).spec_size(),
            18,
        ),
{
    let size = mat.size();
    let format = crate::tables::format_info(ec, mask);
    let ghost f = crate::tables::spec_format_info(ec, mask as int);
    let ghost sz = size as int;

    let mut i: usize = 0;
    while i <= 5
        invariant
            i <= 6,
            mat.wf(),
            mat.spec_size() == size,
            forall|x: int, y: int|
                0 <= x < size && 0 <= y < size && !format_region(
                    size as int,
                    version.0 >= 6,
                    x,
                    y,
                ) ==> mat.spec_get(x, y) == old(mat).spec_get(x, y),
            format_placed(*mat, f, sz, i as int),
        decreases 6 - i,
    {
        let ghost pre = *mat;
        mat.set(i, 8, (format << i) & 0x4000 != 0);
        mat.set(8, size - i - 1, (format << i) & 0x4000 != 0);
        proof {
            lemma_format_bit_shift(format, i as u16);
            lemma_format_extend(pre, *mat, f, sz, i as int);
        }
        i += 1;
    }
    let ghost pre6 = *mat;
    mat.set(7, 8, (format << 6u16) & 0x4000 != 0);
    mat.set(8, size - 6 - 1, (format << 6u16) & 0x4000 != 0);
    proof {
        lemma_format_bit_shift(format, 6);
        lemma_format_extend(pre6, *mat, f, sz, 6);
    }

    let mut i: usize = 7;
    while i <= 8
        invariant
            7 <= i <= 9,
            mat.wf(),
            mat.spec_size() == size,
            forall|x: int, y: int|
                0 <= x < size && 0 <= y < size && !format_region(
                    size as int,
                    version.0 >= 6,
                    x,
                    y,
                ) ==> mat.spec_get(x, y) == old(mat).spec_get(x, y),
            format_placed(*mat, f, sz, i as int),
        decreases 9 - i,
    {
        let ghost pre = *mat;
        mat.set(8, 15 - i, (format << i) & 0x4000 != 0);
        mat.set(size - 15 + i, 8, (format << i) & 0x4000 != 0);
        proof {
            lemma_format_bit_shift(format, i as u16);
            lemma_format_extend(pre, *mat, f, sz, i as int);
        }
        i += 1;
    }

    let mut i: usize = 9;
    while i <= 14
        invariant
            9 <= i <= 15,
            mat.wf(),
            mat.spec_size() == size,
            forall|x: int, y: int|
                0 <= x < size && 0 <= y < size && !format_region(
                    size as int,
                    version.0 >= 6,
                    x,
                    y,
                ) ==> mat.spec_get(x, y) == old(mat).spec_get(x, y),
            format_placed(*mat, f, sz, i as int),
        decreases 15 - i,
    {
        let ghost pre = *mat;
        mat.set(8, 14 - i, (format << i) & 0x4000 != 0);
        mat.set(size - 15 + i, 8, (format << i) & 0x4000 != 0);
        proof {
            lemma_format_bit_shift(format, i as u16);
            lemma_format_extend(pre, *mat, f, sz, i as int);
        }
        i += 1;
    }

    if version.version() < 7 {
        return ;
    }

    let mut vinfo = version.version_info();
    let ghost vi0 = version.spec_version_info();
    proof {
        assert(vi0 >> 0u32 == vi0) by (bit_vector);
    }
    let mut i: usize = 0;
    while i < 6
        invariant
            i <= 6,
            mat.wf(),
            mat.spec_size() == size,
            size >= 45,
            vinfo == vi0 >> ((3 * i) as u32),
            forall|x: int, y: int|
                0 <= x < size && 0 <= y < size && !format_region(
                    size as int,
                    version.0 >= 6,
                    x,
                    y,
                ) ==> mat.spec_get(x, y) == old(mat).spec_get(x, y),
            format_placed(*mat, f, sz, 15),
            version_placed(*mat, vi0, sz, 3 * i as int),
        decreases 6 - i,
    {
        let mut j: usize = 0;
        while j < 3
            invariant
                j <= 3,
                i < 6,
                mat.wf(),
                mat.spec_size() == size,
                size >= 45,
                vinfo == vi0 >> ((3 * i + j) as u32),
                forall|x: int, y: int|
                    0 <= x < size && 0 <= y < size && !format_region(
                        size as int,
                        version.0 >= 6,
                        x,
                        y,
                    ) ==> mat.spec_get(x, y) == old(mat).spec_get(x, y),
                format_placed(*mat, f, sz, 15),
                version_placed(*mat, vi0, sz, 3 * i + j as int),
            decreases 3 - j,
        {
            let ghost k = 3 * (i as int) + (j as int);
            let v = vinfo & 1 != 0;
            proof {
                lemma_version_bit_step(vi0, (3 * i + j) as u32);
                assert(v == version_bit(vi0, k));
                assert(k % 3 == j && k / 3 == i);
            }
            let ghost pre = *mat;
            mat.set(size + j - 11, i, v);
            mat.set(i, size + j - 11, v);
            proof {
                lemma_version_step(pre, *mat, f, vi0, sz, k);
            }
            vinfo = vinfo >> 1u32;
            j += 1;
        }
        i += 1;
    }
}

/// The finished symbol is coherent for one mask id k: both format strips
/// hold the BCH-protected word for (ec, k), on versions that carry them
/// both version blocks hold the version word, and every data module shows
/// the zig-zag-placed codeword bit flipped by mask k.
pub open spec fn symbol_coherent(
    m: QrMatrix,
    ec: ErrorCorrectLv,
    vi: u32,
    with_version: bool,
    locs: Seq<usize>,
    bits: Seq<bool>,
) -> bool {
    exists|k: int|
        0 <= k < 8 && #[trigger] format_placed(
            m,
            crate::tables::spec_format_info(ec, k),
            m.spec_size(),
            15,
        ) && (with_version ==> version_placed(m, vi, m.spec_size(), 18)) && (forall|x: int, y: int|
            0 <= x < m.spec_size() && 0 <= y < m.spec_size() && !spec_function_module(
                locs,
                m.spec_size(),
                with_version,
                x,
                y,
            ) ==> #[trigger] m.spec_get(x, y) == spec_masked_cell(
                data_state(locs, m.spec_size(), with_version, bits).1(x, y),
                false,
                k,
                x,
                y,
            ))
}

impl QrMatrix {
    /// Generates the finished symbol for the input under the given mode,
    /// version and error-correction level: encoding, block structuring,
    /// matrix construction, masking and format information. None reports the
    /// two input errors synchronously: a byte outside the mode's alphabet,
    /// or an input too long for the version's capacity at the level.
    pub fn generate(string: &[u8], mode: Mode, version: Version, ec: ErrorCorrectLv) -> (r:
        Option<Self>)
        requires
            version.wf(),
        ensures
            r is Some <==> crate::encode::spec_mode_ok(string@, mode)
                && crate::encode::spec_body_len(string@.len() as int, mode, version) <= 8
                * version.spec_max_data_bytes(ec),
            r matches Some(m) ==> m.wf() && m.spec_size() == 4 * (version.0 as int) + 21,
            r matches Some(m) ==> forall|x: int, y: int|
                0 <= x < m.spec_size() && 0 <= y < m.spec_size() && #[trigger] in_finder_area(
                    m.spec_size(),
                    x,
                    y,
                ) ==> m.spec_get(x, y) == finder_pattern_value(m.spec_size(), x, y),
            r matches Some(m) ==> forall|t: int|
                8 <= t < m.spec_size() - 8 ==> #[trigger] m.spec_get(t, 6) == (t % 2 == 0),
            r matches Some(m) ==> forall|t: int|
                8 <= t < m.spec_size() - 8 ==> #[trigger] m.spec_get(6, t) == (t % 2 == 0),
            r matches Some(m) ==> m.spec_get(8, m.spec_size() - 8),
            r matches Some(m) ==> symbol_coherent(
                m,
                ec,
                version.spec_version_info(),
                version.0 >= 6,
                version.spec_align_locations(),
                crate::bits::bytes_bits(
                    crate::structure::spec_structure(
                        crate::encode::spec_codewords(string@, mode, version, ec),
                        version,
                        ec,
                    ),
                ),
            ),
    {
        let encoded = match crate::encode::encode(string, mode, version, ec) {
            Some(e) => e,
            None => {
                return None;
            },
        };
        proof {
            crate::encode::lemma_codewords_of_bits(
                encoded@,
                crate::encode::spec_encoded_stream(string@, mode, version, ec),
            );
            assert(encoded@ =~= crate::encode::spec_codewords(string@, mode, version, ec));
        }
        let structured = crate::structure::structure(encoded.as_slice(), version, ec);
        let ghost dbits = crate::bits::bytes_bits(structured@);
        let (mut mat, functions) = generate_unmasked_matrix(version, structured.as_slice());
        let ghost m0 = mat;
        let mask = apply_best_mask(&mut mat, &functions);
        let ghost m1 = mat;
        place_format_and_version(&mut mat, version, ec, mask);
        proof {
            lemma_patterns_survive(m0, m1, mat, functions, mask as int, version.0 >= 6);
            assert(mask < 8);
            assert(format_placed(
                mat,
                crate::tables::spec_format_info(ec, mask as int),
                mat.spec_size(),
                15,
            ));
            assert(version.0 >= 6 ==> version_placed(
                mat,
                version.spec_version_info(),
                mat.spec_size(),
                18,
            ));
            let ghost locsq = version.spec_align_locations();
            let ghost szq = 4 * (version.0 as int) + 21;
            let ghost wvq = version.0 >= 6;
            assert forall|x: int, y: int|
                0 <= x < szq && 0 <= y < szq && !spec_function_module(locsq, szq, wvq, x, y)
                implies #[trigger] mat.spec_get(x, y) == spec_masked_cell(
                data_state(locsq, szq, wvq, dbits).1(x, y),
                false,
                mask as int,
                x,
                y,
            ) by {
                assert(!format_region(szq, wvq, x, y));
                assert(functions.spec_get(x, y) == spec_function_module(locsq, szq, wvq, x, y));
                assert(m1.spec_get(x, y) == spec_masked_cell(
                    m0.spec_get(x, y),
                    functions.spec_get(x, y),
                    mask as int,
                    x,
                    y,
                ));
                assert(m0.spec_get(x, y) == data_state(locsq, szq, wvq, dbits).1(x, y));
            }
            assert(symbol_coherent(
                mat,
                ec,
                version.spec_version_info(),
                wvq,
                locsq,
                dbits,
            ));
            assert(dbits == crate::bits::bytes_bits(
                crate::structure::spec_structure(
                    crate::encode::spec_codewords(string@, mode, version, ec),
                    version,
                    ec,
                ),
            ));
        }
        Some(mat)
    }
}

/// The finder areas of the finished symbol keep their pattern values: they
/// are function modules, so masking leaves them alone, and the format and
/// version areas do not touch them.
proof fn lemma_patterns_survive(
    m0: QrMatrix,
    m1: QrMatrix,
    m2: QrMatrix,
    functions: QrMatrix,
    mask: int,
    with_version: bool,
)
    requires
        21 <= m0.spec_size() <= 177,
        m1.spec_size() == m0.spec_size(),
        m2.spec_size() == m0.spec_size(),
        forall|x: int, y: int|
            0 <= x < m0.spec_size() && 0 <= y < m0.spec_size() && #[trigger] in_finder_area(
                m0.spec_size(),
                x,
                y,
            ) ==> m0.spec_get(x, y) == finder_pattern_value(m0.spec_size(), x, y)
                && functions.spec_get(x, y),
        forall|x: int, y: int|
            0 <= x < m0.spec_size() && 0 <= y < m0.spec_size() ==> m1.spec_get(x, y)
                == spec_masked_cell(m0.spec_get(x, y), functions.spec_get(x, y), mask, x, y),
        forall|x: int, y: int|
            0 <= x < m0.spec_size() && 0 <= y < m0.spec_size() && !format_region(
                m0.spec_size() as int,
                with_version,
                x,
                y,
            ) ==> m2.spec_get(x, y) == m1.spec_get(x, y),
        forall|t: int|
            8 <= t < m0.spec_size() - 8 ==> #[trigger] m0.spec_get(t, 6) == (t % 2 == 0),
        forall|t: int|
            8 <= t < m0.spec_size() - 8 ==> #[trigger] m0.spec_get(6, t) == (t % 2 == 0),
        forall|t: int| 8 <= t < m0.spec_size() - 8 ==> #[trigger] functions.spec_get(t, 6),
        forall|t: int| 8 <= t < m0.spec_size() - 8 ==> #[trigger] functions.spec_get(6, t),
        m0.spec_get(8, m0.spec_size() - 8),
        functions.spec_get(8, m0.spec_size() - 8),
    ensures
        forall|x: int, y: int|
            0 <= x < m0.spec_size() && 0 <= y < m0.spec_size() && #[trigger] in_finder_area(
                m0.spec_size(),
                x,
                y,
            ) ==> m2.spec_get(x, y) == finder_pattern_value(m0.spec_size(), x, y),
        forall|t: int|
            8 <= t < m0.spec_size() - 8 ==> #[trigger] m2.spec_get(t, 6) == (t % 2 == 0),
        forall|t: int|
            8 <= t < m0.spec_size() - 8 ==> #[trigger] m2.spec_get(6, t) == (t % 2 == 0),
        m2.spec_get(8, m0.spec_size() - 8),
{
    let sz = m0.spec_size();
    assert forall|x: int, y: int|
        0 <= x < sz && 0 <= y < sz && #[trigger] in_finder_area(sz, x, y) implies m2.spec_get(
        x,
        y,
    ) == finder_pattern_value(sz, x, y) by {
        assert(!format_region(sz, with_version, x, y)) by {
            if finder_region(0, 0, x, y) {
                assert(x <= 7 && y <= 7);
            } else if finder_region(sz - 7, 0, x, y) {
                assert(x >= sz - 8 && y <= 7);
            } else {
                assert(y >= sz - 8 && x <= 7);
            }
        }
        assert(functions.spec_get(x, y));
        assert(m1.spec_get(x, y) == m0.spec_get(x, y));
    }
    assert forall|t: int| 8 <= t < sz - 8 implies #[trigger] m2.spec_get(t, 6) == (t % 2 == 0) by {
        assert(!format_region(sz, with_version, t, 6));
        assert(functions.spec_get(t, 6));
        assert(m1.spec_get(t, 6) == m0.spec_get(t, 6));
        assert(m0.spec_get(t, 6) == (t % 2 == 0));
    }
    assert forall|t: int| 8 <= t < sz - 8 implies #[trigger] m2.spec_get(6, t) == (t % 2 == 0) by {
        assert(!format_region(sz, with_version, 6, t));
        assert(functions.spec_get(6, t));
        assert(m1.spec_get(6, t) == m0.spec_get(6, t));
        assert(m0.spec_get(6, t) == (t % 2 == 0));
    }
    assert(!format_region(sz, with_version, 8, sz - 8));
    assert(m1.spec_get(8, sz - 8) == m0.spec_get(8, sz - 8));
    assert(m2.spec_get(8, sz - 8));
}

} // verus!
