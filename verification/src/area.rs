//! Area enumeration: all coordinates within a given distance, with a
//! closed-form cardinality.

use vstd::prelude::*;
use crate::hex::{Hex, abs_int};
use crate::metric::hex_add;

verus! {

/// The number of coordinates within distance `radius` of a center:
/// `3 * radius * (radius + 1) + 1`.
pub open spec fn range_count_int(radius: int) -> int {
    3 * radius * (radius + 1) + 1
}

/// The number of cells of a radius-`r` hexagon in the column `dx`
/// (offsets whose first axial component is exactly `dx`).
pub open spec fn row_count(r: int, dx: int) -> int {
    2 * r + 1 - abs_int(dx)
}

/// The number of cells of a radius-`r` hexagon in all columns below `hi`.
pub open spec fn rows_total(r: int, hi: int) -> int
    decreases hi + r,
{
    if hi <= -r {
        0
    } else {
        rows_total(r, hi - 1) + row_count(r, hi - 1)
    }
}

/// The column sums of a radius-`r` hexagon, in closed form.
pub proof fn lemma_rows_total_closed(r: int, hi: int)
    requires
        r >= 0,
        -r <= hi <= r + 1,
    ensures
        2 * rows_total(r, hi) == if hi <= 0 {
            (hi + r) * (3 * r + hi + 1)
        } else {
            r * (3 * r + 1) + hi * (4 * r + 3 - hi)
        },
    decreases hi + r,
{
    if hi <= -r {
        assert((hi + r) * (3 * r + hi + 1) == 0) by (nonlinear_arith)
            requires hi + r == 0;
    } else {
        lemma_rows_total_closed(r, hi - 1);
        let prev = rows_total(r, hi - 1);
        if hi <= 0 {
            assert((hi + r) * (3 * r + hi + 1) == (hi - 1 + r) * (3 * r + hi) + 2 * (2 * r + 1
                - (1 - hi))) by (nonlinear_arith);
        } else if hi == 1 {
            assert(r * (3 * r + 1) + 1 * (4 * r + 3 - 1) == (0 + r) * (3 * r + 0 + 1) + 2 * (2 * r
                + 1 - 0)) by (nonlinear_arith);
        } else {
            assert(r * (3 * r + 1) + hi * (4 * r + 3 - hi) == r * (3 * r + 1) + (hi - 1) * (4 * r
                + 3 - (hi - 1)) + 2 * (2 * r + 1 - (hi - 1))) by (nonlinear_arith);
        }
    }
}

/// The column sums over a whole radius-`r` hexagon equal the closed-form
/// count `3 * r * (r + 1) + 1`.
pub proof fn lemma_rows_total_full(r: int)
    requires
        r >= 0,
    ensures
        rows_total(r, r + 1) == range_count_int(r),
{
    lemma_rows_total_closed(r, r + 1);
    assert(r * (3 * r + 1) + (r + 1) * (4 * r + 3 - (r + 1)) == 2 * (3 * r * (r + 1) + 1))
        by (nonlinear_arith);
}

/// The deterministic enumeration order of [`Hex::range`]: the first
/// axial coordinate ascending, then the second ascending.
pub open spec fn range_before(a: Hex, b: Hex) -> bool {
    a.x < b.x || (a.x == b.x && a.y < b.y)
}

impl Hex {
    /// Counts how many coordinates there are in the given `range`.
    pub fn range_count(range: u32) -> (r: usize)
        requires
            range_count_int(range as int) <= u32::MAX,
        ensures
            r == range_count_int(range as int),
    {
        proof {
            assert(3 * range * (range + 1) >= 3 * range) by (nonlinear_arith)
                requires range >= 0;
        }
        (3 * range * (range + 1) + 1) as usize
    }

    /// Retrieves all coordinates around `self` within the given `radius`,
    /// column by column, each column in ascending order.
    ///
    /// The result holds exactly the coordinates at distance at most
    /// `radius` from `self`, and there are `3 * radius * (radius + 1) + 1`
    /// of them.
    pub fn range(self, radius: u32) -> (out: Vec<Hex>)
        requires
            i32::MIN <= self.x - radius,
            self.x + radius <= i32::MAX,
            i32::MIN <= self.y - radius,
            self.y + radius <= i32::MAX,
            range_count_int(radius as int) <= usize::MAX,
        ensures
            out@.len() == range_count_int(radius as int),
            forall|i: int| 0 <= i < out@.len() ==> self.dist_int(#[trigger] out@[i]) <= radius,
            forall|p: Hex| self.dist_int(p) <= radius ==> out@.contains(p),
            forall|i: int, j: int|
                0 <= i < j < out@.len() ==> range_before(out@[i], out@[j]),
    {
        let r = radius as i64;
        let mut out: Vec<Hex> = Vec::new();
        let mut dx: i64 = -r;
        while dx <= r
            invariant
                -r <= dx <= r + 1,
                r == radius,
                i32::MIN <= self.x - radius,
                self.x + radius <= i32::MAX,
                i32::MIN <= self.y - radius,
                self.y + radius <= i32::MAX,
                range_count_int(radius as int) <= usize::MAX,
                out@.len() == rows_total(r as int, dx as int),
                forall|i: int| 0 <= i < out@.len() ==> self.dist_int(#[trigger] out@[i]) <= radius,
                forall|p: Hex|
                    self.dist_int(p) <= radius && p.x - self.x < dx ==> out@.contains(p),
                forall|i: int, j: int|
                    0 <= i < j < out@.len() ==> range_before(out@[i], out@[j]),
                forall|i: int| 0 <= i < out@.len() ==> (#[trigger] out@[i]).x < self.x + dx,
            decreases r + 1 - dx,
        {
            let lo: i64 = if dx >= 0 {
                -r
            } else {
                -dx - r
            };
            let hi: i64 = if dx <= 0 {
                r
            } else {
                r - dx
            };
            let mut dy: i64 = lo;
            proof {
                assert(rows_total(r as int, dx as int + 1) == rows_total(r as int, dx as int)
                    + row_count(r as int, dx as int));
            }
            while dy <= hi
                invariant
                    -r <= dx <= r,
                    lo == if dx >= 0 { -r } else { -dx - r as int },
                    hi == if dx <= 0 { r as int } else { r - dx },
                    lo <= dy <= hi + 1,
                    r == radius,
                    i32::MIN <= self.x - radius,
                    self.x + radius <= i32::MAX,
                    i32::MIN <= self.y - radius,
                    self.y + radius <= i32::MAX,
                    range_count_int(radius as int) <= usize::MAX,
                    out@.len() == rows_total(r as int, dx as int) + (dy - lo),
                    forall|i: int|
                        0 <= i < out@.len() ==> self.dist_int(#[trigger] out@[i]) <= radius,
                    forall|p: Hex|
                        self.dist_int(p) <= radius && (p.x - self.x < dx || (p.x - self.x == dx
                            && p.y - self.y < dy)) ==> out@.contains(p),
                    forall|i: int, j: int|
                        0 <= i < j < out@.len() ==> range_before(out@[i], out@[j]),
                    forall|i: int|
                        0 <= i < out@.len() ==> (#[trigger] out@[i]).x < self.x + dx || (
                        out@[i].x == self.x + dx && out@[i].y < self.y + dy),
                decreases hi + 1 - dy,
            {
                let ghost prev = out@;
                let cell = self.const_add(Hex::new(dx as i32, dy as i32));
                out.push(cell);
                proof {
                    assert(out@ == prev.push(cell));
                    assert(out@[prev.len() as int] == cell);
                    assert forall|p: Hex|
                        self.dist_int(p) <= radius && (p.x - self.x < dx || (p.x - self.x == dx
                            && p.y - self.y < dy + 1)) implies out@.contains(p) by {
                        if p.x - self.x < dx || (p.x - self.x == dx && p.y - self.y < dy) {
                            assert(prev.contains(p));
                            let i = choose|i: int| 0 <= i < prev.len() && prev[i] == p;
                            assert(out@[i] == p);
                        } else {
                            assert(p.x == cell.x && p.y == cell.y);
                            assert(out@[prev.len() as int] == p);
                        }
                    }
                    assert forall|i: int, j: int| 0 <= i < j < out@.len() implies range_before(
                        out@[i],
                        out@[j],
                    ) by {
                        if j < prev.len() {
                            assert(range_before(prev[i], prev[j]));
                        } else {
                            assert(out@[j] == cell);
                            assert(prev[i].x < self.x + dx || (prev[i].x == self.x + dx
                                && prev[i].y < self.y + dy));
                        }
                    }
                }
                dy = dy + 1;
            }
            proof {
                assert(row_count(r as int, dx as int) == hi + 1 - lo);
            }
            dx = dx + 1;
        }
        proof {
            lemma_rows_total_full(r as int);
            assert(forall|p: Hex| self.dist_int(p) <= radius ==> p.x - self.x < dx);
        }
        out
    }
}

} // verus!
