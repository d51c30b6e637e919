//! Toroidal wraparound: folding a coordinate back into a bounded hexagon
//! by repeatedly subtracting the nearest of six mirror centers.

use vstd::prelude::*;
use crate::hex::{Hex, abs_int, max3};

verus! {

/// Hex length of the coordinate `(x, y)`, over mathematical integers.
pub open spec fn hlen(x: int, y: int) -> int {
    max3(abs_int(x), abs_int(y), abs_int(x + y))
}

/// `x` coordinate of the mirror center of ordinal `i` for radius `r`.
///
/// The six mirrors are the rotations of the base mirror `(2r + 1, -r)`:
/// its left rotation, itself, its right rotation, and their negations.
pub open spec fn mirror_x(r: int, i: int) -> int {
    if i == 0 {
        r + 1
    } else if i == 1 {
        2 * r + 1
    } else if i == 2 {
        r
    } else if i == 3 {
        -r - 1
    } else if i == 4 {
        -2 * r - 1
    } else {
        -r
    }
}

/// `y` coordinate of the mirror center of ordinal `i` for radius `r`.
pub open spec fn mirror_y(r: int, i: int) -> int {
    if i == 0 {
        -2 * r - 1
    } else if i == 1 {
        -r
    } else if i == 2 {
        r + 1
    } else if i == 3 {
        2 * r + 1
    } else if i == 4 {
        r
    } else {
        -r - 1
    }
}

/// Subtracting mirror `i` strictly reduces the hex length of `(x, y)`.
pub open spec fn step_reduces(x: int, y: int, r: int, i: int) -> bool {
    hlen(x - mirror_x(r, i), y - mirror_y(r, i)) < hlen(x, y)
}

/// `res` differs from `orig` by the lattice combination `a` times the
/// base mirror plus `b` times its left rotation, for radius `r`.
pub open spec fn lattice_shift(orig: Hex, res: Hex, r: int, a: int, b: int) -> bool {
    &&& res.x == orig.x - a * (2 * r + 1) - b * (r + 1)
    &&& res.y == orig.y + a * r + b * (2 * r + 1)
}

/// Outside the radius there is always a mirror whose subtraction strictly
/// reduces the hex length, so nearest-mirror folding terminates.
pub proof fn lemma_wrap_progress(x: int, y: int, r: int)
    requires
        r >= 0,
        hlen(x, y) > r,
    ensures
        exists|i: int| 0 <= i < 6 && #[trigger] step_reduces(x, y, r, i),
{
    let l = hlen(x, y);
    if abs_int(x) == l && x > 0 {
        if y >= r + 2 - 2 * x && !(r == 0 && y == -x) {
            assert(step_reduces(x, y, r, 1));
        } else {
            assert(step_reduces(x, y, r, 0));
        }
    } else if abs_int(x) == l {
        if -y >= r + 2 + 2 * x && !(r == 0 && y == -x) {
            assert(step_reduces(x, y, r, 4));
        } else {
            assert(step_reduces(x, y, r, 3));
        }
    } else if abs_int(y) == l && y > 0 {
        if x <= y - r - 2 && !(r == 0 && x == 0) {
            assert(step_reduces(x, y, r, 3));
        } else {
            assert(step_reduces(x, y, r, 2));
        }
    } else if abs_int(y) == l {
        if x >= y + r + 2 && !(r == 0 && x == 0) {
            assert(step_reduces(x, y, r, 0));
        } else {
            assert(step_reduces(x, y, r, 5));
        }
    } else if x + y < 0 {
        if x + 2 * y <= -r - 2 && !(r == 0 && y == 0) {
            assert(step_reduces(x, y, r, 5));
        } else {
            assert(step_reduces(x, y, r, 4));
        }
    } else {
        if x + 2 * y >= r + 2 && !(r == 0 && y == 0) {
            assert(step_reduces(x, y, r, 2));
        } else {
            assert(step_reduces(x, y, r, 1));
        }
    }
}

/// `(a + 1) * c` and `(a - 1) * c` unfold to `a * c` plus or minus `c`.
proof fn lemma_coeff_step(a: int, c: int)
    ensures
        (a + 1) * c == a * c + c,
        (a - 1) * c == a * c - c,
{
    assert((a + 1) * c == a * c + c) by (nonlinear_arith);
    assert((a - 1) * c == a * c - c) by (nonlinear_arith);
}

/// How many base mirrors a subtraction of mirror `i` accounts for.
pub open spec fn mirror_coeff_a(i: int) -> int {
    if i == 1 || i == 2 {
        1
    } else if i == 4 || i == 5 {
        -1
    } else {
        0
    }
}

/// How many left-rotated base mirrors a subtraction of mirror `i`
/// accounts for.
pub open spec fn mirror_coeff_b(i: int) -> int {
    if i == 0 || i == 5 {
        1
    } else if i == 2 || i == 3 {
        -1
    } else {
        0
    }
}

/// Subtracting mirror `i` keeps the folded coordinate on the mirror
/// lattice, shifting the coefficients by that mirror's contribution.
proof fn lemma_lattice_step(orig: Hex, prev: Hex, next: Hex, r: int, a: int, b: int, i: int)
    requires
        0 <= i < 6,
        lattice_shift(orig, prev, r, a, b),
        next.x == prev.x - mirror_x(r, i),
        next.y == prev.y - mirror_y(r, i),
    ensures
        lattice_shift(orig, next, r, a + mirror_coeff_a(i), b + mirror_coeff_b(i)),
{
    lemma_coeff_step(a, 2 * r + 1);
    lemma_coeff_step(a, r);
    lemma_coeff_step(b, r + 1);
    lemma_coeff_step(b, 2 * r + 1);
}

impl Hex {
    /// Computes the 6 mirror centers of the origin for hexagonal
    /// wraparound maps of the given `radius`: the base mirror
    /// `(2 * radius + 1, -radius)`, its left and right rotations, and
    /// their three negations.
    pub fn wraparound_mirrors(radius: u32) -> (out: [Self; 6])
        requires
            radius <= 0x3fff_ffff,
        ensures
            forall|i: int|
                0 <= i < 6 ==> (#[trigger] out[i]).x == mirror_x(radius as int, i) && out[i].y
                    == mirror_y(radius as int, i),
    {
        let r: i64 = radius as i64;
        let center = Hex::new((2 * r + 1) as i32, (-r) as i32);
        let left = center.left();
        let right = center.right();
        let out = [
            left,
            center,
            right,
            left.const_neg(),
            center.const_neg(),
            right.const_neg(),
        ];
        assert(forall|i: int|
            0 <= i < 6 ==> (#[trigger] out[i]).x == mirror_x(radius as int, i) && out[i].y
                == mirror_y(radius as int, i)) by {
            assert(out[0].x == mirror_x(radius as int, 0) && out[0].y == mirror_y(radius as int, 0));
            assert(out[1].x == mirror_x(radius as int, 1) && out[1].y == mirror_y(radius as int, 1));
            assert(out[2].x == mirror_x(radius as int, 2) && out[2].y == mirror_y(radius as int, 2));
            assert(out[3].x == mirror_x(radius as int, 3) && out[3].y == mirror_y(radius as int, 3));
            assert(out[4].x == mirror_x(radius as int, 4) && out[4].y == mirror_y(radius as int, 4));
            assert(out[5].x == mirror_x(radius as int, 5) && out[5].y == mirror_y(radius as int, 5));
        }
        out
    }

    /// Wraps `self` into the hexagon of the given `radius` around the
    /// origin using the given `mirrors`, which must be the canonical
    /// mirror centers for that radius (see [`Self::wraparound_mirrors`]).
    ///
    /// While the coordinate lies outside the radius, the mirror closest
    /// to it is subtracted; each subtraction strictly reduces the hex
    /// length, so the fold terminates. The result lies within `radius`
    /// of the origin and differs from `self` by a lattice combination of
    /// the mirrors; a coordinate already in range is returned unchanged.
    pub fn wrap_with(self, radius: u32, mirrors: &[Self; 6]) -> (res: Self)
        requires
            radius <= 0x3fff_ffff,
            self.len_int() + 2 * radius + 1 <= i32::MAX,
            forall|i: int|
                0 <= i < 6 ==> (#[trigger] mirrors[i]).x == mirror_x(radius as int, i)
                    && mirrors[i].y == mirror_y(radius as int, i),
        ensures
            res.len_int() <= radius,
            self.len_int() <= radius ==> res == self,
            exists|a: int, b: int| #[trigger] lattice_shift(self, res, radius as int, a, b),
    {
        proof {
            assert(abs_int(self.x + self.y) <= self.len_int());
        }
        if self.ulength() <= radius {
            proof {
                assert(0 * (2 * radius + 1) == 0 && 0 * (radius as int + 1) == 0 && 0 * (
                radius as int) == 0);
                assert(lattice_shift(self, self, radius as int, 0, 0));
            }
            return self;
        }
        let mut res = self;
        let ghost mut ga: int = 0;
        let ghost mut gb: int = 0;
        proof {
            assert(0 * (2 * radius + 1) == 0 && 0 * (radius as int + 1) == 0 && 0 * (radius as int)
                == 0);
            assert(lattice_shift(self, res, radius as int, ga, gb));
        }
        while res.ulength() > radius
            invariant
                radius <= 0x3fff_ffff,
                res.len_int() <= self.len_int(),
                self.len_int() + 2 * radius + 1 <= i32::MAX,
                forall|i: int|
                    0 <= i < 6 ==> (#[trigger] mirrors[i]).x == mirror_x(radius as int, i)
                        && mirrors[i].y == mirror_y(radius as int, i),
                lattice_shift(self, res, radius as int, ga, gb),
            decreases res.len_int(),
        {
            let ghost old_res = res;
            let ghost r_int = radius as int;
            // find the nearest mirror
            let mut best: usize = 0;
            let mut best_d: u32 = res.unsigned_distance_to(mirrors[0]);
            let mut k: usize = 1;
            while k < 6
                invariant
                    1 <= k <= 6,
                    best < k,
                    res.len_int() <= self.len_int(),
                    self.len_int() + 2 * radius + 1 <= i32::MAX,
                    radius <= 0x3fff_ffff,
                    forall|i: int|
                        0 <= i < 6 ==> (#[trigger] mirrors[i]).x == mirror_x(radius as int, i)
                            && mirrors[i].y == mirror_y(radius as int, i),
                    best_d == res.dist_int(mirrors[best as int]),
                    forall|j: int| 0 <= j < k ==> best_d <= res.dist_int(#[trigger] mirrors[j]),
                decreases 6 - k,
            {
                let d = res.unsigned_distance_to(mirrors[k]);
                if d < best_d {
                    best = k;
                    best_d = d;
                }
                k = k + 1;
            }
            proof {
                lemma_wrap_progress(res.x as int, res.y as int, r_int);
                let wit = choose|i: int| 0 <= i < 6 && #[trigger] step_reduces(
                    res.x as int,
                    res.y as int,
                    r_int,
                    i,
                );
                assert(res.dist_int(mirrors[wit]) == hlen(
                    res.x - mirror_x(r_int, wit),
                    res.y - mirror_y(r_int, wit),
                ));
                assert(best_d <= res.dist_int(mirrors[wit]));
                assert(best_d < res.len_int());
            }
            res = res.const_sub(mirrors[best]);
            proof {
                lemma_lattice_step(self, old_res, res, r_int, ga, gb, best as int);
                ga = ga + mirror_coeff_a(best as int);
                gb = gb + mirror_coeff_b(best as int);
                assert(res.len_int() < old_res.len_int());
            }
        }
        res
    }

    /// Wraps `self` into the hexagon of the given `radius` around the
    /// origin, using the canonical mirror centers for that radius; this
    /// allows for seamless wraparound hexagonal maps.
    pub fn wrap_in_range(self, radius: u32) -> (res: Self)
        requires
            radius <= 0x3fff_ffff,
            self.len_int() + 2 * radius + 1 <= i32::MAX,
        ensures
            res.len_int() <= radius,
            self.len_int() <= radius ==> res == self,
            exists|a: int, b: int| #[trigger] lattice_shift(self, res, radius as int, a, b),
    {
        let mirrors = Self::wraparound_mirrors(radius);
        self.wrap_with(radius, &mirrors)
    }
}

} // verus!
