//! Line drawing: exact rational interpolation between two coordinates,
//! each sample rounded to the nearest cell.

use vstd::prelude::*;
use vstd::arithmetic::div_mod::{lemma_fundamental_div_mod, lemma_mod_bound};
use crate::hex::{Hex, abs_int};
use crate::direction::Direction;

verus! {

/// Round to nearest integer of the rational `n / d` (`d` positive),
/// ties away from zero.
pub open spec fn rnd(n: int, d: int) -> int {
    if n >= 0 {
        (2 * n + d) / (2 * d)
    } else {
        -((2 * (-n) + d) / (2 * d))
    }
}

/// The rounding error of [`rnd`] is at most half the denominator.
proof fn lemma_rnd_near(n: int, d: int)
    requires
        d >= 1,
    ensures
        2 * abs_int(n - rnd(n, d) * d) <= d,
{
    if n >= 0 {
        let q = (2 * n + d) / (2 * d);
        lemma_fundamental_div_mod(2 * n + d, 2 * d);
        lemma_mod_bound(2 * n + d, 2 * d);
        let rem = (2 * n + d) % (2 * d);
        assert(2 * n + d == 2 * d * q + rem);
        assert(2 * d * q == 2 * (q * d)) by (nonlinear_arith);
        assert(2 * (n - q * d) == rem - d);
    } else {
        let m = -n;
        let q = (2 * m + d) / (2 * d);
        lemma_fundamental_div_mod(2 * m + d, 2 * d);
        lemma_mod_bound(2 * m + d, 2 * d);
        let rem = (2 * m + d) % (2 * d);
        assert(2 * m + d == 2 * d * q + rem);
        assert(2 * d * q == 2 * (q * d)) by (nonlinear_arith);
        assert(2 * (m - q * d) == rem - d);
        assert((-q) * d == -(q * d)) by (nonlinear_arith);
        assert(2 * (n - rnd(n, d) * d) == -(rem - d));
    }
}

/// [`rnd`] of an exact multiple gives the multiplier back.
proof fn lemma_rnd_exact(k: int, d: int)
    requires
        d >= 1,
    ensures
        rnd(k * d, d) == k,
{
    lemma_rnd_near(k * d, d);
    let q = rnd(k * d, d);
    assert(k * d - q * d == (k - q) * d) by (nonlinear_arith);
    let m = k - q;
    if m >= 1 {
        assert(m * d >= d) by (nonlinear_arith)
            requires m >= 1 && d >= 1;
    } else if m <= -1 {
        assert(m * d <= -d) by (nonlinear_arith)
            requires m <= -1 && d >= 1;
    }
}

/// [`rnd`] lies between any integer bounds bracketing the rational.
proof fn lemma_rnd_bounds(n: int, d: int, lo: int, hi: int)
    requires
        d >= 1,
        lo * d <= n,
        n <= hi * d,
    ensures
        lo <= rnd(n, d) <= hi,
{
    lemma_rnd_near(n, d);
    let q = rnd(n, d);
    if q <= lo - 1 {
        assert(q * d <= lo * d - d) by (nonlinear_arith)
            requires q <= lo - 1 && d >= 1;
    }
    if q >= hi + 1 {
        assert(q * d >= hi * d + d) by (nonlinear_arith)
            requires q >= hi + 1 && d >= 1;
    }
}

/// Axial rounding of the rational point `(nx / d, ny / d)`: round both
/// axes to nearest independently, then correct the axis with the larger
/// rounding remainder by re-deriving it from the cubic constraint
/// against the better-rounded axis plus half the complementary
/// remainder.
pub open spec fn round_pair(nx: int, ny: int, d: int) -> (int, int) {
    let xr = rnd(nx, d);
    let yr = rnd(ny, d);
    let xf = nx - xr * d;
    let yf = ny - yr * d;
    if xf * xf >= yf * yf {
        (xr + rnd(2 * xf + yf, 2 * d), yr)
    } else {
        (xr, yr + rnd(2 * yf + xf, 2 * d))
    }
}

/// Rounding an exact integer point gives that point back.
proof fn lemma_round_pair_exact(kx: int, ky: int, d: int)
    requires
        d >= 1,
    ensures
        round_pair(kx * d, ky * d, d) == (kx, ky),
{
    lemma_rnd_exact(kx, d);
    lemma_rnd_exact(ky, d);
    assert(kx * d - kx * d == 0);
    assert(rnd(0, 2 * d) == 0) by {
        assert(0 * (2 * d) == 0) by (nonlinear_arith);
        lemma_rnd_exact(0, 2 * d);
    }
}

/// Round-to-nearest division, ties away from zero, as executable code.
fn rnd_exec(n: i128, d: i128) -> (q: i128)
    requires
        1 <= d <= 0x2_0000_0000,
        abs_int(n as int) <= 0x1_0000_0000_0000_0000,
    ensures
        q == rnd(n as int, d as int),
{
    if n >= 0 {
        let num: u128 = 2 * (n as u128) + (d as u128);
        let den: u128 = 2 * (d as u128);
        (num / den) as i128
    } else {
        let m: i128 = -n;
        let num: u128 = 2 * (m as u128) + (d as u128);
        let den: u128 = 2 * (d as u128);
        -((num / den) as i128)
    }
}

/// Executable axial rounding of the rational point `(nx / d, ny / d)`.
fn round_frac(nx: i128, ny: i128, d: i128) -> (r: (i32, i32))
    requires
        1 <= d <= 0x1_0000_0000,
        (i32::MIN + 1) * d <= nx <= (i32::MAX - 1) * d,
        (i32::MIN + 1) * d <= ny <= (i32::MAX - 1) * d,
    ensures
        (r.0 as int, r.1 as int) == round_pair(nx as int, ny as int, d as int),
{
    proof {
        lemma_rnd_bounds(nx as int, d as int, i32::MIN + 1, i32::MAX - 1);
        lemma_rnd_bounds(ny as int, d as int, i32::MIN + 1, i32::MAX - 1);
        lemma_rnd_near(nx as int, d as int);
        lemma_rnd_near(ny as int, d as int);
    }
    let xr: i128 = rnd_exec(nx, d);
    let yr: i128 = rnd_exec(ny, d);
    proof {
        assert(-0x8000_0000_0000_0000 <= xr * d <= 0x8000_0000_0000_0000) by (nonlinear_arith)
            requires
                -0x8000_0000 <= xr <= 0x8000_0000 && 1 <= d <= 0x1_0000_0000,
        ;
        assert(-0x8000_0000_0000_0000 <= yr * d <= 0x8000_0000_0000_0000) by (nonlinear_arith)
            requires
                -0x8000_0000 <= yr <= 0x8000_0000 && 1 <= d <= 0x1_0000_0000,
        ;
    }
    let xf: i128 = nx - xr * d;
    let yf: i128 = ny - yr * d;
    proof {
        assert(0 <= xf * xf <= 0x1_0000_0000_0000_0000) by (nonlinear_arith)
            requires
                -0x1_0000_0000 <= xf <= 0x1_0000_0000,
        ;
        assert(0 <= yf * yf <= 0x1_0000_0000_0000_0000) by (nonlinear_arith)
            requires
                -0x1_0000_0000 <= yf <= 0x1_0000_0000,
        ;
    }
    if xf * xf >= yf * yf {
        proof {
            lemma_rnd_bounds(2 * xf + yf, 2 * d as int, -1, 1);
        }
        let corr: i128 = rnd_exec(2 * xf + yf, 2 * d);
        ((xr + corr) as i32, yr as i32)
    } else {
        proof {
            lemma_rnd_bounds(2 * yf + xf, 2 * d as int, -1, 1);
        }
        let corr: i128 = rnd_exec(2 * yf + xf, 2 * d);
        (xr as i32, (yr + corr) as i32)
    }
}

/// The cell at interpolation step `s` of the `d + 1` evenly spaced
/// samples from `a` to `b`, where `d` is their hex distance: the exact
/// rational interpolation of the axial coordinates, rounded.
pub open spec fn line_point(a: Hex, b: Hex, s: int) -> Hex {
    let d = a.dist_int(b);
    if d == 0 {
        a
    } else {
        let p = round_pair(a.x * (d - s) + b.x * s, a.y * (d - s) + b.y * s, d);
        Hex { x: p.0 as i32, y: p.1 as i32 }
    }
}

/// The inclusive sequence of cells from `a` to `b`: one cell for each of
/// the `dist(a, b) + 1` interpolation steps.
pub open spec fn line_seq(a: Hex, b: Hex) -> Seq<Hex> {
    Seq::new((a.dist_int(b) + 1) as nat, |s: int| line_point(a, b, s))
}

/// An interpolated value over `[lo, hi]` endpoints stays in `[lo, hi]`,
/// scaled by the step denominator.
proof fn lemma_lerp_bounds(av: int, bv: int, s: int, d: int, lo: int, hi: int)
    requires
        0 <= s <= d,
        lo <= av <= hi,
        lo <= bv <= hi,
    ensures
        lo * d <= av * (d - s) + bv * s <= hi * d,
{
    assert(lo * d <= av * (d - s) + bv * s <= hi * d) by (nonlinear_arith)
        requires
            0 <= s <= d,
            lo <= av <= hi,
            lo <= bv <= hi,
    ;
}

impl Hex {
    /// Computes all coordinates in a line from `self` to `other`: the
    /// `dist + 1` evenly spaced rational samples between the two axial
    /// points, each rounded to the nearest cell. When `self == other`
    /// the line is exactly `[self]`.
    pub fn line_to(self, other: Self) -> (out: Vec<Hex>)
        requires
            self.dist_ok(other),
            i32::MIN < self.x < i32::MAX,
            i32::MIN < self.y < i32::MAX,
            i32::MIN < other.x < i32::MAX,
            i32::MIN < other.y < i32::MAX,
        ensures
            out@ == line_seq(self, other),
            out@.len() == self.dist_int(other) + 1,
            out@[0] == self,
            out@[self.dist_int(other)] == other,
    {
        let dist: i32 = self.distance_to(other);
        if dist == 0 {
            let out = vec![self];
            proof {
                assert(out@ =~= line_seq(self, other));
            }
            return out;
        }
        let d: i128 = dist as i128;
        let mut out: Vec<Hex> = Vec::new();
        let mut s: i128 = 0;
        while s <= d
            invariant
                0 <= s <= d + 1,
                1 <= d <= 0x1_0000_0000,
                d == self.dist_int(other),
                self.dist_ok(other),
                i32::MIN < self.x < i32::MAX,
                i32::MIN < self.y < i32::MAX,
                i32::MIN < other.x < i32::MAX,
                i32::MIN < other.y < i32::MAX,
                out@.len() == s,
                forall|j: int| 0 <= j < s ==> out@[j] == line_point(self, other, j),
            decreases d + 1 - s,
        {
            proof {
                assert forall|v: int, w: int|
                    -0x8000_0000 <= v <= 0x8000_0000 && 0 <= w <= 0x1_0000_0000
                        implies -0x8000_0000_0000_0000 <= #[trigger] (v * w)
                        <= 0x8000_0000_0000_0000 by {
                    assert(-0x8000_0000_0000_0000 <= v * w <= 0x8000_0000_0000_0000)
                        by (nonlinear_arith)
                        requires
                            -0x8000_0000 <= v <= 0x8000_0000 && 0 <= w <= 0x1_0000_0000,
                    ;
                }
            }
            let nx: i128 = (self.x as i128) * (d - s) + (other.x as i128) * s;
            let ny: i128 = (self.y as i128) * (d - s) + (other.y as i128) * s;
            proof {
                lemma_lerp_bounds(
                    self.x as int,
                    other.x as int,
                    s as int,
                    d as int,
                    i32::MIN + 1,
                    i32::MAX - 1,
                );
                lemma_lerp_bounds(
                    self.y as int,
                    other.y as int,
                    s as int,
                    d as int,
                    i32::MIN + 1,
                    i32::MAX - 1,
                );
            }
            let (px, py) = round_frac(nx, ny, d);
            out.push(Hex::new(px, py));
            s = s + 1;
        }
        proof {
            assert(line_point(self, other, 0) == self) by {
                lemma_round_pair_exact(self.x as int, self.y as int, d as int);
                assert(self.x * (d - 0) + other.x * 0 == self.x * d) by (nonlinear_arith);
                assert(self.y * (d - 0) + other.y * 0 == self.y * d) by (nonlinear_arith);
            }
            assert(line_point(self, other, d as int) == other) by {
                lemma_round_pair_exact(other.x as int, other.y as int, d as int);
                assert(self.x * (d - d) + other.x * d == other.x * d) by (nonlinear_arith);
                assert(self.y * (d - d) + other.y * d == other.y * d) by (nonlinear_arith);
            }
            assert(out@ =~= line_seq(self, other));
        }
        out
    }

    /// The directions between consecutive cells of a sequence, skipping
    /// consecutive pairs that are not adjacent.
    pub open spec fn dirs_of(s: Seq<Hex>) -> Seq<Direction>
        decreases s.len(),
    {
        if s.len() < 2 {
            Seq::empty()
        } else {
            match s[0].neighbor_direction_spec(s[1]) {
                Some(d) => seq![d] + Self::dirs_of(s.subrange(1, s.len() as int)),
                None => Self::dirs_of(s.subrange(1, s.len() as int)),
            }
        }
    }

    /// Retrieves all directions in the line between `self` and `other`:
    /// the direction of each consecutive pair of line cells that are
    /// adjacent.
    pub fn directions_to(self, other: Self) -> (out: Vec<Direction>)
        requires
            self.dist_ok(other),
            i32::MIN < self.x < i32::MAX,
            i32::MIN < self.y < i32::MAX,
            i32::MIN < other.x < i32::MAX,
            i32::MIN < other.y < i32::MAX,
        ensures
            out@ == Self::dirs_of(line_seq(self, other)),
    {
        let line = self.line_to(other);
        let mut out: Vec<Direction> = Vec::new();
        let mut i: usize = 0;
        while i + 1 < line.len()
            invariant
                0 <= i,
                i + 1 <= line@.len() || i == 0,
                line@.len() >= 1,
                out@ == Self::dirs_of(line@.take(i + 1)),
            decreases line@.len() - i,
        {
            match line[i].neighbor_direction(line[i + 1]) {
                Some(dir) => out.push(dir),
                None => (),
            }
            proof {
                lemma_dirs_of_push(line@.take(i as int + 1), line@[i as int + 1]);
                assert(line@.take(i as int + 2) =~= line@.take(i as int + 1).push(
                    line@[i as int + 1],
                ));
            }
            i = i + 1;
        }
        proof {
            assert(line@.take(i as int + 1) =~= line@);
        }
        out
    }
}

/// Appending one cell to a sequence extends its consecutive-pair
/// directions by at most the direction of the new final pair.
proof fn lemma_dirs_of_push(s: Seq<Hex>, p: Hex)
    requires
        s.len() >= 1,
    ensures
        Hex::dirs_of(s.push(p)) == (match s[s.len() - 1].neighbor_direction_spec(p) {
            Some(d) => Hex::dirs_of(s).push(d),
            None => Hex::dirs_of(s),
        }),
    decreases s.len(),
{
    if s.len() == 1 {
        let e = s.push(p);
        assert(e.subrange(1, 2) =~= seq![p]);
        assert(Hex::dirs_of(seq![p]) =~= Seq::<Direction>::empty());
        match s[0].neighbor_direction_spec(p) {
            Some(d) => {
                assert(Hex::dirs_of(e) =~= seq![d]);
                assert(Hex::dirs_of(s) =~= Seq::<Direction>::empty());
                assert(Hex::dirs_of(s).push(d) =~= seq![d]);
            },
            None => {
                assert(Hex::dirs_of(e) =~= Seq::<Direction>::empty());
                assert(Hex::dirs_of(s) =~= Seq::<Direction>::empty());
            },
        }
    } else {
        let t = s.subrange(1, s.len() as int);
        lemma_dirs_of_push(t, p);
        assert(s.push(p).subrange(1, s.len() as int + 1) =~= t.push(p));
        assert(t[t.len() - 1] == s[s.len() - 1]);
        match s[s.len() - 1].neighbor_direction_spec(p) {
            Some(d) => {
                match s[0].neighbor_direction_spec(s[1]) {
                    Some(d0) => {
                        assert(Hex::dirs_of(s.push(p)) =~= seq![d0] + Hex::dirs_of(t.push(p)));
                        assert(Hex::dirs_of(s) =~= seq![d0] + Hex::dirs_of(t));
                        assert(seq![d0] + Hex::dirs_of(t).push(d) =~= (seq![d0] + Hex::dirs_of(t)).push(d));
                    },
                    None => {
                        assert(Hex::dirs_of(s.push(p)) =~= Hex::dirs_of(t.push(p)));
                        assert(Hex::dirs_of(s) =~= Hex::dirs_of(t));
                    },
                }
            },
            None => {
                match s[0].neighbor_direction_spec(s[1]) {
                    Some(d0) => {
                        assert(Hex::dirs_of(s.push(p)) =~= seq![d0] + Hex::dirs_of(t.push(p)));
                        assert(Hex::dirs_of(s) =~= seq![d0] + Hex::dirs_of(t));
                    },
                    None => {
                        assert(Hex::dirs_of(s.push(p)) =~= Hex::dirs_of(t.push(p)));
                        assert(Hex::dirs_of(s) =~= Hex::dirs_of(t));
                    },
                }
            },
        }
    }
}

} // verus!
