//! The `Hex` coordinate type and its core constructors and arithmetic.

use vstd::prelude::*;

verus! {

/// Absolute value of a mathematical integer.
pub open spec fn abs_int(v: int) -> int {
    if v < 0 {
        -v
    } else {
        v
    }
}

/// The largest of three mathematical integers.
pub open spec fn max3(a: int, b: int, c: int) -> int {
    if a >= b && a >= c {
        a
    } else if b >= c {
        b
    } else {
        c
    }
}

/// Hexagonal axial coordinates.
///
/// A cell is stored as the two axial coordinates `x` and `y`; the third
/// cubic coordinate `z = -x - y` is always derived, never stored, so the
/// cubic invariant `x + y + z == 0` holds by construction.
#[derive(Debug, Copy, Clone, Eq, PartialEq, Structural, Hash)]
pub struct Hex {
    /// `x` axial coordinate (sometimes called `q` or `i`)
    pub x: i32,
    /// `y` axial coordinate (sometimes called `r` or `j`)
    pub y: i32,
}

impl Hex {
    /// The derived cubic coordinate `z = -x - y`, as a mathematical integer.
    pub open spec fn z_int(self) -> int {
        -self.x - self.y
    }

    /// The derived `z` coordinate fits in `i32`, so it can be computed.
    pub open spec fn has_z(self) -> bool {
        i32::MIN <= self.z_int() <= i32::MAX
    }

    #[inline]
    /// Instantiates a new hexagon from axial coordinates
    pub fn new(x: i32, y: i32) -> (r: Self)
        ensures
            r.x == x,
            r.y == y,
    {
        Self { x, y }
    }

    #[inline]
    /// Instantiates a new hexagon with all coordinates set to `v`
    pub fn splat(v: i32) -> (r: Self)
        ensures
            r.x == v,
            r.y == v,
    {
        Self { x: v, y: v }
    }

    #[inline]
    /// Instantiates new hexagonal coordinates in cubic space.
    ///
    /// The three cubic coordinates of a cell always sum to zero; a triple
    /// that does not is a programmer error and is rejected statically.
    pub fn new_cubic(x: i32, y: i32, z: i32) -> (r: Self)
        requires
            x + y + z == 0,
        ensures
            r.x == x,
            r.y == y,
            r.z_int() == z,
    {
        Self { x, y }
    }

    #[inline]
    /// `x` coordinate (sometimes called `q` or `i`)
    pub fn x(self) -> (r: i32)
        ensures
            r == self.x,
    {
        self.x
    }

    #[inline]
    /// `y` coordinate (sometimes called `r` or `j`)
    pub fn y(self) -> (r: i32)
        ensures
            r == self.y,
    {
        self.y
    }

    #[inline]
    /// `z` coordinate (sometimes called `s` or `k`).
    ///
    /// This cubic space coordinate is computed as `-x - y`.
    pub fn z(self) -> (r: i32)
        requires
            self.has_z(),
        ensures
            r == self.z_int(),
    {
        let wide: i64 = -(self.x as i64) - (self.y as i64);
        wide as i32
    }

    /// The componentwise sum of the two coordinates fits in `i32`.
    pub open spec fn add_fits(self, other: Self) -> bool {
        &&& i32::MIN <= self.x + other.x <= i32::MAX
        &&& i32::MIN <= self.y + other.y <= i32::MAX
    }

    /// The componentwise difference of the two coordinates fits in `i32`.
    pub open spec fn sub_fits(self, other: Self) -> bool {
        &&& i32::MIN <= self.x - other.x <= i32::MAX
        &&& i32::MIN <= self.y - other.y <= i32::MAX
    }

    /// The componentwise negation fits in `i32`.
    pub open spec fn neg_fits(self) -> bool {
        self.x != i32::MIN && self.y != i32::MIN
    }

    #[inline]
    /// Converts `self` to an array as `[x, y]`
    pub fn to_array(self) -> (r: [i32; 2])
        ensures
            r[0] == self.x,
            r[1] == self.y,
    {
        [self.x, self.y]
    }

    #[inline]
    /// Converts `self` to an array as `[x, y, z]`
    pub fn to_array3(self) -> (r: [i32; 3])
        requires
            self.has_z(),
        ensures
            r[0] == self.x,
            r[1] == self.y,
            r[2] == self.z_int(),
    {
        [self.x, self.y, self.z()]
    }

    #[inline]
    /// Negates the coordinate, giving its reflection (symmetry) around the
    /// origin.
    pub fn const_neg(self) -> (r: Self)
        requires
            self.neg_fits(),
        ensures
            r.x == -self.x,
            r.y == -self.y,
    {
        Self { x: -self.x, y: -self.y }
    }

    #[inline]
    /// Adds `self` and `other` componentwise.
    pub fn const_add(self, other: Self) -> (r: Self)
        requires
            self.add_fits(other),
        ensures
            r.x == self.x + other.x,
            r.y == self.y + other.y,
    {
        Self { x: self.x + other.x, y: self.y + other.y }
    }

    #[inline]
    /// Subtracts `rhs` from `self` componentwise.
    pub fn const_sub(self, rhs: Self) -> (r: Self)
        requires
            self.sub_fits(rhs),
        ensures
            r.x == self.x - rhs.x,
            r.y == self.y - rhs.y,
    {
        Self { x: self.x - rhs.x, y: self.y - rhs.y }
    }

    #[inline]
    /// Computes the componentwise absolute value of `self`.
    ///
    /// The result is an intermediate for length computations: taking
    /// absolute values componentwise does not preserve the cubic reading
    /// of the coordinate.
    pub fn abs(self) -> (r: Self)
        requires
            self.neg_fits(),
        ensures
            r.x == abs_int(self.x as int),
            r.y == abs_int(self.y as int),
    {
        let ax: i32 = if self.x < 0 {
            -self.x
        } else {
            self.x
        };
        let ay: i32 = if self.y < 0 {
            -self.y
        } else {
            self.y
        };
        Self { x: ax, y: ay }
    }
}

impl Default for Hex {
    /// The origin `(0, 0)`.
    fn default() -> (r: Self)
        ensures
            r.x == 0,
            r.y == 0,
    {
        Hex { x: 0, y: 0 }
    }
}

} // verus!
