//! Rotations (a group of order 6) and the three axis reflections.

use vstd::prelude::*;
use crate::hex::{Hex, abs_int};
use crate::metric::{hex_add, hex_sub};
use crate::direction::{Direction, DiagonalDirection, dir_offset, diag_offset, index_dir, index_diag};

verus! {

/// One counter clockwise rotation step around the origin:
/// `(x, y, z)` becomes `(-z, -x, -y)`, returned as an axial pair.
pub open spec fn left_spec(h: Hex) -> Hex {
    Hex { x: (h.x + h.y) as i32, y: (-h.x) as i32 }
}

/// One clockwise rotation step around the origin:
/// `(x, y, z)` becomes `(-y, -z, -x)`, returned as an axial pair.
pub open spec fn right_spec(h: Hex) -> Hex {
    Hex { x: (-h.y) as i32, y: (h.x + h.y) as i32 }
}

/// Negation: the reflection around the origin, also three rotation steps.
pub open spec fn neg_spec(h: Hex) -> Hex {
    Hex { x: (-h.x) as i32, y: (-h.y) as i32 }
}

/// `m` counter clockwise rotation steps around the origin, short-circuited
/// through the six group elements rather than `m` single steps.
pub open spec fn rotate_left_spec(h: Hex, m: int) -> Hex {
    let k = m % 6;
    if k == 1 {
        left_spec(h)
    } else if k == 2 {
        left_spec(left_spec(h))
    } else if k == 3 {
        neg_spec(h)
    } else if k == 4 {
        right_spec(right_spec(h))
    } else if k == 5 {
        right_spec(h)
    } else {
        h
    }
}

/// `m` clockwise rotation steps around the origin, short-circuited
/// through the six group elements rather than `m` single steps.
pub open spec fn rotate_right_spec(h: Hex, m: int) -> Hex {
    let k = m % 6;
    if k == 1 {
        right_spec(h)
    } else if k == 2 {
        right_spec(right_spec(h))
    } else if k == 3 {
        neg_spec(h)
    } else if k == 4 {
        left_spec(left_spec(h))
    } else if k == 5 {
        left_spec(h)
    } else {
        h
    }
}

/// Reflection across the `x` cubic axis: `(x, y, z)` becomes `(x, z, y)`.
pub open spec fn reflect_x_spec(h: Hex) -> Hex {
    Hex { x: h.x, y: (-h.x - h.y) as i32 }
}

/// Reflection across the `y` cubic axis: `(x, y, z)` becomes `(z, y, x)`.
pub open spec fn reflect_y_spec(h: Hex) -> Hex {
    Hex { x: (-h.x - h.y) as i32, y: h.y }
}

/// Reflection across the `z` cubic axis: `(x, y, z)` becomes `(y, x, z)`.
pub open spec fn reflect_z_spec(h: Hex) -> Hex {
    Hex { x: h.y, y: h.x }
}

impl Hex {
    /// A counter clockwise rotation step keeps all three cubic
    /// coordinates and their negations in `i32` range.
    pub open spec fn left_fits(self) -> bool {
        abs_int(self.x + self.y) <= i32::MAX && self.x != i32::MIN
    }

    /// A clockwise rotation step keeps all three cubic coordinates and
    /// their negations in `i32` range.
    pub open spec fn right_fits(self) -> bool {
        abs_int(self.x + self.y) <= i32::MAX && self.y != i32::MIN
    }

    /// Rotates `self` around the origin counter clockwise (by -60 degrees).
    pub fn left(self) -> (r: Self)
        requires
            self.left_fits(),
        ensures
            r == left_spec(self),
    {
        let z: i32 = self.z();
        Self::new(-z, -self.x)
    }

    /// Rotates `self` around `center` counter clockwise (by -60 degrees).
    pub fn left_around(self, center: Self) -> (r: Self)
        requires
            self.sub_fits(center),
            hex_sub(self, center).left_fits(),
            left_spec(hex_sub(self, center)).add_fits(center),
        ensures
            r == hex_add(left_spec(hex_sub(self, center)), center),
    {
        self.const_sub(center).left().const_add(center)
    }

    /// Rotates `self` around the origin counter clockwise by `m`
    /// (by `-60 * m` degrees).
    pub fn rotate_left(self, m: u32) -> (r: Self)
        requires
            self.len_ok(),
        ensures
            r == rotate_left_spec(self, m as int),
    {
        match m % 6 {
            1 => self.left(),
            2 => self.left().left(),
            3 => self.const_neg(),
            4 => self.right().right(),
            5 => self.right(),
            _ => self,
        }
    }

    /// Rotates `self` around `center` counter clockwise by `m`
    /// (by `-60 * m` degrees).
    pub fn rotate_left_around(self, center: Self, m: u32) -> (r: Self)
        requires
            self.sub_fits(center),
            hex_sub(self, center).len_ok(),
            rotate_left_spec(hex_sub(self, center), m as int).add_fits(center),
        ensures
            r == hex_add(rotate_left_spec(hex_sub(self, center), m as int), center),
    {
        self.const_sub(center).rotate_left(m).const_add(center)
    }

    /// Rotates `self` around the origin clockwise (by 60 degrees).
    pub fn right(self) -> (r: Self)
        requires
            self.right_fits(),
        ensures
            r == right_spec(self),
    {
        let z: i32 = self.z();
        Self::new(-self.y, -z)
    }

    /// Rotates `self` around `center` clockwise (by 60 degrees).
    pub fn right_around(self, center: Self) -> (r: Self)
        requires
            self.sub_fits(center),
            hex_sub(self, center).right_fits(),
            right_spec(hex_sub(self, center)).add_fits(center),
        ensures
            r == hex_add(right_spec(hex_sub(self, center)), center),
    {
        self.const_sub(center).right().const_add(center)
    }

    /// Rotates `self` around the origin clockwise by `m`
    /// (by `60 * m` degrees).
    pub fn rotate_right(self, m: u32) -> (r: Self)
        requires
            self.len_ok(),
        ensures
            r == rotate_right_spec(self, m as int),
    {
        match m % 6 {
            1 => self.right(),
            2 => self.right().right(),
            3 => self.const_neg(),
            4 => self.left().left(),
            5 => self.left(),
            _ => self,
        }
    }

    /// Rotates `self` around `center` clockwise by `m`
    /// (by `60 * m` degrees).
    pub fn rotate_right_around(self, center: Self, m: u32) -> (r: Self)
        requires
            self.sub_fits(center),
            hex_sub(self, center).len_ok(),
            rotate_right_spec(hex_sub(self, center), m as int).add_fits(center),
        ensures
            r == hex_add(rotate_right_spec(hex_sub(self, center), m as int), center),
    {
        self.const_sub(center).rotate_right(m).const_add(center)
    }

    /// Computes the reflection of `self` across the `x` cubic axis.
    pub fn reflect_x(self) -> (r: Self)
        requires
            self.has_z(),
        ensures
            r == reflect_x_spec(self),
    {
        Self::new(self.x, self.z())
    }

    /// Computes the reflection of `self` across the `y` cubic axis.
    pub fn reflect_y(self) -> (r: Self)
        requires
            self.has_z(),
        ensures
            r == reflect_y_spec(self),
    {
        Self::new(self.z(), self.y)
    }

    /// Computes the reflection of `self` across the `z` cubic axis.
    pub fn reflect_z(self) -> (r: Self)
        ensures
            r == reflect_z_spec(self),
    {
        Self::new(self.y, self.x)
    }
}

/// A full turn is the identity: six rotation steps in either sense give
/// the coordinate back.
pub proof fn lemma_rotate_full_turn(h: Hex)
    ensures
        rotate_left_spec(h, 6) == h,
        rotate_right_spec(h, 6) == h,
{
}

/// Counter clockwise and clockwise rotations are inverse families:
/// `m` steps one way equal `(6 - m) % 6` steps the other way, for every
/// coordinate whose cubic values fit in `i32` and every step count.
pub proof fn lemma_rotate_left_right(h: Hex, m: int)
    requires
        h.len_ok(),
        0 <= m,
    ensures
        rotate_left_spec(h, m) == rotate_right_spec(h, (6 - m) % 6),
{
    let k = m % 6;
    assert(0 <= k < 6);
    assert((6 - m) % 6 == (6 - k) % 6) by {
        assert(m == 6 * (m / 6) + k);
        assert((6 - m) + 6 * (m / 6) == 6 - k);
    }
}

/// The two offset tables are load-bearing: every neighbor offset has hex
/// length exactly 1, every diagonal offset has hex length exactly 2, and
/// both tables are closed under the 60 degree rotation, each offset
/// rotating onto the next entry in table order.
pub proof fn lemma_offset_tables(d: Direction, g: DiagonalDirection, i: int)
    requires
        0 <= i < 6,
    ensures
        dir_offset(d).len_int() == 1,
        diag_offset(g).len_int() == 2,
        left_spec(dir_offset(index_dir(i))) == dir_offset(index_dir(i + 1)),
        left_spec(diag_offset(index_diag(i))) == diag_offset(index_diag(i + 1)),
{
}

/// Each axis reflection is an involution: reflecting twice across the
/// same cubic axis gives the coordinate back.
pub proof fn lemma_reflect_involution(h: Hex)
    requires
        h.has_z(),
    ensures
        reflect_x_spec(reflect_x_spec(h)) == h,
        reflect_y_spec(reflect_y_spec(h)) == h,
        reflect_z_spec(reflect_z_spec(h)) == h,
{
}

} // verus!
