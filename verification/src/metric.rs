//! Length, distance, neighbor and wedge-classification queries.

use vstd::prelude::*;
use crate::hex::{Hex, abs_int, max3};
use crate::direction::{Direction, DiagonalDirection, dir_offset, diag_offset, index_dir, index_diag};

verus! {

/// Componentwise sum of two coordinates, as a coordinate.
///
/// Meaningful when the sums fit in `i32` (see [`Hex::add_fits`]).
pub open spec fn hex_add(a: Hex, b: Hex) -> Hex {
    Hex { x: (a.x + b.x) as i32, y: (a.y + b.y) as i32 }
}

/// Componentwise difference of two coordinates, as a coordinate.
///
/// Meaningful when the differences fit in `i32` (see [`Hex::sub_fits`]).
pub open spec fn hex_sub(a: Hex, b: Hex) -> Hex {
    Hex { x: (a.x - b.x) as i32, y: (a.y - b.y) as i32 }
}

impl Hex {
    /// The hex length: the distance from the origin, computed as the
    /// largest absolute value among the three cubic coordinates.
    pub open spec fn len_int(self) -> int {
        max3(abs_int(self.x as int), abs_int(self.y as int), abs_int(self.z_int()))
    }

    /// The hex distance between two coordinates: the length of their
    /// componentwise difference.
    pub open spec fn dist_int(self, rhs: Hex) -> int {
        max3(
            abs_int(self.x - rhs.x),
            abs_int(self.y - rhs.y),
            abs_int(self.z_int() - rhs.z_int()),
        )
    }

    /// All three cubic coordinates and their negations fit in `i32`, so
    /// the signed length can be computed.
    pub open spec fn len_ok(self) -> bool {
        &&& abs_int(self.x as int) <= i32::MAX
        &&& abs_int(self.y as int) <= i32::MAX
        &&& abs_int(self.z_int()) <= i32::MAX
    }

    /// All three cubic differences and their negations fit in `i32`, so
    /// the signed distance can be computed.
    pub open spec fn dist_ok(self, rhs: Hex) -> bool {
        &&& abs_int(self.x - rhs.x) <= i32::MAX
        &&& abs_int(self.y - rhs.y) <= i32::MAX
        &&& abs_int(self.z_int() - rhs.z_int()) <= i32::MAX
    }

    /// All three cubic differences fit in `i32`, so the unsigned distance
    /// can be computed.
    pub open spec fn usub_ok(self, rhs: Hex) -> bool {
        &&& i32::MIN <= self.x - rhs.x <= i32::MAX
        &&& i32::MIN <= self.y - rhs.y <= i32::MAX
        &&& i32::MIN <= self.z_int() - rhs.z_int() <= i32::MAX
    }

    /// Computes coordinates length as a signed integer.
    /// The length of a coordinate is equal to its distance from the origin.
    ///
    /// See [`Self::ulength`] for the unsigned version.
    pub fn length(self) -> (r: i32)
        requires
            self.len_ok(),
        ensures
            r == self.len_int(),
    {
        let ax: i32 = if self.x < 0 {
            -self.x
        } else {
            self.x
        };
        let ay: i32 = if self.y < 0 {
            -self.y
        } else {
            self.y
        };
        let z: i32 = self.z();
        let az: i32 = if z < 0 {
            -z
        } else {
            z
        };
        if ax >= ay && ax >= az {
            ax
        } else if ay >= ax && ay >= az {
            ay
        } else {
            az
        }
    }

    /// Computes coordinates length as an unsigned integer.
    /// The length of a coordinate is equal to its distance from the origin.
    ///
    /// See [`Self::length`] for the signed version.
    pub fn ulength(self) -> (r: u32)
        requires
            self.has_z(),
        ensures
            r == self.len_int(),
    {
        let ax: u32 = if self.x < 0 {
            (-(self.x as i64)) as u32
        } else {
            self.x as u32
        };
        let ay: u32 = if self.y < 0 {
            (-(self.y as i64)) as u32
        } else {
            self.y as u32
        };
        let z: i32 = self.z();
        let az: u32 = if z < 0 {
            (-(z as i64)) as u32
        } else {
            z as u32
        };
        if ax >= ay && ax >= az {
            ax
        } else if ay >= ax && ay >= az {
            ay
        } else {
            az
        }
    }

    /// Computes the distance from `self` to `rhs` in hexagonal space as a
    /// signed integer.
    ///
    /// See [`Self::unsigned_distance_to`] for the unsigned version.
    pub fn distance_to(self, rhs: Self) -> (r: i32)
        requires
            self.dist_ok(rhs),
        ensures
            r == self.dist_int(rhs),
    {
        self.const_sub(rhs).length()
    }

    /// Computes the distance from `self` to `rhs` in hexagonal space as an
    /// unsigned integer.
    ///
    /// See [`Self::distance_to`] for the signed version.
    pub fn unsigned_distance_to(self, rhs: Self) -> (r: u32)
        requires
            self.usub_ok(rhs),
        ensures
            r == self.dist_int(rhs),
    {
        self.const_sub(rhs).ulength()
    }

    /// Retrieves the hexagonal neighbor coordinates matching the given
    /// `direction`.
    pub fn neighbor_coord(direction: Direction) -> (r: Self)
        ensures
            r == dir_offset(direction),
    {
        match direction {
            Direction::TopRight => Hex::new(1, -1),
            Direction::Top => Hex::new(0, -1),
            Direction::TopLeft => Hex::new(-1, 0),
            Direction::BottomLeft => Hex::new(-1, 1),
            Direction::Bottom => Hex::new(0, 1),
            Direction::BottomRight => Hex::new(1, 0),
        }
    }

    /// Retrieves the neighbor coordinates matching the given `direction`.
    pub fn neighbor(self, direction: Direction) -> (r: Self)
        requires
            self.add_fits(dir_offset(direction)),
        ensures
            r == hex_add(self, dir_offset(direction)),
    {
        self.const_add(Self::neighbor_coord(direction))
    }

    /// The direction whose neighbor offset leads from `self` to `other`,
    /// or nothing when `other` is not adjacent to `self`.
    pub open spec fn neighbor_direction_spec(self, other: Hex) -> Option<Direction> {
        let dx = other.x - self.x;
        let dy = other.y - self.y;
        if dx == 1 && dy == -1 {
            Some(Direction::TopRight)
        } else if dx == 0 && dy == -1 {
            Some(Direction::Top)
        } else if dx == -1 && dy == 0 {
            Some(Direction::TopLeft)
        } else if dx == -1 && dy == 1 {
            Some(Direction::BottomLeft)
        } else if dx == 0 && dy == 1 {
            Some(Direction::Bottom)
        } else if dx == 1 && dy == 0 {
            Some(Direction::BottomRight)
        } else {
            None
        }
    }

    /// Retrieves the direction of the given neighbor. Will return `None`
    /// if `other` is not a neighbor of `self`.
    pub fn neighbor_direction(self, other: Self) -> (r: Option<Direction>)
        ensures
            r == self.neighbor_direction_spec(other),
    {
        let dx: i64 = other.x as i64 - self.x as i64;
        let dy: i64 = other.y as i64 - self.y as i64;
        if dx == 1 && dy == -1 {
            Some(Direction::TopRight)
        } else if dx == 0 && dy == -1 {
            Some(Direction::Top)
        } else if dx == -1 && dy == 0 {
            Some(Direction::TopLeft)
        } else if dx == -1 && dy == 1 {
            Some(Direction::BottomLeft)
        } else if dx == 0 && dy == 1 {
            Some(Direction::Bottom)
        } else if dx == 1 && dy == 0 {
            Some(Direction::BottomRight)
        } else {
            None
        }
    }

    /// The [`Direction`] wedge in which `rhs` lies relative to `self`.
    ///
    /// The cubic difference `(x, y, z)` is transformed to
    /// `(y - x, z - y, x - z)`; the axis of largest absolute value wins,
    /// ties broken in that order, and the sign of the winning axis picks
    /// between a direction and its opposite.
    pub open spec fn direction_to_spec(self, rhs: Hex) -> Direction {
        let dx = rhs.x - self.x;
        let dy = rhs.y - self.y;
        let dz = rhs.z_int() - self.z_int();
        let a = dy - dx;
        let b = dz - dy;
        let c = dx - dz;
        if abs_int(a) >= abs_int(b) && abs_int(a) >= abs_int(c) {
            if a < 0 {
                Direction::TopRight
            } else {
                Direction::BottomLeft
            }
        } else if abs_int(b) >= abs_int(c) {
            if b < 0 {
                Direction::Bottom
            } else {
                Direction::Top
            }
        } else {
            if c < 0 {
                Direction::TopLeft
            } else {
                Direction::BottomRight
            }
        }
    }

    /// Find in which [`Direction`] wedge `rhs` is relative to `self`.
    pub fn direction_to(self, rhs: Self) -> (r: Direction)
        ensures
            r == self.direction_to_spec(rhs),
    {
        let dx: i64 = rhs.x as i64 - self.x as i64;
        let dy: i64 = rhs.y as i64 - self.y as i64;
        let dz: i64 = -dx - dy;
        let a: i64 = dy - dx;
        let b: i64 = dz - dy;
        let c: i64 = dx - dz;
        let aa: i64 = if a < 0 {
            -a
        } else {
            a
        };
        let ab: i64 = if b < 0 {
            -b
        } else {
            b
        };
        let ac: i64 = if c < 0 {
            -c
        } else {
            c
        };
        if aa >= ab && aa >= ac {
            if a < 0 {
                Direction::TopRight
            } else {
                Direction::BottomLeft
            }
        } else if ab >= ac {
            if b < 0 {
                Direction::Bottom
            } else {
                Direction::Top
            }
        } else {
            if c < 0 {
                Direction::TopLeft
            } else {
                Direction::BottomRight
            }
        }
    }

    /// The [`DiagonalDirection`] wedge in which `rhs` lies relative to
    /// `self`.
    ///
    /// The raw cubic difference `(x, y, z)` is classified directly: the
    /// axis of largest absolute value wins, ties broken in that order,
    /// and the sign of the winning axis picks between a diagonal and its
    /// opposite.
    pub open spec fn diagonal_to_spec(self, rhs: Hex) -> DiagonalDirection {
        let dx = rhs.x - self.x;
        let dy = rhs.y - self.y;
        let dz = rhs.z_int() - self.z_int();
        if abs_int(dx) >= abs_int(dy) && abs_int(dx) >= abs_int(dz) {
            if dx < 0 {
                DiagonalDirection::Left
            } else {
                DiagonalDirection::Right
            }
        } else if abs_int(dy) >= abs_int(dz) {
            if dy < 0 {
                DiagonalDirection::TopRight
            } else {
                DiagonalDirection::BottomLeft
            }
        } else {
            if dz < 0 {
                DiagonalDirection::BottomRight
            } else {
                DiagonalDirection::TopLeft
            }
        }
    }

    /// Find in which [`DiagonalDirection`] wedge `rhs` is relative to
    /// `self`.
    pub fn diagonal_to(self, rhs: Self) -> (r: DiagonalDirection)
        ensures
            r == self.diagonal_to_spec(rhs),
    {
        let dx: i64 = rhs.x as i64 - self.x as i64;
        let dy: i64 = rhs.y as i64 - self.y as i64;
        let dz: i64 = -dx - dy;
        let ax: i64 = if dx < 0 {
            -dx
        } else {
            dx
        };
        let ay: i64 = if dy < 0 {
            -dy
        } else {
            dy
        };
        let az: i64 = if dz < 0 {
            -dz
        } else {
            dz
        };
        if ax >= ay && ax >= az {
            if dx < 0 {
                DiagonalDirection::Left
            } else {
                DiagonalDirection::Right
            }
        } else if ay >= az {
            if dy < 0 {
                DiagonalDirection::TopRight
            } else {
                DiagonalDirection::BottomLeft
            }
        } else {
            if dz < 0 {
                DiagonalDirection::BottomRight
            } else {
                DiagonalDirection::TopLeft
            }
        }
    }

    /// Retrieves all 6 neighbor coordinates around `self`, in table order.
    pub fn all_neighbors(self) -> (r: [Self; 6])
        requires
            i32::MIN < self.x < i32::MAX,
            i32::MIN < self.y < i32::MAX,
        ensures
            forall|i: int| 0 <= i < 6 ==> r[i] == hex_add(self, dir_offset(index_dir(i))),
    {
        let r = [
            self.const_add(Hex::new(1, -1)),
            self.const_add(Hex::new(0, -1)),
            self.const_add(Hex::new(-1, 0)),
            self.const_add(Hex::new(-1, 1)),
            self.const_add(Hex::new(0, 1)),
            self.const_add(Hex::new(1, 0)),
        ];
        assert(forall|i: int| 0 <= i < 6 ==> r[i] == hex_add(self, dir_offset(index_dir(i)))) by {
            assert(r[0] == hex_add(self, dir_offset(index_dir(0))));
            assert(r[1] == hex_add(self, dir_offset(index_dir(1))));
            assert(r[2] == hex_add(self, dir_offset(index_dir(2))));
            assert(r[3] == hex_add(self, dir_offset(index_dir(3))));
            assert(r[4] == hex_add(self, dir_offset(index_dir(4))));
            assert(r[5] == hex_add(self, dir_offset(index_dir(5))));
        }
        r
    }

    /// Retrieves all 6 diagonal coordinates around `self`, in table order.
    pub fn all_diagonals(self) -> (r: [Self; 6])
        requires
            i32::MIN + 2 <= self.x <= i32::MAX - 2,
            i32::MIN + 2 <= self.y <= i32::MAX - 2,
        ensures
            forall|i: int| 0 <= i < 6 ==> r[i] == hex_add(self, diag_offset(index_diag(i))),
    {
        let r = [
            self.const_add(Hex::new(2, -1)),
            self.const_add(Hex::new(1, -2)),
            self.const_add(Hex::new(-1, -1)),
            self.const_add(Hex::new(-2, 1)),
            self.const_add(Hex::new(-1, 2)),
            self.const_add(Hex::new(1, 1)),
        ];
        assert(forall|i: int| 0 <= i < 6 ==> r[i] == hex_add(self, diag_offset(index_diag(i)))) by {
            assert(r[0] == hex_add(self, diag_offset(index_diag(0))));
            assert(r[1] == hex_add(self, diag_offset(index_diag(1))));
            assert(r[2] == hex_add(self, diag_offset(index_diag(2))));
            assert(r[3] == hex_add(self, diag_offset(index_diag(3))));
            assert(r[4] == hex_add(self, diag_offset(index_diag(4))));
            assert(r[5] == hex_add(self, diag_offset(index_diag(5))));
        }
        r
    }
}

/// Hex distance is a symmetric function that vanishes exactly on the
/// diagonal: `dist(a, b) == dist(b, a)` for every pair, and
/// `dist(a, a) == 0`.
pub proof fn lemma_distance_symmetric(a: Hex, b: Hex)
    ensures
        a.dist_int(b) == b.dist_int(a),
        a.dist_int(a) == 0,
{
}

/// Stepping to a neighbor and asking for its direction gives that
/// direction back: for every coordinate `h` (whose neighbor sums fit in
/// `i32`) and every direction `d`,
/// `neighbor_direction(h, neighbor(h, d)) == Some(d)`.
pub proof fn lemma_neighbor_direction_roundtrip(h: Hex, d: Direction)
    requires
        h.add_fits(dir_offset(d)),
    ensures
        h.neighbor_direction_spec(hex_add(h, dir_offset(d))) == Some(d),
{
}

} // verus!
