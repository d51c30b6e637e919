//! The six edge directions and six diagonal directions of a hexagon.
//!
//! Both enumerations are closed, ordered variant sets: each variant has a
//! fixed ordinal, the ordinal indexes a fixed offset table, and negation
//! maps a variant to the one three places further (modulo six).

use vstd::prelude::*;
use crate::hex::Hex;

verus! {

/// The 6 unit directions towards a neighboring hexagon, in table order.
///
/// ```txt
///            x Axis
///            ___
///           /   \
///       +--+  1  +--+
///      / 2  \___/  0 \
///      \    /   \    /
///       +--+     +--+
///      /    \___/    \
///      \ 3  /   \  5 /
///       +--+  4  +--+   y Axis
///           \___/
/// ```
#[derive(Debug, Copy, Clone, Eq, PartialEq, Structural, Hash)]
pub enum Direction {
    /// Direction of index 0, offset `(1, -1)`
    TopRight,
    /// Direction of index 1, offset `(0, -1)`
    Top,
    /// Direction of index 2, offset `(-1, 0)`
    TopLeft,
    /// Direction of index 3, offset `(-1, 1)`
    BottomLeft,
    /// Direction of index 4, offset `(0, 1)`
    Bottom,
    /// Direction of index 5, offset `(1, 0)`
    BottomRight,
}

/// The ordinal of a direction in the neighbor offset table.
pub open spec fn dir_index(d: Direction) -> int {
    match d {
        Direction::TopRight => 0,
        Direction::Top => 1,
        Direction::TopLeft => 2,
        Direction::BottomLeft => 3,
        Direction::Bottom => 4,
        Direction::BottomRight => 5,
    }
}

/// The direction of the given ordinal (taken modulo six).
pub open spec fn index_dir(i: int) -> Direction {
    let k = i % 6;
    if k == 0 {
        Direction::TopRight
    } else if k == 1 {
        Direction::Top
    } else if k == 2 {
        Direction::TopLeft
    } else if k == 3 {
        Direction::BottomLeft
    } else if k == 4 {
        Direction::Bottom
    } else {
        Direction::BottomRight
    }
}

/// The fixed neighbor offset of a direction.
pub open spec fn dir_offset(d: Direction) -> Hex {
    match d {
        Direction::TopRight => Hex { x: 1i32, y: -1i32 },
        Direction::Top => Hex { x: 0i32, y: -1i32 },
        Direction::TopLeft => Hex { x: -1i32, y: 0i32 },
        Direction::BottomLeft => Hex { x: -1i32, y: 1i32 },
        Direction::Bottom => Hex { x: 0i32, y: 1i32 },
        Direction::BottomRight => Hex { x: 1i32, y: 0i32 },
    }
}

impl Direction {
    /// The ordinal of `self` in the neighbor offset table.
    pub fn index(self) -> (r: usize)
        ensures
            r == dir_index(self),
    {
        match self {
            Direction::TopRight => 0,
            Direction::Top => 1,
            Direction::TopLeft => 2,
            Direction::BottomLeft => 3,
            Direction::Bottom => 4,
            Direction::BottomRight => 5,
        }
    }

    /// The opposite direction: three places further in table order.
    pub fn const_neg(self) -> (r: Self)
        ensures
            r == index_dir(dir_index(self) + 3),
    {
        match self {
            Direction::TopRight => Direction::BottomLeft,
            Direction::Top => Direction::Bottom,
            Direction::TopLeft => Direction::BottomRight,
            Direction::BottomLeft => Direction::TopRight,
            Direction::Bottom => Direction::Top,
            Direction::BottomRight => Direction::TopLeft,
        }
    }

    /// All 6 directions, in table order.
    pub fn all_directions() -> (r: [Direction; 6])
        ensures
            forall|i: int| 0 <= i < 6 ==> r[i] == index_dir(i),
    {
        let r = [
            Direction::TopRight,
            Direction::Top,
            Direction::TopLeft,
            Direction::BottomLeft,
            Direction::Bottom,
            Direction::BottomRight,
        ];
        assert(forall|i: int| 0 <= i < 6 ==> r[i] == index_dir(i)) by {
            assert(r[0] == index_dir(0));
            assert(r[1] == index_dir(1));
            assert(r[2] == index_dir(2));
            assert(r[3] == index_dir(3));
            assert(r[4] == index_dir(4));
            assert(r[5] == index_dir(5));
        }
        r
    }
}

/// The 6 "diagonal" unit directions, rotated 30 degrees relative to
/// [`Direction`], in table order.
///
/// ```txt
///            x Axis
///           \___/
///      \ 2  /   \ 1  /
///       +--+     +--+
///    __/    \___/    \__
///      \    /   \    /
///    3  +--+     +--+  0
///    __/    \___/    \__
///      \    /   \    /
///       +--+     +--+   y Axis
///      / 4  \___/  5 \
/// ```
#[derive(Debug, Copy, Clone, Eq, PartialEq, Structural, Hash)]
pub enum DiagonalDirection {
    /// Diagonal of index 0, offset `(2, -1)`
    Right,
    /// Diagonal of index 1, offset `(1, -2)`
    TopRight,
    /// Diagonal of index 2, offset `(-1, -1)`
    TopLeft,
    /// Diagonal of index 3, offset `(-2, 1)`
    Left,
    /// Diagonal of index 4, offset `(-1, 2)`
    BottomLeft,
    /// Diagonal of index 5, offset `(1, 1)`
    BottomRight,
}

/// The ordinal of a diagonal direction in the diagonal offset table.
pub open spec fn diag_index(d: DiagonalDirection) -> int {
    match d {
        DiagonalDirection::Right => 0,
        DiagonalDirection::TopRight => 1,
        DiagonalDirection::TopLeft => 2,
        DiagonalDirection::Left => 3,
        DiagonalDirection::BottomLeft => 4,
        DiagonalDirection::BottomRight => 5,
    }
}

/// The diagonal direction of the given ordinal (taken modulo six).
pub open spec fn index_diag(i: int) -> DiagonalDirection {
    let k = i % 6;
    if k == 0 {
        DiagonalDirection::Right
    } else if k == 1 {
        DiagonalDirection::TopRight
    } else if k == 2 {
        DiagonalDirection::TopLeft
    } else if k == 3 {
        DiagonalDirection::Left
    } else if k == 4 {
        DiagonalDirection::BottomLeft
    } else {
        DiagonalDirection::BottomRight
    }
}

/// The fixed offset of a diagonal direction.
pub open spec fn diag_offset(d: DiagonalDirection) -> Hex {
    match d {
        DiagonalDirection::Right => Hex { x: 2i32, y: -1i32 },
        DiagonalDirection::TopRight => Hex { x: 1i32, y: -2i32 },
        DiagonalDirection::TopLeft => Hex { x: -1i32, y: -1i32 },
        DiagonalDirection::Left => Hex { x: -2i32, y: 1i32 },
        DiagonalDirection::BottomLeft => Hex { x: -1i32, y: 2i32 },
        DiagonalDirection::BottomRight => Hex { x: 1i32, y: 1i32 },
    }
}

impl DiagonalDirection {
    /// The ordinal of `self` in the diagonal offset table.
    pub fn index(self) -> (r: usize)
        ensures
            r == diag_index(self),
    {
        match self {
            DiagonalDirection::Right => 0,
            DiagonalDirection::TopRight => 1,
            DiagonalDirection::TopLeft => 2,
            DiagonalDirection::Left => 3,
            DiagonalDirection::BottomLeft => 4,
            DiagonalDirection::BottomRight => 5,
        }
    }

    /// The opposite diagonal: three places further in table order.
    pub fn const_neg(self) -> (r: Self)
        ensures
            r == index_diag(diag_index(self) + 3),
    {
        match self {
            DiagonalDirection::Right => DiagonalDirection::Left,
            DiagonalDirection::TopRight => DiagonalDirection::BottomLeft,
            DiagonalDirection::TopLeft => DiagonalDirection::BottomRight,
            DiagonalDirection::Left => DiagonalDirection::Right,
            DiagonalDirection::BottomLeft => DiagonalDirection::TopRight,
            DiagonalDirection::BottomRight => DiagonalDirection::TopLeft,
        }
    }

    /// All 6 diagonal directions, in table order.
    pub fn all_diagonal_directions() -> (r: [DiagonalDirection; 6])
        ensures
            forall|i: int| 0 <= i < 6 ==> r[i] == index_diag(i),
    {
        let r = [
            DiagonalDirection::Right,
            DiagonalDirection::TopRight,
            DiagonalDirection::TopLeft,
            DiagonalDirection::Left,
            DiagonalDirection::BottomLeft,
            DiagonalDirection::BottomRight,
        ];
        assert(forall|i: int| 0 <= i < 6 ==> r[i] == index_diag(i)) by {
            assert(r[0] == index_diag(0));
            assert(r[1] == index_diag(1));
            assert(r[2] == index_diag(2));
            assert(r[3] == index_diag(3));
            assert(r[4] == index_diag(4));
            assert(r[5] == index_diag(5));
        }
        r
    }
}

} // verus!
