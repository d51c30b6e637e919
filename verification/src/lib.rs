//! Hexagonal coordinate algebra: axial/cubic integer coordinates with
//! distance, adjacency, rotation, reflection, line drawing, range
//! enumeration and toroidal wraparound.

pub mod area;
pub mod convert;
pub mod direction;
pub mod hex;
pub mod line;
pub mod metric;
pub mod transform;
pub mod wrap;

pub use direction::Direction;
pub use direction::DiagonalDirection;
pub use hex::Hex;
