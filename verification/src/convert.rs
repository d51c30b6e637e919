//! Conversions to glam's integer vector types.

use vstd::prelude::*;
use crate::hex::Hex;

verus! {

/// glam's 2-component integer vector; its public `x` and `y` fields are
/// visible to the verifier.
#[verifier::external_type_specification]
pub struct ExIVec2(glam::IVec2);

/// glam's 3-component integer vector; its public `x`, `y` and `z`
/// fields are visible to the verifier.
#[verifier::external_type_specification]
pub struct ExIVec3(glam::IVec3);

impl Hex {
    /// Converts `self` to a [`glam::IVec2`].
    /// This operation is a direct mapping of coordinates, no hex to
    /// square coordinate conversion is performed.
    pub fn as_ivec2(self) -> (r: glam::IVec2)
        ensures
            r.x == self.x,
            r.y == self.y,
    {
        glam::IVec2 { x: self.x, y: self.y }
    }

    /// Converts `self` to a [`glam::IVec3`] using cubic coordinates.
    /// This operation is a direct mapping of coordinates.
    pub fn as_ivec3(self) -> (r: glam::IVec3)
        requires
            self.has_z(),
        ensures
            r.x == self.x,
            r.y == self.y,
            r.z == self.z_int(),
    {
        glam::IVec3 { x: self.x, y: self.y, z: self.z() }
    }
}

} // verus!
