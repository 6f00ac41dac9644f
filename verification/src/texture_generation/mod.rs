//! Descriptions of the helper-textures which are generated for the components.
pub mod light_sources;
pub mod sdf_mask;
pub mod value_noise;

use vstd::prelude::*;

verus! {

/// The side length, in texels, of the square which one workgroup of the
/// texture generating compute shaders covers.
pub const WORKGROUP_SIZE: u32 = 16;

/// A simple type wrapper for size.
#[derive(Debug, Clone)]
pub struct Size {
    /// Width in pixel.
    pub width: u32,
    /// Height in pixel.
    pub height: u32,
}

/// The amount of workgroups which cover `texels` texels along one side:
/// `texels / WORKGROUP_SIZE`, rounded up.
pub fn workgroup_count(texels: u32) -> (n: u32)
    ensures
        n * WORKGROUP_SIZE >= texels,
        n * WORKGROUP_SIZE < texels + WORKGROUP_SIZE,
{
    texels / WORKGROUP_SIZE + if texels % WORKGROUP_SIZE == 0 {
        0
    } else {
        1
    }
}

} // verus!
