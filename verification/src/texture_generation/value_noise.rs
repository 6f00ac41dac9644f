use vstd::prelude::*;

use crate::texture_generation::workgroup_count;

verus! {

/// Generates value noise of `octaves` octaves into a square texture.
pub struct ValueNoise {
    pub texture_size: u32,
    pub octaves: u32,
}

impl ValueNoise {
    /// The workgroups which the compute pass dispatches along each side.
    pub fn workgroups(&self) -> (n: u32)
        ensures
            n * crate::texture_generation::WORKGROUP_SIZE >= self.texture_size,
            n * crate::texture_generation::WORKGROUP_SIZE < self.texture_size
                + crate::texture_generation::WORKGROUP_SIZE,
    {
        workgroup_count(self.texture_size)
    }
}

} // verus!
