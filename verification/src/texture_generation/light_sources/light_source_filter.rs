use vstd::prelude::*;

verus! {

/// The step which filters the light sources out of a texture.
pub struct LightSourceFilter {}

} // verus!
