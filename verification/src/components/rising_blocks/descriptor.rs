use vstd::prelude::*;

verus! {

/// The easing of the rising blocks, named after the shader function which
/// implements it.
#[derive(Debug, Clone, Copy, PartialEq, Eq, Structural)]
pub enum RisingBlocksEasing {
    InSine,
    OutSine,
    InOutSine,
    InCubic,
    OutCubic,
    InOutCubic,
}

impl RisingBlocksEasing {
    /// The name of the easing function in the shader.
    pub open spec fn name(self) -> Seq<char> {
        match self {
            Self::InSine => "in_sine"@,
            Self::OutSine => "out_sine"@,
            Self::InOutSine => "in_out_sine"@,
            Self::InCubic => "in_cubic"@,
            Self::OutCubic => "out_cubic"@,
            Self::InOutCubic => "in_out_cubic"@,
        }
    }

    pub fn as_str(&self) -> (s: &'static str)
        ensures
            s@ == self.name(),
            *self == RisingBlocksEasing::InSine ==> s@ == "in_sine"@,
            *self == RisingBlocksEasing::OutSine ==> s@ == "out_sine"@,
            *self == RisingBlocksEasing::InOutSine ==> s@ == "in_out_sine"@,
            *self == RisingBlocksEasing::InCubic ==> s@ == "in_cubic"@,
            *self == RisingBlocksEasing::OutCubic ==> s@ == "out_cubic"@,
            *self == RisingBlocksEasing::InOutCubic ==> s@ == "in_out_cubic"@,
    {
        match self {
            Self::InSine => "in_sine",
            Self::OutSine => "out_sine",
            Self::InOutSine => "in_out_sine",
            Self::InCubic => "in_cubic",
            Self::OutCubic => "out_cubic",
            Self::InOutCubic => "in_out_cubic",
        }
    }
}

} // verus!
