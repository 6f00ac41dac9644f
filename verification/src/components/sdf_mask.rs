use vstd::prelude::*;

verus! {

/// The shape of the mask; its id is the number the shader knows it by.
#[derive(Debug, Clone, Copy, PartialEq, Eq, Structural)]
pub enum SdfPattern {
    Box,
    Circle,
    Heart,
}

impl SdfPattern {
    /// The id of each pattern: its position in the declaration.
    pub open spec fn id_spec(self) -> u32 {
        match self {
            SdfPattern::Box => 0,
            SdfPattern::Circle => 1,
            SdfPattern::Heart => 2,
        }
    }

    /// Each pattern has the id of its place in the declaration, so
    /// different patterns have different ids.
    pub proof fn lemma_ids_follow_declaration(a: SdfPattern, b: SdfPattern)
        ensures
            a == SdfPattern::Box ==> a.id_spec() == 0,
            a == SdfPattern::Circle ==> a.id_spec() == 1,
            a == SdfPattern::Heart ==> a.id_spec() == 2,
            a.id_spec() == b.id_spec() ==> a == b,
    {
    }

    pub fn id(&self) -> (id: u32)
        ensures
            id == self.id_spec(),
            *self == SdfPattern::Box ==> id == 0,
            *self == SdfPattern::Circle ==> id == 1,
            *self == SdfPattern::Heart ==> id == 2,
    {
        match self {
            SdfPattern::Box => 0,
            SdfPattern::Circle => 1,
            SdfPattern::Heart => 2,
        }
    }
}

} // verus!
