use vstd::prelude::*;

verus! {

/// Entrypoints for the vertex shader of the radial.
#[derive(Debug, Clone, Copy, PartialEq, Eq, Structural)]
pub enum VertexEntrypoint {
    BassTreble,
    TrebleBass,
}

impl VertexEntrypoint {
    pub open spec fn name(self) -> Seq<char> {
        match self {
            Self::BassTreble => "bass_treble"@,
            Self::TrebleBass => "treble_bass"@,
        }
    }

    pub fn as_str(&self) -> (s: &'static str)
        ensures
            s@ == self.name(),
            *self == VertexEntrypoint::BassTreble ==> s@ == "bass_treble"@,
            *self == VertexEntrypoint::TrebleBass ==> s@ == "treble_bass"@,
    {
        match self {
            Self::BassTreble => "bass_treble",
            Self::TrebleBass => "treble_bass",
        }
    }
}

/// Entrypoints for the fragment shader of the radial.
#[derive(Debug, Clone, Copy, PartialEq, Eq, Structural)]
pub enum FragmentEntrypoint {
    Color,
    HeightGradient,
}

impl FragmentEntrypoint {
    pub open spec fn name(self) -> Seq<char> {
        match self {
            Self::Color => "fs_color"@,
            Self::HeightGradient => "fs_height_gradient"@,
        }
    }

    pub fn as_str(&self) -> (s: &'static str)
        ensures
            s@ == self.name(),
            *self == FragmentEntrypoint::Color ==> s@ == "fs_color"@,
            *self == FragmentEntrypoint::HeightGradient ==> s@ == "fs_height_gradient"@,
    {
        match self {
            Self::Color => "fs_color",
            Self::HeightGradient => "fs_height_gradient",
        }
    }
}

/// How much of the circle one audio channel covers.
#[derive(Debug, Clone, Copy, PartialEq, Eq, Structural)]
pub enum CirclePart {
    Half,
    Full,
}

/// The direction in which the bars of one half are laid out.
#[derive(Debug, Clone, Copy, PartialEq, Eq, Structural)]
pub enum Direction {
    /// Clock wise (for left side)
    Cw,
    /// Counter-clock wise (for right side)
    Ccw,
}

/// The order of the frequencies around the circle.
#[derive(Debug, Clone, Copy, PartialEq, Eq, Structural)]
pub enum RadialFormat {
    BassTreble,
    TrebleBass,
    BassTrebleBass,
    TrebleBassTreble,
}

impl RadialFormat {
    /// Whether both halves of the circle are drawn, one audio channel each.
    pub open spec fn is_mirrored(self) -> bool {
        self == RadialFormat::BassTrebleBass || self == RadialFormat::TrebleBassTreble
    }

    /// A mirrored format gives each audio channel half of the circle.
    pub fn circle_part(&self) -> (p: CirclePart)
        ensures
            p == (if self.is_mirrored() {
                CirclePart::Half
            } else {
                CirclePart::Full
            }),
            p == (if *self == RadialFormat::BassTrebleBass || *self
                == RadialFormat::TrebleBassTreble {
                CirclePart::Half
            } else {
                CirclePart::Full
            }),
    {
        match self {
            RadialFormat::BassTreble | RadialFormat::TrebleBass => CirclePart::Full,
            RadialFormat::TrebleBassTreble | RadialFormat::BassTrebleBass => CirclePart::Half,
        }
    }

    /// The vertex entrypoint of the left half. The bars of the left half are
    /// laid out from the middle of the circle, so a mirrored format starts
    /// with its middle frequency.
    pub fn left_entrypoint(&self) -> (e: VertexEntrypoint)
        ensures
            e == (if *self == RadialFormat::BassTreble || *self == RadialFormat::TrebleBassTreble {
                VertexEntrypoint::BassTreble
            } else {
                VertexEntrypoint::TrebleBass
            }),
            e == self.left_entrypoint_spec(),
    {
        match self {
            RadialFormat::BassTreble => VertexEntrypoint::BassTreble,
            RadialFormat::TrebleBass => VertexEntrypoint::TrebleBass,
            // So, in the middle of the circle should be the treble.
            RadialFormat::BassTrebleBass => VertexEntrypoint::TrebleBass,
            // same as `RadialFormat::BassTrebleBass`
            RadialFormat::TrebleBassTreble => VertexEntrypoint::BassTreble,
        }
    }

    /// The vertex entrypoint of the right half, drawn only for a mirrored
    /// format; it starts in the middle as the left half does.
    pub fn right_entrypoint(&self) -> (e: Option<VertexEntrypoint>)
        ensures
            e is Some <==> self.is_mirrored(),
            e is Some ==> e == Some(self.left_entrypoint_spec()),
            // both halves start in the middle of the circle with the middle
            // frequency, so they mirror each other
            *self == RadialFormat::TrebleBassTreble ==> e == Some(VertexEntrypoint::BassTreble),
            *self == RadialFormat::BassTrebleBass ==> e == Some(VertexEntrypoint::TrebleBass),
            *self == RadialFormat::BassTreble || *self == RadialFormat::TrebleBass ==> e is None,
    {
        match self {
            RadialFormat::BassTrebleBass => Some(VertexEntrypoint::TrebleBass),
            RadialFormat::TrebleBassTreble => Some(VertexEntrypoint::BassTreble),
            RadialFormat::BassTreble | RadialFormat::TrebleBass => None,
        }
    }

    /// The entrypoint that `left_entrypoint` returns.
    pub open spec fn left_entrypoint_spec(self) -> VertexEntrypoint {
        if self == RadialFormat::BassTreble || self == RadialFormat::TrebleBassTreble {
            VertexEntrypoint::BassTreble
        } else {
            VertexEntrypoint::TrebleBass
        }
    }
}

/// The two halves of a mirrored radial start with the same entrypoint, the
/// one for the format's middle frequency: bass in the middle for
/// treble-bass-treble, treble in the middle for bass-treble-bass. A format
/// that is not mirrored starts with its first frequency.
pub proof fn lemma_radial_halves_start_in_the_middle(format: RadialFormat)
    ensures
        format.is_mirrored() <==> (format == RadialFormat::BassTrebleBass || format
            == RadialFormat::TrebleBassTreble),
        format == RadialFormat::TrebleBassTreble ==> format.left_entrypoint_spec()
            == VertexEntrypoint::BassTreble,
        format == RadialFormat::BassTrebleBass ==> format.left_entrypoint_spec()
            == VertexEntrypoint::TrebleBass,
        format == RadialFormat::BassTreble ==> format.left_entrypoint_spec()
            == VertexEntrypoint::BassTreble,
        format == RadialFormat::TrebleBass ==> format.left_entrypoint_spec()
            == VertexEntrypoint::TrebleBass,
{
}

/// The kind of a radial variant, without its colors.
#[derive(Debug, Clone, Copy, PartialEq, Eq, Structural)]
pub enum RadialVariantKind {
    Color,
    HeightGradient,
}

impl RadialVariantKind {
    /// The fragment entrypoint which draws the variant.
    pub fn fragment_entrypoint(&self) -> (e: FragmentEntrypoint)
        ensures
            e == match *self {
                RadialVariantKind::Color => FragmentEntrypoint::Color,
                RadialVariantKind::HeightGradient => FragmentEntrypoint::HeightGradient,
            },
    {
        match self {
            RadialVariantKind::Color => FragmentEntrypoint::Color,
            RadialVariantKind::HeightGradient => FragmentEntrypoint::HeightGradient,
        }
    }
}

} // verus!
