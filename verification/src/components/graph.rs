use vstd::prelude::*;

verus! {

/// Entrypoints of the vertex shader of the graph.
#[derive(Debug, Clone, Copy, PartialEq, Eq, Structural)]
pub enum VertexEntrypoint {
    BassTreble,
    TrebleBass,
}

impl VertexEntrypoint {
    pub open spec fn name(self) -> Seq<char> {
        match self {
            VertexEntrypoint::BassTreble => "bass_treble"@,
            VertexEntrypoint::TrebleBass => "treble_bass"@,
        }
    }

    pub fn as_str(&self) -> (s: &'static str)
        ensures
            s@ == self.name(),
            *self == VertexEntrypoint::BassTreble ==> s@ == "bass_treble"@,
            *self == VertexEntrypoint::TrebleBass ==> s@ == "treble_bass"@,
    {
        match self {
            VertexEntrypoint::BassTreble => "bass_treble",
            VertexEntrypoint::TrebleBass => "treble_bass",
        }
    }
}

/// Entrypoints of the fragment shader of the graph.
#[derive(Debug, Clone, Copy, PartialEq, Eq, Structural)]
pub enum FragmentEntrypoint {
    Color,
    HorizontalGradient,
    VerticalGradient,
}

impl FragmentEntrypoint {
    pub open spec fn name(self) -> Seq<char> {
        match self {
            FragmentEntrypoint::Color => "color"@,
            FragmentEntrypoint::HorizontalGradient => "horizontal_gradient"@,
            FragmentEntrypoint::VerticalGradient => "vertical_gradient"@,
        }
    }

    pub fn as_str(&self) -> (s: &'static str)
        ensures
            s@ == self.name(),
            *self == FragmentEntrypoint::Color ==> s@ == "color"@,
            *self == FragmentEntrypoint::HorizontalGradient ==> s@ == "horizontal_gradient"@,
            *self == FragmentEntrypoint::VerticalGradient ==> s@ == "vertical_gradient"@,
    {
        match self {
            FragmentEntrypoint::Color => "color",
            FragmentEntrypoint::HorizontalGradient => "horizontal_gradient",
            FragmentEntrypoint::VerticalGradient => "vertical_gradient",
        }
    }
}

/// The order of the frequencies along the graph.
#[derive(Debug, Clone, Copy, PartialEq, Eq, Structural)]
pub enum GraphFormat {
    BassTreble,
    TrebleBass,
    BassTrebleBass,
    TrebleBassTreble,
}

impl GraphFormat {
    /// Whether the graph is drawn twice, mirrored, one audio channel each.
    pub open spec fn is_mirrored(self) -> bool {
        self == GraphFormat::BassTrebleBass || self == GraphFormat::TrebleBassTreble
    }

    /// The vertex entrypoint of the (left) graph: the format's first
    /// frequency comes first.
    pub fn left_entrypoint(&self) -> (e: VertexEntrypoint)
        ensures
            e == (if *self == GraphFormat::BassTreble || *self == GraphFormat::BassTrebleBass {
                VertexEntrypoint::BassTreble
            } else {
                VertexEntrypoint::TrebleBass
            }),
    {
        match self {
            GraphFormat::BassTreble | GraphFormat::BassTrebleBass => VertexEntrypoint::BassTreble,
            GraphFormat::TrebleBass | GraphFormat::TrebleBassTreble => VertexEntrypoint::TrebleBass,
        }
    }

    /// The vertex entrypoint of the right graph of a mirrored format, the
    /// reverse of the left one.
    pub fn right_entrypoint(&self) -> (e: Option<VertexEntrypoint>)
        ensures
            e is Some <==> self.is_mirrored(),
            *self == GraphFormat::BassTrebleBass ==> e == Some(VertexEntrypoint::TrebleBass),
            *self == GraphFormat::TrebleBassTreble ==> e == Some(VertexEntrypoint::BassTreble),
            // a format that is not mirrored draws a single graph
            *self == GraphFormat::BassTreble || *self == GraphFormat::TrebleBass ==> e is None,
            // the right graph runs the other way round than the left one
            e matches Some(r) ==> r != (if *self == GraphFormat::BassTreble || *self
                == GraphFormat::BassTrebleBass {
                VertexEntrypoint::BassTreble
            } else {
                VertexEntrypoint::TrebleBass
            }),
    {
        match self {
            GraphFormat::BassTreble | GraphFormat::TrebleBass => None,
            GraphFormat::BassTrebleBass => Some(VertexEntrypoint::TrebleBass),
            GraphFormat::TrebleBassTreble => Some(VertexEntrypoint::BassTreble),
        }
    }
}

/// Only the two formats with three parts draw a second, mirrored graph.
pub proof fn lemma_graph_mirrored_formats(format: GraphFormat)
    ensures
        format.is_mirrored() <==> (format == GraphFormat::BassTrebleBass || format
            == GraphFormat::TrebleBassTreble),
        !format.is_mirrored() <==> (format == GraphFormat::BassTreble || format
            == GraphFormat::TrebleBass),
{
}

/// The amount of bars of a graph which is placed along a side of the screen
/// follows the screen; a custom placement fixes it.
#[derive(Debug, Clone, Copy, PartialEq, Eq, Structural)]
pub enum GraphAmountBars {
    ScreenWidth,
    ScreenHeight,
    /// In pixels; never zero.
    Custom(u16),
}

/// The amount of bars before the resolution of the screen is known.
pub const DEFAULT_AMOUNT_BARS: u16 = 128;

impl GraphAmountBars {
    /// A custom amount is never zero.
    pub open spec fn wf(self) -> bool {
        self matches GraphAmountBars::Custom(n) ==> n > 0
    }

    pub fn get(&self) -> (n: u16)
        requires
            self.wf(),
        ensures
            n > 0,
            n == match *self {
                GraphAmountBars::Custom(c) => c,
                _ => DEFAULT_AMOUNT_BARS,
            },
    {
        match self {
            GraphAmountBars::ScreenWidth | GraphAmountBars::ScreenHeight => DEFAULT_AMOUNT_BARS,
            GraphAmountBars::Custom(non_zero) => *non_zero,
        }
    }

    /// The amount of bars at the given resolution: one bar per pixel along the
    /// side of the screen (cut to 16 bits), or the custom amount.
    pub fn amount_for_resolution(&self, new_resolution: [u32; 2]) -> (n: u16)
        requires
            self.wf(),
            *self == GraphAmountBars::ScreenWidth ==> new_resolution[0] as u16 != 0,
            *self == GraphAmountBars::ScreenHeight ==> new_resolution[1] as u16 != 0,
        ensures
            n > 0,
            n == match *self {
                GraphAmountBars::ScreenWidth => new_resolution[0] as u16,
                GraphAmountBars::ScreenHeight => new_resolution[1] as u16,
                GraphAmountBars::Custom(c) => c,
            },
    {
        match self {
            GraphAmountBars::ScreenWidth => new_resolution[0] as u16,
            GraphAmountBars::ScreenHeight => new_resolution[1] as u16,
            GraphAmountBars::Custom(amount) => *amount,
        }
    }
}

/// The kind of a graph variant, without its colors.
#[derive(Debug, Clone, Copy, PartialEq, Eq, Structural)]
pub enum GraphVariantKind {
    Color,
    HorizontalGradient,
    VerticalGradient,
}

impl GraphVariantKind {
    /// The fragment entrypoint which draws the variant.
    pub fn fragment_entrypoint(&self) -> (e: FragmentEntrypoint)
        ensures
            e == match *self {
                GraphVariantKind::Color => FragmentEntrypoint::Color,
                GraphVariantKind::HorizontalGradient => FragmentEntrypoint::HorizontalGradient,
                GraphVariantKind::VerticalGradient => FragmentEntrypoint::VerticalGradient,
            },
    {
        match self {
            GraphVariantKind::Color => FragmentEntrypoint::Color,
            GraphVariantKind::HorizontalGradient => FragmentEntrypoint::HorizontalGradient,
            GraphVariantKind::VerticalGradient => FragmentEntrypoint::VerticalGradient,
        }
    }
}

/// Where the graph stands, without the position and rotation of a custom
/// placement.
#[derive(Debug, Clone, Copy, PartialEq, Eq, Structural)]
pub enum GraphPlacementKind {
    Bottom,
    Top,
    Right,
    Left,
    /// The amount of bars is never zero.
    Custom { amount_bars: u16 },
}

impl GraphPlacementKind {
    /// A custom amount of bars is never zero.
    pub open spec fn wf(self) -> bool {
        self matches GraphPlacementKind::Custom { amount_bars } ==> amount_bars > 0
    }

    /// A graph along the bottom or top gets one bar per pixel of the screen
    /// width, along the sides per pixel of the screen height, and a custom
    /// placement its own amount.
    pub fn amount_bars(&self) -> (a: GraphAmountBars)
        requires
            self.wf(),
        ensures
            a.wf(),
            a == match *self {
                GraphPlacementKind::Bottom | GraphPlacementKind::Top => GraphAmountBars::ScreenWidth,
                GraphPlacementKind::Right | GraphPlacementKind::Left => GraphAmountBars::ScreenHeight,
                GraphPlacementKind::Custom { amount_bars } => GraphAmountBars::Custom(amount_bars),
            },
    {
        match self {
            GraphPlacementKind::Bottom | GraphPlacementKind::Top => GraphAmountBars::ScreenWidth,
            GraphPlacementKind::Right | GraphPlacementKind::Left => GraphAmountBars::ScreenHeight,
            GraphPlacementKind::Custom { amount_bars } => GraphAmountBars::Custom(*amount_bars),
        }
    }
}

} // verus!
