use vstd::prelude::*;

verus! {

/// Entrypoints of the fragment shader of the bars.
#[derive(Debug, Clone, Copy, PartialEq, Eq, Structural)]
pub enum FragmentEntrypoint {
    Color,
    Presence,
    HorizontalGradient,
    VerticalGradient,
}

impl FragmentEntrypoint {
    pub open spec fn name(self) -> Seq<char> {
        match self {
            FragmentEntrypoint::Color => "fs_color"@,
            FragmentEntrypoint::Presence => "fs_presence"@,
            FragmentEntrypoint::HorizontalGradient => "fs_horizontal_gradient"@,
            FragmentEntrypoint::VerticalGradient => "fs_vertical_gradient"@,
        }
    }

    pub fn as_str(&self) -> (s: &'static str)
        ensures
            s@ == self.name(),
            *self == FragmentEntrypoint::Color ==> s@ == "fs_color"@,
            *self == FragmentEntrypoint::Presence ==> s@ == "fs_presence"@,
            *self == FragmentEntrypoint::HorizontalGradient ==> s@ == "fs_horizontal_gradient"@,
            *self == FragmentEntrypoint::VerticalGradient ==> s@ == "fs_vertical_gradient"@,
    {
        match self {
            FragmentEntrypoint::Color => "fs_color",
            FragmentEntrypoint::Presence => "fs_presence",
            FragmentEntrypoint::HorizontalGradient => "fs_horizontal_gradient",
            FragmentEntrypoint::VerticalGradient => "fs_vertical_gradient",
        }
    }
}

/// The order of the frequencies along the bars.
#[derive(Debug, Clone, Copy, Default, PartialEq, Eq, Structural)]
pub enum BarsFormat {
    #[default]
    BassTreble,
    TrebleBass,
    TrebleBassTreble,
    BassTrebleBass,
}

impl BarsFormat {
    /// Whether the bars are drawn twice, mirrored, one audio channel each.
    pub open spec fn is_mirrored(self) -> bool {
        self == BarsFormat::TrebleBassTreble || self == BarsFormat::BassTrebleBass
    }

    /// The vertex entrypoint of the left bars: the format's first frequency
    /// comes first.
    pub fn left_entrypoint(&self) -> (s: &'static str)
        ensures
            s@ == (if *self == BarsFormat::BassTreble || *self == BarsFormat::BassTrebleBass {
                "bass_treble"@
            } else {
                "treble_bass"@
            }),
    {
        match self {
            BarsFormat::BassTreble | BarsFormat::BassTrebleBass => "bass_treble",
            BarsFormat::TrebleBass | BarsFormat::TrebleBassTreble => "treble_bass",
        }
    }

    /// The vertex entrypoint of the right bars of a mirrored format, the
    /// reverse of the left one.
    pub fn right_entrypoint(&self) -> (s: Option<&'static str>)
        ensures
            s is Some <==> self.is_mirrored(),
            *self == BarsFormat::TrebleBassTreble ==> (s matches Some(n) && n@ == "bass_treble"@),
            *self == BarsFormat::BassTrebleBass ==> (s matches Some(n) && n@ == "treble_bass"@),
            *self == BarsFormat::BassTreble || *self == BarsFormat::TrebleBass ==> s is None,
    {
        match self {
            BarsFormat::TrebleBass | BarsFormat::BassTreble => None,
            BarsFormat::TrebleBassTreble => Some("bass_treble"),
            BarsFormat::BassTrebleBass => Some("treble_bass"),
        }
    }
}

/// The extent which the bars span: the side of the screen they stand on, or
/// a custom amount of pixels.
#[derive(Debug, Clone, Copy, PartialEq, Eq, Structural)]
pub enum BarsWidth {
    ScreenWidth,
    ScreenHeight,
    Custom(u16),
}

impl BarsWidth {
    /// The width of the component in pixels at the given resolution.
    pub fn component_width(&self, new_resolution: [u32; 2]) -> (w: u32)
        ensures
            w == match *self {
                BarsWidth::ScreenWidth => new_resolution[0],
                BarsWidth::ScreenHeight => new_resolution[1],
                BarsWidth::Custom(custom) => custom as u32,
            },
    {
        match self {
            BarsWidth::ScreenWidth => new_resolution[0],
            BarsWidth::ScreenHeight => new_resolution[1],
            BarsWidth::Custom(custom) => *custom as u32,
        }
    }
}

/// The kind of a bar variant, without its colors.
#[derive(Debug, Clone, Copy, PartialEq, Eq, Structural)]
pub enum BarVariantKind {
    Color,
    PresenceGradient,
    HorizontalGradient,
    VerticalGradient,
}

impl BarVariantKind {
    /// The fragment entrypoint which draws the variant.
    pub fn fragment_entrypoint(&self) -> (e: FragmentEntrypoint)
        ensures
            e == match *self {
                BarVariantKind::Color => FragmentEntrypoint::Color,
                BarVariantKind::PresenceGradient => FragmentEntrypoint::Presence,
                BarVariantKind::HorizontalGradient => FragmentEntrypoint::HorizontalGradient,
                BarVariantKind::VerticalGradient => FragmentEntrypoint::VerticalGradient,
            },
    {
        match self {
            BarVariantKind::Color => FragmentEntrypoint::Color,
            BarVariantKind::PresenceGradient => FragmentEntrypoint::Presence,
            BarVariantKind::HorizontalGradient => FragmentEntrypoint::HorizontalGradient,
            BarVariantKind::VerticalGradient => FragmentEntrypoint::VerticalGradient,
        }
    }
}

/// Where the bars stand, without the position and rotation of a custom
/// placement.
#[derive(Debug, Clone, Copy, PartialEq, Eq, Structural)]
pub enum BarsPlacementKind {
    Custom { width: u16, height_mirrored: bool },
    Bottom,
    Top,
    Right,
    Left,
}

/// The flag values which the vertex shader reads.
pub const TRUE: u32 = 1;
pub const FALSE: u32 = 0;

impl BarsPlacementKind {
    /// Bars along the bottom or top span the screen width, along the sides the
    /// screen height, and a custom placement its own width.
    pub fn width(&self) -> (w: BarsWidth)
        ensures
            w == match *self {
                BarsPlacementKind::Bottom | BarsPlacementKind::Top => BarsWidth::ScreenWidth,
                BarsPlacementKind::Right | BarsPlacementKind::Left => BarsWidth::ScreenHeight,
                BarsPlacementKind::Custom { width, .. } => BarsWidth::Custom(width),
            },
    {
        match self {
            BarsPlacementKind::Bottom | BarsPlacementKind::Top => BarsWidth::ScreenWidth,
            BarsPlacementKind::Right | BarsPlacementKind::Left => BarsWidth::ScreenHeight,
            BarsPlacementKind::Custom { width, .. } => BarsWidth::Custom(*width),
        }
    }

    /// Whether the bars grow both ways, as the shader's flag: only a custom
    /// placement can ask for it.
    pub fn height_mirrored(&self) -> (flag: u32)
        ensures
            flag == match *self {
                BarsPlacementKind::Custom { height_mirrored, .. } => if height_mirrored {
                    TRUE
                } else {
                    FALSE
                },
                _ => FALSE,
            },
    {
        match self {
            BarsPlacementKind::Custom { height_mirrored, .. } => if *height_mirrored {
                TRUE
            } else {
                FALSE
            },
            _ => FALSE,
        }
    }
}

} // verus!
