use vibe_renderer::renderer::{find_adapter, AdapterCandidate};
use vibe_renderer::components::bars::{
    BarVariantKind, BarsFormat, BarsPlacementKind, BarsWidth, FragmentEntrypoint as BarsFragment,
    FALSE, TRUE,
};
use vibe_renderer::components::graph::{
    FragmentEntrypoint as GraphFragment, GraphAmountBars, GraphFormat, GraphPlacementKind,
    GraphVariantKind, VertexEntrypoint as GraphVertex,
};
use vibe_renderer::components::radial::{
    CirclePart, FragmentEntrypoint as RadialFragment, RadialFormat, RadialVariantKind,
    VertexEntrypoint as RadialVertex,
};
use vibe_renderer::components::light_sources;
use vibe_renderer::components::sdf_mask::SdfPattern;
use vibe_renderer::components::{fragment_source, ShaderCode};

#[test]
fn bars_entrypoints() {
    assert_eq!(BarsFragment::Color.as_str(), "fs_color");
    assert_eq!(BarsFragment::Presence.as_str(), "fs_presence");
    assert_eq!(BarsFragment::HorizontalGradient.as_str(), "fs_horizontal_gradient");
    assert_eq!(BarsFragment::VerticalGradient.as_str(), "fs_vertical_gradient");
    assert_eq!(BarsFormat::default(), BarsFormat::BassTreble);
    assert_eq!(BarsFormat::BassTreble.left_entrypoint(), "bass_treble");
    assert_eq!(BarsFormat::BassTrebleBass.left_entrypoint(), "bass_treble");
    assert_eq!(BarsFormat::TrebleBass.left_entrypoint(), "treble_bass");
    assert_eq!(BarsFormat::TrebleBassTreble.left_entrypoint(), "treble_bass");
    assert_eq!(BarsFormat::BassTreble.right_entrypoint(), None);
    assert_eq!(BarsFormat::TrebleBass.right_entrypoint(), None);
    assert_eq!(BarsFormat::TrebleBassTreble.right_entrypoint(), Some("bass_treble"));
    assert_eq!(BarsFormat::BassTrebleBass.right_entrypoint(), Some("treble_bass"));
}

#[test]
fn graph_entrypoints() {
    assert_eq!(GraphVertex::BassTreble.as_str(), "bass_treble");
    assert_eq!(GraphVertex::TrebleBass.as_str(), "treble_bass");
    assert_eq!(GraphFragment::Color.as_str(), "color");
    assert_eq!(GraphFragment::HorizontalGradient.as_str(), "horizontal_gradient");
    assert_eq!(GraphFragment::VerticalGradient.as_str(), "vertical_gradient");
    assert_eq!(GraphFormat::BassTrebleBass.left_entrypoint(), GraphVertex::BassTreble);
    assert_eq!(GraphFormat::TrebleBassTreble.left_entrypoint(), GraphVertex::TrebleBass);
    assert_eq!(GraphFormat::BassTrebleBass.right_entrypoint(), Some(GraphVertex::TrebleBass));
    assert_eq!(GraphFormat::TrebleBassTreble.right_entrypoint(), Some(GraphVertex::BassTreble));
    assert_eq!(GraphFormat::BassTreble.right_entrypoint(), None);
}

#[test]
fn graph_amount_bars() {
    assert_eq!(GraphAmountBars::ScreenWidth.get(), 128);
    assert_eq!(GraphAmountBars::ScreenHeight.get(), 128);
    assert_eq!(GraphAmountBars::Custom(7).get(), 7);
    assert_eq!(GraphAmountBars::ScreenWidth.amount_for_resolution([1920, 1080]), 1920);
    assert_eq!(GraphAmountBars::ScreenHeight.amount_for_resolution([1920, 1080]), 1080);
    assert_eq!(GraphAmountBars::Custom(7).amount_for_resolution([1920, 1080]), 7);
    // cut to 16 bits
    assert_eq!(GraphAmountBars::ScreenWidth.amount_for_resolution([65537, 1]), 1);
}

#[test]
fn radial_entrypoints() {
    assert_eq!(RadialVertex::BassTreble.as_str(), "bass_treble");
    assert_eq!(RadialVertex::TrebleBass.as_str(), "treble_bass");
    assert_eq!(RadialFragment::Color.as_str(), "fs_color");
    assert_eq!(RadialFragment::HeightGradient.as_str(), "fs_height_gradient");
    assert_eq!(RadialFormat::BassTreble.circle_part(), CirclePart::Full);
    assert_eq!(RadialFormat::TrebleBass.circle_part(), CirclePart::Full);
    assert_eq!(RadialFormat::BassTrebleBass.circle_part(), CirclePart::Half);
    assert_eq!(RadialFormat::TrebleBassTreble.circle_part(), CirclePart::Half);
    assert_eq!(RadialFormat::BassTrebleBass.left_entrypoint(), RadialVertex::TrebleBass);
    assert_eq!(RadialFormat::TrebleBassTreble.left_entrypoint(), RadialVertex::BassTreble);
    assert_eq!(RadialFormat::BassTrebleBass.right_entrypoint(), Some(RadialVertex::TrebleBass));
    assert_eq!(RadialFormat::TrebleBass.right_entrypoint(), None);
}

#[test]
fn sdf_pattern_ids() {
    assert_eq!(SdfPattern::Box.id(), 0);
    assert_eq!(SdfPattern::Circle.id(), 1);
    assert_eq!(SdfPattern::Heart.id(), 2);
}

#[test]
fn fragment_source_puts_the_preamble_first() {
    let preamble = "fn brightness() -> f32 { return 0.5; }\n";
    let code = "@fragment fn main() -> @location(0) vec4<f32> { return vec4<f32>(brightness()); }";
    let full = fragment_source(preamble, code);
    assert_eq!(full.len(), preamble.len() + code.len());
    assert!(full.starts_with(preamble));
    assert!(full.ends_with(code));
    assert_eq!(fragment_source("", "void main(){}"), "void main(){}");
    assert_eq!(fragment_source("#version 450\n", ""), "#version 450\n");
    assert_eq!(fragment_source("ab", "cd"), "abcd");
}

#[test]
fn shader_code_variants() {
    let code = ShaderCode::Wgsl(String::from("x"));
    match code.clone() {
        ShaderCode::Wgsl(s) => assert_eq!(s, "x"),
        ShaderCode::Glsl(_) => panic!("wrong variant"),
    }
}

#[test]
fn adapters_are_found_by_name_and_features() {
    let candidates = [
        AdapterCandidate { name: String::from("llvmpipe"), has_required_features: true },
        AdapterCandidate { name: String::from("gpu"), has_required_features: false },
        AdapterCandidate { name: String::from("gpu"), has_required_features: true },
    ];
    assert_eq!(find_adapter(&candidates, "gpu"), Some(2));
    assert_eq!(find_adapter(&candidates, "llvmpipe"), Some(0));
    assert_eq!(find_adapter(&candidates, "none"), None);
    assert_eq!(find_adapter(&[], "gpu"), None);
}

#[test]
fn variants_pick_their_fragment_entrypoint() {
    assert_eq!(BarVariantKind::Color.fragment_entrypoint(), BarsFragment::Color);
    assert_eq!(BarVariantKind::PresenceGradient.fragment_entrypoint(), BarsFragment::Presence);
    assert_eq!(
        BarVariantKind::HorizontalGradient.fragment_entrypoint().as_str(),
        "fs_horizontal_gradient"
    );
    assert_eq!(
        BarVariantKind::VerticalGradient.fragment_entrypoint().as_str(),
        "fs_vertical_gradient"
    );
    assert_eq!(GraphVariantKind::Color.fragment_entrypoint().as_str(), "color");
    assert_eq!(
        GraphVariantKind::HorizontalGradient.fragment_entrypoint(),
        GraphFragment::HorizontalGradient
    );
    assert_eq!(
        GraphVariantKind::VerticalGradient.fragment_entrypoint().as_str(),
        "vertical_gradient"
    );
    assert_eq!(RadialVariantKind::Color.fragment_entrypoint().as_str(), "fs_color");
    assert_eq!(
        RadialVariantKind::HeightGradient.fragment_entrypoint().as_str(),
        "fs_height_gradient"
    );
}

#[test]
fn bars_placement_sets_width_and_mirroring() {
    assert_eq!(BarsPlacementKind::Bottom.width(), BarsWidth::ScreenWidth);
    assert_eq!(BarsPlacementKind::Top.width(), BarsWidth::ScreenWidth);
    assert_eq!(BarsPlacementKind::Right.width(), BarsWidth::ScreenHeight);
    assert_eq!(BarsPlacementKind::Left.width(), BarsWidth::ScreenHeight);
    let custom = BarsPlacementKind::Custom { width: 300, height_mirrored: true };
    assert_eq!(custom.width(), BarsWidth::Custom(300));
    assert_eq!(custom.width().component_width([1920, 1080]), 300);
    assert_eq!(BarsPlacementKind::Left.width().component_width([1920, 1080]), 1080);
    assert_eq!(custom.height_mirrored(), TRUE);
    let plain = BarsPlacementKind::Custom { width: 300, height_mirrored: false };
    assert_eq!(plain.height_mirrored(), FALSE);
    assert_eq!(BarsPlacementKind::Bottom.height_mirrored(), 0);
    assert_eq!(BarsPlacementKind::Right.height_mirrored(), 0);
}

#[test]
fn graph_placement_sets_amount_of_bars() {
    assert_eq!(GraphPlacementKind::Bottom.amount_bars(), GraphAmountBars::ScreenWidth);
    assert_eq!(GraphPlacementKind::Top.amount_bars(), GraphAmountBars::ScreenWidth);
    assert_eq!(GraphPlacementKind::Right.amount_bars(), GraphAmountBars::ScreenHeight);
    assert_eq!(GraphPlacementKind::Left.amount_bars(), GraphAmountBars::ScreenHeight);
    let custom = GraphPlacementKind::Custom { amount_bars: 42 };
    assert_eq!(custom.amount_bars(), GraphAmountBars::Custom(42));
    assert_eq!(custom.amount_bars().get(), 42);
}

#[test]
fn light_sources_bars_and_entrypoint() {
    assert_eq!(light_sources::amount_bars(true, 7), 1);
    assert_eq!(light_sources::amount_bars(false, 7), 7);
    assert_eq!(light_sources::amount_bars(true, 0), 1);
    assert_eq!(light_sources::fragment_entrypoint(true), "debug");
    assert_eq!(light_sources::fragment_entrypoint(false), "main");
}
