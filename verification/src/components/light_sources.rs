use vstd::prelude::*;

verus! {

/// The amount of bars of the light-sources wallpaper: one bar for all
/// sources when they pulse uniformly, else one per source (cut to 16 bits).
pub fn amount_bars(uniform_pulse: bool, amount_sources: usize) -> (n: u16)
    requires
        !uniform_pulse ==> amount_sources as u16 != 0,
    ensures
        n > 0,
        n == if uniform_pulse {
            1
        } else {
            amount_sources as u16
        },
{
    if uniform_pulse {
        1u16
    } else {
        amount_sources as u16
    }
}

/// The fragment entrypoint: the debug view draws the sources as full circles.
pub fn fragment_entrypoint(debug_sources: bool) -> (s: &'static str)
    ensures
        s@ == (if debug_sources {
            "debug"@
        } else {
            "main"@
        }),
{
    if debug_sources {
        "debug"
    } else {
        "main"
    }
}

} // verus!
