pub mod bars;
pub mod graph;
pub mod light_sources;
pub mod radial;
pub mod rising_blocks;
pub mod sdf_mask;
pub mod utils;

use vstd::prelude::*;
use vstd::string::StringExecFns;

verus! {

/// The message of a shader which could not be parsed.
pub type ParseErrorMsg = String;

/// Shader code written by the user, in one of the supported languages.
#[derive(Debug, Clone)]
pub enum ShaderCode {
    Wgsl(String),
    Glsl(String),
}

/// The full code of a fragment shader: the preamble, then the user's code.
pub open spec fn full_fragment_code(preamble: Seq<char>, code: Seq<char>) -> Seq<char> {
    preamble + code
}

/// Puts the preamble in front of the user's fragment code; the result is
/// the source that is handed to the shader parser.
pub fn fragment_source(preamble: &str, code: &str) -> (full_code: String)
    ensures
        full_code@ == full_fragment_code(preamble@, code@),
{
    broadcast use vstd::string::to_string_from_display_ensures_for_str;

    let mut full_code = preamble.to_string();
    full_code.append(code);
    full_code
}

} // verus!
