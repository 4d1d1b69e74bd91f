//! What the window's renderer is told about the graphics device.

use vstd::prelude::*;

verus! {

/// The shader dialects that the renderer can be set up with.
#[derive(Clone, Copy, Debug, PartialEq, Eq, Structural)]
pub enum ShaderProfile {
    /// Desktop, version 4.0 and later.
    GlSl400,
    /// Desktop, version 3.2 and later.
    GlSl150,
    /// Desktop, version 3.0 and later.
    GlSl130,
    /// Desktop, version 2.0 and later.
    GlSl110,
    /// Embedded, version 3.0 and later.
    GlSlEs300,
    /// Embedded, version 2.0 and later.
    GlSlEs100,
}

/// The newest dialect that a device of the given shading-language version
/// understands.
pub open spec fn shader_profile(is_embedded: bool, major: u32, minor: u32) -> ShaderProfile {
    if is_embedded {
        if major >= 3 {
            ShaderProfile::GlSlEs300
        } else {
            ShaderProfile::GlSlEs100
        }
    } else if major >= 4 {
        ShaderProfile::GlSl400
    } else if major == 3 && minor >= 2 {
        ShaderProfile::GlSl150
    } else if major == 3 {
        ShaderProfile::GlSl130
    } else {
        ShaderProfile::GlSl110
    }
}

/// Picks the shader dialect for a device from its shading-language version.
pub fn select_shaders(is_embedded: bool, major: u32, minor: u32) -> (profile: ShaderProfile)
    ensures
        profile == shader_profile(is_embedded, major, minor),
{
    if is_embedded {
        if major >= 3 {
            ShaderProfile::GlSlEs300
        } else {
            ShaderProfile::GlSlEs100
        }
    } else if major >= 4 {
        ShaderProfile::GlSl400
    } else if major >= 3 {
        if minor >= 2 {
            ShaderProfile::GlSl150
        } else {
            ShaderProfile::GlSl130
        }
    } else {
        ShaderProfile::GlSl110
    }
}

} // verus!
