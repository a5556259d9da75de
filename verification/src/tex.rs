//! Texture and surface interface values consumed by the device layer: format
//! negotiation lives outside this core and is reached only through these
//! types.

use vstd::prelude::*;

verus! {

/// Describes an off-screen surface to be created.
#[derive(Clone, Copy, PartialEq, Eq, Debug)]
pub struct SurfaceInfo {
    /// Width in texels.
    pub width: u16,
    /// Height in texels.
    pub height: u16,
}

/// Describes a texture to be created.
#[derive(Clone, Copy, PartialEq, Eq, Debug)]
pub struct TextureInfo {
    /// Width in texels.
    pub width: u16,
    /// Height in texels.
    pub height: u16,
    /// Depth in texels.
    pub depth: u16,
    /// Number of mipmap levels.
    pub levels: u8,
}

/// Describes one region of a texture image for an update.
#[derive(Clone, Copy, PartialEq, Eq, Debug)]
pub struct ImageInfo {
    /// First texel along the width axis.
    pub xoffset: u16,
    /// First texel along the height axis.
    pub yoffset: u16,
    /// First texel along the depth axis.
    pub zoffset: u16,
    /// Width of the region in texels.
    pub width: u16,
    /// Height of the region in texels.
    pub height: u16,
    /// Depth of the region in texels.
    pub depth: u16,
    /// Mipmap level the region belongs to.
    pub mipmap: u8,
}

/// How a texture is sampled.
#[derive(Clone, Copy, PartialEq, Eq, Debug)]
pub enum FilterMethod {
    /// Nearest-texel lookup.
    Scale,
    /// Linear interpolation between texels.
    Bilinear,
    /// Linear interpolation between texels and mipmap levels.
    Trilinear,
}

/// Describes a sampler to be created.
#[derive(Clone, Copy, PartialEq, Eq, Debug)]
pub struct SamplerInfo {
    /// The filtering to apply.
    pub filtering: FilterMethod,
}

/// Why creating a surface failed.
#[derive(Clone, Copy, PartialEq, Eq, Debug)]
pub enum SurfaceError {
    /// The backend cannot represent the requested format.
    UnsupportedFormat,
}

/// Why creating or updating a texture failed.
#[derive(Clone, Copy, PartialEq, Eq, Debug)]
pub enum TextureError {
    /// The backend cannot represent the requested format.
    UnsupportedFormat,
    /// The update region does not fit the texture.
    InvalidRegion,
}

} // verus!
