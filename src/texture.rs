//! Texture targets and their parameters.

use vstd::prelude::*;
use crate::consts;

verus! {

/// A target that a texture can be bound to.
#[derive(Debug, Clone, Copy, PartialEq, Eq, Hash, Structural)]
pub enum TextureTarget {
    Texture1D,
    Texture1DArray,
    Texture2D,
    Texture2DArray,
    Texture2DMultiSample,
    Texture2DMultiSampleArray,
    Texture3D,
    TextureCubeMap,
    TextureCubeMapArray,
    TextureRectangle,
}

impl TextureTarget {
    /// The enumerant that the driver takes for this value.
    pub open spec fn spec_gl_value(self) -> u32 {
        match self {
            TextureTarget::Texture1D => consts::TEXTURE_1D,
            TextureTarget::Texture1DArray => consts::TEXTURE_1D_ARRAY,
            TextureTarget::Texture2D => consts::TEXTURE_2D,
            TextureTarget::Texture2DArray => consts::TEXTURE_2D_ARRAY,
            TextureTarget::Texture2DMultiSample => consts::TEXTURE_2D_MULTISAMPLE,
            TextureTarget::Texture2DMultiSampleArray => consts::TEXTURE_2D_MULTISAMPLE_ARRAY,
            TextureTarget::Texture3D => consts::TEXTURE_3D,
            TextureTarget::TextureCubeMap => consts::TEXTURE_CUBE_MAP,
            TextureTarget::TextureCubeMapArray => consts::TEXTURE_CUBE_MAP_ARRAY,
            TextureTarget::TextureRectangle => consts::TEXTURE_RECTANGLE,
        }
    }

    #[verifier::when_used_as_spec(spec_gl_value)]
    pub fn gl_value(self) -> (r: u32)
        ensures
            r == self.spec_gl_value(),
    {
        match self {
            TextureTarget::Texture1D => consts::TEXTURE_1D,
            TextureTarget::Texture1DArray => consts::TEXTURE_1D_ARRAY,
            TextureTarget::Texture2D => consts::TEXTURE_2D,
            TextureTarget::Texture2DArray => consts::TEXTURE_2D_ARRAY,
            TextureTarget::Texture2DMultiSample => consts::TEXTURE_2D_MULTISAMPLE,
            TextureTarget::Texture2DMultiSampleArray => consts::TEXTURE_2D_MULTISAMPLE_ARRAY,
            TextureTarget::Texture3D => consts::TEXTURE_3D,
            TextureTarget::TextureCubeMap => consts::TEXTURE_CUBE_MAP,
            TextureTarget::TextureCubeMapArray => consts::TEXTURE_CUBE_MAP_ARRAY,
            TextureTarget::TextureRectangle => consts::TEXTURE_RECTANGLE,
        }
    }
}

/// A parameter of a texture that can be set.
#[derive(Debug, Clone, Copy, PartialEq, Eq, Hash, Structural)]
pub enum TextureProp {
    DepthStencilTextureMode,
    TextureBaseLevel,
    TextureCompareFunc,
    TextureCompareMode,
    TextureLodBias,
    TextureMinFilter,
    TextureMagFilter,
    TextureMinLod,
    TextureMaxLod,
    TextureMaxLevel,
    TextureSwizzleR,
    TextureSwizzleG,
    TextureSwizzleB,
    TextureSwizzleA,
    TextureWrapS,
    TextureWrapT,
    TextureWrapR,
}

impl TextureProp {
    /// The enumerant that the driver takes for this value.
    pub open spec fn spec_gl_value(self) -> u32 {
        match self {
            TextureProp::DepthStencilTextureMode => consts::DEPTH_STENCIL_TEXTURE_MODE,
            TextureProp::TextureBaseLevel => consts::TEXTURE_BASE_LEVEL,
            TextureProp::TextureCompareFunc => consts::TEXTURE_COMPARE_FUNC,
            TextureProp::TextureCompareMode => consts::TEXTURE_COMPARE_MODE,
            TextureProp::TextureLodBias => consts::TEXTURE_LOD_BIAS,
            TextureProp::TextureMinFilter => consts::TEXTURE_MIN_FILTER,
            TextureProp::TextureMagFilter => consts::TEXTURE_MAG_FILTER,
            TextureProp::TextureMinLod => consts::TEXTURE_MIN_LOD,
            TextureProp::TextureMaxLod => consts::TEXTURE_MAX_LOD,
            TextureProp::TextureMaxLevel => consts::TEXTURE_MAX_LEVEL,
            TextureProp::TextureSwizzleR => consts::TEXTURE_SWIZZLE_R,
            TextureProp::TextureSwizzleG => consts::TEXTURE_SWIZZLE_G,
            TextureProp::TextureSwizzleB => consts::TEXTURE_SWIZZLE_B,
            TextureProp::TextureSwizzleA => consts::TEXTURE_SWIZZLE_A,
            TextureProp::TextureWrapS => consts::TEXTURE_WRAP_S,
            TextureProp::TextureWrapT => consts::TEXTURE_WRAP_T,
            TextureProp::TextureWrapR => consts::TEXTURE_WRAP_R,
        }
    }

    #[verifier::when_used_as_spec(spec_gl_value)]
    pub fn gl_value(self) -> (r: u32)
        ensures
            r == self.spec_gl_value(),
    {
        match self {
            TextureProp::DepthStencilTextureMode => consts::DEPTH_STENCIL_TEXTURE_MODE,
            TextureProp::TextureBaseLevel => consts::TEXTURE_BASE_LEVEL,
            TextureProp::TextureCompareFunc => consts::TEXTURE_COMPARE_FUNC,
            TextureProp::TextureCompareMode => consts::TEXTURE_COMPARE_MODE,
            TextureProp::TextureLodBias => consts::TEXTURE_LOD_BIAS,
            TextureProp::TextureMinFilter => consts::TEXTURE_MIN_FILTER,
            TextureProp::TextureMagFilter => consts::TEXTURE_MAG_FILTER,
            TextureProp::TextureMinLod => consts::TEXTURE_MIN_LOD,
            TextureProp::TextureMaxLod => consts::TEXTURE_MAX_LOD,
            TextureProp::TextureMaxLevel => consts::TEXTURE_MAX_LEVEL,
            TextureProp::TextureSwizzleR => consts::TEXTURE_SWIZZLE_R,
            TextureProp::TextureSwizzleG => consts::TEXTURE_SWIZZLE_G,
            TextureProp::TextureSwizzleB => consts::TEXTURE_SWIZZLE_B,
            TextureProp::TextureSwizzleA => consts::TEXTURE_SWIZZLE_A,
            TextureProp::TextureWrapS => consts::TEXTURE_WRAP_S,
            TextureProp::TextureWrapT => consts::TEXTURE_WRAP_T,
            TextureProp::TextureWrapR => consts::TEXTURE_WRAP_R,
        }
    }
}

/// A value that a texture parameter can be set to.
#[derive(Debug, Clone, Copy, PartialEq, Eq, Hash, Structural)]
pub enum TextureParam {
    MirroredRepeat,
}

impl TextureParam {
    /// The enumerant that the driver takes for this value.
    pub open spec fn spec_gl_value(self) -> u32 {
        match self {
            TextureParam::MirroredRepeat => consts::MIRRORED_REPEAT,
        }
    }

    #[verifier::when_used_as_spec(spec_gl_value)]
    pub fn gl_value(self) -> (r: u32)
        ensures
            r == self.spec_gl_value(),
    {
        match self {
            TextureParam::MirroredRepeat => consts::MIRRORED_REPEAT,
        }
    }
}

} // verus!
