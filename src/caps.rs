//! Server-side capabilities that can be switched on and off.

use vstd::prelude::*;
use crate::consts;

verus! {

/// A capability of the driver that enable and disable switch.
#[derive(Debug, Clone, Copy, PartialEq, Eq, Hash, Structural)]
pub enum Capability {
    Blend,
    ColorLogicOp,
    CullFace,
    DebugOutput,
    DebugOutputSynchronous,
    DepthClamp,
    DepthTest,
    Dither,
    FramebufferSRBG,
    LineSmooth,
    Multisample,
    PolygonOffsetFill,
    PolygonOffsetLine,
    PolygonOffsetPoint,
    PolygonSmooth,
    PrimitiveRestart,
    PrimitiveRestartFixedIndex,
    RasterizerDiscard,
    SampleAlphaToCoverage,
    SampleAlphaToOne,
    SampleCoverage,
    SampleShading,
    SampleMask,
    ScissorTest,
    StencilTest,
    TextureCubeMapSeamless,
    ProgramPointSize,
    ClipDistance0,
    ClipDistance1,
    ClipDistance2,
    ClipDistance3,
    ClipDistance4,
    ClipDistance5,
    ClipDistance6,
    ClipDistance7,
}

impl Capability {
    /// The enumerant that the driver takes for this value.
    pub open spec fn spec_gl_value(self) -> u32 {
        match self {
            Capability::Blend => consts::BLEND,
            Capability::ColorLogicOp => consts::COLOR_LOGIC_OP,
            Capability::CullFace => consts::CULL_FACE,
            Capability::DebugOutput => consts::DEBUG_OUTPUT,
            Capability::DebugOutputSynchronous => consts::DEBUG_OUTPUT_SYNCHRONOUS,
            Capability::DepthClamp => consts::DEPTH_CLAMP,
            Capability::DepthTest => consts::DEPTH_TEST,
            Capability::Dither => consts::DITHER,
            Capability::FramebufferSRBG => consts::FRAMEBUFFER_SRGB,
            Capability::LineSmooth => consts::LINE_SMOOTH,
            Capability::Multisample => consts::MULTISAMPLE,
            Capability::PolygonOffsetFill => consts::POLYGON_OFFSET_FILL,
            Capability::PolygonOffsetLine => consts::POLYGON_OFFSET_LINE,
            Capability::PolygonOffsetPoint => consts::POLYGON_OFFSET_POINT,
            Capability::PolygonSmooth => consts::POLYGON_SMOOTH,
            Capability::PrimitiveRestart => consts::PRIMITIVE_RESTART,
            Capability::PrimitiveRestartFixedIndex => consts::PRIMITIVE_RESTART_FIXED_INDEX,
            Capability::RasterizerDiscard => consts::RASTERIZER_DISCARD,
            Capability::SampleAlphaToCoverage => consts::SAMPLE_ALPHA_TO_COVERAGE,
            Capability::SampleAlphaToOne => consts::SAMPLE_ALPHA_TO_ONE,
            Capability::SampleCoverage => consts::SAMPLE_COVERAGE,
            Capability::SampleShading => consts::SAMPLE_SHADING,
            Capability::SampleMask => consts::SAMPLE_MASK,
            Capability::ScissorTest => consts::SCISSOR_TEST,
            Capability::StencilTest => consts::STENCIL_TEST,
            Capability::TextureCubeMapSeamless => consts::TEXTURE_CUBE_MAP_SEAMLESS,
            Capability::ProgramPointSize => consts::PROGRAM_POINT_SIZE,
            Capability::ClipDistance0 => consts::CLIP_DISTANCE0,
            Capability::ClipDistance1 => consts::CLIP_DISTANCE1,
            Capability::ClipDistance2 => consts::CLIP_DISTANCE2,
            Capability::ClipDistance3 => consts::CLIP_DISTANCE3,
            Capability::ClipDistance4 => consts::CLIP_DISTANCE4,
            Capability::ClipDistance5 => consts::CLIP_DISTANCE5,
            Capability::ClipDistance6 => consts::CLIP_DISTANCE6,
            Capability::ClipDistance7 => consts::CLIP_DISTANCE7,
        }
    }

    #[verifier::when_used_as_spec(spec_gl_value)]
    pub fn gl_value(self) -> (r: u32)
        ensures
            r == self.spec_gl_value(),
    {
        match self {
            Capability::Blend => consts::BLEND,
            Capability::ColorLogicOp => consts::COLOR_LOGIC_OP,
            Capability::CullFace => consts::CULL_FACE,
            Capability::DebugOutput => consts::DEBUG_OUTPUT,
            Capability::DebugOutputSynchronous => consts::DEBUG_OUTPUT_SYNCHRONOUS,
            Capability::DepthClamp => consts::DEPTH_CLAMP,
            Capability::DepthTest => consts::DEPTH_TEST,
            Capability::Dither => consts::DITHER,
            Capability::FramebufferSRBG => consts::FRAMEBUFFER_SRGB,
            Capability::LineSmooth => consts::LINE_SMOOTH,
            Capability::Multisample => consts::MULTISAMPLE,
            Capability::PolygonOffsetFill => consts::POLYGON_OFFSET_FILL,
            Capability::PolygonOffsetLine => consts::POLYGON_OFFSET_LINE,
            Capability::PolygonOffsetPoint => consts::POLYGON_OFFSET_POINT,
            Capability::PolygonSmooth => consts::POLYGON_SMOOTH,
            Capability::PrimitiveRestart => consts::PRIMITIVE_RESTART,
            Capability::PrimitiveRestartFixedIndex => consts::PRIMITIVE_RESTART_FIXED_INDEX,
            Capability::RasterizerDiscard => consts::RASTERIZER_DISCARD,
            Capability::SampleAlphaToCoverage => consts::SAMPLE_ALPHA_TO_COVERAGE,
            Capability::SampleAlphaToOne => consts::SAMPLE_ALPHA_TO_ONE,
            Capability::SampleCoverage => consts::SAMPLE_COVERAGE,
            Capability::SampleShading => consts::SAMPLE_SHADING,
            Capability::SampleMask => consts::SAMPLE_MASK,
            Capability::ScissorTest => consts::SCISSOR_TEST,
            Capability::StencilTest => consts::STENCIL_TEST,
            Capability::TextureCubeMapSeamless => consts::TEXTURE_CUBE_MAP_SEAMLESS,
            Capability::ProgramPointSize => consts::PROGRAM_POINT_SIZE,
            Capability::ClipDistance0 => consts::CLIP_DISTANCE0,
            Capability::ClipDistance1 => consts::CLIP_DISTANCE1,
            Capability::ClipDistance2 => consts::CLIP_DISTANCE2,
            Capability::ClipDistance3 => consts::CLIP_DISTANCE3,
            Capability::ClipDistance4 => consts::CLIP_DISTANCE4,
            Capability::ClipDistance5 => consts::CLIP_DISTANCE5,
            Capability::ClipDistance6 => consts::CLIP_DISTANCE6,
            Capability::ClipDistance7 => consts::CLIP_DISTANCE7,
        }
    }
}

impl Capability {
    /// Whether the indexed form of enable and disable accepts this capability.
    pub open spec fn spec_is_indexed(self) -> bool {
        self is Blend || self is ScissorTest
    }

    #[verifier::when_used_as_spec(spec_is_indexed)]
    pub fn is_indexed(self) -> (r: bool)
        ensures
            r == self.spec_is_indexed(),
    {
        match self {
            Capability::Blend | Capability::ScissorTest => true,
            _ => false,
        }
    }
}


} // verus!
