//! Shader and program objects, and what the driver reports of them.

use vstd::prelude::*;
use crate::consts;

verus! {

/// The pipeline stage that a shader runs in.
#[derive(Debug, Clone, Copy, PartialEq, Eq, Hash, Structural)]
pub enum ShaderKind {
    Compute,
    Vertex,
    TessControl,
    TessEvaluation,
    Geometry,
    Fragment,
}

impl ShaderKind {
    /// The enumerant that the driver takes for this value.
    pub open spec fn spec_gl_value(self) -> u32 {
        match self {
            ShaderKind::Compute => consts::COMPUTE_SHADER,
            ShaderKind::Vertex => consts::VERTEX_SHADER,
            ShaderKind::TessControl => consts::TESS_CONTROL_SHADER,
            ShaderKind::TessEvaluation => consts::TESS_EVALUATION_SHADER,
            ShaderKind::Geometry => consts::GEOMETRY_SHADER,
            ShaderKind::Fragment => consts::FRAGMENT_SHADER,
        }
    }

    #[verifier::when_used_as_spec(spec_gl_value)]
    pub fn gl_value(self) -> (r: u32)
        ensures
            r == self.spec_gl_value(),
    {
        match self {
            ShaderKind::Compute => consts::COMPUTE_SHADER,
            ShaderKind::Vertex => consts::VERTEX_SHADER,
            ShaderKind::TessControl => consts::TESS_CONTROL_SHADER,
            ShaderKind::TessEvaluation => consts::TESS_EVALUATION_SHADER,
            ShaderKind::Geometry => consts::GEOMETRY_SHADER,
            ShaderKind::Fragment => consts::FRAGMENT_SHADER,
        }
    }

    /// Reads an enumerant handed over by the driver; `None` when no value of
    /// this type has it.
    pub fn from_gl_value(v: u32) -> (r: Option<Self>)
        ensures
            match r {
                Some(e) => e.gl_value() == v,
                None => forall|e: Self| #[trigger] e.gl_value() != v,
            },
    {
        if v == consts::COMPUTE_SHADER {
            Some(ShaderKind::Compute)
        } else if v == consts::VERTEX_SHADER {
            Some(ShaderKind::Vertex)
        } else if v == consts::TESS_CONTROL_SHADER {
            Some(ShaderKind::TessControl)
        } else if v == consts::TESS_EVALUATION_SHADER {
            Some(ShaderKind::TessEvaluation)
        } else if v == consts::GEOMETRY_SHADER {
            Some(ShaderKind::Geometry)
        } else if v == consts::FRAGMENT_SHADER {
            Some(ShaderKind::Fragment)
        } else {
            proof {
                assert forall|e: Self| #[trigger] e.gl_value() != v by {
                    match e {
                        ShaderKind::Compute => {},
                        ShaderKind::Vertex => {},
                        ShaderKind::TessControl => {},
                        ShaderKind::TessEvaluation => {},
                        ShaderKind::Geometry => {},
                        ShaderKind::Fragment => {},
                    }
                }
            }
            None
        }
    }

    /// Distinct values of this type have distinct enumerants, so reading one
    /// back gives the value that was written.
    pub proof fn lemma_gl_value_injective(a: Self, b: Self)
        ensures
            a.gl_value() == b.gl_value() ==> a == b,
    {
    }
}

/// A property of a shader object that the driver reports.
#[derive(Debug, Clone, Copy, PartialEq, Eq, Hash, Structural)]
pub enum ShaderProp {
    Type,
    DeleteStatus,
    CompileStatus,
    InfoLogLength,
    SourceLength,
}

impl ShaderProp {
    /// The enumerant that the driver takes for this value.
    pub open spec fn spec_gl_value(self) -> u32 {
        match self {
            ShaderProp::Type => consts::SHADER_TYPE,
            ShaderProp::DeleteStatus => consts::DELETE_STATUS,
            ShaderProp::CompileStatus => consts::COMPILE_STATUS,
            ShaderProp::InfoLogLength => consts::INFO_LOG_LENGTH,
            ShaderProp::SourceLength => consts::SHADER_SOURCE_LENGTH,
        }
    }

    #[verifier::when_used_as_spec(spec_gl_value)]
    pub fn gl_value(self) -> (r: u32)
        ensures
            r == self.spec_gl_value(),
    {
        match self {
            ShaderProp::Type => consts::SHADER_TYPE,
            ShaderProp::DeleteStatus => consts::DELETE_STATUS,
            ShaderProp::CompileStatus => consts::COMPILE_STATUS,
            ShaderProp::InfoLogLength => consts::INFO_LOG_LENGTH,
            ShaderProp::SourceLength => consts::SHADER_SOURCE_LENGTH,
        }
    }
}

/// A property of a program object that the driver reports.
#[derive(Debug, Clone, Copy, PartialEq, Eq, Hash, Structural)]
pub enum ProgramProp {
    DeleteStatus,
    LinkStatus,
    ValidateStatus,
    InfoLogLength,
    AttachedShaders,
    ActiveAtomicCounterBuffers,
    ActiveAttributes,
    ActiveAttributeMaxLength,
    ActiveUniforms,
    ActiveUniformBlocks,
    ActiveUniformBlockMaxNameLength,
    ActiveUniformMaxLength,
    ComputeWorkGroupSize,
    ProgramBinaryLength,
    TransformFeedbackBufferMode,
    TransformFeedbackVaryings,
    TransformFeedbackVaryingMaxLength,
    GeometryVerticesOut,
    GeometryInputType,
    GeometryOutputType,
}

impl ProgramProp {
    /// The enumerant that the driver takes for this value.
    pub open spec fn spec_gl_value(self) -> u32 {
        match self {
            ProgramProp::DeleteStatus => consts::DELETE_STATUS,
            ProgramProp::LinkStatus => consts::LINK_STATUS,
            ProgramProp::ValidateStatus => consts::VALIDATE_STATUS,
            ProgramProp::InfoLogLength => consts::INFO_LOG_LENGTH,
            ProgramProp::AttachedShaders => consts::ATTACHED_SHADERS,
            ProgramProp::ActiveAtomicCounterBuffers => consts::ACTIVE_ATOMIC_COUNTER_BUFFERS,
            ProgramProp::ActiveAttributes => consts::ACTIVE_ATTRIBUTES,
            ProgramProp::ActiveAttributeMaxLength => consts::ACTIVE_ATTRIBUTE_MAX_LENGTH,
            ProgramProp::ActiveUniforms => consts::ACTIVE_UNIFORMS,
            ProgramProp::ActiveUniformBlocks => consts::ACTIVE_UNIFORM_BLOCKS,
            ProgramProp::ActiveUniformBlockMaxNameLength => consts::ACTIVE_UNIFORM_BLOCK_MAX_NAME_LENGTH,
            ProgramProp::ActiveUniformMaxLength => consts::ACTIVE_UNIFORM_MAX_LENGTH,
            ProgramProp::ComputeWorkGroupSize => consts::COMPUTE_WORK_GROUP_SIZE,
            ProgramProp::ProgramBinaryLength => consts::PROGRAM_BINARY_LENGTH,
            ProgramProp::TransformFeedbackBufferMode => consts::TRANSFORM_FEEDBACK_BUFFER_MODE,
            ProgramProp::TransformFeedbackVaryings => consts::TRANSFORM_FEEDBACK_VARYINGS,
            ProgramProp::TransformFeedbackVaryingMaxLength => consts::TRANSFORM_FEEDBACK_VARYING_MAX_LENGTH,
            ProgramProp::GeometryVerticesOut => consts::GEOMETRY_VERTICES_OUT,
            ProgramProp::GeometryInputType => consts::GEOMETRY_INPUT_TYPE,
            ProgramProp::GeometryOutputType => consts::GEOMETRY_OUTPUT_TYPE,
        }
    }

    #[verifier::when_used_as_spec(spec_gl_value)]
    pub fn gl_value(self) -> (r: u32)
        ensures
            r == self.spec_gl_value(),
    {
        match self {
            ProgramProp::DeleteStatus => consts::DELETE_STATUS,
            ProgramProp::LinkStatus => consts::LINK_STATUS,
            ProgramProp::ValidateStatus => consts::VALIDATE_STATUS,
            ProgramProp::InfoLogLength => consts::INFO_LOG_LENGTH,
            ProgramProp::AttachedShaders => consts::ATTACHED_SHADERS,
            ProgramProp::ActiveAtomicCounterBuffers => consts::ACTIVE_ATOMIC_COUNTER_BUFFERS,
            ProgramProp::ActiveAttributes => consts::ACTIVE_ATTRIBUTES,
            ProgramProp::ActiveAttributeMaxLength => consts::ACTIVE_ATTRIBUTE_MAX_LENGTH,
            ProgramProp::ActiveUniforms => consts::ACTIVE_UNIFORMS,
            ProgramProp::ActiveUniformBlocks => consts::ACTIVE_UNIFORM_BLOCKS,
            ProgramProp::ActiveUniformBlockMaxNameLength => consts::ACTIVE_UNIFORM_BLOCK_MAX_NAME_LENGTH,
            ProgramProp::ActiveUniformMaxLength => consts::ACTIVE_UNIFORM_MAX_LENGTH,
            ProgramProp::ComputeWorkGroupSize => consts::COMPUTE_WORK_GROUP_SIZE,
            ProgramProp::ProgramBinaryLength => consts::PROGRAM_BINARY_LENGTH,
            ProgramProp::TransformFeedbackBufferMode => consts::TRANSFORM_FEEDBACK_BUFFER_MODE,
            ProgramProp::TransformFeedbackVaryings => consts::TRANSFORM_FEEDBACK_VARYINGS,
            ProgramProp::TransformFeedbackVaryingMaxLength => consts::TRANSFORM_FEEDBACK_VARYING_MAX_LENGTH,
            ProgramProp::GeometryVerticesOut => consts::GEOMETRY_VERTICES_OUT,
            ProgramProp::GeometryInputType => consts::GEOMETRY_INPUT_TYPE,
            ProgramProp::GeometryOutputType => consts::GEOMETRY_OUTPUT_TYPE,
        }
    }
}

/// The name of a shader object.
#[derive(Debug, Clone, Copy, PartialEq, Eq, Hash, Structural)]
pub struct Shader(u32);

impl View for Shader {
    type V = u32;

    closed spec fn view(&self) -> u32 {
        self.0
    }
}

impl Shader {
    /// The handle for the raw value that the driver gave a new shader.
    pub fn from_raw(raw: u32) -> (r: Shader)
        ensures
            r@ == raw,
    {
        Shader(raw)
    }

    /// The raw value that the driver takes.
    pub fn raw(self) -> (r: u32)
        ensures
            r == self@,
    {
        self.0
    }
}


/// The name of a program object.
#[derive(Debug, Clone, Copy, PartialEq, Eq, Hash, Structural)]
pub struct Program(u32);

impl View for Program {
    type V = u32;

    closed spec fn view(&self) -> u32 {
        self.0
    }
}

impl Program {
    /// The handle for the raw value that the driver gave a new program.
    pub fn from_raw(raw: u32) -> (r: Program)
        ensures
            r@ == raw,
    {
        Program(raw)
    }

    /// The raw value that the driver takes.
    pub fn raw(self) -> (r: u32)
        ensures
            r == self@,
    {
        self.0
    }
}


/// Where a uniform variable of a linked program lives.
#[derive(Debug, Clone, Copy, PartialEq, Eq, Hash, Structural)]
pub struct UniformLocation(i32);

impl View for UniformLocation {
    type V = i32;

    closed spec fn view(&self) -> i32 {
        self.0
    }
}

impl UniformLocation {
    /// The handle for the raw value that the driver reported for a uniform.
    pub fn from_raw(raw: i32) -> (r: UniformLocation)
        ensures
            r@ == raw,
    {
        UniformLocation(raw)
    }

    /// The raw value that the driver takes.
    pub fn raw(self) -> (r: i32)
        ensures
            r == self@,
    {
        self.0
    }
}


impl ShaderProp {
    /// The stage of a shader, read from the value that the driver wrote for
    /// `ShaderProp::Type`; `None` when it is no shader stage.
    pub fn get_type(param: i32) -> (r: Option<ShaderKind>)
        ensures
            match r {
                Some(k) => k.gl_value() == param,
                None => forall|k: ShaderKind| #[trigger] k.gl_value() != param,
            },
    {
        if param < 0 {
            None
        } else {
            ShaderKind::from_gl_value(param as u32)
        }
    }

    /// Whether the last compilation succeeded, read from the value that the
    /// driver wrote for `ShaderProp::CompileStatus`.
    pub fn get_compile_status(param: i32) -> (r: bool)
        ensures
            r == (param as u8 == consts::TRUE),
    {
        #[verifier::truncate]
        (param as u8) == consts::TRUE
    }
}

impl ProgramProp {
    /// Whether the last link succeeded, read from the value that the driver
    /// wrote for `ProgramProp::LinkStatus`.
    pub fn get_link_status(param: i32) -> (r: bool)
        ensures
            r == (param as u8 == consts::TRUE),
    {
        #[verifier::truncate]
        (param as u8) == consts::TRUE
    }
}

/// The number of bytes to fetch an information log into, given the log length
/// that the driver reported, its terminating NUL included; zero when there is
/// no log.
pub fn info_log_capacity(log_len: i32) -> (r: usize)
    ensures
        log_len <= 0 ==> r == 0,
        log_len > 0 ==> r == log_len,
{
    if log_len <= 0 {
        0
    } else {
        log_len as usize
    }
}


} // verus!
