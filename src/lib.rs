//! Typed handles and enumerations for an OpenGL-style graphics API.
//!
//! The library turns typed arguments into the plain integers that the driver
//! takes, and reads what the driver hands back (names, parameters, strings,
//! debug messages) into typed values. The driver calls themselves are made by
//! the caller.

pub mod buffer;
pub mod caps;
pub mod common;
pub mod consts;
pub mod debug;
pub mod program;
pub mod text;
pub mod texture;

pub use buffer::{
    delete_buffer, delete_buffers, delete_vertex_array, delete_vertex_arrays, gen_buffer,
    gen_buffers, gen_vertex_array, gen_vertex_arrays, Buffer, BufferKind, VertexArray,
};
pub use caps::Capability;
pub use common::{
    to_sizei, BufferBit, BufferBits, DrawMode, GlString, GlStringI, Type, Usage, SIZEI_MAX,
};
pub use debug::{DebugCallbackInfo, MessageType, Severity, Source};
pub use program::{
    info_log_capacity, Program, ProgramProp, Shader, ShaderKind, ShaderProp, UniformLocation,
};
pub use text::{c_bytes, c_string, c_text};
pub use texture::{TextureParam, TextureProp, TextureTarget};
