//! Enumerant values of the graphics API, as its registry defines them.

use vstd::prelude::*;

verus! {

pub const STREAM_DRAW: u32 = 0x88E0;
pub const STREAM_READ: u32 = 0x88E1;
pub const STREAM_COPY: u32 = 0x88E2;
pub const STATIC_DRAW: u32 = 0x88E4;
pub const STATIC_READ: u32 = 0x88E5;
pub const STATIC_COPY: u32 = 0x88E6;
pub const DYNAMIC_DRAW: u32 = 0x88E8;
pub const DYNAMIC_READ: u32 = 0x88E9;
pub const DYNAMIC_COPY: u32 = 0x88EA;
pub const BYTE: u32 = 0x1400;
pub const UNSIGNED_BYTE: u32 = 0x1401;
pub const SHORT: u32 = 0x1402;
pub const UNSIGNED_SHORT: u32 = 0x1403;
pub const INT: u32 = 0x1404;
pub const UNSIGNED_INT: u32 = 0x1405;
pub const HALF_FLOAT: u32 = 0x140B;
pub const FLOAT: u32 = 0x1406;
pub const DOUBLE: u32 = 0x140A;
pub const FIXED: u32 = 0x140C;
pub const INT_2_10_10_10_REV: u32 = 0x8D9F;
pub const UNSIGNED_INT_2_10_10_10_REV: u32 = 0x8368;
pub const UNSIGNED_INT_10F_11F_11F_REV: u32 = 0x8C3B;
pub const POINTS: u32 = 0x0000;
pub const LINE_STRIP: u32 = 0x0003;
pub const LINE_LOOP: u32 = 0x0002;
pub const LINES: u32 = 0x0001;
pub const LINE_STRIP_ADJACENCY: u32 = 0x000B;
pub const LINES_ADJACENCY: u32 = 0x000A;
pub const TRIANGLE_STRIP: u32 = 0x0005;
pub const TRIANGLE_FAN: u32 = 0x0006;
pub const TRIANGLES: u32 = 0x0004;
pub const TRIANGLE_STRIP_ADJACENCY: u32 = 0x000D;
pub const TRIANGLES_ADJACENCY: u32 = 0x000C;
pub const PATCHES: u32 = 0x000E;
pub const VENDOR: u32 = 0x1F00;
pub const RENDERER: u32 = 0x1F01;
pub const VERSION: u32 = 0x1F02;
pub const SHADING_LANGUAGE_VERSION: u32 = 0x8B8C;
pub const EXTENSIONS: u32 = 0x1F03;
pub const COLOR_BUFFER_BIT: u32 = 0x4000;
pub const DEPTH_BUFFER_BIT: u32 = 0x0100;
pub const STENCIL_BUFFER_BIT: u32 = 0x0400;
pub const ARRAY_BUFFER: u32 = 0x8892;
pub const ATOMIC_COUNTER_BUFFER: u32 = 0x92C0;
pub const COPY_READ_BUFFER: u32 = 0x8F36;
pub const COPY_WRITE_BUFFER: u32 = 0x8F37;
pub const DISPATCH_INDIRECT_BUFFER: u32 = 0x90EE;
pub const DRAW_INDIRECT_BUFFER: u32 = 0x8F3F;
pub const ELEMENT_ARRAY_BUFFER: u32 = 0x8893;
pub const PIXEL_PACK_BUFFER: u32 = 0x88EB;
pub const BLEND: u32 = 0x0BE2;
pub const COLOR_LOGIC_OP: u32 = 0x0BF2;
pub const CULL_FACE: u32 = 0x0B44;
pub const DEBUG_OUTPUT: u32 = 0x92E0;
pub const DEBUG_OUTPUT_SYNCHRONOUS: u32 = 0x8242;
pub const DEPTH_CLAMP: u32 = 0x864F;
pub const DEPTH_TEST: u32 = 0x0B71;
pub const DITHER: u32 = 0x0BD0;
pub const FRAMEBUFFER_SRGB: u32 = 0x8DB9;
pub const LINE_SMOOTH: u32 = 0x0B20;
pub const MULTISAMPLE: u32 = 0x809D;
pub const POLYGON_OFFSET_FILL: u32 = 0x8037;
pub const POLYGON_OFFSET_LINE: u32 = 0x2A02;
pub const POLYGON_OFFSET_POINT: u32 = 0x2A01;
pub const POLYGON_SMOOTH: u32 = 0x0B41;
pub const PRIMITIVE_RESTART: u32 = 0x8F9D;
pub const PRIMITIVE_RESTART_FIXED_INDEX: u32 = 0x8D69;
pub const RASTERIZER_DISCARD: u32 = 0x8C89;
pub const SAMPLE_ALPHA_TO_COVERAGE: u32 = 0x809E;
pub const SAMPLE_ALPHA_TO_ONE: u32 = 0x809F;
pub const SAMPLE_COVERAGE: u32 = 0x80A0;
pub const SAMPLE_SHADING: u32 = 0x8C36;
pub const SAMPLE_MASK: u32 = 0x8E51;
pub const SCISSOR_TEST: u32 = 0x0C11;
pub const STENCIL_TEST: u32 = 0x0B90;
pub const TEXTURE_CUBE_MAP_SEAMLESS: u32 = 0x884F;
pub const PROGRAM_POINT_SIZE: u32 = 0x8642;
pub const CLIP_DISTANCE0: u32 = 0x3000;
pub const CLIP_DISTANCE1: u32 = 0x3001;
pub const CLIP_DISTANCE2: u32 = 0x3002;
pub const CLIP_DISTANCE3: u32 = 0x3003;
pub const CLIP_DISTANCE4: u32 = 0x3004;
pub const CLIP_DISTANCE5: u32 = 0x3005;
pub const CLIP_DISTANCE6: u32 = 0x3006;
pub const CLIP_DISTANCE7: u32 = 0x3007;
pub const DEBUG_SOURCE_API: u32 = 0x8246;
pub const DEBUG_SOURCE_WINDOW_SYSTEM: u32 = 0x8247;
pub const DEBUG_SOURCE_SHADER_COMPILER: u32 = 0x8248;
pub const DEBUG_SOURCE_THIRD_PARTY: u32 = 0x8249;
pub const DEBUG_SOURCE_APPLICATION: u32 = 0x824A;
pub const DEBUG_SOURCE_OTHER: u32 = 0x824B;
pub const DEBUG_TYPE_ERROR: u32 = 0x824C;
pub const DEBUG_TYPE_DEPRECATED_BEHAVIOR: u32 = 0x824D;
pub const DEBUG_TYPE_UNDEFINED_BEHAVIOR: u32 = 0x824E;
pub const DEBUG_TYPE_PORTABILITY: u32 = 0x824F;
pub const DEBUG_TYPE_PERFORMANCE: u32 = 0x8250;
pub const DEBUG_TYPE_MARKER: u32 = 0x8268;
pub const DEBUG_TYPE_PUSH_GROUP: u32 = 0x8269;
pub const DEBUG_TYPE_POP_GROUP: u32 = 0x826A;
pub const DEBUG_TYPE_OTHER: u32 = 0x8251;
pub const DEBUG_SEVERITY_NOTIFICATION: u32 = 0x826B;
pub const DEBUG_SEVERITY_LOW: u32 = 0x9148;
pub const DEBUG_SEVERITY_MEDIUM: u32 = 0x9147;
pub const DEBUG_SEVERITY_HIGH: u32 = 0x9146;
pub const COMPUTE_SHADER: u32 = 0x91B9;
pub const VERTEX_SHADER: u32 = 0x8B31;
pub const TESS_CONTROL_SHADER: u32 = 0x8E88;
pub const TESS_EVALUATION_SHADER: u32 = 0x8E87;
pub const GEOMETRY_SHADER: u32 = 0x8DD9;
pub const FRAGMENT_SHADER: u32 = 0x8B30;
pub const SHADER_TYPE: u32 = 0x8B4F;
pub const DELETE_STATUS: u32 = 0x8B80;
pub const COMPILE_STATUS: u32 = 0x8B81;
pub const INFO_LOG_LENGTH: u32 = 0x8B84;
pub const SHADER_SOURCE_LENGTH: u32 = 0x8B88;
pub const LINK_STATUS: u32 = 0x8B82;
pub const VALIDATE_STATUS: u32 = 0x8B83;
pub const ATTACHED_SHADERS: u32 = 0x8B85;
pub const ACTIVE_ATOMIC_COUNTER_BUFFERS: u32 = 0x92D9;
pub const ACTIVE_ATTRIBUTES: u32 = 0x8B89;
pub const ACTIVE_ATTRIBUTE_MAX_LENGTH: u32 = 0x8B8A;
pub const ACTIVE_UNIFORMS: u32 = 0x8B86;
pub const ACTIVE_UNIFORM_BLOCKS: u32 = 0x8A36;
pub const ACTIVE_UNIFORM_BLOCK_MAX_NAME_LENGTH: u32 = 0x8A35;
pub const ACTIVE_UNIFORM_MAX_LENGTH: u32 = 0x8B87;
pub const COMPUTE_WORK_GROUP_SIZE: u32 = 0x8267;
pub const PROGRAM_BINARY_LENGTH: u32 = 0x8741;
pub const TRANSFORM_FEEDBACK_BUFFER_MODE: u32 = 0x8C7F;
pub const TRANSFORM_FEEDBACK_VARYINGS: u32 = 0x8C83;
pub const TRANSFORM_FEEDBACK_VARYING_MAX_LENGTH: u32 = 0x8C76;
pub const GEOMETRY_VERTICES_OUT: u32 = 0x8916;
pub const GEOMETRY_INPUT_TYPE: u32 = 0x8917;
pub const GEOMETRY_OUTPUT_TYPE: u32 = 0x8918;
pub const TEXTURE_1D: u32 = 0x0DE0;
pub const TEXTURE_1D_ARRAY: u32 = 0x8C18;
pub const TEXTURE_2D: u32 = 0x0DE1;
pub const TEXTURE_2D_ARRAY: u32 = 0x8C1A;
pub const TEXTURE_2D_MULTISAMPLE: u32 = 0x9100;
pub const TEXTURE_2D_MULTISAMPLE_ARRAY: u32 = 0x9102;
pub const TEXTURE_3D: u32 = 0x806F;
pub const TEXTURE_CUBE_MAP: u32 = 0x8513;
pub const TEXTURE_CUBE_MAP_ARRAY: u32 = 0x9009;
pub const TEXTURE_RECTANGLE: u32 = 0x84F5;
pub const DEPTH_STENCIL_TEXTURE_MODE: u32 = 0x90EA;
pub const TEXTURE_BASE_LEVEL: u32 = 0x813C;
pub const TEXTURE_COMPARE_FUNC: u32 = 0x884D;
pub const TEXTURE_COMPARE_MODE: u32 = 0x884C;
pub const TEXTURE_LOD_BIAS: u32 = 0x8501;
pub const TEXTURE_MIN_FILTER: u32 = 0x2801;
pub const TEXTURE_MAG_FILTER: u32 = 0x2800;
pub const TEXTURE_MIN_LOD: u32 = 0x813A;
pub const TEXTURE_MAX_LOD: u32 = 0x813B;
pub const TEXTURE_MAX_LEVEL: u32 = 0x813D;
pub const TEXTURE_SWIZZLE_R: u32 = 0x8E42;
pub const TEXTURE_SWIZZLE_G: u32 = 0x8E43;
pub const TEXTURE_SWIZZLE_B: u32 = 0x8E44;
pub const TEXTURE_SWIZZLE_A: u32 = 0x8E45;
pub const TEXTURE_WRAP_S: u32 = 0x2802;
pub const TEXTURE_WRAP_T: u32 = 0x2803;
pub const TEXTURE_WRAP_R: u32 = 0x8072;
pub const MIRRORED_REPEAT: u32 = 0x8370;
pub const TRUE: u8 = 1;

} // verus!
