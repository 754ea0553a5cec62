//! Enumerations and values that the drawing calls share.

use vstd::prelude::*;
use crate::consts;

verus! {

/// How a buffer's data store is going to be used.
#[derive(Debug, Clone, Copy, PartialEq, Eq, Hash, Structural)]
pub enum Usage {
    StreamDraw,
    StreamRead,
    StreamCopy,
    StaticDraw,
    StaticRead,
    StaticCopy,
    DynamicDraw,
    DynamicRead,
    DynamicCopy,
}

impl Usage {
    /// The enumerant that the driver takes for this value.
    pub open spec fn spec_gl_value(self) -> u32 {
        match self {
            Usage::StreamDraw => consts::STREAM_DRAW,
            Usage::StreamRead => consts::STREAM_READ,
            Usage::StreamCopy => consts::STREAM_COPY,
            Usage::StaticDraw => consts::STATIC_DRAW,
            Usage::StaticRead => consts::STATIC_READ,
            Usage::StaticCopy => consts::STATIC_COPY,
            Usage::DynamicDraw => consts::DYNAMIC_DRAW,
            Usage::DynamicRead => consts::DYNAMIC_READ,
            Usage::DynamicCopy => consts::DYNAMIC_COPY,
        }
    }

    #[verifier::when_used_as_spec(spec_gl_value)]
    pub fn gl_value(self) -> (r: u32)
        ensures
            r == self.spec_gl_value(),
    {
        match self {
            Usage::StreamDraw => consts::STREAM_DRAW,
            Usage::StreamRead => consts::STREAM_READ,
            Usage::StreamCopy => consts::STREAM_COPY,
            Usage::StaticDraw => consts::STATIC_DRAW,
            Usage::StaticRead => consts::STATIC_READ,
            Usage::StaticCopy => consts::STATIC_COPY,
            Usage::DynamicDraw => consts::DYNAMIC_DRAW,
            Usage::DynamicRead => consts::DYNAMIC_READ,
            Usage::DynamicCopy => consts::DYNAMIC_COPY,
        }
    }
}

/// The type of the components of vertex data or of indices.
#[allow(non_camel_case_types)]
#[derive(Debug, Clone, Copy, PartialEq, Eq, Hash, Structural)]
pub enum Type {
    Byte,
    UnsignedByte,
    Short,
    UnsignedShort,
    Int,
    UnsignedInt,
    HalfFloat,
    Float,
    Double,
    Fixed,
    Int_2_10_10_10_Rev,
    UnsignedInt_2_10_10_10_Rev,
    UnsignedInt_10F_11F_11F_Rev,
}

impl Type {
    /// The enumerant that the driver takes for this value.
    pub open spec fn spec_gl_value(self) -> u32 {
        match self {
            Type::Byte => consts::BYTE,
            Type::UnsignedByte => consts::UNSIGNED_BYTE,
            Type::Short => consts::SHORT,
            Type::UnsignedShort => consts::UNSIGNED_SHORT,
            Type::Int => consts::INT,
            Type::UnsignedInt => consts::UNSIGNED_INT,
            Type::HalfFloat => consts::HALF_FLOAT,
            Type::Float => consts::FLOAT,
            Type::Double => consts::DOUBLE,
            Type::Fixed => consts::FIXED,
            Type::Int_2_10_10_10_Rev => consts::INT_2_10_10_10_REV,
            Type::UnsignedInt_2_10_10_10_Rev => consts::UNSIGNED_INT_2_10_10_10_REV,
            Type::UnsignedInt_10F_11F_11F_Rev => consts::UNSIGNED_INT_10F_11F_11F_REV,
        }
    }

    #[verifier::when_used_as_spec(spec_gl_value)]
    pub fn gl_value(self) -> (r: u32)
        ensures
            r == self.spec_gl_value(),
    {
        match self {
            Type::Byte => consts::BYTE,
            Type::UnsignedByte => consts::UNSIGNED_BYTE,
            Type::Short => consts::SHORT,
            Type::UnsignedShort => consts::UNSIGNED_SHORT,
            Type::Int => consts::INT,
            Type::UnsignedInt => consts::UNSIGNED_INT,
            Type::HalfFloat => consts::HALF_FLOAT,
            Type::Float => consts::FLOAT,
            Type::Double => consts::DOUBLE,
            Type::Fixed => consts::FIXED,
            Type::Int_2_10_10_10_Rev => consts::INT_2_10_10_10_REV,
            Type::UnsignedInt_2_10_10_10_Rev => consts::UNSIGNED_INT_2_10_10_10_REV,
            Type::UnsignedInt_10F_11F_11F_Rev => consts::UNSIGNED_INT_10F_11F_11F_REV,
        }
    }
}

/// The kind of primitive that a draw call assembles.
#[derive(Debug, Clone, Copy, PartialEq, Eq, Hash, Structural)]
pub enum DrawMode {
    Points,
    LineStrip,
    LineLoop,
    Lines,
    LineStripAdjacency,
    LinesAdjacency,
    TriangleStrip,
    TriangleFan,
    Triangles,
    TriangleStripAdjacency,
    TriangleAdjacency,
    Patches,
}

impl DrawMode {
    /// The enumerant that the driver takes for this value.
    pub open spec fn spec_gl_value(self) -> u32 {
        match self {
            DrawMode::Points => consts::POINTS,
            DrawMode::LineStrip => consts::LINE_STRIP,
            DrawMode::LineLoop => consts::LINE_LOOP,
            DrawMode::Lines => consts::LINES,
            DrawMode::LineStripAdjacency => consts::LINE_STRIP_ADJACENCY,
            DrawMode::LinesAdjacency => consts::LINES_ADJACENCY,
            DrawMode::TriangleStrip => consts::TRIANGLE_STRIP,
            DrawMode::TriangleFan => consts::TRIANGLE_FAN,
            DrawMode::Triangles => consts::TRIANGLES,
            DrawMode::TriangleStripAdjacency => consts::TRIANGLE_STRIP_ADJACENCY,
            DrawMode::TriangleAdjacency => consts::TRIANGLES_ADJACENCY,
            DrawMode::Patches => consts::PATCHES,
        }
    }

    #[verifier::when_used_as_spec(spec_gl_value)]
    pub fn gl_value(self) -> (r: u32)
        ensures
            r == self.spec_gl_value(),
    {
        match self {
            DrawMode::Points => consts::POINTS,
            DrawMode::LineStrip => consts::LINE_STRIP,
            DrawMode::LineLoop => consts::LINE_LOOP,
            DrawMode::Lines => consts::LINES,
            DrawMode::LineStripAdjacency => consts::LINE_STRIP_ADJACENCY,
            DrawMode::LinesAdjacency => consts::LINES_ADJACENCY,
            DrawMode::TriangleStrip => consts::TRIANGLE_STRIP,
            DrawMode::TriangleFan => consts::TRIANGLE_FAN,
            DrawMode::Triangles => consts::TRIANGLES,
            DrawMode::TriangleStripAdjacency => consts::TRIANGLE_STRIP_ADJACENCY,
            DrawMode::TriangleAdjacency => consts::TRIANGLES_ADJACENCY,
            DrawMode::Patches => consts::PATCHES,
        }
    }
}

/// A string that describes the driver.
#[derive(Debug, Clone, Copy, PartialEq, Eq, Hash, Structural)]
pub enum GlString {
    Vendor,
    Renderer,
    Version,
    ShadingLanguageVersion,
}

impl GlString {
    /// The enumerant that the driver takes for this value.
    pub open spec fn spec_gl_value(self) -> u32 {
        match self {
            GlString::Vendor => consts::VENDOR,
            GlString::Renderer => consts::RENDERER,
            GlString::Version => consts::VERSION,
            GlString::ShadingLanguageVersion => consts::SHADING_LANGUAGE_VERSION,
        }
    }

    #[verifier::when_used_as_spec(spec_gl_value)]
    pub fn gl_value(self) -> (r: u32)
        ensures
            r == self.spec_gl_value(),
    {
        match self {
            GlString::Vendor => consts::VENDOR,
            GlString::Renderer => consts::RENDERER,
            GlString::Version => consts::VERSION,
            GlString::ShadingLanguageVersion => consts::SHADING_LANGUAGE_VERSION,
        }
    }
}

/// An indexed string that describes the driver.
#[derive(Debug, Clone, Copy, PartialEq, Eq, Hash, Structural)]
pub enum GlStringI {
    Extensions,
}

impl GlStringI {
    /// The enumerant that the driver takes for this value.
    pub open spec fn spec_gl_value(self) -> u32 {
        match self {
            GlStringI::Extensions => consts::EXTENSIONS,
        }
    }

    #[verifier::when_used_as_spec(spec_gl_value)]
    pub fn gl_value(self) -> (r: u32)
        ensures
            r == self.spec_gl_value(),
    {
        match self {
            GlStringI::Extensions => consts::EXTENSIONS,
        }
    }
}

/// One of the buffers that a clear call can reset.
#[derive(Debug, Clone, Copy, PartialEq, Eq, Hash, Structural)]
pub enum BufferBit {
    Color,
    Depth,
    Stencil,
}

impl BufferBit {
    /// The enumerant that the driver takes for this value.
    pub open spec fn spec_gl_value(self) -> u32 {
        match self {
            BufferBit::Color => consts::COLOR_BUFFER_BIT,
            BufferBit::Depth => consts::DEPTH_BUFFER_BIT,
            BufferBit::Stencil => consts::STENCIL_BUFFER_BIT,
        }
    }

    #[verifier::when_used_as_spec(spec_gl_value)]
    pub fn gl_value(self) -> (r: u32)
        ensures
            r == self.spec_gl_value(),
    {
        match self {
            BufferBit::Color => consts::COLOR_BUFFER_BIT,
            BufferBit::Depth => consts::DEPTH_BUFFER_BIT,
            BufferBit::Stencil => consts::STENCIL_BUFFER_BIT,
        }
    }
}

impl Type {
    /// Whether the size of one component of this type is a whole number of
    /// bytes that the library knows; the packed formats have none.
    pub open spec fn has_size(self) -> bool {
        !(self is Fixed || self is Int_2_10_10_10_Rev || self is UnsignedInt_2_10_10_10_Rev
            || self is UnsignedInt_10F_11F_11F_Rev)
    }

    /// The size in bytes of one component of this type.
    pub open spec fn spec_size(self) -> nat {
        match self {
            Type::Byte | Type::UnsignedByte => 1,
            Type::Short | Type::UnsignedShort | Type::HalfFloat => 2,
            Type::Int | Type::UnsignedInt | Type::Float => 4,
            Type::Double => 8,
            _ => 0,
        }
    }

    /// The size in bytes of one component of this type.
    pub fn size(self) -> (r: usize)
        requires
            self.has_size(),
        ensures
            r == self.spec_size(),
    {
        match self {
            Type::Byte | Type::UnsignedByte => 1,
            Type::Short | Type::UnsignedShort | Type::HalfFloat => 2,
            Type::Int | Type::UnsignedInt | Type::Float => 4,
            Type::Double => 8,
            _ => 0,
        }
    }

    /// Whether the integer form of a vertex attribute accepts this type.
    pub open spec fn spec_is_integer(self) -> bool {
        self is Byte || self is UnsignedByte || self is Short || self is UnsignedShort
            || self is Int || self is UnsignedInt
    }

    #[verifier::when_used_as_spec(spec_is_integer)]
    pub fn is_integer(self) -> (r: bool)
        ensures
            r == self.spec_is_integer(),
    {
        match self {
            Type::Byte | Type::UnsignedByte | Type::Short | Type::UnsignedShort | Type::Int
            | Type::UnsignedInt => true,
            _ => false,
        }
    }
}

/// A set of the buffers that a clear call resets.
#[derive(Debug, Clone, Copy, PartialEq, Eq, Hash, Structural)]
pub struct BufferBits {
    color: bool,
    depth: bool,
    stencil: bool,
}

impl View for BufferBits {
    type V = Set<BufferBit>;

    closed spec fn view(&self) -> Set<BufferBit> {
        Set::new(
            |b: BufferBit|
                match b {
                    BufferBit::Color => self.color,
                    BufferBit::Depth => self.depth,
                    BufferBit::Stencil => self.stencil,
                },
        )
    }
}

/// The mask that the driver takes for a set of buffers: the bits of its members.
pub open spec fn mask_of(s: Set<BufferBit>) -> u32 {
    (if s.contains(BufferBit::Color) {
        consts::COLOR_BUFFER_BIT
    } else {
        0u32
    }) | (if s.contains(BufferBit::Depth) {
        consts::DEPTH_BUFFER_BIT
    } else {
        0u32
    }) | (if s.contains(BufferBit::Stencil) {
        consts::STENCIL_BUFFER_BIT
    } else {
        0u32
    })
}

impl BufferBit {
    /// The set of all three buffers.
    pub fn all() -> (r: BufferBits)
        ensures
            r@ == Set::<BufferBit>::full(),
    {
        let r = BufferBits { color: true, depth: true, stencil: true };
        assert(r@ =~= Set::<BufferBit>::full());
        r
    }
}

impl BufferBits {
    /// The set of no buffer.
    pub fn empty() -> (r: BufferBits)
        ensures
            r@ == Set::<BufferBit>::empty(),
    {
        let r = BufferBits { color: false, depth: false, stencil: false };
        assert(r@ =~= Set::<BufferBit>::empty());
        r
    }

    /// The set that holds `bit` alone.
    pub fn from_bit(bit: BufferBit) -> (r: BufferBits)
        ensures
            r@ == Set::<BufferBit>::empty().insert(bit),
    {
        let mut r = BufferBits::empty();
        r.insert(bit);
        r
    }

    pub fn contains(&self, bit: BufferBit) -> (r: bool)
        ensures
            r == self@.contains(bit),
    {
        match bit {
            BufferBit::Color => self.color,
            BufferBit::Depth => self.depth,
            BufferBit::Stencil => self.stencil,
        }
    }

    pub fn insert(&mut self, bit: BufferBit)
        ensures
            final(self)@ == old(self)@.insert(bit),
    {
        match bit {
            BufferBit::Color => self.color = true,
            BufferBit::Depth => self.depth = true,
            BufferBit::Stencil => self.stencil = true,
        }
        assert(final(self)@ =~= old(self)@.insert(bit));
    }

    /// The buffers that are in either set.
    pub fn union(self, other: BufferBits) -> (r: BufferBits)
        ensures
            r@ == self@.union(other@),
    {
        let r = BufferBits {
            color: self.color || other.color,
            depth: self.depth || other.depth,
            stencil: self.stencil || other.stencil,
        };
        assert(r@ =~= self@.union(other@));
        r
    }

    /// The mask that the driver's clear call takes for this set.
    pub fn bits(&self) -> (r: u32)
        ensures
            r == mask_of(self@),
    {
        let c: u32 = if self.color { consts::COLOR_BUFFER_BIT } else { 0 };
        let d: u32 = if self.depth { consts::DEPTH_BUFFER_BIT } else { 0 };
        let s: u32 = if self.stencil { consts::STENCIL_BUFFER_BIT } else { 0 };
        proof {
            assert(self@.contains(BufferBit::Color) == self.color);
            assert(self@.contains(BufferBit::Depth) == self.depth);
            assert(self@.contains(BufferBit::Stencil) == self.stencil);
        }
        c | d | s
    }
}

impl Default for BufferBits {
    /// All three buffers, the set that a plain clear resets.
    fn default() -> (r: BufferBits)
        ensures
            r@ == Set::<BufferBit>::full(),
    {
        BufferBit::all()
    }
}

/// The largest count that the driver's signed size type holds.
pub const SIZEI_MAX: usize = 0x7FFF_FFFF;

/// A count or a length as the driver's signed size type; `None` when it does
/// not fit.
pub fn to_sizei(n: usize) -> (r: Option<i32>)
    ensures
        match r {
            Some(v) => v == n,
            None => n > SIZEI_MAX,
        },
{
    if n <= SIZEI_MAX {
        Some(n as i32)
    } else {
        None
    }
}


} // verus!
