//! Buffer objects, vertex arrays and the names that the driver gives them.

use vstd::prelude::*;
use crate::common::{to_sizei, SIZEI_MAX};
use crate::consts;

verus! {

/// The name of a buffer object.
#[derive(Debug, Clone, Copy, PartialEq, Eq, Hash, Structural)]
pub struct Buffer(u32);

impl View for Buffer {
    type V = u32;

    closed spec fn view(&self) -> u32 {
        self.0
    }
}

impl Buffer {
    /// The name that stands for no buffer: binding it unbinds a target.
    pub fn none() -> (r: Buffer)
        ensures
            r@ == 0,
    {
        Buffer(0)
    }

    /// The raw name that the driver takes.
    pub fn raw(self) -> (r: u32)
        ensures
            r == self@,
    {
        self.0
    }
}

/// The name of a vertex array object.
#[derive(Debug, Clone, Copy, PartialEq, Eq, Hash, Structural)]
pub struct VertexArray(u32);

impl View for VertexArray {
    type V = u32;

    closed spec fn view(&self) -> u32 {
        self.0
    }
}

impl VertexArray {
    /// The name that stands for no vertex array: binding it unbinds the current one.
    pub fn none() -> (r: VertexArray)
        ensures
            r@ == 0,
    {
        VertexArray(0)
    }

    /// The raw name that the driver takes.
    pub fn raw(self) -> (r: u32)
        ensures
            r == self@,
    {
        self.0
    }
}


/// A target that a buffer object can be bound to.
#[derive(Debug, Clone, Copy, PartialEq, Eq, Hash, Structural)]
pub enum BufferKind {
    Array,
    AtomicCounter,
    CopyRead,
    CopyWrite,
    DispatchIndirect,
    DrawIndirect,
    ElementArray,
    PixelPack,
}

impl BufferKind {
    /// The enumerant that the driver takes for this value.
    pub open spec fn spec_gl_value(self) -> u32 {
        match self {
            BufferKind::Array => consts::ARRAY_BUFFER,
            BufferKind::AtomicCounter => consts::ATOMIC_COUNTER_BUFFER,
            BufferKind::CopyRead => consts::COPY_READ_BUFFER,
            BufferKind::CopyWrite => consts::COPY_WRITE_BUFFER,
            BufferKind::DispatchIndirect => consts::DISPATCH_INDIRECT_BUFFER,
            BufferKind::DrawIndirect => consts::DRAW_INDIRECT_BUFFER,
            BufferKind::ElementArray => consts::ELEMENT_ARRAY_BUFFER,
            BufferKind::PixelPack => consts::PIXEL_PACK_BUFFER,
        }
    }

    #[verifier::when_used_as_spec(spec_gl_value)]
    pub fn gl_value(self) -> (r: u32)
        ensures
            r == self.spec_gl_value(),
    {
        match self {
            BufferKind::Array => consts::ARRAY_BUFFER,
            BufferKind::AtomicCounter => consts::ATOMIC_COUNTER_BUFFER,
            BufferKind::CopyRead => consts::COPY_READ_BUFFER,
            BufferKind::CopyWrite => consts::COPY_WRITE_BUFFER,
            BufferKind::DispatchIndirect => consts::DISPATCH_INDIRECT_BUFFER,
            BufferKind::DrawIndirect => consts::DRAW_INDIRECT_BUFFER,
            BufferKind::ElementArray => consts::ELEMENT_ARRAY_BUFFER,
            BufferKind::PixelPack => consts::PIXEL_PACK_BUFFER,
        }
    }
}


/// The buffers whose names the driver's generate call wrote, in order.
pub fn gen_buffers(names: &[u32]) -> (r: Vec<Buffer>)
    ensures
        r@.len() == names@.len(),
        forall|i: int| 0 <= i < names@.len() ==> #[trigger] r@[i]@ == names@[i],
{
    let mut r: Vec<Buffer> = Vec::new();
    let mut i: usize = 0;
    while i < names.len()
        invariant
            i <= names@.len(),
            r@.len() == i,
            forall|j: int| 0 <= j < i ==> #[trigger] r@[j]@ == names@[j],
        decreases names@.len() - i,
    {
        r.push(Buffer(names[i]));
        i = i + 1;
    }
    r
}

/// The buffer whose name the driver's generate call wrote.
pub fn gen_buffer(name: u32) -> (r: Buffer)
    ensures
        r@ == name,
{
    Buffer(name)
}

/// The vertex arrays whose names the driver's generate call wrote, in order.
pub fn gen_vertex_arrays(names: &[u32]) -> (r: Vec<VertexArray>)
    ensures
        r@.len() == names@.len(),
        forall|i: int| 0 <= i < names@.len() ==> #[trigger] r@[i]@ == names@[i],
{
    let mut r: Vec<VertexArray> = Vec::new();
    let mut i: usize = 0;
    while i < names.len()
        invariant
            i <= names@.len(),
            r@.len() == i,
            forall|j: int| 0 <= j < i ==> #[trigger] r@[j]@ == names@[j],
        decreases names@.len() - i,
    {
        r.push(VertexArray(names[i]));
        i = i + 1;
    }
    r
}

/// The vertex array whose name the driver's generate call wrote.
pub fn gen_vertex_array(name: u32) -> (r: VertexArray)
    ensures
        r@ == name,
{
    VertexArray(name)
}

/// The count and the raw names that the driver's delete call takes for
/// `buffers`; `None` when there are more than the count can say.
pub fn delete_buffers(buffers: &[Buffer]) -> (r: Option<(i32, Vec<u32>)>)
    ensures
        match r {
            Some((n, names)) => {
                &&& n == buffers@.len()
                &&& names@.len() == buffers@.len()
                &&& forall|i: int| 0 <= i < buffers@.len() ==> names@[i] == #[trigger] buffers@[i]@
            },
            None => buffers@.len() > SIZEI_MAX,
        },
{
    let n = match to_sizei(buffers.len()) {
        Some(n) => n,
        None => return None,
    };
    let mut names: Vec<u32> = Vec::new();
    let mut i: usize = 0;
    while i < buffers.len()
        invariant
            i <= buffers@.len(),
            names@.len() == i,
            forall|j: int| 0 <= j < i ==> names@[j] == #[trigger] buffers@[j]@,
        decreases buffers@.len() - i,
    {
        names.push(buffers[i].0);
        i = i + 1;
    }
    Some((n, names))
}

/// The count and the raw name that the driver's delete call takes for one buffer.
pub fn delete_buffer(buffer: Buffer) -> (r: (i32, Vec<u32>))
    ensures
        r.0 == 1,
        r.1@ == seq![buffer@],
{
    let names = vec![buffer.0];
    assert(names@ =~= seq![buffer@]);
    (1, names)
}

/// The count and the raw names that the driver's delete call takes for
/// `arrays`; `None` when there are more than the count can say.
pub fn delete_vertex_arrays(arrays: &[VertexArray]) -> (r: Option<(i32, Vec<u32>)>)
    ensures
        match r {
            Some((n, names)) => {
                &&& n == arrays@.len()
                &&& names@.len() == arrays@.len()
                &&& forall|i: int| 0 <= i < arrays@.len() ==> names@[i] == #[trigger] arrays@[i]@
            },
            None => arrays@.len() > SIZEI_MAX,
        },
{
    let n = match to_sizei(arrays.len()) {
        Some(n) => n,
        None => return None,
    };
    let mut names: Vec<u32> = Vec::new();
    let mut i: usize = 0;
    while i < arrays.len()
        invariant
            i <= arrays@.len(),
            names@.len() == i,
            forall|j: int| 0 <= j < i ==> names@[j] == #[trigger] arrays@[j]@,
        decreases arrays@.len() - i,
    {
        names.push(arrays[i].0);
        i = i + 1;
    }
    Some((n, names))
}

/// The count and the raw name that the driver's delete call takes for one
/// vertex array.
pub fn delete_vertex_array(array: VertexArray) -> (r: (i32, Vec<u32>))
    ensures
        r.0 == 1,
        r.1@ == seq![array@],
{
    let names = vec![array.0];
    assert(names@ =~= seq![array@]);
    (1, names)
}


} // verus!
