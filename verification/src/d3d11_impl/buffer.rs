//! The vertex and index buffers of the immediate-context renderer.

use vstd::prelude::*;
use crate::capacity::capacity_after;
use crate::types::Handle;

verus! {

/// Extra vertices that a vertex buffer is given when it is created.
pub const VERTEX_BUF_ADD_CAPACITY: usize = 5000;

/// Extra indices that an index buffer is given when it is created.
pub const INDEX_BUF_ADD_CAPACITY: usize = 10000;

/// Size of one vertex in bytes: two floats of position, two of texture
/// coordinate, four bytes of colour.
pub const VERTEX_SIZE: usize = 20;

/// Size of one index in bytes.
pub const INDEX_SIZE: usize = 2;

/// The size in bytes of `len` elements of `element_size` bytes, if a buffer
/// description can hold it.
pub open spec fn byte_width_of(len: nat, element_size: nat) -> Option<u32> {
    if len * element_size <= u32::MAX {
        Some((len * element_size) as u32)
    } else {
        None
    }
}

/// Computes `byte_width_of`.
fn byte_width(len: usize, element_size: usize) -> (width: Option<u32>)
    requires
        0 < element_size <= 0x100,
    ensures
        width == byte_width_of(len as nat, element_size as nat),
{
    let limit: usize = 0xFFFF_FFFF / element_size;
    assert(len <= limit <==> len * element_size <= 0xFFFF_FFFF) by (nonlinear_arith)
        requires
            0 < element_size,
            limit == 0xFFFF_FFFFusize / element_size,
    ;
    if len <= limit {
        Some((len * element_size) as u32)
    } else {
        None
    }
}

/// The GPU buffer that holds a frame's vertices: the buffer object, once the
/// embedding program has created it, and the number of vertices it has room
/// for.
#[derive(Debug, Clone, Copy)]
pub struct VertexBuffer(Option<Handle>, usize);

impl VertexBuffer {
    /// The buffer object, if one is attached.
    pub closed spec fn handle(&self) -> Option<Handle> {
        self.0
    }

    /// The number of vertices that the buffer has room for.
    pub closed spec fn capacity(&self) -> nat {
        self.1 as nat
    }

    /// A buffer with room for `vtx_count` vertices and the slack.
    pub fn new(buffer: Option<Handle>, vtx_count: usize) -> (out: Self)
        requires
            vtx_count + VERTEX_BUF_ADD_CAPACITY <= usize::MAX,
        ensures
            out.handle() == buffer,
            out.capacity() == vtx_count + VERTEX_BUF_ADD_CAPACITY,
    {
        Self(buffer, vtx_count + VERTEX_BUF_ADD_CAPACITY)
    }

    /// The number of vertices that the buffer has room for.
    pub fn len(&self) -> (len: usize)
        ensures
            len == self.capacity(),
    {
        self.1
    }

    /// The buffer object, if one is attached.
    pub fn get_buffer(&self) -> (buffer: Option<Handle>)
        ensures
            buffer == self.handle(),
    {
        self.0
    }

    /// The size of the buffer in bytes, if a buffer description can hold it.
    pub fn byte_width(&self) -> (width: Option<u32>)
        ensures
            width == byte_width_of(self.capacity(), VERTEX_SIZE as nat),
    {
        byte_width(self.1, VERTEX_SIZE)
    }

    /// Makes room for `requested` vertices.  A buffer that has the room is left
    /// as it is.  One that has not is replaced as a whole by one with room for
    /// `requested` vertices and the slack: the old buffer object is let go, and
    /// the result tells the caller to create and attach a new one.
    pub fn ensure_capacity(&mut self, requested: usize) -> (grown: bool)
        requires
            requested + VERTEX_BUF_ADD_CAPACITY <= usize::MAX,
        ensures
            grown == (old(self).capacity() < requested),
            final(self).capacity() == capacity_after(
                old(self).capacity(),
                requested as nat,
                VERTEX_BUF_ADD_CAPACITY as nat,
            ),
            final(self).handle() == (if grown {
                None
            } else {
                old(self).handle()
            }),
    {
        if self.1 < requested {
            *self = Self::new(None, requested);
            true
        } else {
            false
        }
    }

    /// Attaches the buffer object that was created for this buffer.
    pub fn attach(&mut self, buffer: Handle)
        ensures
            final(self).handle() == Some(buffer),
            final(self).capacity() == old(self).capacity(),
    {
        self.0 = Some(buffer);
    }
}

/// The GPU buffer that holds a frame's indices: the buffer object, once the
/// embedding program has created it, and the number of indices it has room
/// for.
#[derive(Debug, Clone, Copy)]
pub struct IndexBuffer(Option<Handle>, usize);

impl IndexBuffer {
    /// The buffer object, if one is attached.
    pub closed spec fn handle(&self) -> Option<Handle> {
        self.0
    }

    /// The number of indices that the buffer has room for.
    pub closed spec fn capacity(&self) -> nat {
        self.1 as nat
    }

    /// A buffer with room for `idx_count` indices and the slack.
    pub fn new(buffer: Option<Handle>, idx_count: usize) -> (out: Self)
        requires
            idx_count + INDEX_BUF_ADD_CAPACITY <= usize::MAX,
        ensures
            out.handle() == buffer,
            out.capacity() == idx_count + INDEX_BUF_ADD_CAPACITY,
    {
        Self(buffer, idx_count + INDEX_BUF_ADD_CAPACITY)
    }

    /// The number of indices that the buffer has room for.
    pub fn len(&self) -> (len: usize)
        ensures
            len == self.capacity(),
    {
        self.1
    }

    /// The buffer object, if one is attached.
    pub fn get_buffer(&self) -> (buffer: Option<Handle>)
        ensures
            buffer == self.handle(),
    {
        self.0
    }

    /// The size of the buffer in bytes, if a buffer description can hold it.
    pub fn byte_width(&self) -> (width: Option<u32>)
        ensures
            width == byte_width_of(self.capacity(), INDEX_SIZE as nat),
    {
        byte_width(self.1, INDEX_SIZE)
    }

    /// Makes room for `requested` indices.  A buffer that has the room is left
    /// as it is.  One that has not is replaced as a whole by one with room for
    /// `requested` indices and the slack: the old buffer object is let go, and
    /// the result tells the caller to create and attach a new one.
    pub fn ensure_capacity(&mut self, requested: usize) -> (grown: bool)
        requires
            requested + INDEX_BUF_ADD_CAPACITY <= usize::MAX,
        ensures
            grown == (old(self).capacity() < requested),
            final(self).capacity() == capacity_after(
                old(self).capacity(),
                requested as nat,
                INDEX_BUF_ADD_CAPACITY as nat,
            ),
            final(self).handle() == (if grown {
                None
            } else {
                old(self).handle()
            }),
    {
        if self.1 < requested {
            *self = Self::new(None, requested);
            true
        } else {
            false
        }
    }

    /// Attaches the buffer object that was created for this buffer.
    pub fn attach(&mut self, buffer: Handle)
        ensures
            final(self).handle() == Some(buffer),
            final(self).capacity() == old(self).capacity(),
    {
        self.0 = Some(buffer);
    }
}

} // verus!
