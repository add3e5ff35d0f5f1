//! The upload buffers of the frame-ring renderer.

use vstd::prelude::*;
use crate::capacity::capacity_after;
use crate::types::Handle;

verus! {

/// An upload buffer of elements of `E` bytes each, which is given `C` extra
/// elements whenever it is created: the resource, once the embedding program
/// has created it, and the number of elements it has room for.
#[derive(Debug, Clone, Copy)]
pub struct Buffer<const E: usize, const C: usize> {
    resource: Option<Handle>,
    size: usize,
}

/// The buffer that holds a frame's vertices.
pub type VertexBuffer = Buffer<20, 5000>;

/// The buffer that holds a frame's indices.
pub type IndexBuffer = Buffer<2, 10000>;

impl<const E: usize, const C: usize> Buffer<E, C> {
    /// The resource, if one is attached.
    pub closed spec fn handle(&self) -> Option<Handle> {
        self.resource
    }

    /// The number of elements that the buffer has room for.
    pub closed spec fn capacity(&self) -> nat {
        self.size as nat
    }

    /// The size in bytes of a buffer with room for `capacity` elements, if a
    /// resource description can hold it.
    pub open spec fn width_of(capacity: nat) -> Option<u64> {
        if capacity * E <= u64::MAX {
            Some((capacity * E) as u64)
        } else {
            None
        }
    }

    /// The buffer after room for `requested` elements was made: itself if it
    /// has the room, and else a buffer without a resource that has room for
    /// `requested` elements and the slack.
    pub closed spec fn grown(&self, requested: nat) -> Self {
        if self.size >= requested {
            *self
        } else {
            Self { resource: None, size: (requested + C) as usize }
        }
    }

    /// The buffer with `resource` attached to it.
    pub closed spec fn attached(&self, resource: Handle) -> Self {
        Self { resource: Some(resource), size: self.size }
    }

    /// What `grown` does to the capacity and to the resource.
    pub proof fn lemma_grown(&self, requested: nat)
        requires
            requested + C <= usize::MAX,
        ensures
            self.grown(requested).capacity() == capacity_after(self.capacity(), requested, C as nat),
            self.grown(requested).handle() == (if self.capacity() < requested {
                None
            } else {
                self.handle()
            }),
            self.capacity() >= requested ==> self.grown(requested) == *self,
    {
    }

    /// A buffer with room for `min_count` elements and the slack.
    pub fn new(resource: Option<Handle>, min_count: usize) -> (out: Self)
        requires
            min_count + C <= usize::MAX,
        ensures
            out.handle() == resource,
            out.capacity() == min_count + C,
    {
        Self { resource, size: min_count + C }
    }

    /// The number of elements that the buffer has room for.
    pub fn len(&self) -> (len: usize)
        ensures
            len == self.capacity(),
    {
        self.size
    }

    /// The resource, if one is attached.
    pub fn get_resource(&self) -> (resource: Option<Handle>)
        ensures
            resource == self.handle(),
    {
        self.resource
    }

    /// The size of the buffer in bytes, if a resource description can hold it.
    pub fn width(&self) -> (width: Option<u64>)
        ensures
            width == Self::width_of(self.capacity()),
    {
        let size: u64 = self.size as u64;
        let element: u64 = E as u64;
        size.checked_mul(element)
    }

    /// Makes room for `requested` elements.  A buffer that has the room is left
    /// as it is.  One that has not is replaced as a whole by one with room for
    /// `requested` elements and the slack: the old resource is let go, and the
    /// result tells the caller to create and attach a new one.
    pub fn ensure_capacity(&mut self, requested: usize) -> (grown: bool)
        requires
            requested + C <= usize::MAX,
        ensures
            grown == (old(self).capacity() < requested),
            final(self).capacity() == capacity_after(
                old(self).capacity(),
                requested as nat,
                C as nat,
            ),
            final(self).handle() == (if grown {
                None
            } else {
                old(self).handle()
            }),
            *final(self) == old(self).grown(requested as nat),
    {
        if self.size < requested {
            *self = Self::new(None, requested);
            true
        } else {
            false
        }
    }

    /// Attaches the resource that was created for this buffer.
    pub fn attach(&mut self, resource: Handle)
        ensures
            final(self).handle() == Some(resource),
            final(self).capacity() == old(self).capacity(),
            *final(self) == old(self).attached(resource),
    {
        self.resource = Some(resource);
    }
}

} // verus!
