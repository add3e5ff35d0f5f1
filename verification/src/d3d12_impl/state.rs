//! The frame-ring renderer: a ring of buffered frames, each with its command
//! allocator and back buffer, and the commands that record and submit one
//! frame of the overlay.

use vstd::prelude::*;
use vstd::arithmetic::div_mod::{lemma_mod_self_0, lemma_small_mod};
use crate::d3d12_impl::buffer::{IndexBuffer, VertexBuffer};
use crate::d3d12_impl::font::FontObjects;
use crate::draw_data::{
    draw_ops, fits, indices_before, lemma_lists_step, total_indices, total_vertices,
    vertices_before, DrawData, DrawList, DrawOp,
};
use crate::types::{Handle, Rect, Viewport, FLOAT_ONE, FLOAT_ZERO};
use crate::win32_impl::events::{Io, RENDERER_HAS_VTX_OFFSET};

verus! {

/// Name under which the renderer registers with the GUI library.
pub const RENDERER_NAME: &'static str = "riri-imgui-hook-d3d12";

/// What a back buffer is used for.
#[derive(Debug, Clone, Copy, PartialEq, Eq, Structural)]
pub enum ResourceState {
    /// The swapchain may present it.
    Present,
    /// It may be drawn on.
    RenderTarget,
}

/// Why a frame could not be recorded.
#[derive(Debug, Clone, Copy, PartialEq, Eq, Structural)]
pub enum FrameError {
    /// The GPU has not finished the work that was last submitted with the next
    /// frame of the ring.
    FrameInFlight,
    /// No fence value is left to signal.
    FenceExhausted,
}

/// What belongs to one buffered frame.
#[derive(Debug, Clone, Copy, PartialEq, Eq, Structural)]
pub struct FrameContext {
    /// The command allocator.
    pub alloc: Option<Handle>,
    /// The back buffer.
    pub resrc: Option<Handle>,
    /// Where the render-target descriptor of the back buffer is.
    pub desc_handle: usize,
    /// The fence value that is signalled when the GPU has finished the work
    /// last submitted with this frame, and 0 if none was submitted.
    pub fence: u64,
}

impl Default for FrameContext {
    fn default() -> (frame: Self)
        ensures
            frame == (FrameContext { alloc: None, resrc: None, desc_handle: 0, fence: 0 }),
    {
        Self { alloc: None, resrc: None, desc_handle: 0, fence: 0 }
    }
}

/// One command for the frame-ring renderer, which records on its one command
/// list.
#[allow(inconsistent_fields)]
#[derive(Debug, Clone, Copy, PartialEq, Eq, Structural)]
pub enum FrameCommand {
    /// Reset the command allocator of frame `frame`.
    ResetAllocator { frame: usize },
    /// Open the command list for recording with the allocator of frame
    /// `frame`.
    ResetCommandList { frame: usize },
    /// Record a barrier that takes the back buffer of frame `frame` from one
    /// use to another.
    Transition { frame: usize, before: ResourceState, after: ResourceState },
    /// Record the descriptor at `descriptor` as the only render target.
    SetRenderTarget { frame: usize, descriptor: usize },
    /// Record the shader-visible descriptor heap.
    SetDescriptorHeaps,
    /// Create a vertex buffer with room for `capacity` vertices and attach it.
    CreateVertexBuffer { capacity: usize },
    /// Create an index buffer with room for `capacity` indices and attach it.
    CreateIndexBuffer { capacity: usize },
    /// Map the vertex and the index buffer for writing.
    MapBuffers,
    /// Copy the `count` vertices of draw list `list` into the mapped vertex
    /// buffer, from element `offset` on.
    UploadVertices { list: usize, offset: usize, count: usize },
    /// Copy the `count` indices of draw list `list` into the mapped index
    /// buffer, from element `offset` on.
    UploadIndices { list: usize, offset: usize, count: usize },
    /// Unmap the vertex and the index buffer.
    UnmapBuffers,
    /// Record `viewport` as the only viewport.
    SetViewport { viewport: Viewport },
    /// Record the vertex buffer, the index buffer and triangle lists.
    SetBuffers,
    /// Record the pipeline state object and the root signature.
    SetPipeline,
    /// Record the frame's orthographic projection as root constants.
    SetProjection,
    /// Record the descriptor table of the texture `texture_id`.
    BindTexture { texture_id: usize },
    /// Record `rect` as the only scissor rectangle.
    SetScissorRect { rect: Rect },
    /// Record a draw of `index_count` indices from index `start_index` on,
    /// each offset by `base_vertex`.
    DrawIndexed { index_count: u32, start_index: u32, base_vertex: i32 },
    /// Call the host's function of batch `command` of draw list `list`.
    RawCallback { list: usize, command: usize },
    /// Close the command list.
    Close,
    /// Submit the command list to the command queue.
    Execute,
    /// Have the command queue signal the fence with `value` when it has
    /// finished what was submitted.
    Signal { value: u64 },
}

/// The frame of the ring that follows frame `index`, in a ring of `len`
/// frames.
pub open spec fn next_index(index: nat, len: nat) -> nat
    recommends
        len > 0,
{
    (index + 1) % len
}

/// Where the render-target descriptor of frame `i` is, when the first one is at
/// `start` and each takes `increment` bytes.
pub open spec fn descriptor_of(start: usize, increment: u32, i: int) -> int {
    start + i * increment
}

/// `frame` is as it is made for a ring: it records with `allocator` on the
/// back buffer `buffer`, its descriptor is at `descriptor`, and nothing was
/// submitted with it.
pub open spec fn is_fresh_frame(
    frame: FrameContext,
    allocator: Handle,
    buffer: Handle,
    descriptor: int,
) -> bool {
    &&& frame.alloc == Some(allocator)
    &&& frame.resrc == Some(buffer)
    &&& frame.desc_handle == descriptor
    &&& frame.fence == 0
}

/// Every frame has a command allocator of its own: no two frames record with
/// the same one.
pub open spec fn own_allocators(frames: Seq<FrameContext>) -> bool {
    forall|i: int, j: int|
        0 <= i < j < frames.len() ==> (#[trigger] frames[i]).alloc != (#[trigger] frames[j]).alloc
}

/// The GPU has finished the work last submitted with `frame`, when it has
/// signalled the fence with `completed`.
pub open spec fn retired(frame: FrameContext, completed: u64) -> bool {
    frame.fence <= completed
}

/// The commands that open frame `frame` for recording.
pub open spec fn prepare_commands(frame: usize, descriptor: usize) -> Seq<FrameCommand> {
    seq![
        FrameCommand::ResetAllocator { frame },
        FrameCommand::ResetCommandList { frame },
        FrameCommand::Transition {
            frame,
            before: ResourceState::Present,
            after: ResourceState::RenderTarget,
        },
        FrameCommand::SetRenderTarget { frame, descriptor },
        FrameCommand::SetDescriptorHeaps,
    ]
}

/// The commands that create the buffers that have no resource.
pub open spec fn create_commands(vertex: VertexBuffer, index: IndexBuffer) -> Seq<FrameCommand> {
    (if vertex.handle() is None {
        seq![FrameCommand::CreateVertexBuffer { capacity: vertex.capacity() as usize }]
    } else {
        Seq::<FrameCommand>::empty()
    }) + (if index.handle() is None {
        seq![FrameCommand::CreateIndexBuffer { capacity: index.capacity() as usize }]
    } else {
        Seq::<FrameCommand>::empty()
    })
}

/// The commands that copy draw list `i` into the buffers: its vertices and its
/// indices go right behind those of the lists before it.
pub open spec fn upload_list(lists: Seq<DrawList>, i: int) -> Seq<FrameCommand> {
    seq![
        FrameCommand::UploadVertices {
            list: i as usize,
            offset: vertices_before(lists, i) as usize,
            count: lists[i].vtx_count,
        },
        FrameCommand::UploadIndices {
            list: i as usize,
            offset: indices_before(lists, i) as usize,
            count: lists[i].idx_count,
        },
    ]
}

/// The commands that copy the first `n` draw lists into the buffers.
pub open spec fn upload_lists_upto(lists: Seq<DrawList>, n: int) -> Seq<FrameCommand> {
    Seq::new(n as nat, |i: int| upload_list(lists, i)).flatten()
}

/// The commands that write a frame's data: the buffers are mapped, every draw
/// list is copied in order, and the buffers are unmapped.
pub open spec fn upload_commands(lists: Seq<DrawList>) -> Seq<FrameCommand> {
    seq![FrameCommand::MapBuffers] + upload_lists_upto(lists, lists.len() as int) + seq![
        FrameCommand::UnmapBuffers,
    ]
}

/// The commands that record the fixed render state.
pub open spec fn setup_commands(width: u32, height: u32) -> Seq<FrameCommand> {
    seq![
        FrameCommand::SetViewport {
            viewport: Viewport {
                top_left_x: FLOAT_ZERO,
                top_left_y: FLOAT_ZERO,
                width,
                height,
                min_depth: FLOAT_ZERO,
                max_depth: FLOAT_ONE,
            },
        },
        FrameCommand::SetBuffers,
        FrameCommand::SetPipeline,
        FrameCommand::SetProjection,
    ]
}

/// The commands for one step of drawing.
pub open spec fn op_commands(width: u32, height: u32, op: DrawOp) -> Seq<FrameCommand> {
    match op {
        DrawOp::BindTexture { texture_id } => seq![FrameCommand::BindTexture { texture_id }],
        DrawOp::SetScissor { rect } => seq![FrameCommand::SetScissorRect { rect }],
        DrawOp::DrawIndexed { index_count, start_index, base_vertex } => seq![
            FrameCommand::DrawIndexed { index_count, start_index, base_vertex },
        ],
        DrawOp::ResetRenderState => setup_commands(width, height),
        DrawOp::RawCallback { list, command } => seq![FrameCommand::RawCallback { list, command }],
    }
}

/// The commands for the first `n` steps of `ops`.
pub open spec fn ops_commands_upto(width: u32, height: u32, ops: Seq<DrawOp>, n: int) -> Seq<
    FrameCommand,
> {
    Seq::new(n as nat, |k: int| op_commands(width, height, ops[k])).flatten()
}

/// The commands that draw a frame: those of each step of drawing, in order.
pub open spec fn draw_commands(width: u32, height: u32, lists: Seq<DrawList>) -> Seq<FrameCommand> {
    let ops = draw_ops(lists);
    ops_commands_upto(width, height, ops, ops.len() as int)
}

/// The commands that hand frame `frame` back for presenting and submit it,
/// with `fence` to be signalled at its end.
pub open spec fn submit_commands(frame: usize, fence: u64) -> Seq<FrameCommand> {
    seq![
        FrameCommand::Transition {
            frame,
            before: ResourceState::RenderTarget,
            after: ResourceState::Present,
        },
        FrameCommand::Close,
        FrameCommand::Execute,
        FrameCommand::Signal { value: fence },
    ]
}

/// A `D3D12Hook` as a mathematical value.
pub struct D3D12State {
    /// The ring of frames.
    pub frames: Seq<FrameContext>,
    /// The frame that was recorded last.
    pub frame_index: nat,
    /// The fence value that was signalled last.
    pub last_fence: u64,
    /// The resources of the font atlas.
    pub font_objects: FontObjects,
    pub vertex_buffer: VertexBuffer,
    pub index_buffer: IndexBuffer,
}

impl D3D12State {
    /// The ring is not empty, the frame index lies in it, and every frame has
    /// a command allocator of its own.
    pub open spec fn wf(&self) -> bool {
        0 <= self.frame_index < self.frames.len() && own_allocators(self.frames)
    }

    /// The state after a frame with `vertices` vertices and `indices` indices
    /// was recorded: the ring has moved on by one frame, that frame waits for
    /// the next fence value, and the buffers have room.
    pub open spec fn advanced(&self, vertices: nat, indices: nat) -> D3D12State {
        let next = next_index(self.frame_index, self.frames.len());
        let fence = (self.last_fence + 1) as u64;
        D3D12State {
            frames: self.frames.update(
                next as int,
                FrameContext { fence, ..self.frames[next as int] },
            ),
            frame_index: next,
            last_fence: fence,
            font_objects: self.font_objects,
            vertex_buffer: self.vertex_buffer.grown(vertices),
            index_buffer: self.index_buffer.grown(indices),
        }
    }

    /// The commands of a frame that is recorded in this state, which is the
    /// state after the ring has moved on.
    pub open spec fn frame_commands(&self, width: u32, height: u32, lists: Seq<DrawList>) -> Seq<
        FrameCommand,
    > {
        let frame = self.frame_index as usize;
        prepare_commands(frame, self.frames[frame as int].desc_handle) + create_commands(
            self.vertex_buffer,
            self.index_buffer,
        ) + upload_commands(lists) + setup_commands(width, height) + draw_commands(
            width,
            height,
            lists,
        ) + submit_commands(frame, self.last_fence)
    }
    /// The state `after` is this state with the back buffer of every frame let
    /// go.
    pub open spec fn invalidated(&self, after: D3D12State) -> bool {
        &&& after.frames.len() == self.frames.len()
        &&& forall|i: int|
            0 <= i < self.frames.len() ==> #[trigger] after.frames[i] == (FrameContext {
                resrc: None,
                ..self.frames[i]
            })
        &&& after.frame_index == self.frame_index
        &&& after.last_fence == self.last_fence
        &&& after.font_objects == self.font_objects
        &&& after.vertex_buffer == self.vertex_buffer
        &&& after.index_buffer == self.index_buffer
    }

    /// The state `after` and the result `taken` are what taking the back
    /// buffers `back_buffers` gives in this state: each frame gets its back
    /// buffer when there is one for each frame, and else nothing is taken.
    pub open spec fn recreated(&self, after: D3D12State, back_buffers: Seq<Handle>, taken: bool) -> bool {
        &&& taken == (back_buffers.len() == self.frames.len())
        &&& !taken ==> after == *self
        &&& taken ==> {
            &&& after.frames.len() == self.frames.len()
            &&& forall|i: int|
                0 <= i < self.frames.len() ==> #[trigger] after.frames[i] == (FrameContext {
                    resrc: Some(back_buffers[i]),
                    ..self.frames[i]
                })
            &&& after.frame_index == self.frame_index
            &&& after.last_fence == self.last_fence
            &&& after.font_objects == self.font_objects
            &&& after.vertex_buffer == self.vertex_buffer
            &&& after.index_buffer == self.index_buffer
        }
    }

    /// The frame that follows the current one.
    pub open spec fn next_frame(&self) -> FrameContext {
        self.frames[next_index(self.frame_index, self.frames.len()) as int]
    }

    /// `result` and the state `after` are what a render call gives in this
    /// state for the frame `draw_data`, when the fence has reached `completed`.
    ///
    /// A frame whose display is empty gives no command and leaves the state.
    /// For any other, the call fails and leaves the state when the GPU has not
    /// finished what was last submitted with the next frame of the ring, and
    /// when no fence value is left.  Else the state is `advanced`, and the
    /// commands are the `frame_commands` of that state.
    pub open spec fn renders(
        &self,
        draw_data: &DrawData,
        completed: u64,
        after: D3D12State,
        result: Result<Vec<FrameCommand>, FrameError>,
    ) -> bool {
        if draw_data.is_empty() {
            &&& result matches Ok(commands)
            &&& commands@ == Seq::<FrameCommand>::empty()
            &&& after == *self
        } else if !retired(self.next_frame(), completed) {
            &&& result == Err::<Vec<FrameCommand>, FrameError>(FrameError::FrameInFlight)
            &&& after == *self
        } else if self.last_fence == u64::MAX {
            &&& result == Err::<Vec<FrameCommand>, FrameError>(FrameError::FenceExhausted)
            &&& after == *self
        } else {
            &&& result matches Ok(commands)
            &&& after == self.advanced(
                total_vertices(draw_data.lists()),
                total_indices(draw_data.lists()),
            )
            &&& commands@ == after.frame_commands(
                draw_data.width(),
                draw_data.height(),
                draw_data.lists(),
            )
        }
    }
}

/// Adds the commands `src` at the end of `dst`.
fn append(dst: &mut Vec<FrameCommand>, src: &Vec<FrameCommand>)
    ensures
        final(dst)@ == old(dst)@ + src@,
{
    let ghost start = dst@;
    let mut i: usize = 0;
    while i < src.len()
        invariant
            i <= src.len(),
            dst@ == start + src@.take(i as int),
        decreases src.len() - i,
    {
        dst.push(src[i]);
        i = i + 1;
    }
}

/// The renderer for hosts that draw through command lists and a ring of
/// buffered frames.
#[derive(Debug)]
pub struct D3D12Hook {
    frames: Vec<FrameContext>,
    frame_index: usize,
    last_fence: u64,
    font_objects: FontObjects,
    vertex_buffer: VertexBuffer,
    index_buffer: IndexBuffer,
}

impl View for D3D12Hook {
    type V = D3D12State;

    closed spec fn view(&self) -> D3D12State {
        D3D12State {
            frames: self.frames@,
            frame_index: self.frame_index as nat,
            last_fence: self.last_fence,
            font_objects: self.font_objects,
            vertex_buffer: self.vertex_buffer,
            index_buffer: self.index_buffer,
        }
    }
}

impl D3D12Hook {
    /// Whether the ring is not empty and the frame index lies in it, as in
    /// every renderer that `new` has made.
    pub fn is_sound(&self) -> (sound: bool)
        ensures
            sound == self@.wf(),
    {
        if self.frame_index >= self.frames.len() {
            return false;
        }
        let mut j: usize = 0;
        while j < self.frames.len()
            invariant
                j <= self.frames@.len(),
                forall|a: int, b: int|
                    0 <= a < b < j ==> (#[trigger] self.frames@[a]).alloc != (
                    #[trigger] self.frames@[b]).alloc,
            decreases self.frames@.len() - j,
        {
            let mut i: usize = 0;
            while i < j
                invariant
                    i <= j,
                    j < self.frames@.len(),
                    forall|a: int|
                        0 <= a < i ==> (#[trigger] self.frames@[a]).alloc
                            != self.frames@[j as int].alloc,
                decreases j - i,
            {
                if self.frames[i].alloc == self.frames[j].alloc {
                    return false;
                }
                i = i + 1;
            }
            j = j + 1;
        }
        true
    }

    /// Whether no two of `handles` are the same.
    fn all_different(handles: &Vec<Handle>) -> (different: bool)
        ensures
            different == handles@.no_duplicates(),
    {
        let mut j: usize = 0;
        while j < handles.len()
            invariant
                j <= handles.len(),
                forall|a: int, b: int| 0 <= a < b < j ==> handles@[a] != handles@[b],
            decreases handles.len() - j,
        {
            let mut i: usize = 0;
            while i < j
                invariant
                    i <= j,
                    j < handles.len(),
                    forall|a: int| 0 <= a < i ==> handles@[a] != handles@[j as int],
                decreases j - i,
            {
                if handles[i] == handles[j] {
                    return false;
                }
                i = i + 1;
            }
            j = j + 1;
        }
        true
    }

    /// A renderer with one frame for each of `back_buffers`.  Frame `i` records
    /// with the command allocator `command_allocators[i]`, which is its own:
    /// there is one allocator for each back buffer, and no allocator comes
    /// twice.  The render-target descriptor of the first frame is at
    /// `rtv_start`, and each next one `rtv_increment` bytes further.  The
    /// buffers start with room for the slack alone.  There is no renderer for
    /// a swapchain without back buffers, for allocators that are not one for
    /// each back buffer and all different, nor when a descriptor would lie
    /// beyond the address space.  A renderer that is made announces to the GUI
    /// library that vertex offsets are honoured.
    pub fn new(
        io: &mut Io,
        back_buffers: &Vec<Handle>,
        command_allocators: &Vec<Handle>,
        rtv_start: usize,
        rtv_increment: u32,
        font_objects: FontObjects,
        vertex_buffer: Option<Handle>,
        index_buffer: Option<Handle>,
    ) -> (hook: Option<Self>)
        ensures
            hook is Some <==> {
                &&& back_buffers@.len() > 0
                &&& command_allocators@.len() == back_buffers@.len()
                &&& command_allocators@.no_duplicates()
                &&& descriptor_of(rtv_start, rtv_increment, back_buffers@.len() - 1) <= usize::MAX
            },
            hook matches Some(h) ==> {
                &&& h@.wf()
                &&& h@.frames.len() == back_buffers@.len()
                &&& forall|i: int|
                    0 <= i < back_buffers@.len() ==> is_fresh_frame(
                        #[trigger] h@.frames[i],
                        command_allocators@[i],
                        back_buffers@[i],
                        descriptor_of(rtv_start, rtv_increment, i),
                    )
                &&& h@.frame_index == 0
                &&& h@.last_fence == 0
                &&& h@.font_objects == font_objects
                &&& h@.vertex_buffer.handle() == vertex_buffer
                &&& h@.vertex_buffer.capacity() == 5000
                &&& h@.index_buffer.handle() == index_buffer
                &&& h@.index_buffer.capacity() == 10000
            },
            final(io).backend_flags == (if hook is Some {
                old(io).backend_flags | RENDERER_HAS_VTX_OFFSET
            } else {
                old(io).backend_flags
            }),
            final(io).events@ == old(io).events@,
            final(io).want_capture_mouse == old(io).want_capture_mouse,
            final(io).want_capture_keyboard == old(io).want_capture_keyboard,
            final(io).want_text_input == old(io).want_text_input,
            final(io).app_focus_lost == old(io).app_focus_lost,
            final(io).display_size == old(io).display_size,
            final(io).config_flags == old(io).config_flags,
            final(io).delta_time == old(io).delta_time,
    {
        let n = back_buffers.len();
        if n == 0 || command_allocators.len() != n || !Self::all_different(command_allocators) {
            return None;
        }
        let mut frames: Vec<FrameContext> = Vec::new();
        let mut rtv_handle: usize = rtv_start;
        let mut i: usize = 0;
        while i < n
            invariant
                i <= n,
                n == back_buffers@.len(),
                n == command_allocators@.len(),
                frames@.len() == i,
                i < n ==> rtv_handle == descriptor_of(rtv_start, rtv_increment, i as int),
                i > 0 ==> descriptor_of(rtv_start, rtv_increment, i - 1) <= usize::MAX,
                forall|k: int|
                    0 <= k < i ==> is_fresh_frame(
                        #[trigger] frames@[k],
                        command_allocators@[k],
                        back_buffers@[k],
                        descriptor_of(rtv_start, rtv_increment, k),
                    ),
            decreases n - i,
        {
            frames.push(
                FrameContext {
                    alloc: Some(command_allocators[i]),
                    resrc: Some(back_buffers[i]),
                    desc_handle: rtv_handle,
                    fence: 0,
                },
            );
            assert((i + 1) * rtv_increment == i * rtv_increment + rtv_increment
                && i * rtv_increment >= 0) by (nonlinear_arith);
            if i + 1 < n {
                match rtv_handle.checked_add(rtv_increment as usize) {
                    Some(next) => {
                        rtv_handle = next;
                    },
                    None => {
                        assert((n - 1) * rtv_increment >= (i + 1) * rtv_increment)
                            by (nonlinear_arith)
                            requires
                                i + 1 <= n - 1,
                        ;
                        return None;
                    },
                }
            }
            i = i + 1;
        }
        io.backend_flags = io.backend_flags | RENDERER_HAS_VTX_OFFSET;
        Some(
            Self {
                frames,
                frame_index: 0,
                last_fence: 0,
                font_objects,
                vertex_buffer: VertexBuffer::new(vertex_buffer, 0),
                index_buffer: IndexBuffer::new(index_buffer, 0),
            },
        )
    }

    /// The resources of the font atlas.
    pub fn get_font_objects(&self) -> (font: FontObjects)
        ensures
            font == self@.font_objects,
    {
        self.font_objects
    }

    /// The number of frames in the ring.
    pub fn frame_count(&self) -> (n: usize)
        requires
            self@.wf(),
        ensures
            n == self@.frames.len(),
            n > 0,
    {
        self.frames.len()
    }

    /// The frame that was recorded last.
    pub fn get_frame_index(&self) -> (index: usize)
        requires
            self@.wf(),
        ensures
            index == self@.frame_index,
            index < self@.frames.len(),
    {
        self.frame_index
    }

    /// Frame `index` of the ring, if there is one.
    pub fn get_frame(&self, index: usize) -> (frame: Option<FrameContext>)
        ensures
            frame == (if index < self@.frames.len() {
                Some(self@.frames[index as int])
            } else {
                None
            }),
    {
        if index < self.frames.len() {
            Some(self.frames[index])
        } else {
            None
        }
    }

    /// The vertex buffer.
    pub fn get_vertex_buffer(&self) -> (buffer: VertexBuffer)
        ensures
            buffer == self@.vertex_buffer,
    {
        self.vertex_buffer
    }

    /// The index buffer.
    pub fn get_index_buffer(&self) -> (buffer: IndexBuffer)
        ensures
            buffer == self@.index_buffer,
    {
        self.index_buffer
    }

    /// Attaches the resource that was created for the vertex buffer.
    pub fn attach_vertex_buffer(&mut self, resource: Handle)
        ensures
            final(self)@ == (D3D12State {
                vertex_buffer: old(self)@.vertex_buffer.attached(resource),
                ..old(self)@
            }),
    {
        self.vertex_buffer.attach(resource);
    }

    /// Attaches the resource that was created for the index buffer.
    pub fn attach_index_buffer(&mut self, resource: Handle)
        ensures
            final(self)@ == (D3D12State {
                index_buffer: old(self)@.index_buffer.attached(resource),
                ..old(self)@
            }),
    {
        self.index_buffer.attach(resource);
    }

    /// Whether the GPU has finished the work last submitted with the frame
    /// that follows the current one, when it has signalled the fence with
    /// `completed`.
    pub fn next_frame_retired(&self, completed: u64) -> (r: bool)
        requires
            self@.wf(),
        ensures
            r == retired(self@.next_frame(), completed),
    {
        let len = self.frames.len();
        let next = (self.frame_index + 1) % len;
        self.frames[next].fence <= completed
    }

    /// The commands that open the current frame for recording.
    pub fn prepare(&self) -> (commands: Vec<FrameCommand>)
        requires
            self@.wf(),
        ensures
            commands@ == prepare_commands(
                self@.frame_index as usize,
                self@.frames[self@.frame_index as int].desc_handle,
            ),
    {
        let frame = self.frame_index;
        let mut commands: Vec<FrameCommand> = Vec::new();
        commands.push(FrameCommand::ResetAllocator { frame });
        commands.push(FrameCommand::ResetCommandList { frame });
        commands.push(
            FrameCommand::Transition {
                frame,
                before: ResourceState::Present,
                after: ResourceState::RenderTarget,
            },
        );
        commands.push(
            FrameCommand::SetRenderTarget { frame, descriptor: self.frames[frame].desc_handle },
        );
        commands.push(FrameCommand::SetDescriptorHeaps);
        commands
    }

    /// The commands that write the frame's data into the buffers.
    pub fn upload_buffer_data(&self, draw_data: &DrawData) -> (commands: Vec<FrameCommand>)
        ensures
            commands@ == upload_commands(draw_data.lists()),
    {
        let lists = draw_data.draw_lists();
        let mut commands: Vec<FrameCommand> = Vec::new();
        commands.push(FrameCommand::MapBuffers);
        let mut vertex_offset: usize = 0;
        let mut index_offset: usize = 0;
        let mut i: usize = 0;
        while i < lists.len()
            invariant
                i <= lists.len(),
                fits(lists@),
                commands@ == seq![FrameCommand::MapBuffers] + upload_lists_upto(lists@, i as int),
                vertex_offset == vertices_before(lists@, i as int),
                index_offset == indices_before(lists@, i as int),
            decreases lists.len() - i,
        {
            proof {
                lemma_lists_step(lists@, i as int);
                let f = |k: int| upload_list(lists@, k);
                assert(Seq::new((i + 1) as nat, f) =~= Seq::new(i as nat, f).push(f(i as int)));
                Seq::new(i as nat, f).lemma_flatten_push(f(i as int));
            }
            let list = &lists[i];
            commands.push(
                FrameCommand::UploadVertices {
                    list: i,
                    offset: vertex_offset,
                    count: list.vtx_count,
                },
            );
            commands.push(
                FrameCommand::UploadIndices { list: i, offset: index_offset, count: list.idx_count },
            );
            vertex_offset = vertex_offset + list.vtx_count;
            index_offset = index_offset + list.idx_count;
            i = i + 1;
        }
        commands.push(FrameCommand::UnmapBuffers);
        commands
    }

    /// The commands that record the fixed render state.
    pub fn setup_render_state(&self, draw_data: &DrawData) -> (commands: Vec<FrameCommand>)
        ensures
            commands@ == setup_commands(draw_data.width(), draw_data.height()),
    {
        let (width, height) = draw_data.display_size();
        Self::setup_for(width, height)
    }

    /// The commands that record the fixed render state for a display of the
    /// given size.
    fn setup_for(width: u32, height: u32) -> (commands: Vec<FrameCommand>)
        ensures
            commands@ == setup_commands(width, height),
    {
        let mut commands: Vec<FrameCommand> = Vec::new();
        commands.push(
            FrameCommand::SetViewport {
                viewport: Viewport {
                    top_left_x: FLOAT_ZERO,
                    top_left_y: FLOAT_ZERO,
                    width,
                    height,
                    min_depth: FLOAT_ZERO,
                    max_depth: FLOAT_ONE,
                },
            },
        );
        commands.push(FrameCommand::SetBuffers);
        commands.push(FrameCommand::SetPipeline);
        commands.push(FrameCommand::SetProjection);
        commands
    }

    /// The commands that draw the frame.
    fn draw(&self, draw_data: &DrawData) -> (commands: Vec<FrameCommand>)
        ensures
            commands@ == draw_commands(
                draw_data.width(),
                draw_data.height(),
                draw_data.lists(),
            ),
    {
        let (width, height) = draw_data.display_size();
        let ops = draw_data.plan();
        let mut commands: Vec<FrameCommand> = Vec::new();
        let mut k: usize = 0;
        while k < ops.len()
            invariant
                k <= ops.len(),
                commands@ == ops_commands_upto(width, height, ops@, k as int),
            decreases ops.len() - k,
        {
            proof {
                let f = |n: int| op_commands(width, height, ops@[n]);
                assert(Seq::new((k + 1) as nat, f) =~= Seq::new(k as nat, f).push(f(k as int)));
                Seq::new(k as nat, f).lemma_flatten_push(f(k as int));
            }
            match ops[k] {
                DrawOp::BindTexture { texture_id } => {
                    commands.push(FrameCommand::BindTexture { texture_id });
                },
                DrawOp::SetScissor { rect } => {
                    commands.push(FrameCommand::SetScissorRect { rect });
                },
                DrawOp::DrawIndexed { index_count, start_index, base_vertex } => {
                    commands.push(
                        FrameCommand::DrawIndexed { index_count, start_index, base_vertex },
                    );
                },
                DrawOp::ResetRenderState => {
                    let setup = Self::setup_for(width, height);
                    append(&mut commands, &setup);
                },
                DrawOp::RawCallback { list, command } => {
                    commands.push(FrameCommand::RawCallback { list, command });
                },
            }
            k = k + 1;
        }
        commands
    }

    /// Records one frame.  `completed` is the value that the fence has reached.
    ///
    /// A frame whose display is empty asks nothing of the device.  For any
    /// other the ring moves on to its next frame, unless the GPU has not yet
    /// finished what was last submitted with that frame: then nothing is
    /// recorded and the ring stays where it is.  The frame that is recorded
    /// makes room in the buffers, opens the command list, writes the buffers,
    /// draws the batches, hands the back buffer back and submits, and from
    /// then on waits for the fence value that the submission signals.
    pub fn render(&mut self, draw_data: &DrawData, completed: u64) -> (result: Result<
        Vec<FrameCommand>,
        FrameError,
    >)
        requires
            old(self)@.wf(),
        ensures
            final(self)@.wf(),
            old(self)@.renders(draw_data, completed, final(self)@, result),
    {
        if draw_data.is_display_empty() {
            return Ok(Vec::new());
        }
        let len = self.frames.len();
        let next = (self.frame_index + 1) % len;
        if self.frames[next].fence > completed {
            return Err(FrameError::FrameInFlight);
        }
        if self.last_fence == u64::MAX {
            return Err(FrameError::FenceExhausted);
        }
        let fence = self.last_fence + 1;
        let mut frame = self.frames[next];
        frame.fence = fence;
        self.frames.set(next, frame);
        self.frame_index = next;
        self.last_fence = fence;
        self.vertex_buffer.ensure_capacity(draw_data.total_vtx_count());
        self.index_buffer.ensure_capacity(draw_data.total_idx_count());
        let (width, height) = draw_data.display_size();
        let mut commands = self.prepare();
        if self.vertex_buffer.get_resource().is_none() {
            commands.push(FrameCommand::CreateVertexBuffer { capacity: self.vertex_buffer.len() });
        }
        if self.index_buffer.get_resource().is_none() {
            commands.push(FrameCommand::CreateIndexBuffer { capacity: self.index_buffer.len() });
        }
        let upload = self.upload_buffer_data(draw_data);
        append(&mut commands, &upload);
        let setup = Self::setup_for(width, height);
        append(&mut commands, &setup);
        let draws = self.draw(draw_data);
        append(&mut commands, &draws);
        commands.push(
            FrameCommand::Transition {
                frame: next,
                before: ResourceState::RenderTarget,
                after: ResourceState::Present,
            },
        );
        commands.push(FrameCommand::Close);
        commands.push(FrameCommand::Execute);
        commands.push(FrameCommand::Signal { value: fence });
        assert(commands@ =~= self@.frame_commands(width, height, draw_data.lists()));
        Ok(commands)
    }

    /// Lets the back buffers go.  The host is about to resize its swapchain,
    /// which fails while a back buffer is referred to.
    pub fn invalidate_device_objects(&mut self)
        requires
            old(self)@.wf(),
        ensures
            final(self)@.wf(),
            old(self)@.invalidated(final(self)@),
    {
        let n = self.frames.len();
        let mut frames: Vec<FrameContext> = Vec::new();
        let mut i: usize = 0;
        while i < n
            invariant
                i <= n,
                n == self.frames@.len(),
                frames@.len() == i,
                forall|k: int|
                    0 <= k < i ==> #[trigger] frames@[k] == (FrameContext {
                        resrc: None,
                        ..self.frames@[k]
                    }),
            decreases n - i,
        {
            let mut frame = self.frames[i];
            frame.resrc = None;
            frames.push(frame);
            i = i + 1;
        }
        self.frames = frames;
    }

    /// Takes the back buffers of the resized swapchain, one for each frame of
    /// the ring.  With another number of back buffers nothing is taken.
    pub fn create_device_objects(&mut self, back_buffers: &Vec<Handle>) -> (taken: bool)
        requires
            old(self)@.wf(),
        ensures
            final(self)@.wf(),
            old(self)@.recreated(final(self)@, back_buffers@, taken),
    {
        let n = self.frames.len();
        if back_buffers.len() != n {
            return false;
        }
        let mut frames: Vec<FrameContext> = Vec::new();
        let mut i: usize = 0;
        while i < n
            invariant
                i <= n,
                n == self.frames@.len(),
                n == back_buffers@.len(),
                frames@.len() == i,
                forall|k: int|
                    0 <= k < i ==> #[trigger] frames@[k] == (FrameContext {
                        resrc: Some(back_buffers@[k]),
                        ..self.frames@[k]
                    }),
            decreases n - i,
        {
            let mut frame = self.frames[i];
            frame.resrc = Some(back_buffers[i]);
            frames.push(frame);
            i = i + 1;
        }
        self.frames = frames;
        true
    }
}

/// A render call that records a frame records it with the frame that follows
/// the current one in the ring, and only when the GPU has finished what was
/// last submitted with that frame.  No other frame of the ring is touched, and
/// the allocator that is reset is that of no other frame, so that no work in
/// flight loses its allocator.
pub proof fn lemma_selected_frame_is_retired(
    before: D3D12State,
    draw_data: &DrawData,
    completed: u64,
    after: D3D12State,
    commands: Vec<FrameCommand>,
)
    requires
        before.wf(),
        !draw_data.is_empty(),
        before.renders(draw_data, completed, after, Ok(commands)),
    ensures
        after.frame_index == (before.frame_index + 1) % before.frames.len(),
        after.frame_index < before.frames.len(),
        retired(before.frames[after.frame_index as int], completed),
        after.frames.len() == before.frames.len(),
        forall|i: int|
            0 <= i < before.frames.len() && i != after.frame_index ==> #[trigger] after.frames[i]
                == before.frames[i],
        forall|i: int|
            0 <= i < before.frames.len() && i != after.frame_index ==> (
            #[trigger] before.frames[i]).alloc != before.frames[after.frame_index as int].alloc,
{
    lemma_next_index(before.frame_index, before.frames.len());
}

/// The ring moves on by one frame at a time and comes round: the frame after
/// frame `index` is `(index + 1) mod len`, which is a frame of the ring, and
/// it is frame 0 exactly after the last one.
pub proof fn lemma_next_index(index: nat, len: nat)
    requires
        index < len,
    ensures
        next_index(index, len) == (index + 1) % len,
        next_index(index, len) < len,
        next_index(index, len) == (if index + 1 == len {
            0
        } else {
            index + 1
        }),
{
    if index + 1 == len {
        lemma_mod_self_0(len as int);
    } else {
        lemma_small_mod(index + 1, len);
    }
}

} // verus!
