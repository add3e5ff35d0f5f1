//! The orchestrator that the intercepted entry points call into: the one
//! backend of the process, the callbacks registered with it, and what each
//! intercepted call has to do, in which order.

use std::collections::HashSet;
use vstd::prelude::*;
use vstd::std_specs::hash::group_hash_axioms;
use vstd::string::StringExecFns;
use crate::d3d11_impl::context::{PipelineState, PipelineView};
use crate::d3d11_impl::init::D3D11Init;
use crate::d3d12_impl::init::D3D12Init;
use crate::hresult::InitError;
use crate::d3d11_impl::state::{D3D11Hook, D3D11State, RenderError, RenderPlan};
use crate::d3d12_impl::state::{D3D12Hook, D3D12State, FrameCommand, FrameError};
use crate::draw_data::DrawData;
use crate::registry::RendererType;
use crate::types::{Handle, Rect};
use crate::win32_impl::events::Io;
use crate::win32_impl::state::Win32Impl;

verus! {

/// The renderer of the process: one of the two kinds, chosen when the backend
/// is made and never changed.
#[derive(Debug)]
pub enum Renderer {
    Direct3D11(D3D11Hook),
    Direct3D12(D3D12Hook),
}

/// What one frame asks of the device.
#[derive(Debug)]
pub enum FramePlan {
    Direct3D11(RenderPlan),
    Direct3D12(Vec<FrameCommand>),
}

/// Why a frame could not be drawn.
#[derive(Debug, Clone, Copy, PartialEq, Eq, Structural)]
pub enum FrameFailure {
    Direct3D11(RenderError),
    Direct3D12(FrameError),
}

impl Renderer {
    /// The renderer is sound: a frame ring is not empty.
    pub open spec fn wf(&self) -> bool {
        match self {
            Renderer::Direct3D11(_) => true,
            Renderer::Direct3D12(r) => r@.wf(),
        }
    }

    /// Which kind the renderer is of.
    pub open spec fn kind(&self) -> RendererType {
        match self {
            Renderer::Direct3D11(_) => RendererType::Direct3D11,
            Renderer::Direct3D12(_) => RendererType::Direct3D12,
        }
    }

    /// The renderer holds something that refers to a back buffer of the
    /// swapchain.
    pub open spec fn has_render_target(&self) -> bool {
        match self {
            Renderer::Direct3D11(r) => r@.render_target_view is Some,
            Renderer::Direct3D12(r) => exists|i: int|
                0 <= i < r@.frames.len() && (#[trigger] r@.frames[i]).resrc is Some,
        }
    }

    /// The renderer `after` and `result` are what a render call gives with
    /// this renderer: what its own kind of renderer gives, as `renders` of that
    /// kind says.  The immediate-context renderer stays as it is.
    pub open spec fn renders(
        &self,
        after: &Renderer,
        draw_data: &DrawData,
        context: PipelineView,
        completed: u64,
        result: Result<FramePlan, FrameFailure>,
    ) -> bool {
        match (*self, *after) {
            (Renderer::Direct3D11(before), Renderer::Direct3D11(now)) => {
                &&& now == before
                &&& match result {
                    Ok(FramePlan::Direct3D11(plan)) => before@.renders(draw_data, context, Ok(plan)),
                    Err(FrameFailure::Direct3D11(e)) => before@.renders(draw_data, context, Err(e)),
                    _ => false,
                }
            },
            (Renderer::Direct3D12(before), Renderer::Direct3D12(now)) => match result {
                Ok(FramePlan::Direct3D12(commands)) => before@.renders(
                    draw_data,
                    completed,
                    now@,
                    Ok(commands),
                ),
                Err(FrameFailure::Direct3D12(e)) => before@.renders(
                    draw_data,
                    completed,
                    now@,
                    Err(e),
                ),
                _ => false,
            },
            _ => false,
        }
    }

    /// The renderer `after` is this renderer with what refers to the back
    /// buffers let go.
    pub open spec fn invalidated(&self, after: &Renderer) -> bool {
        match (*self, *after) {
            (Renderer::Direct3D11(before), Renderer::Direct3D11(now)) => now@ == (D3D11State {
                render_target_view: None,
                ..before@
            }),
            (Renderer::Direct3D12(before), Renderer::Direct3D12(now)) => before@.invalidated(now@),
            _ => false,
        }
    }

    /// The renderer `after` and the result `created` are what taking `views`
    /// gives with this renderer.  The immediate-context renderer takes the
    /// first of `views` as its render-target view, and has none if there is
    /// none.  The frame-ring renderer takes `views` as the back buffers of its
    /// frames.
    pub open spec fn recreated(&self, after: &Renderer, views: Seq<Handle>, created: bool) -> bool {
        match (*self, *after) {
            (Renderer::Direct3D11(before), Renderer::Direct3D11(now)) => {
                &&& created == (views.len() > 0)
                &&& now@ == (D3D11State {
                    render_target_view: if views.len() > 0 {
                        Some(views[0])
                    } else {
                        None
                    },
                    ..before@
                })
            },
            (Renderer::Direct3D12(before), Renderer::Direct3D12(now)) => before@.recreated(
                now@,
                views,
                created,
            ),
            _ => false,
        }
    }

    /// The renderer `after` and the pair `grown` are what making room for the
    /// frame `draw_data` gives with this renderer.  The frame-ring renderer
    /// makes room when it records the frame, and stays as it is.
    pub open spec fn buffers_ensured(
        &self,
        after: &Renderer,
        draw_data: &DrawData,
        grown: (bool, bool),
    ) -> bool {
        match (*self, *after) {
            (Renderer::Direct3D11(before), Renderer::Direct3D11(now)) => before@.buffers_ensured(
                now@,
                draw_data,
                grown,
            ),
            (Renderer::Direct3D12(before), Renderer::Direct3D12(now)) => now == before && grown == (
                false,
                false,
            ),
            _ => false,
        }
    }

    /// The renderer `after` is this renderer with `buffer` attached to its
    /// vertex buffer.
    pub open spec fn vertex_buffer_attached(&self, after: &Renderer, buffer: Handle) -> bool {
        match (*self, *after) {
            (
                Renderer::Direct3D11(before),
                Renderer::Direct3D11(now),
            ) => before@.vertex_buffer_attached(now@, buffer),
            (Renderer::Direct3D12(before), Renderer::Direct3D12(now)) => now@ == (D3D12State {
                vertex_buffer: before@.vertex_buffer.attached(buffer),
                ..before@
            }),
            _ => false,
        }
    }

    /// The renderer `after` is this renderer with `buffer` attached to its
    /// index buffer.
    pub open spec fn index_buffer_attached(&self, after: &Renderer, buffer: Handle) -> bool {
        match (*self, *after) {
            (
                Renderer::Direct3D11(before),
                Renderer::Direct3D11(now),
            ) => before@.index_buffer_attached(now@, buffer),
            (Renderer::Direct3D12(before), Renderer::Direct3D12(now)) => now@ == (D3D12State {
                index_buffer: before@.index_buffer.attached(buffer),
                ..before@
            }),
            _ => false,
        }
    }

    /// The renderer `after` and the result `id` are what registering the
    /// texture `view` gives with this renderer.  The frame-ring renderer draws
    /// with the descriptors that its textures are, registers none, and stays
    /// as it is.
    pub open spec fn texture_registered(&self, after: &Renderer, view: Handle, id: Option<usize>) -> bool {
        match (*self, *after) {
            (Renderer::Direct3D11(before), Renderer::Direct3D11(now)) => before@.texture_registered(
                now@,
                view,
                id,
            ),
            (Renderer::Direct3D12(before), Renderer::Direct3D12(now)) => now == before && id is None,
            _ => false,
        }
    }

    /// The renderer `after` and the result `view` are what taking the texture
    /// `id` out gives with this renderer.
    pub open spec fn texture_removed(&self, after: &Renderer, id: usize, view: Option<Handle>) -> bool {
        match (*self, *after) {
            (Renderer::Direct3D11(before), Renderer::Direct3D11(now)) => {
                &&& view == before@.texture(id)
                &&& now@ == (D3D11State { textures: before@.textures.remove(id), ..before@ })
            },
            (Renderer::Direct3D12(before), Renderer::Direct3D12(now)) => now == before
                && view is None,
            _ => false,
        }
    }

    /// Which kind the renderer is of.
    pub fn get_kind(&self) -> (kind: RendererType)
        ensures
            kind == self.kind(),
    {
        match self {
            Renderer::Direct3D11(_) => RendererType::Direct3D11,
            Renderer::Direct3D12(_) => RendererType::Direct3D12,
        }
    }

    /// Plans one frame with the renderer at hand.  `context` is the pipeline
    /// state read from the immediate context, which only the immediate-context
    /// renderer looks at, and `completed` the value that the fence has reached,
    /// which only the frame-ring renderer looks at.
    pub fn render(&mut self, draw_data: &DrawData, context: PipelineState, completed: u64) -> (result:
        Result<FramePlan, FrameFailure>)
        requires
            old(self).wf(),
        ensures
            final(self).wf(),
            old(self).renders(final(self), draw_data, context@, completed, result),
    {
        match self {
            Renderer::Direct3D11(r) => match r.render(draw_data, context) {
                Ok(plan) => Ok(FramePlan::Direct3D11(plan)),
                Err(e) => Err(FrameFailure::Direct3D11(e)),
            },
            Renderer::Direct3D12(r) => match r.render(draw_data, completed) {
                Ok(commands) => Ok(FramePlan::Direct3D12(commands)),
                Err(e) => Err(FrameFailure::Direct3D12(e)),
            },
        }
    }

    /// Lets go of what refers to the swapchain's back buffers: the
    /// render-target view, or the back buffers of the frame ring.
    pub fn invalidate_render_target_view(&mut self)
        requires
            old(self).wf(),
        ensures
            final(self).wf(),
            old(self).invalidated(final(self)),
            !final(self).has_render_target(),
    {
        match self {
            Renderer::Direct3D11(r) => r.invalidate_render_target_view(),
            Renderer::Direct3D12(r) => r.invalidate_device_objects(),
        }
    }

    /// Takes what was made from the resized swapchain: for the
    /// immediate-context renderer the render-target view, which is the first of
    /// `views`, and for the frame-ring renderer the back buffers, one for each
    /// frame.  The result tells whether the renderer can draw again.
    pub fn create_render_target_view(&mut self, views: &Vec<Handle>) -> (created: bool)
        requires
            old(self).wf(),
        ensures
            final(self).wf(),
            old(self).recreated(final(self), views@, created),
            created ==> final(self).has_render_target(),
    {
        match self {
            Renderer::Direct3D11(r) => {
                if views.len() > 0 {
                    r.create_render_target_view(Some(views[0]));
                    true
                } else {
                    r.create_render_target_view(None);
                    false
                }
            },
            Renderer::Direct3D12(r) => {
                let created = r.create_device_objects(views);
                proof {
                    if created {
                        assert(r@.frames[0].resrc == Some(views@[0]));
                    }
                }
                created
            },
        }
    }

    /// Makes room in the buffers of the immediate-context renderer for the
    /// frame `draw_data`, as `D3D11Hook::ensure_buffers` does.
    pub fn ensure_buffers(&mut self, draw_data: &DrawData) -> (grown: (bool, bool))
        ensures
            old(self).buffers_ensured(final(self), draw_data, grown),
            old(self).wf() ==> final(self).wf(),
    {
        match self {
            Renderer::Direct3D11(r) => r.ensure_buffers(draw_data),
            Renderer::Direct3D12(_) => (false, false),
        }
    }

    /// Attaches the buffer that was created for the vertex buffer.
    pub fn attach_vertex_buffer(&mut self, buffer: Handle)
        ensures
            old(self).vertex_buffer_attached(final(self), buffer),
            old(self).wf() ==> final(self).wf(),
    {
        match self {
            Renderer::Direct3D11(r) => r.attach_vertex_buffer(buffer),
            Renderer::Direct3D12(r) => r.attach_vertex_buffer(buffer),
        }
    }

    /// Attaches the buffer that was created for the index buffer.
    pub fn attach_index_buffer(&mut self, buffer: Handle)
        ensures
            old(self).index_buffer_attached(final(self), buffer),
            old(self).wf() ==> final(self).wf(),
    {
        match self {
            Renderer::Direct3D11(r) => r.attach_index_buffer(buffer),
            Renderer::Direct3D12(r) => r.attach_index_buffer(buffer),
        }
    }

    /// Registers the shader-resource view `view` as a texture that the
    /// interface may draw with, as `D3D11Hook::register_texture` does.
    pub fn register_texture(&mut self, view: Handle) -> (id: Option<usize>)
        ensures
            old(self).texture_registered(final(self), view, id),
            old(self).wf() ==> final(self).wf(),
    {
        match self {
            Renderer::Direct3D11(r) => r.register_texture(view),
            Renderer::Direct3D12(_) => None,
        }
    }

    /// Takes the texture under the identifier `id` out of the registered ones,
    /// as `D3D11Hook::remove_texture` does.
    pub fn remove_texture(&mut self, id: usize) -> (view: Option<Handle>)
        ensures
            old(self).texture_removed(final(self), id, view),
            old(self).wf() ==> final(self).wf(),
    {
        match self {
            Renderer::Direct3D11(r) => r.remove_texture(id),
            Renderer::Direct3D12(_) => None,
        }
    }
}

/// The kind of a renderer never changes: whatever is done with a renderer, it
/// is of the same kind afterwards.
pub proof fn lemma_renderer_kind_is_kept(
    before: Renderer,
    after: Renderer,
    draw_data: &DrawData,
    context: PipelineView,
    completed: u64,
    result: Result<FramePlan, FrameFailure>,
    views: Seq<Handle>,
    created: bool,
    grown: (bool, bool),
    buffer: Handle,
    texture: Handle,
    id: Option<usize>,
)
    requires
        before.renders(&after, draw_data, context, completed, result) || before.invalidated(&after)
            || before.recreated(&after, views, created) || before.buffers_ensured(
            &after,
            draw_data,
            grown,
        ) || before.vertex_buffer_attached(&after, buffer) || before.index_buffer_attached(
            &after,
            buffer,
        ) || before.texture_registered(&after, texture, id),
    ensures
        after.kind() == before.kind(),
{
}

/// The slot that remembers the command queue seen by the command-submission
/// hook.  It starts empty and keeps the first queue it is given.
#[derive(Debug)]
pub struct CommandQueueStore {
    queue: Option<Handle>,
}

impl View for CommandQueueStore {
    type V = Option<Handle>;

    closed spec fn view(&self) -> Option<Handle> {
        self.queue
    }
}

impl CommandQueueStore {
    #[verifier::type_invariant]
    spec fn never_null(&self) -> bool {
        self.queue != Some(0usize)
    }

    /// An empty slot.
    pub fn new() -> (store: Self)
        ensures
            store@ is None,
    {
        Self { queue: None }
    }

    /// The stored queue, if one was observed.  A stored queue is never null.
    pub fn try_get(&self) -> (queue: Option<Handle>)
        ensures
            queue == self@,
            queue != Some(0usize),
    {
        proof {
            use_type_invariant(self);
        }
        self.queue
    }

    /// Stores the queue `val`, which is not null, unless a queue is stored
    /// already: the slot keeps the first queue it is given.
    pub fn set(&mut self, val: Handle)
        requires
            val != 0,
        ensures
            final(self)@ == (if old(self)@ is Some {
                old(self)@
            } else {
                Some(val)
            }),
    {
        if self.queue.is_none() {
            self.queue = Some(val);
        }
    }
}

/// One thing that an intercepted call does.
#[derive(Debug, Clone, Copy, PartialEq, Eq, Structural)]
pub enum HookStep {
    /// Run one frame of the overlay on the backend.
    Tick,
    /// Make the backend with the immediate-context renderer.  If that fails
    /// there is no backend, and the next presentation tries again.
    InitDirect3D11,
    /// Make the backend with the frame-ring renderer on `command_queue`.  If
    /// that fails there is no backend, and the next presentation tries again.
    InitDirect3D12 { command_queue: Handle },
    /// Have the renderer let go of what refers to the back buffers.
    InvalidateRenderTarget,
    /// Have the renderer take what is made from the resized swapchain.
    RecreateRenderTarget,
    /// Store `command_queue` in the command-queue slot.
    StoreCommandQueue { command_queue: Handle },
    /// Call the host's own function with the arguments of the intercepted
    /// call, and return what it returns.
    InvokeOriginal,
}

/// What an intercepted presentation does.  With a backend the overlay runs a
/// frame.  Without one the backend is made, for the frame-ring renderer only
/// once a command queue was seen.  The host's own presentation comes last in
/// every case.
pub open spec fn present_script(
    has_backend: bool,
    renderer: RendererType,
    queue: Option<Handle>,
) -> Seq<HookStep> {
    if has_backend {
        seq![HookStep::Tick, HookStep::InvokeOriginal]
    } else {
        match renderer {
            RendererType::Direct3D11 => seq![HookStep::InitDirect3D11, HookStep::InvokeOriginal],
            RendererType::Direct3D12 => match queue {
                Some(command_queue) => seq![
                    HookStep::InitDirect3D12 { command_queue },
                    HookStep::InvokeOriginal,
                ],
                None => seq![HookStep::InvokeOriginal],
            },
        }
    }
}

/// What an intercepted resize of the back buffers does.  With a backend the
/// renderer lets go of the back buffers before the host's own resize, and
/// takes the new ones after it.
pub open spec fn resize_script(has_backend: bool) -> Seq<HookStep> {
    if has_backend {
        seq![
            HookStep::InvalidateRenderTarget,
            HookStep::InvokeOriginal,
            HookStep::RecreateRenderTarget,
        ]
    } else {
        seq![HookStep::InvokeOriginal]
    }
}

/// What an intercepted command submission does.  The first queue seen is
/// stored, unless it is null.  The host's own submission comes last.
pub open spec fn submission_script(stored: Option<Handle>, command_queue: Handle) -> Seq<HookStep> {
    if stored is None && command_queue != 0 {
        seq![HookStep::StoreCommandQueue { command_queue }, HookStep::InvokeOriginal]
    } else {
        seq![HookStep::InvokeOriginal]
    }
}

/// The script calls the host's own function exactly once.
pub open spec fn invokes_original_once(script: Seq<HookStep>) -> bool {
    exists|i: int|
        0 <= i < script.len() && #[trigger] script[i] == HookStep::InvokeOriginal && forall|j: int|
            0 <= j < script.len() && j != i ==> #[trigger] script[j] != HookStep::InvokeOriginal
}

/// Whether the renderer holds something that refers to a back buffer once the
/// steps of `script` are done, when it held something before exactly if
/// `held` is set, and when every recreation succeeds.
pub open spec fn holds_after(script: Seq<HookStep>, held: bool) -> bool
    decreases script.len(),
{
    if script.len() == 0 {
        held
    } else {
        match script.last() {
            HookStep::InvalidateRenderTarget => false,
            HookStep::RecreateRenderTarget => true,
            _ => holds_after(script.drop_last(), held),
        }
    }
}

/// The host is never kept from presenting: whatever the state of the overlay,
/// an intercepted presentation calls the host's own presentation exactly once,
/// and as its last step.
pub proof fn lemma_present_is_transparent(
    has_backend: bool,
    renderer: RendererType,
    queue: Option<Handle>,
)
    ensures
        invokes_original_once(present_script(has_backend, renderer, queue)),
        present_script(has_backend, renderer, queue).last() == HookStep::InvokeOriginal,
{
}

/// An intercepted command submission calls the host's own submission exactly
/// once, and as its last step.
pub proof fn lemma_submission_is_transparent(stored: Option<Handle>, command_queue: Handle)
    ensures
        invokes_original_once(submission_script(stored, command_queue)),
        submission_script(stored, command_queue).last() == HookStep::InvokeOriginal,
{
}

/// The order of a resize.  The host's own resize is called exactly once.
/// Every invalidation comes before it, so that when it is called the renderer
/// holds nothing that refers to a back buffer, whatever it held before.  Every
/// recreation comes after it.
pub proof fn lemma_resize_order(has_backend: bool, held: bool)
    ensures
        invokes_original_once(resize_script(has_backend)),
        forall|i: int, j: int|
            0 <= i < resize_script(has_backend).len() && 0 <= j < resize_script(has_backend).len()
                && #[trigger] resize_script(has_backend)[i] == HookStep::InvalidateRenderTarget
                && #[trigger] resize_script(has_backend)[j] == HookStep::InvokeOriginal ==> i < j,
        forall|j: int, k: int|
            0 <= j < resize_script(has_backend).len() && 0 <= k < resize_script(has_backend).len()
                && #[trigger] resize_script(has_backend)[j] == HookStep::InvokeOriginal
                && #[trigger] resize_script(has_backend)[k] == HookStep::RecreateRenderTarget
                ==> j < k,
        has_backend ==> {
            let script = resize_script(true);
            &&& script[1] == HookStep::InvokeOriginal
            &&& !holds_after(script.take(1), held)
            &&& holds_after(script, held)
        },
{
    let script = resize_script(has_backend);
    assert(script[if has_backend { 1int } else { 0int }] == HookStep::InvokeOriginal);
}

/// Decides what an intercepted presentation does.
pub fn hook_present(has_backend: bool, renderer: RendererType, queue: &CommandQueueStore) -> (script:
    Vec<HookStep>)
    ensures
        script@ == present_script(has_backend, renderer, queue@),
{
    let mut script: Vec<HookStep> = Vec::new();
    if has_backend {
        script.push(HookStep::Tick);
    } else {
        match renderer {
            RendererType::Direct3D11 => {
                script.push(HookStep::InitDirect3D11);
            },
            RendererType::Direct3D12 => match queue.try_get() {
                Some(command_queue) => {
                    script.push(HookStep::InitDirect3D12 { command_queue });
                },
                None => {},
            },
        }
    }
    script.push(HookStep::InvokeOriginal);
    script
}

/// Decides what an intercepted resize of the back buffers does.
pub fn hook_resize_buffers(has_backend: bool) -> (script: Vec<HookStep>)
    ensures
        script@ == resize_script(has_backend),
{
    let mut script: Vec<HookStep> = Vec::new();
    if has_backend {
        script.push(HookStep::InvalidateRenderTarget);
    }
    script.push(HookStep::InvokeOriginal);
    if has_backend {
        script.push(HookStep::RecreateRenderTarget);
    }
    script
}

/// Decides what an intercepted command submission on the queue
/// `p_command_queue` does.
pub fn hook_execute_command_lists(queue: &CommandQueueStore, p_command_queue: Handle) -> (script:
    Vec<HookStep>)
    ensures
        script@ == submission_script(queue@, p_command_queue),
{
    let mut script: Vec<HookStep> = Vec::new();
    if queue.try_get().is_none() && p_command_queue != 0 {
        script.push(HookStep::StoreCommandQueue { command_queue: p_command_queue });
    }
    script.push(HookStep::InvokeOriginal);
    script
}

/// What one frame of the overlay calls: first the callbacks that hand the GUI
/// library's allocator on, in this order, then, once the GUI library has begun
/// its frame, the callbacks that build the interface, each once, in the order
/// in which the set of them happened to be walked.
#[derive(Debug)]
pub struct TickPlan {
    pub allocator_callbacks: Vec<usize>,
    pub callbacks: Vec<usize>,
}

/// The one backend of the process: the platform layer, the renderer, and the
/// callbacks registered by other code, each known by its address.
#[derive(Debug)]
pub struct Backend {
    platform: Win32Impl,
    renderer: Renderer,
    callbacks: HashSet<usize>,
    allocator_callbacks: Vec<usize>,
}

impl Backend {
    /// The callbacks that build the interface: a set, so that none is
    /// registered twice.
    pub closed spec fn callbacks(&self) -> Set<usize> {
        self.callbacks@
    }

    /// The callbacks that wait to be handed the GUI library's allocator, in
    /// the order in which they were registered.
    pub closed spec fn allocator_callbacks(&self) -> Seq<usize> {
        self.allocator_callbacks@
    }

    /// The platform layer.
    pub closed spec fn platform(&self) -> Win32Impl {
        self.platform
    }

    /// The renderer.
    pub closed spec fn renderer(&self) -> Renderer {
        self.renderer
    }

    /// The backend is sound: its renderer is.
    pub open spec fn wf(&self) -> bool {
        self.renderer().wf()
    }

    /// The platform layer.
    pub fn get_platform(&self) -> (platform: &Win32Impl)
        ensures
            *platform == self.platform(),
    {
        &self.platform
    }

    /// The renderer.
    pub fn get_renderer(&self) -> (renderer: &Renderer)
        ensures
            *renderer == self.renderer(),
    {
        &self.renderer
    }

    /// The backend `after` differs from this one in its renderer at most, and
    /// the renderer is of the same kind.
    pub open spec fn same_but_renderer(&self, after: &Backend) -> bool {
        &&& after.platform() == self.platform()
        &&& after.callbacks() == self.callbacks()
        &&& after.allocator_callbacks() == self.allocator_callbacks()
        &&& after.renderer().kind() == self.renderer().kind()
    }

    /// Plans one frame with the renderer of the backend, as
    /// `Renderer::render` does.
    pub fn render(&mut self, draw_data: &DrawData, context: PipelineState, completed: u64) -> (result:
        Result<FramePlan, FrameFailure>)
        requires
            old(self).wf(),
        ensures
            final(self).wf(),
            old(self).same_but_renderer(final(self)),
            old(self).renderer().renders(
                &final(self).renderer(),
                draw_data,
                context@,
                completed,
                result,
            ),
    {
        self.renderer.render(draw_data, context, completed)
    }

    /// Has the renderer let go of what refers to the swapchain's back buffers.
    pub fn invalidate_render_target_view(&mut self)
        requires
            old(self).wf(),
        ensures
            final(self).wf(),
            old(self).same_but_renderer(final(self)),
            old(self).renderer().invalidated(&final(self).renderer()),
            !final(self).renderer().has_render_target(),
    {
        self.renderer.invalidate_render_target_view();
    }

    /// Has the renderer take what was made from the resized swapchain, as
    /// `Renderer::create_render_target_view` does.
    pub fn create_render_target_view(&mut self, views: &Vec<Handle>) -> (created: bool)
        requires
            old(self).wf(),
        ensures
            final(self).wf(),
            old(self).same_but_renderer(final(self)),
            old(self).renderer().recreated(&final(self).renderer(), views@, created),
            created ==> final(self).renderer().has_render_target(),
    {
        self.renderer.create_render_target_view(views)
    }

    /// Makes room in the buffers of the renderer for the frame `draw_data`.
    pub fn ensure_buffers(&mut self, draw_data: &DrawData) -> (grown: (bool, bool))
        ensures
            old(self).same_but_renderer(final(self)),
            old(self).renderer().buffers_ensured(&final(self).renderer(), draw_data, grown),
            old(self).wf() ==> final(self).wf(),
    {
        self.renderer.ensure_buffers(draw_data)
    }

    /// Attaches the buffer that was created for the vertex buffer of the
    /// renderer.
    pub fn attach_vertex_buffer(&mut self, buffer: Handle)
        ensures
            old(self).same_but_renderer(final(self)),
            old(self).renderer().vertex_buffer_attached(&final(self).renderer(), buffer),
            old(self).wf() ==> final(self).wf(),
    {
        self.renderer.attach_vertex_buffer(buffer);
    }

    /// Attaches the buffer that was created for the index buffer of the
    /// renderer.
    pub fn attach_index_buffer(&mut self, buffer: Handle)
        ensures
            old(self).same_but_renderer(final(self)),
            old(self).renderer().index_buffer_attached(&final(self).renderer(), buffer),
            old(self).wf() ==> final(self).wf(),
    {
        self.renderer.attach_index_buffer(buffer);
    }

    /// Registers a texture with the renderer.
    pub fn register_texture(&mut self, view: Handle) -> (id: Option<usize>)
        ensures
            old(self).same_but_renderer(final(self)),
            old(self).renderer().texture_registered(&final(self).renderer(), view, id),
            old(self).wf() ==> final(self).wf(),
    {
        self.renderer.register_texture(view)
    }

    /// Takes a texture out of those registered with the renderer.
    pub fn remove_texture(&mut self, id: usize) -> (view: Option<Handle>)
        ensures
            old(self).same_but_renderer(final(self)),
            old(self).renderer().texture_removed(&final(self).renderer(), id, view),
            old(self).wf() ==> final(self).wf(),
    {
        self.renderer.remove_texture(id)
    }

    /// The hooks to install for a host with the immediate-context runtime.
    pub fn make_hooks_d3d11(init: &Result<D3D11Init, InitError>) -> (hooks: Vec<HookRequest>)
        ensures
            hooks@ == d3d11_hooks(*init),
    {
        let mut hooks: Vec<HookRequest> = Vec::new();
        match init {
            Ok(dummy) => {
                hooks.push(
                    HookRequest {
                        target: dummy.get_present_ptr(),
                        kind: HookKind::Present,
                        resolve_thunk: true,
                    },
                );
                hooks.push(
                    HookRequest {
                        target: dummy.get_resize_buffers_ptr(),
                        kind: HookKind::ResizeBuffers,
                        resolve_thunk: true,
                    },
                );
            },
            Err(_) => {},
        }
        hooks
    }

    /// The hooks to install for a host with the command-list runtime.
    pub fn make_hooks_d3d12(init: &Result<D3D12Init, InitError>) -> (hooks: Vec<HookRequest>)
        ensures
            hooks@ == d3d12_hooks(*init),
    {
        let mut hooks: Vec<HookRequest> = Vec::new();
        match init {
            Ok(dummy) => {
                hooks.push(
                    HookRequest {
                        target: dummy.get_present_ptr(),
                        kind: HookKind::Present,
                        resolve_thunk: false,
                    },
                );
                hooks.push(
                    HookRequest {
                        target: dummy.get_resize_buffers_ptr(),
                        kind: HookKind::ResizeBuffers,
                        resolve_thunk: false,
                    },
                );
                hooks.push(
                    HookRequest {
                        target: dummy.get_execute_command_lists_ptr(),
                        kind: HookKind::ExecuteCommandLists,
                        resolve_thunk: false,
                    },
                );
            },
            Err(_) => {},
        }
        hooks
    }

    /// The hook to install on the window procedure of the host's window, once
    /// the backend is made.
    pub fn window_hook(&self) -> (hook: HookRequest)
        ensures
            hook == (HookRequest {
                target: self.platform().window_procedure(),
                kind: HookKind::WindowProc,
                resolve_thunk: false,
            }),
    {
        HookRequest {
            target: self.platform.get_wnd_proc(),
            kind: HookKind::WindowProc,
            resolve_thunk: false,
        }
    }

    /// The backend with the immediate-context renderer.
    pub fn init_d3d11(platform: Win32Impl, renderer: D3D11Hook) -> (backend: Self)
        ensures
            backend.wf(),
            backend.platform() == platform,
            backend.renderer() == Renderer::Direct3D11(renderer),
            backend.callbacks() == Set::<usize>::empty(),
            backend.allocator_callbacks() == Seq::<usize>::empty(),
    {
        Self {
            platform,
            renderer: Renderer::Direct3D11(renderer),
            callbacks: HashSet::new(),
            allocator_callbacks: Vec::new(),
        }
    }

    /// The backend with the frame-ring renderer.
    pub fn init_d3d12(platform: Win32Impl, renderer: D3D12Hook) -> (backend: Self)
        requires
            renderer@.wf(),
        ensures
            backend.wf(),
            backend.platform() == platform,
            backend.renderer() == Renderer::Direct3D12(renderer),
            backend.callbacks() == Set::<usize>::empty(),
            backend.allocator_callbacks() == Seq::<usize>::empty(),
    {
        Self {
            platform,
            renderer: Renderer::Direct3D12(renderer),
            callbacks: HashSet::new(),
            allocator_callbacks: Vec::new(),
        }
    }

    /// Begins one frame of the overlay: the platform layer samples the window
    /// as in `Win32Impl::new_frame`, and the callbacks to call are listed.  The
    /// callbacks that wait for the allocator are called once only, last
    /// registered first, and are forgotten; the callbacks that build the
    /// interface are called every frame, each of them once.
    pub fn tick(
        &mut self,
        io: &mut Io,
        client: Rect,
        now: u64,
        foreground: Handle,
        cursor: Option<(i32, i32)>,
    ) -> (plan: TickPlan)
        ensures
            old(self).platform().begins_frame(
                &final(self).platform(),
                old(io),
                final(io),
                client,
                now,
                foreground,
                cursor,
            ),
            final(self).renderer() == old(self).renderer(),
            final(self).callbacks() == old(self).callbacks(),
            final(self).allocator_callbacks() == Seq::<usize>::empty(),
            plan.allocator_callbacks@ == old(self).allocator_callbacks().reverse(),
            plan.callbacks@.to_set() == old(self).callbacks(),
            plan.callbacks@.no_duplicates(),
    {
        broadcast use group_hash_axioms;

        self.platform.new_frame(io, client, now, foreground, cursor);
        let ghost waiting = self.allocator_callbacks@;
        let mut allocator_callbacks: Vec<usize> = Vec::new();
        let mut n: usize = self.allocator_callbacks.len();
        while n > 0
            invariant
                n <= waiting.len(),
                waiting == self.allocator_callbacks@,
                allocator_callbacks@.len() == waiting.len() - n,
                forall|k: int|
                    0 <= k < allocator_callbacks@.len() ==> allocator_callbacks@[k]
                        == waiting[waiting.len() - 1 - k],
            decreases n,
        {
            n = n - 1;
            allocator_callbacks.push(self.allocator_callbacks[n]);
        }
        self.allocator_callbacks = Vec::new();
        let mut callbacks: Vec<usize> = Vec::new();
        for cb in walk: self.callbacks.iter()
            invariant
                walk.seq().unref().to_set() == self.callbacks@,
                walk.seq().no_duplicates(),
                callbacks@ == walk.seq().unref().take(walk.index()),
                callbacks@.no_duplicates(),
                walk.index() == walk.seq().len() ==> callbacks@.to_set() == self.callbacks@,
        {
            proof {
                let walked = walk.seq().unref();
                let n = walk.index();
                assert(walked.take(n + 1) =~= walked.take(n).push(*cb));
                assert forall|k: int| 0 <= k < n implies walked[k] != *cb by {
                    assert(walk.seq()[k] != walk.seq()[n]);
                }
                assert(walked.take(walked.len() as int) =~= walked);
            }
            callbacks.push(*cb);
        }
        TickPlan { allocator_callbacks, callbacks }
    }

    /// Whether the callback `cb` is registered.
    pub fn has_callback(&self, cb: usize) -> (found: bool)
        ensures
            found == self.callbacks().contains(cb),
    {
        broadcast use group_hash_axioms;

        self.callbacks.contains(&cb)
    }

    /// Registers the callback `cb`, which builds the interface every frame.  A
    /// callback that is registered already is not registered again.
    pub fn add_callback(&mut self, cb: usize)
        ensures
            final(self).callbacks() == old(self).callbacks().insert(cb),
            final(self).allocator_callbacks() == old(self).allocator_callbacks(),
            final(self).platform() == old(self).platform(),
            final(self).renderer() == old(self).renderer(),
    {
        broadcast use group_hash_axioms;

        self.callbacks.insert(cb);
    }

    /// Takes the callback `cb` out of the registered ones.
    pub fn remove_callback(&mut self, cb: usize)
        ensures
            final(self).callbacks() == old(self).callbacks().remove(cb),
            final(self).allocator_callbacks() == old(self).allocator_callbacks(),
            final(self).platform() == old(self).platform(),
            final(self).renderer() == old(self).renderer(),
    {
        broadcast use group_hash_axioms;

        self.callbacks.remove(&cb);
    }

    /// Adds `cb` to the callbacks that wait to be handed the GUI library's
    /// allocator.
    pub fn add_allocator_callback(&mut self, cb: usize)
        ensures
            final(self).allocator_callbacks() == old(self).allocator_callbacks().push(cb),
            final(self).callbacks() == old(self).callbacks(),
            final(self).platform() == old(self).platform(),
            final(self).renderer() == old(self).renderer(),
    {
        self.allocator_callbacks.push(cb);
    }
}

/// An entry point of the host that is intercepted.
#[derive(Debug, Clone, Copy, PartialEq, Eq, Structural)]
pub enum HookKind {
    /// The swapchain's function that presents a frame.
    Present,
    /// The swapchain's function that resizes the back buffers.
    ResizeBuffers,
    /// The command queue's function that submits command lists.
    ExecuteCommandLists,
    /// The window procedure of the host's window.
    WindowProc,
}

/// A request to intercept the function at `target`.  With `resolve_thunk` set
/// the address may be that of a jump to the function, which is followed
/// first.
#[derive(Debug, Clone, Copy, PartialEq, Eq, Structural)]
pub struct HookRequest {
    pub target: usize,
    pub kind: HookKind,
    pub resolve_thunk: bool,
}

/// The hooks for a host with the immediate-context runtime: presentation and
/// resize, at the addresses that the throwaway swapchain gave.  Without a
/// throwaway swapchain nothing is hooked.
pub open spec fn d3d11_hooks(init: Result<D3D11Init, InitError>) -> Seq<HookRequest> {
    match init {
        Ok(i) => seq![
            HookRequest { target: i.present_ptr(), kind: HookKind::Present, resolve_thunk: true },
            HookRequest {
                target: i.resize_buffers_ptr(),
                kind: HookKind::ResizeBuffers,
                resolve_thunk: true,
            },
        ],
        Err(_) => Seq::empty(),
    }
}

/// The hooks for a host with the command-list runtime: presentation, resize
/// and command submission, at the addresses that the throwaway swapchain and
/// command queue gave.  Without them nothing is hooked.
pub open spec fn d3d12_hooks(init: Result<D3D12Init, InitError>) -> Seq<HookRequest> {
    match init {
        Ok(i) => seq![
            HookRequest { target: i.present_ptr(), kind: HookKind::Present, resolve_thunk: false },
            HookRequest {
                target: i.resize_buffers_ptr(),
                kind: HookKind::ResizeBuffers,
                resolve_thunk: false,
            },
            HookRequest {
                target: i.execute_command_lists_ptr(),
                kind: HookKind::ExecuteCommandLists,
                resolve_thunk: false,
            },
        ],
        Err(_) => Seq::empty(),
    }
}

/// Each entry point is hooked at most once.
pub open spec fn hooks_each_once(hooks: Seq<HookRequest>) -> bool {
    forall|i: int, j: int|
        0 <= i < j < hooks.len() ==> (#[trigger] hooks[i]).kind != (#[trigger] hooks[j]).kind
}

/// Whatever the throwaway objects gave, no entry point is hooked twice.
pub proof fn lemma_hooks_each_once(
    d3d11: Result<D3D11Init, InitError>,
    d3d12: Result<D3D12Init, InitError>,
)
    ensures
        hooks_each_once(d3d11_hooks(d3d11)),
        hooks_each_once(d3d12_hooks(d3d12)),
{
}

/// What becomes of a window message.
#[derive(Debug, Clone, Copy, PartialEq, Eq, Structural)]
pub enum WindowProcResult {
    /// The GUI keeps the message: `result` goes back to the system.
    Handled { result: isize },
    /// The message goes on to the window procedure of the host.
    InvokeOriginal,
}

/// The result of the platform layer as what becomes of the message.
pub open spec fn outcome_of(result: Option<isize>) -> WindowProcResult {
    match result {
        Some(result) => WindowProcResult::Handled { result },
        None => WindowProcResult::InvokeOriginal,
    }
}

/// The result that the outcome `outcome` came from.
pub open spec fn result_of(outcome: WindowProcResult) -> Option<isize> {
    match outcome {
        WindowProcResult::Handled { result } => Some(result),
        WindowProcResult::InvokeOriginal => None,
    }
}

/// Handles an intercepted window message.  With a backend, its platform layer
/// sees the message as in `Win32Impl::wnd_proc`, and nothing else of the
/// backend changes.  A message that the GUI does not keep, and any message
/// while there is no backend, goes on to the window procedure of the host.
pub fn hook_window_proc(
    backend: Option<&mut Backend>,
    io: &mut Io,
    umsg: u32,
    hook_wparam: usize,
    hook_lparam: isize,
    unicode: bool,
) -> (outcome: WindowProcResult)
    ensures
        match backend {
            Some(b) => {
                &&& (*b).platform().handles_message(
                    &final(b).platform(),
                    old(io),
                    final(io),
                    umsg,
                    hook_wparam,
                    hook_lparam,
                    unicode,
                    result_of(outcome),
                )
                &&& final(b).renderer() == (*b).renderer()
                &&& final(b).callbacks() == (*b).callbacks()
                &&& final(b).allocator_callbacks() == (*b).allocator_callbacks()
            },
            None => {
                &&& outcome == WindowProcResult::InvokeOriginal
                &&& final(io).events@ == old(io).events@
                &&& final(io).same_settings(old(io))
            },
        },
{
    match backend {
        Some(b) => match b.platform.wnd_proc(io, umsg, hook_wparam, hook_lparam, unicode) {
            Some(result) => WindowProcResult::Handled { result },
            None => WindowProcResult::InvokeOriginal,
        },
        None => WindowProcResult::InvokeOriginal,
    }
}

/// `imgui::dear_imgui_version`: the version of the GUI library that this
/// library is linked with.  Nothing is claimed of it.
#[verifier::external_body]
fn gui_library_version() -> (version: String) {
    imgui::dear_imgui_version().to_string()
}

/// Registers the callback `cb` of code that was built against the version
/// `external_version` of the GUI library, when the library linked here has the
/// version `local_version`.  The callback is registered exactly when the two
/// versions are the same: code built against another version would read the
/// GUI library's data wrongly.
pub fn register_gui_callback(
    backend: &mut Backend,
    cb: usize,
    external_version: &str,
    local_version: &str,
) -> (registered: bool)
    ensures
        registered == (external_version@ == local_version@),
        final(backend).callbacks() == (if registered {
            old(backend).callbacks().insert(cb)
        } else {
            old(backend).callbacks()
        }),
        final(backend).allocator_callbacks() == old(backend).allocator_callbacks(),
        final(backend).platform() == old(backend).platform(),
        final(backend).renderer() == old(backend).renderer(),
{
    let external = String::from_str(external_version);
    let local = String::from_str(local_version);
    if external == local {
        backend.add_callback(cb);
        true
    } else {
        false
    }
}

/// Registers the callback `cb` of code that was built against the version
/// `version` of the GUI library, if that is the version of the library linked
/// here.  The result tells whether the callback was registered.
pub fn add_gui_callback(backend: &mut Backend, cb: usize, version: &str) -> (registered: bool)
    ensures
        final(backend).callbacks() == (if registered {
            old(backend).callbacks().insert(cb)
        } else {
            old(backend).callbacks()
        }),
        final(backend).allocator_callbacks() == old(backend).allocator_callbacks(),
        final(backend).platform() == old(backend).platform(),
        final(backend).renderer() == old(backend).renderer(),
{
    let local = gui_library_version();
    register_gui_callback(backend, cb, version, local.as_str())
}

/// Adds `cb` to the callbacks that wait to be handed the GUI library's
/// allocator.
pub fn add_allocator(backend: &mut Backend, cb: usize)
    ensures
        final(backend).allocator_callbacks() == old(backend).allocator_callbacks().push(cb),
        final(backend).callbacks() == old(backend).callbacks(),
        final(backend).platform() == old(backend).platform(),
        final(backend).renderer() == old(backend).renderer(),
{
    backend.add_allocator_callback(cb);
}

/// Takes the callback `cb` out of the registered ones.
pub fn remove_gui_callback(backend: &mut Backend, cb: usize)
    ensures
        final(backend).callbacks() == old(backend).callbacks().remove(cb),
        final(backend).allocator_callbacks() == old(backend).allocator_callbacks(),
        final(backend).platform() == old(backend).platform(),
        final(backend).renderer() == old(backend).renderer(),
{
    backend.remove_callback(cb);
}

} // verus!
