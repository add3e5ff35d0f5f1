//! The immediate-context renderer: what it owns, and the commands that draw
//! one frame of the overlay and leave the host's pipeline state as it was.

use vstd::prelude::*;
use crate::capacity::capacity_after;
use crate::d3d11_impl::backup::{lemma_restore_after_work, restore_commands, StateBackup};
use crate::d3d11_impl::buffer::{
    IndexBuffer, VertexBuffer, INDEX_BUF_ADD_CAPACITY, VERTEX_BUF_ADD_CAPACITY, VERTEX_SIZE,
};
use crate::d3d11_impl::context::{
    run, BlendFactor, Command, ContextView, PipelineState, PipelineView, FORMAT_R16_UINT,
    TOPOLOGY_TRIANGLE_LIST,
};
use crate::d3d11_impl::devices::DeviceObjects;
use crate::d3d11_impl::font::{FontObjects, FONT_TEX_ID};
use crate::d3d11_impl::shader::{PixelShader, VertexShader};
use crate::d3d11_impl::textures::{no_textures, TextureRegistry};
use crate::draw_data::{
    draw_ops, indices_before, lemma_lists_step, total_indices, total_vertices, vertices_before,
    DrawData, DrawList, DrawOp,
};
use crate::types::{Handle, Viewport, FLOAT_ONE, FLOAT_ZERO};
use crate::win32_impl::events::{Io, RENDERER_HAS_VTX_OFFSET};

verus! {

/// Name under which the renderer registers with the GUI library.
pub const RENDERER_NAME: &'static str = "riri-imgui-hook-d3d11";

/// Where a renderer is in its life.
#[derive(Debug, Clone, Copy, PartialEq, Eq, Structural)]
pub enum RendererState {
    /// The device objects are not created yet.
    Uninitialized,
    /// The device objects exist and there is a render-target view.
    DeviceObjectsReady,
    /// The render-target view is let go: the host is resizing its swapchain.
    DeviceObjectsInvalidated,
}

/// Why a frame could not be drawn.
#[derive(Debug, Clone, Copy, PartialEq, Eq, Structural)]
pub enum RenderError {
    /// The device objects are not created.
    DeviceObjectsMissing,
    /// A buffer has no buffer object attached or is too small for the frame.
    BuffersNotReady,
    /// A batch draws with the texture `texture_id`, which is not registered.
    TextureNotFound { texture_id: usize },
}

/// The objects that the fixed render state binds.
#[derive(Debug, Clone, Copy, PartialEq, Eq, Structural)]
pub struct Bindings {
    pub input_layout: Option<Handle>,
    pub vertex_buffer: Option<Handle>,
    pub index_buffer: Option<Handle>,
    pub vertex_shader: Option<Handle>,
    pub constant_buffer: Option<Handle>,
    pub pixel_shader: Option<Handle>,
    pub font_sampler: Option<Handle>,
    pub font_view: Option<Handle>,
    pub blend_state: Option<Handle>,
    pub depth_stencil_state: Option<Handle>,
    pub rasterizer_state: Option<Handle>,
}

/// A `D3D11Hook` as a mathematical value.
pub struct D3D11State {
    pub render_target_view: Option<Handle>,
    pub vertex_shader: Option<VertexShader>,
    pub pixel_shader: Option<PixelShader>,
    pub device_objects: Option<DeviceObjects>,
    pub font_data: Option<FontObjects>,
    pub vertex_buffer: Option<VertexBuffer>,
    pub index_buffer: Option<IndexBuffer>,
    /// The textures that are registered, each under its identifier.
    pub textures: Map<usize, Handle>,
    /// The identifier that the next texture is registered under.
    pub next_texture: usize,
}

impl D3D11State {
    /// The objects that the fixed render state binds, once all device objects
    /// are created.
    pub open spec fn bindings(&self) -> Option<Bindings> {
        if self.vertex_shader is Some && self.pixel_shader is Some && self.device_objects is Some
            && self.font_data is Some && self.vertex_buffer is Some && self.index_buffer is Some {
            Some(
                Bindings {
                    input_layout: self.vertex_shader->0.input_layout(),
                    vertex_buffer: self.vertex_buffer->0.handle(),
                    index_buffer: self.index_buffer->0.handle(),
                    vertex_shader: self.vertex_shader->0.shader(),
                    constant_buffer: self.vertex_shader->0.constant_buffer(),
                    pixel_shader: self.pixel_shader->0.shader(),
                    font_sampler: self.font_data->0.sampler(),
                    font_view: self.font_data->0.resource_view(),
                    blend_state: self.device_objects->0.blend_state(),
                    depth_stencil_state: self.device_objects->0.depth_stencil_state(),
                    rasterizer_state: self.device_objects->0.rasterizer_state(),
                },
            )
        } else {
            None
        }
    }

    /// Both buffers have a buffer object and room for the frame `lists`.
    pub open spec fn buffers_ready(&self, lists: Seq<DrawList>) -> bool {
        &&& self.vertex_buffer matches Some(v) && v.handle() is Some && v.capacity()
            >= total_vertices(lists)
        &&& self.index_buffer matches Some(i) && i.handle() is Some && i.capacity()
            >= total_indices(lists)
    }

    /// The texture that is registered under the identifier `id`, if one is.
    pub open spec fn texture(&self, id: usize) -> Option<Handle> {
        if self.textures.contains_key(id) {
            Some(self.textures[id])
        } else {
            None
        }
    }

    /// Where the renderer is in its life.
    pub open spec fn state(&self) -> RendererState {
        if self.bindings() is None {
            RendererState::Uninitialized
        } else if self.render_target_view is None {
            RendererState::DeviceObjectsInvalidated
        } else {
            RendererState::DeviceObjectsReady
        }
    }
    /// The state `after` and the pair `grown` are what making room for the
    /// frame `draw_data` gives in this state.  Nothing happens when the
    /// display of the frame is empty or the buffers do not exist yet.  Else
    /// each buffer follows `capacity_after` for the count of the frame, with
    /// its slack, and a buffer that has grown has no buffer object.
    pub open spec fn buffers_ensured(
        &self,
        after: D3D11State,
        draw_data: &DrawData,
        grown: (bool, bool),
    ) -> bool {
        &&& after.render_target_view == self.render_target_view
        &&& after.vertex_shader == self.vertex_shader
        &&& after.pixel_shader == self.pixel_shader
        &&& after.device_objects == self.device_objects
        &&& after.font_data == self.font_data
        &&& after.textures == self.textures
        &&& after.next_texture == self.next_texture
        &&& match self.vertex_buffer {
            Some(v) if !draw_data.is_empty() => {
                &&& grown.0 == (v.capacity() < total_vertices(draw_data.lists()))
                &&& after.vertex_buffer matches Some(w)
                &&& w.capacity() == capacity_after(
                    v.capacity(),
                    total_vertices(draw_data.lists()),
                    VERTEX_BUF_ADD_CAPACITY as nat,
                )
                &&& w.handle() == (if grown.0 {
                    None
                } else {
                    v.handle()
                })
            },
            _ => !grown.0 && after.vertex_buffer == self.vertex_buffer,
        }
        &&& match self.index_buffer {
            Some(v) if !draw_data.is_empty() => {
                &&& grown.1 == (v.capacity() < total_indices(draw_data.lists()))
                &&& after.index_buffer matches Some(w)
                &&& w.capacity() == capacity_after(
                    v.capacity(),
                    total_indices(draw_data.lists()),
                    INDEX_BUF_ADD_CAPACITY as nat,
                )
                &&& w.handle() == (if grown.1 {
                    None
                } else {
                    v.handle()
                })
            },
            _ => !grown.1 && after.index_buffer == self.index_buffer,
        }
    }

    /// The state `after` is this state with the buffer object `buffer`
    /// attached to the vertex buffer, if there is a vertex buffer.
    pub open spec fn vertex_buffer_attached(&self, after: D3D11State, buffer: Handle) -> bool {
        &&& after.render_target_view == self.render_target_view
        &&& after.vertex_shader == self.vertex_shader
        &&& after.pixel_shader == self.pixel_shader
        &&& after.device_objects == self.device_objects
        &&& after.font_data == self.font_data
        &&& after.textures == self.textures
        &&& after.next_texture == self.next_texture
        &&& after.index_buffer == self.index_buffer
        &&& match self.vertex_buffer {
            Some(v) => after.vertex_buffer matches Some(w) && w.handle() == Some(buffer)
                && w.capacity() == v.capacity(),
            None => after.vertex_buffer is None,
        }
    }

    /// The state `after` is this state with the buffer object `buffer`
    /// attached to the index buffer, if there is an index buffer.
    pub open spec fn index_buffer_attached(&self, after: D3D11State, buffer: Handle) -> bool {
        &&& after.render_target_view == self.render_target_view
        &&& after.vertex_shader == self.vertex_shader
        &&& after.pixel_shader == self.pixel_shader
        &&& after.device_objects == self.device_objects
        &&& after.font_data == self.font_data
        &&& after.textures == self.textures
        &&& after.next_texture == self.next_texture
        &&& after.vertex_buffer == self.vertex_buffer
        &&& match self.index_buffer {
            Some(v) => after.index_buffer matches Some(w) && w.handle() == Some(buffer)
                && w.capacity() == v.capacity(),
            None => after.index_buffer is None,
        }
    }

    /// The state `after` and the result `id` are what registering the texture
    /// `view` gives in this state: the texture is held under the next
    /// identifier, unless the identifiers have run out.
    pub open spec fn texture_registered(&self, after: D3D11State, view: Handle, id: Option<usize>) -> bool {
        if self.next_texture < usize::MAX {
            &&& id == Some(self.next_texture)
            &&& after == (D3D11State {
                textures: self.textures.insert(self.next_texture, view),
                next_texture: (self.next_texture + 1) as usize,
                ..*self
            })
        } else {
            id is None && after == *self
        }
    }

    /// `result` is what a render call gives in this state for the frame
    /// `draw_data`, when `context` is the pipeline state read from the device.
    ///
    /// A frame whose display is empty gives a plan that asks nothing.  Any
    /// other frame fails without device objects, fails without buffers that
    /// are ready, and fails when a batch draws with a texture that is not
    /// known, with the first such texture in drawing order.  Else the plan's
    /// work is `render_work`, it holds `context` as its backup, and its
    /// restoring commands are `restore_commands`.
    pub open spec fn renders(
        &self,
        draw_data: &DrawData,
        context: PipelineView,
        result: Result<RenderPlan, RenderError>,
    ) -> bool {
        if draw_data.is_empty() {
            &&& result matches Ok(plan)
            &&& plan.work@ == Seq::<Command>::empty()
            &&& plan.restore@ == Seq::<Command>::empty()
            &&& plan.backup is None
        } else if self.bindings() is None {
            result == Err::<RenderPlan, RenderError>(RenderError::DeviceObjectsMissing)
        } else if !self.buffers_ready(draw_data.lists()) {
            result == Err::<RenderPlan, RenderError>(RenderError::BuffersNotReady)
        } else if unknown_texture(draw_ops(draw_data.lists()), self.textures)
            is Some {
            result == Err::<RenderPlan, RenderError>(
                RenderError::TextureNotFound {
                    texture_id: unknown_texture(
                        draw_ops(draw_data.lists()),
                        self.textures,
                    )->0,
                },
            )
        } else {
            &&& result matches Ok(plan)
            &&& plan.work@ == render_work(
                self.render_target_view,
                self.bindings()->0,
                self.textures,
                draw_data.width(),
                draw_data.height(),
                draw_data.lists(),
            )
            &&& plan.restore@ == restore_commands()
            &&& plan.backup matches Some(saved)
            &&& saved@ == context
        }
    }
}

/// The viewport that covers a display whose width and height are the floats
/// with the bit patterns `width` and `height`.
pub open spec fn display_viewport(width: u32, height: u32) -> Viewport {
    Viewport {
        top_left_x: FLOAT_ZERO,
        top_left_y: FLOAT_ZERO,
        width,
        height,
        min_depth: FLOAT_ZERO,
        max_depth: FLOAT_ONE,
    }
}

/// The commands that set the fixed render state up: one viewport over the
/// whole display, the overlay's input layout, buffers, shaders and sampler, no
/// shader in the geometry, hull, domain and compute stages, triangle lists,
/// and the overlay's blend, depth-stencil and rasterizer state objects, with a
/// blend factor of zero, every sample enabled and a stencil reference of
/// zero.  What the three state objects do is in the descriptions that
/// `DeviceObjects` gives for them.
pub open spec fn setup_commands(b: Bindings, width: u32, height: u32) -> Seq<Command> {
    seq![
        Command::SetViewport { viewport: display_viewport(width, height) },
        Command::SetInputLayout { layout: b.input_layout },
        Command::SetVertexBuffer { buffer: b.vertex_buffer, stride: VERTEX_SIZE as u32, offset: 0 },
        Command::SetIndexBuffer { buffer: b.index_buffer, format: FORMAT_R16_UINT, offset: 0 },
        Command::SetPrimitiveTopology { topology: TOPOLOGY_TRIANGLE_LIST },
        Command::SetVertexShader { shader: b.vertex_shader },
        Command::SetVertexConstantBuffer { buffer: b.constant_buffer },
        Command::SetPixelShader { shader: b.pixel_shader },
        Command::SetPixelSampler { sampler: b.font_sampler },
        Command::SetGeometryShader { shader: None },
        Command::SetHullShader { shader: None },
        Command::SetDomainShader { shader: None },
        Command::SetComputeShader { shader: None },
        Command::SetBlendState {
            state: b.blend_state,
            factor: BlendFactor { r: FLOAT_ZERO, g: FLOAT_ZERO, b: FLOAT_ZERO, a: FLOAT_ZERO },
            sample_mask: 0xFFFF_FFFF,
        },
        Command::SetDepthStencilState { state: b.depth_stencil_state, stencil_ref: 0 },
        Command::SetRasterizerState { state: b.rasterizer_state },
    ]
}

/// The commands that copy draw list `i` into the buffers: its vertices and its
/// indices go right behind those of the lists before it.
pub open spec fn upload_list(lists: Seq<DrawList>, i: int) -> Seq<Command> {
    seq![
        Command::UploadVertices {
            list: i as usize,
            offset: vertices_before(lists, i) as usize,
            count: lists[i].vtx_count,
        },
        Command::UploadIndices {
            list: i as usize,
            offset: indices_before(lists, i) as usize,
            count: lists[i].idx_count,
        },
    ]
}

/// The commands that copy the first `n` draw lists into the buffers.
pub open spec fn upload_lists_upto(lists: Seq<DrawList>, n: int) -> Seq<Command> {
    Seq::new(n as nat, |i: int| upload_list(lists, i)).flatten()
}

/// The commands that write a frame's data: the buffers are mapped, every draw
/// list is copied in order, the buffers are unmapped, and the projection is
/// written into the constant buffer.
pub open spec fn upload_commands(b: Bindings, lists: Seq<DrawList>) -> Seq<Command> {
    seq![Command::MapBuffers] + upload_lists_upto(lists, lists.len() as int) + seq![
        Command::UnmapBuffers,
        Command::UploadProjection { buffer: b.constant_buffer },
    ]
}

/// The texture identifier stands for a texture: it is the font's, or a
/// texture is registered under it.
pub open spec fn is_known_texture(textures: Map<usize, Handle>, texture_id: usize) -> bool {
    texture_id == FONT_TEX_ID || textures.contains_key(texture_id)
}

/// The shader-resource view behind a texture identifier: the font atlas for
/// the font's identifier, and for any other the texture that is registered
/// under it.
pub open spec fn texture_view(b: Bindings, textures: Map<usize, Handle>, texture_id: usize) -> Option<
    Handle,
> {
    if texture_id == FONT_TEX_ID {
        b.font_view
    } else if textures.contains_key(texture_id) {
        Some(textures[texture_id])
    } else {
        None
    }
}

/// The first texture that the steps `ops` bind and that is not known.
pub open spec fn unknown_texture(ops: Seq<DrawOp>, textures: Map<usize, Handle>) -> Option<usize>
    decreases ops.len(),
{
    if ops.len() == 0 {
        None
    } else {
        match unknown_texture(ops.drop_last(), textures) {
            Some(id) => Some(id),
            None => match ops.last() {
                DrawOp::BindTexture { texture_id } if !is_known_texture(textures, texture_id) => Some(
                    texture_id,
                ),
                _ => None,
            },
        }
    }
}

/// What is unknown among the first steps is the first that is unknown among
/// all.
pub proof fn lemma_unknown_texture_prefix(ops: Seq<DrawOp>, textures: Map<usize, Handle>, n: int)
    requires
        0 <= n <= ops.len(),
        unknown_texture(ops.take(n), textures) is Some,
    ensures
        unknown_texture(ops, textures) == unknown_texture(ops.take(n), textures),
    decreases ops.len() - n,
{
    if n < ops.len() {
        assert(ops.take(n + 1).drop_last() =~= ops.take(n));
        lemma_unknown_texture_prefix(ops, textures, n + 1);
    } else {
        assert(ops.take(n) =~= ops);
    }
}

/// The commands for one step of drawing.
pub open spec fn op_commands(
    b: Bindings,
    textures: Map<usize, Handle>,
    width: u32,
    height: u32,
    op: DrawOp,
) -> Seq<Command> {
    match op {
        DrawOp::BindTexture { texture_id } => seq![
            Command::SetPixelShaderResource { view: texture_view(b, textures, texture_id) },
        ],
        DrawOp::SetScissor { rect } => seq![Command::SetScissorRect { rect }],
        DrawOp::DrawIndexed { index_count, start_index, base_vertex } => seq![
            Command::DrawIndexed { index_count, start_index, base_vertex },
        ],
        DrawOp::ResetRenderState => setup_commands(b, width, height),
        DrawOp::RawCallback { list, command } => seq![Command::RawCallback { list, command }],
    }
}

/// The commands for the first `n` steps of `ops`.
pub open spec fn ops_commands_upto(
    b: Bindings,
    textures: Map<usize, Handle>,
    width: u32,
    height: u32,
    ops: Seq<DrawOp>,
    n: int,
) -> Seq<Command> {
    Seq::new(n as nat, |k: int| op_commands(b, textures, width, height, ops[k])).flatten()
}

/// The commands that draw a frame: those of each step of drawing, in order.
pub open spec fn draw_commands(
    b: Bindings,
    textures: Map<usize, Handle>,
    width: u32,
    height: u32,
    lists: Seq<DrawList>,
) -> Seq<Command> {
    let ops = draw_ops(lists);
    ops_commands_upto(b, textures, width, height, ops, ops.len() as int)
}

/// All the commands of a frame but those that put the host's state back.
pub open spec fn render_work(
    render_target_view: Option<Handle>,
    b: Bindings,
    textures: Map<usize, Handle>,
    width: u32,
    height: u32,
    lists: Seq<DrawList>,
) -> Seq<Command> {
    seq![Command::SetRenderTargets { view: render_target_view }] + upload_commands(b, lists)
        + setup_commands(b, width, height) + draw_commands(b, textures, width, height, lists)
}

/// What one render call asks of the device context.  The commands of `work`
/// are run in order.  Then, whether all of them were run or one of them failed,
/// the commands of `restore` are run: they bind the state saved in `backup`
/// again.
#[derive(Debug)]
pub struct RenderPlan {
    pub work: Vec<Command>,
    pub backup: Option<StateBackup>,
    pub restore: Vec<Command>,
}

/// Adds the commands `src` at the end of `dst`.
fn append(dst: &mut Vec<Command>, src: &Vec<Command>)
    ensures
        final(dst)@ == old(dst)@ + src@,
{
    let ghost start = dst@;
    let mut i: usize = 0;
    while i < src.len()
        invariant
            i <= src.len(),
            dst@ == start + src@.take(i as int),
        decreases src.len() - i,
    {
        dst.push(src[i]);
        i = i + 1;
    }
}

/// The renderer for hosts that draw through an immediate device context.
#[derive(Debug)]
pub struct D3D11Hook {
    render_target_view: Option<Handle>,
    vertex_shader: Option<VertexShader>,
    pixel_shader: Option<PixelShader>,
    device_objects: Option<DeviceObjects>,
    font_data: Option<FontObjects>,
    vertex_buffer: Option<VertexBuffer>,
    index_buffer: Option<IndexBuffer>,
    textures: TextureRegistry,
}

impl View for D3D11Hook {
    type V = D3D11State;

    closed spec fn view(&self) -> D3D11State {
        D3D11State {
            render_target_view: self.render_target_view,
            vertex_shader: self.vertex_shader,
            pixel_shader: self.pixel_shader,
            device_objects: self.device_objects,
            font_data: self.font_data,
            vertex_buffer: self.vertex_buffer,
            index_buffer: self.index_buffer,
            textures: self.textures@,
            next_texture: self.textures.next_id(),
        }
    }
}

impl D3D11Hook {
    /// A renderer with all device objects created and a render-target view.
    pub fn new(
        io: &mut Io,
        render_target_view: Option<Handle>,
        vertex_shader: VertexShader,
        pixel_shader: PixelShader,
        device_objects: DeviceObjects,
        font_data: FontObjects,
        vertex_buffer: Option<Handle>,
        index_buffer: Option<Handle>,
    ) -> (hook: Self)
        ensures
            hook@.render_target_view == render_target_view,
            hook@.vertex_shader == Some(vertex_shader),
            hook@.pixel_shader == Some(pixel_shader),
            hook@.device_objects == Some(device_objects),
            hook@.font_data == Some(font_data),
            hook@.vertex_buffer matches Some(v) && v.handle() == vertex_buffer && v.capacity()
                == VERTEX_BUF_ADD_CAPACITY,
            hook@.index_buffer matches Some(i) && i.handle() == index_buffer && i.capacity()
                == INDEX_BUF_ADD_CAPACITY,
            hook@.state() != RendererState::Uninitialized,
            hook@.textures == no_textures(),
            hook@.next_texture == 0,
            final(io).backend_flags == old(io).backend_flags | RENDERER_HAS_VTX_OFFSET,
            final(io).events@ == old(io).events@,
            final(io).want_capture_mouse == old(io).want_capture_mouse,
            final(io).want_capture_keyboard == old(io).want_capture_keyboard,
            final(io).want_text_input == old(io).want_text_input,
            final(io).app_focus_lost == old(io).app_focus_lost,
            final(io).display_size == old(io).display_size,
            final(io).config_flags == old(io).config_flags,
            final(io).delta_time == old(io).delta_time,
    {
        let mut hook = Self::new_blank(io);
        hook.create_device_objects(
            render_target_view,
            vertex_shader,
            pixel_shader,
            device_objects,
            font_data,
            vertex_buffer,
            index_buffer,
        );
        hook
    }

    /// A renderer without device objects.  It announces to the GUI library that
    /// vertex offsets are honoured.
    pub fn new_blank(io: &mut Io) -> (hook: Self)
        ensures
            hook@ == (D3D11State {
                render_target_view: None,
                vertex_shader: None,
                pixel_shader: None,
                device_objects: None,
                font_data: None,
                vertex_buffer: None,
                index_buffer: None,
                textures: no_textures(),
                next_texture: 0,
            }),
            hook@.state() == RendererState::Uninitialized,
            final(io).backend_flags == old(io).backend_flags | RENDERER_HAS_VTX_OFFSET,
            final(io).events@ == old(io).events@,
            final(io).want_capture_mouse == old(io).want_capture_mouse,
            final(io).want_capture_keyboard == old(io).want_capture_keyboard,
            final(io).want_text_input == old(io).want_text_input,
            final(io).app_focus_lost == old(io).app_focus_lost,
            final(io).display_size == old(io).display_size,
            final(io).config_flags == old(io).config_flags,
            final(io).delta_time == old(io).delta_time,
    {
        io.backend_flags = io.backend_flags | RENDERER_HAS_VTX_OFFSET;
        Self {
            render_target_view: None,
            vertex_shader: None,
            pixel_shader: None,
            device_objects: None,
            font_data: None,
            vertex_buffer: None,
            index_buffer: None,
            textures: TextureRegistry::new(),
        }
    }

    /// Takes the device objects that were created for this renderer.  The two
    /// buffers start with room for the slack alone.
    pub fn create_device_objects(
        &mut self,
        render_target_view: Option<Handle>,
        vertex_shader: VertexShader,
        pixel_shader: PixelShader,
        device_objects: DeviceObjects,
        font_data: FontObjects,
        vertex_buffer: Option<Handle>,
        index_buffer: Option<Handle>,
    )
        ensures
            final(self)@.render_target_view == render_target_view,
            final(self)@.vertex_shader == Some(vertex_shader),
            final(self)@.pixel_shader == Some(pixel_shader),
            final(self)@.device_objects == Some(device_objects),
            final(self)@.font_data == Some(font_data),
            final(self)@.vertex_buffer matches Some(v) && v.handle() == vertex_buffer
                && v.capacity() == VERTEX_BUF_ADD_CAPACITY,
            final(self)@.index_buffer matches Some(i) && i.handle() == index_buffer && i.capacity()
                == INDEX_BUF_ADD_CAPACITY,
            final(self)@.state() == (if render_target_view is Some {
                RendererState::DeviceObjectsReady
            } else {
                RendererState::DeviceObjectsInvalidated
            }),
            final(self)@.textures == old(self)@.textures,
            final(self)@.next_texture == old(self)@.next_texture,
    {
        self.render_target_view = render_target_view;
        self.vertex_shader = Some(vertex_shader);
        self.pixel_shader = Some(pixel_shader);
        self.device_objects = Some(device_objects);
        self.font_data = Some(font_data);
        self.vertex_buffer = Some(VertexBuffer::new(vertex_buffer, 0));
        self.index_buffer = Some(IndexBuffer::new(index_buffer, 0));
    }

    /// The render-target view, if there is one.
    pub fn get_render_target_view(&self) -> (view: Option<Handle>)
        ensures
            view == self@.render_target_view,
    {
        self.render_target_view
    }

    /// The vertex buffer, once the device objects are created.
    pub fn get_vertex_buffer(&self) -> (buffer: Option<VertexBuffer>)
        ensures
            buffer == self@.vertex_buffer,
    {
        self.vertex_buffer
    }

    /// The index buffer, once the device objects are created.
    pub fn get_index_buffer(&self) -> (buffer: Option<IndexBuffer>)
        ensures
            buffer == self@.index_buffer,
    {
        self.index_buffer
    }

    /// The objects that the fixed render state binds, once all device objects
    /// are created.
    pub fn get_bindings(&self) -> (b: Option<Bindings>)
        ensures
            b == self@.bindings(),
    {
        match (
            self.vertex_shader,
            self.pixel_shader,
            self.device_objects,
            self.font_data,
            self.vertex_buffer,
            self.index_buffer,
        ) {
            (Some(vs), Some(ps), Some(objects), Some(font), Some(vb), Some(ib)) => Some(
                Bindings {
                    input_layout: vs.get_input_layout(),
                    vertex_buffer: vb.get_buffer(),
                    index_buffer: ib.get_buffer(),
                    vertex_shader: vs.get_shader(),
                    constant_buffer: vs.get_constant_buffer(),
                    pixel_shader: ps.get_shader(),
                    font_sampler: font.get_font_sampler_owned(),
                    font_view: font.get_font_resource_view(),
                    blend_state: objects.get_blend_state(),
                    depth_stencil_state: objects.get_depth_stencil_state(),
                    rasterizer_state: objects.get_rasterizer_state(),
                },
            ),
            _ => None,
        }
    }

    /// Makes room in both buffers for the frame `draw_data`, unless its display
    /// is empty or the buffers do not exist yet.  The result tells for the
    /// vertex buffer and for the index buffer whether it was replaced: the
    /// caller then creates a buffer object of the new size and attaches it.
    pub fn ensure_buffers(&mut self, draw_data: &DrawData) -> (grown: (bool, bool))
        ensures
            old(self)@.buffers_ensured(final(self)@, draw_data, grown),
    {
        if draw_data.is_display_empty() {
            return (false, false);
        }
        let mut vertex_grown = false;
        let mut index_grown = false;
        match self.vertex_buffer {
            Some(mut buffer) => {
                vertex_grown = buffer.ensure_capacity(draw_data.total_vtx_count());
                self.vertex_buffer = Some(buffer);
            },
            None => {},
        }
        match self.index_buffer {
            Some(mut buffer) => {
                index_grown = buffer.ensure_capacity(draw_data.total_idx_count());
                self.index_buffer = Some(buffer);
            },
            None => {},
        }
        (vertex_grown, index_grown)
    }

    /// Attaches the buffer object that was created for the vertex buffer.
    /// Without device objects there is no vertex buffer, and nothing happens.
    pub fn attach_vertex_buffer(&mut self, buffer: Handle)
        ensures
            old(self)@.vertex_buffer_attached(final(self)@, buffer),
    {
        match self.vertex_buffer {
            Some(mut v) => {
                v.attach(buffer);
                self.vertex_buffer = Some(v);
            },
            None => {},
        }
    }

    /// Attaches the buffer object that was created for the index buffer.
    /// Without device objects there is no index buffer, and nothing happens.
    pub fn attach_index_buffer(&mut self, buffer: Handle)
        ensures
            old(self)@.index_buffer_attached(final(self)@, buffer),
    {
        match self.index_buffer {
            Some(mut v) => {
                v.attach(buffer);
                self.index_buffer = Some(v);
            },
            None => {},
        }
    }

    /// Registers the shader-resource view `view` as a texture that the
    /// interface may draw with, and gives the identifier to draw it by.  When
    /// the identifiers have run out nothing is registered.
    pub fn register_texture(&mut self, view: Handle) -> (id: Option<usize>)
        ensures
            old(self)@.texture_registered(final(self)@, view, id),
    {
        let mut registry = TextureRegistry::new();
        core::mem::swap(&mut self.textures, &mut registry);
        let (registry, id) = registry.insert(view);
        self.textures = registry;
        id
    }

    /// Registers the shader-resource view `view` under the identifier `id`, in
    /// place of the texture that was registered under it, which is returned.
    pub fn replace_texture(&mut self, id: usize, view: Handle) -> (before: Option<Handle>)
        ensures
            before == old(self)@.texture(id),
            final(self)@ == (D3D11State {
                textures: old(self)@.textures.insert(id, view),
                ..old(self)@
            }),
    {
        let mut registry = TextureRegistry::new();
        core::mem::swap(&mut self.textures, &mut registry);
        let (registry, before) = registry.replace(id, view);
        self.textures = registry;
        before
    }

    /// Takes the texture under the identifier `id` out of the registered ones
    /// and returns it.
    pub fn remove_texture(&mut self, id: usize) -> (before: Option<Handle>)
        ensures
            before == old(self)@.texture(id),
            final(self)@ == (D3D11State {
                textures: old(self)@.textures.remove(id),
                ..old(self)@
            }),
    {
        let mut registry = TextureRegistry::new();
        core::mem::swap(&mut self.textures, &mut registry);
        let (registry, before) = registry.remove(id);
        self.textures = registry;
        before
    }

    /// The texture that is registered under the identifier `id`, if one is.
    pub fn get_texture(&self, id: usize) -> (view: Option<Handle>)
        ensures
            view == self@.texture(id),
    {
        self.textures.get(id)
    }

    /// Lets the render-target view go.  The host is about to resize its
    /// swapchain, which fails while a view of a back buffer exists.
    pub fn invalidate_render_target_view(&mut self)
        ensures
            final(self)@ == (D3D11State { render_target_view: None, ..old(self)@ }),
            old(self)@.state() != RendererState::Uninitialized ==> final(self)@.state()
                == RendererState::DeviceObjectsInvalidated,
    {
        self.render_target_view = None;
    }

    /// Takes the render-target view `view` that was created from the resized
    /// swapchain, or `None` if none could be created.
    pub fn create_render_target_view(&mut self, view: Option<Handle>)
        ensures
            final(self)@ == (D3D11State { render_target_view: view, ..old(self)@ }),
            old(self)@.state() != RendererState::Uninitialized && view is Some
                ==> final(self)@.state() == RendererState::DeviceObjectsReady,
    {
        self.render_target_view = view;
    }

    /// The commands that write the frame's data into the buffers.
    fn write_buffers(b: &Bindings, draw_data: &DrawData) -> (commands: Vec<Command>)
        ensures
            commands@ == upload_commands(*b, draw_data.lists()),
    {
        let lists = draw_data.draw_lists();
        let mut commands: Vec<Command> = Vec::new();
        commands.push(Command::MapBuffers);
        let mut vertex_offset: usize = 0;
        let mut index_offset: usize = 0;
        let mut i: usize = 0;
        while i < lists.len()
            invariant
                i <= lists.len(),
                crate::draw_data::fits(lists@),
                commands@ == seq![Command::MapBuffers] + upload_lists_upto(lists@, i as int),
                vertex_offset == vertices_before(lists@, i as int),
                index_offset == indices_before(lists@, i as int),
            decreases lists.len() - i,
        {
            proof {
                lemma_lists_step(lists@, i as int);
                let f = |k: int| upload_list(lists@, k);
                assert(Seq::new((i + 1) as nat, f) =~= Seq::new(i as nat, f).push(f(i as int)));
                Seq::new(i as nat, f).lemma_flatten_push(f(i as int));
            }
            let list = &lists[i];
            commands.push(
                Command::UploadVertices { list: i, offset: vertex_offset, count: list.vtx_count },
            );
            commands.push(
                Command::UploadIndices { list: i, offset: index_offset, count: list.idx_count },
            );
            vertex_offset = vertex_offset + list.vtx_count;
            index_offset = index_offset + list.idx_count;
            i = i + 1;
        }
        commands.push(Command::UnmapBuffers);
        commands.push(Command::UploadProjection { buffer: b.constant_buffer });
        commands
    }

    /// The commands that set the fixed render state up.
    fn setup_render_state(b: &Bindings, width: u32, height: u32) -> (commands: Vec<Command>)
        ensures
            commands@ == setup_commands(*b, width, height),
    {
        let mut commands: Vec<Command> = Vec::new();
        commands.push(
            Command::SetViewport {
                viewport: Viewport {
                    top_left_x: FLOAT_ZERO,
                    top_left_y: FLOAT_ZERO,
                    width,
                    height,
                    min_depth: FLOAT_ZERO,
                    max_depth: FLOAT_ONE,
                },
            },
        );
        commands.push(Command::SetInputLayout { layout: b.input_layout });
        commands.push(
            Command::SetVertexBuffer {
                buffer: b.vertex_buffer,
                stride: VERTEX_SIZE as u32,
                offset: 0,
            },
        );
        commands.push(
            Command::SetIndexBuffer { buffer: b.index_buffer, format: FORMAT_R16_UINT, offset: 0 },
        );
        commands.push(Command::SetPrimitiveTopology { topology: TOPOLOGY_TRIANGLE_LIST });
        commands.push(Command::SetVertexShader { shader: b.vertex_shader });
        commands.push(Command::SetVertexConstantBuffer { buffer: b.constant_buffer });
        commands.push(Command::SetPixelShader { shader: b.pixel_shader });
        commands.push(Command::SetPixelSampler { sampler: b.font_sampler });
        commands.push(Command::SetGeometryShader { shader: None });
        commands.push(Command::SetHullShader { shader: None });
        commands.push(Command::SetDomainShader { shader: None });
        commands.push(Command::SetComputeShader { shader: None });
        commands.push(
            Command::SetBlendState {
                state: b.blend_state,
                factor: BlendFactor { r: FLOAT_ZERO, g: FLOAT_ZERO, b: FLOAT_ZERO, a: FLOAT_ZERO },
                sample_mask: 0xFFFF_FFFF,
            },
        );
        commands.push(
            Command::SetDepthStencilState { state: b.depth_stencil_state, stencil_ref: 0 },
        );
        commands.push(Command::SetRasterizerState { state: b.rasterizer_state });
        commands
    }

    /// The commands that draw the frame, or the first texture that a batch
    /// draws with and that is not known.
    fn render_impl(&self, b: &Bindings, draw_data: &DrawData) -> (commands: Result<Vec<Command>, usize>)
        ensures
            match commands {
                Ok(c) => {
                    &&& unknown_texture(
                        draw_ops(draw_data.lists()),
                        self@.textures,
                    ) is None
                    &&& c@ == draw_commands(
                        *b,
                        self@.textures,
                        draw_data.width(),
                        draw_data.height(),
                        draw_data.lists(),
                    )
                },
                Err(id) => unknown_texture(draw_ops(draw_data.lists()), self@.textures)
                    == Some(id),
            },
    {
        let (width, height) = draw_data.display_size();
        let ops = draw_data.plan();
        let ghost textures = self@.textures;
        let mut commands: Vec<Command> = Vec::new();
        let mut k: usize = 0;
        while k < ops.len()
            invariant
                k <= ops.len(),
                textures == self@.textures,
                ops@ == draw_ops(draw_data.lists()),
                unknown_texture(ops@.take(k as int), textures) is None,
                commands@ == ops_commands_upto(*b, textures, width, height, ops@, k as int),
            decreases ops.len() - k,
        {
            proof {
                let f = |n: int| op_commands(*b, textures, width, height, ops@[n]);
                assert(Seq::new((k + 1) as nat, f) =~= Seq::new(k as nat, f).push(f(k as int)));
                Seq::new(k as nat, f).lemma_flatten_push(f(k as int));
                assert(ops@.take(k as int + 1).drop_last() =~= ops@.take(k as int));
            }
            match ops[k] {
                DrawOp::BindTexture { texture_id } => {
                    let view = if texture_id == FONT_TEX_ID {
                        b.font_view
                    } else {
                        match self.textures.get(texture_id) {
                            Some(view) => Some(view),
                            None => {
                                proof {
                                    lemma_unknown_texture_prefix(ops@, textures, k as int + 1);
                                }
                                return Err(texture_id);
                            },
                        }
                    };
                    commands.push(Command::SetPixelShaderResource { view });
                },
                DrawOp::SetScissor { rect } => {
                    commands.push(Command::SetScissorRect { rect });
                },
                DrawOp::DrawIndexed { index_count, start_index, base_vertex } => {
                    commands.push(Command::DrawIndexed { index_count, start_index, base_vertex });
                },
                DrawOp::ResetRenderState => {
                    let setup = Self::setup_render_state(b, width, height);
                    append(&mut commands, &setup);
                },
                DrawOp::RawCallback { list, command } => {
                    commands.push(Command::RawCallback { list, command });
                },
            }
            k = k + 1;
        }
        assert(ops@.take(k as int) =~= ops@);
        Ok(commands)
    }

    /// Whether both buffers have a buffer object and room for the frame.
    fn buffers_ready(&self, draw_data: &DrawData) -> (ready: bool)
        ensures
            ready == self@.buffers_ready(draw_data.lists()),
    {
        match (self.vertex_buffer, self.index_buffer) {
            (Some(v), Some(i)) => {
                v.get_buffer().is_some() && v.len() >= draw_data.total_vtx_count()
                    && i.get_buffer().is_some() && i.len() >= draw_data.total_idx_count()
            },
            _ => false,
        }
    }

    /// Plans one frame.  `context` is the pipeline state that was read from the
    /// device context just now.
    ///
    /// A frame whose display is empty asks nothing of the device.  Any other
    /// frame needs the device objects, buffers that `ensure_buffers` has made
    /// room in and that have their buffer objects attached, and a registered
    /// texture for every batch that does not draw with the font atlas.  Its
    /// plan binds the render target, writes the buffers, sets the fixed state
    /// up, draws the batches, and ends by putting `context` back.
    pub fn render(&self, draw_data: &DrawData, context: PipelineState) -> (result: Result<
        RenderPlan,
        RenderError,
    >)
        ensures
            self@.renders(draw_data, context@, result),
    {
        if draw_data.is_display_empty() {
            return Ok(RenderPlan { work: Vec::new(), backup: None, restore: Vec::new() });
        }
        let b = match self.get_bindings() {
            Some(b) => b,
            None => {
                return Err(RenderError::DeviceObjectsMissing);
            },
        };
        if !self.buffers_ready(draw_data) {
            return Err(RenderError::BuffersNotReady);
        }
        let draws = match self.render_impl(&b, draw_data) {
            Ok(draws) => draws,
            Err(texture_id) => {
                return Err(RenderError::TextureNotFound { texture_id });
            },
        };
        let (width, height) = draw_data.display_size();
        let mut work: Vec<Command> = Vec::new();
        work.push(Command::SetRenderTargets { view: self.render_target_view });
        let state_guard = StateBackup::backup(context);
        let upload = Self::write_buffers(&b, draw_data);
        append(&mut work, &upload);
        let setup = Self::setup_render_state(&b, width, height);
        append(&mut work, &setup);
        append(&mut work, &draws);
        let restore = state_guard.restore();
        Ok(RenderPlan { work, backup: Some(state_guard), restore })
    }
}

/// The host never sees the overlay in its pipeline state.  Take the commands
/// of a frame's plan, run any number of them from the start, as when one of
/// them fails, and then run the commands that restore: the saved part of the
/// context's state is then exactly what it was before the frame.
pub proof fn lemma_render_leaves_pipeline_state(work: Seq<Command>, n: int, s: ContextView)
    requires
        0 <= n <= work.len(),
    ensures
        run(work.take(n) + restore_commands(), s.pipeline, s).pipeline == s.pipeline,
{
    lemma_restore_after_work(work.take(n), s);
}

} // verus!
