//! The immediate device context as the renderer sees it: the state that can
//! be bound to it, the commands that change that state, and what each command
//! does.
//!
//! Objects are known by their addresses and floats by their bit patterns, so
//! that two states are equal exactly when the device would hold the same
//! bindings bit for bit.

use vstd::prelude::*;
use crate::types::{Handle, Rect, Viewport};

verus! {

/// The most scissor rectangles, and the most viewports, that can be bound.
pub const MAX_VIEWPORTS: usize = 16;

/// The most class instances that can be bound with one shader.
pub const MAX_CLASS_INSTANCES: usize = 256;

/// Primitive topology: a list of triangles.
pub const TOPOLOGY_TRIANGLE_LIST: u32 = 4;

/// Index format: 16-bit unsigned indices.
pub const FORMAT_R16_UINT: u32 = 57;

/// The four components of a blend factor, each the bit pattern of a float.
#[derive(Debug, Clone, Copy, PartialEq, Eq, Structural)]
pub struct BlendFactor {
    pub r: u32,
    pub g: u32,
    pub b: u32,
    pub a: u32,
}

/// The part of the device context's state that the overlay saves before it
/// draws and puts back afterwards.
#[derive(Debug, Clone, PartialEq, Eq)]
pub struct PipelineState {
    pub scissor_rects: Vec<Rect>,
    pub viewports: Vec<Viewport>,
    pub rasterizer_state: Option<Handle>,
    pub blend_state: Option<Handle>,
    pub blend_factor: BlendFactor,
    pub sample_mask: u32,
    pub depth_stencil_state: Option<Handle>,
    pub stencil_ref: u32,
    /// The shader resources of the pixel stage, from slot 0 on.
    pub ps_shader_resources: Vec<Option<Handle>>,
    /// The samplers of the pixel stage, from slot 0 on.
    pub ps_samplers: Vec<Option<Handle>>,
    pub pixel_shader: Option<Handle>,
    pub ps_instances: Vec<Option<Handle>>,
    pub vertex_shader: Option<Handle>,
    pub vs_instances: Vec<Option<Handle>>,
    /// The constant buffers of the vertex stage, from slot 0 on.
    pub vs_constant_buffers: Vec<Option<Handle>>,
    pub geometry_shader: Option<Handle>,
    pub gs_instances: Vec<Option<Handle>>,
    pub primitive_topology: u32,
    pub index_buffer: Option<Handle>,
    pub index_buffer_format: u32,
    pub index_buffer_offset: u32,
    /// The vertex buffer in slot 0, with its stride and offset.
    pub vertex_buffer: Option<Handle>,
    pub vertex_buffer_stride: u32,
    pub vertex_buffer_offset: u32,
    pub input_layout: Option<Handle>,
}

/// A `PipelineState` as a mathematical value.
pub struct PipelineView {
    pub scissor_rects: Seq<Rect>,
    pub viewports: Seq<Viewport>,
    pub rasterizer_state: Option<Handle>,
    pub blend_state: Option<Handle>,
    pub blend_factor: BlendFactor,
    pub sample_mask: u32,
    pub depth_stencil_state: Option<Handle>,
    pub stencil_ref: u32,
    pub ps_shader_resources: Seq<Option<Handle>>,
    pub ps_samplers: Seq<Option<Handle>>,
    pub pixel_shader: Option<Handle>,
    pub ps_instances: Seq<Option<Handle>>,
    pub vertex_shader: Option<Handle>,
    pub vs_instances: Seq<Option<Handle>>,
    pub vs_constant_buffers: Seq<Option<Handle>>,
    pub geometry_shader: Option<Handle>,
    pub gs_instances: Seq<Option<Handle>>,
    pub primitive_topology: u32,
    pub index_buffer: Option<Handle>,
    pub index_buffer_format: u32,
    pub index_buffer_offset: u32,
    pub vertex_buffer: Option<Handle>,
    pub vertex_buffer_stride: u32,
    pub vertex_buffer_offset: u32,
    pub input_layout: Option<Handle>,
}

impl View for PipelineState {
    type V = PipelineView;

    open spec fn view(&self) -> PipelineView {
        PipelineView {
            scissor_rects: self.scissor_rects@,
            viewports: self.viewports@,
            rasterizer_state: self.rasterizer_state,
            blend_state: self.blend_state,
            blend_factor: self.blend_factor,
            sample_mask: self.sample_mask,
            depth_stencil_state: self.depth_stencil_state,
            stencil_ref: self.stencil_ref,
            ps_shader_resources: self.ps_shader_resources@,
            ps_samplers: self.ps_samplers@,
            pixel_shader: self.pixel_shader,
            ps_instances: self.ps_instances@,
            vertex_shader: self.vertex_shader,
            vs_instances: self.vs_instances@,
            vs_constant_buffers: self.vs_constant_buffers@,
            geometry_shader: self.geometry_shader,
            gs_instances: self.gs_instances@,
            primitive_topology: self.primitive_topology,
            index_buffer: self.index_buffer,
            index_buffer_format: self.index_buffer_format,
            index_buffer_offset: self.index_buffer_offset,
            vertex_buffer: self.vertex_buffer,
            vertex_buffer_stride: self.vertex_buffer_stride,
            vertex_buffer_offset: self.vertex_buffer_offset,
            input_layout: self.input_layout,
        }
    }
}

impl PipelineState {
    /// The state of a context to which nothing is bound and which has
    /// `resource_slots`, `sampler_slots` and `constant_buffer_slots` empty
    /// slots.
    pub fn unbound(resource_slots: usize, sampler_slots: usize, constant_buffer_slots: usize) -> (state:
        Self)
        ensures
            state@ == unbound_pipeline(
                resource_slots as nat,
                sampler_slots as nat,
                constant_buffer_slots as nat,
            ),
    {
        let state = PipelineState {
            scissor_rects: Vec::new(),
            viewports: Vec::new(),
            rasterizer_state: None,
            blend_state: None,
            blend_factor: BlendFactor { r: 0, g: 0, b: 0, a: 0 },
            sample_mask: 0,
            depth_stencil_state: None,
            stencil_ref: 0,
            ps_shader_resources: empty_slots(resource_slots),
            ps_samplers: empty_slots(sampler_slots),
            pixel_shader: None,
            ps_instances: Vec::new(),
            vertex_shader: None,
            vs_instances: Vec::new(),
            vs_constant_buffers: empty_slots(constant_buffer_slots),
            geometry_shader: None,
            gs_instances: Vec::new(),
            primitive_topology: 0,
            index_buffer: None,
            index_buffer_format: 0,
            index_buffer_offset: 0,
            vertex_buffer: None,
            vertex_buffer_stride: 0,
            vertex_buffer_offset: 0,
            input_layout: None,
        };
        state
    }
}

/// `n` slots with nothing bound to them.
fn empty_slots(n: usize) -> (slots: Vec<Option<Handle>>)
    ensures
        slots@ == Seq::new(n as nat, |i: int| None::<Handle>),
{
    let mut slots: Vec<Option<Handle>> = Vec::new();
    let mut i: usize = 0;
    while i < n
        invariant
            i <= n,
            slots@ == Seq::new(i as nat, |k: int| None::<Handle>),
        decreases n - i,
    {
        slots.push(None);
        i = i + 1;
    }
    slots
}

/// The state of a context to which nothing is bound.
pub open spec fn unbound_pipeline(resource_slots: nat, sampler_slots: nat, constant_buffer_slots: nat) -> PipelineView {
    PipelineView {
        scissor_rects: Seq::empty(),
        viewports: Seq::empty(),
        rasterizer_state: None,
        blend_state: None,
        blend_factor: BlendFactor { r: 0, g: 0, b: 0, a: 0 },
        sample_mask: 0,
        depth_stencil_state: None,
        stencil_ref: 0,
        ps_shader_resources: Seq::new(resource_slots, |i: int| None::<Handle>),
        ps_samplers: Seq::new(sampler_slots, |i: int| None::<Handle>),
        pixel_shader: None,
        ps_instances: Seq::empty(),
        vertex_shader: None,
        vs_instances: Seq::empty(),
        vs_constant_buffers: Seq::new(constant_buffer_slots, |i: int| None::<Handle>),
        geometry_shader: None,
        gs_instances: Seq::empty(),
        primitive_topology: 0,
        index_buffer: None,
        index_buffer_format: 0,
        index_buffer_offset: 0,
        vertex_buffer: None,
        vertex_buffer_stride: 0,
        vertex_buffer_offset: 0,
        input_layout: None,
    }
}

/// The whole of the context's state that the overlay touches: the part it
/// saves, and the bindings it changes without saving them.
pub struct ContextView {
    pub pipeline: PipelineView,
    pub render_target: Option<Handle>,
    pub hull_shader: Option<Handle>,
    pub domain_shader: Option<Handle>,
    pub compute_shader: Option<Handle>,
}

/// The kinds of state that are saved and put back, one by one.
#[derive(Debug, Clone, Copy, PartialEq, Eq, Structural)]
pub enum StateCategory {
    ScissorRects,
    Viewports,
    RasterizerState,
    BlendState,
    DepthStencilState,
    PixelShaderResources,
    PixelSamplers,
    PixelShader,
    VertexShader,
    VertexConstantBuffers,
    GeometryShader,
    PrimitiveTopology,
    IndexBuffer,
    VertexBuffer,
    InputLayout,
}

/// One command to the device context.
#[allow(inconsistent_fields)]
#[derive(Debug, Clone, Copy, PartialEq, Eq, Structural)]
pub enum Command {
    /// Bind `view` as the only render target, without a depth buffer.
    SetRenderTargets { view: Option<Handle> },
    /// Map the vertex and the index buffer for writing, discarding what they
    /// held.
    MapBuffers,
    /// Copy the `count` vertices of draw list `list` into the mapped vertex
    /// buffer, from element `offset` on.
    UploadVertices { list: usize, offset: usize, count: usize },
    /// Copy the `count` indices of draw list `list` into the mapped index
    /// buffer, from element `offset` on.
    UploadIndices { list: usize, offset: usize, count: usize },
    /// Unmap the vertex and the index buffer.
    UnmapBuffers,
    /// Write the frame's orthographic projection into the constant buffer
    /// `buffer`.
    UploadProjection { buffer: Option<Handle> },
    /// Bind `viewport` as the only viewport.
    SetViewport { viewport: Viewport },
    /// Bind `rect` as the only scissor rectangle.
    SetScissorRect { rect: Rect },
    SetInputLayout { layout: Option<Handle> },
    /// Bind `buffer` as the vertex buffer of slot 0.
    SetVertexBuffer { buffer: Option<Handle>, stride: u32, offset: u32 },
    SetIndexBuffer { buffer: Option<Handle>, format: u32, offset: u32 },
    SetPrimitiveTopology { topology: u32 },
    /// Bind `shader` as the vertex shader, with no class instances.
    SetVertexShader { shader: Option<Handle> },
    /// Bind `buffer` as the constant buffer of slot 0 of the vertex stage.
    SetVertexConstantBuffer { buffer: Option<Handle> },
    /// Bind `shader` as the pixel shader, with no class instances.
    SetPixelShader { shader: Option<Handle> },
    /// Bind `sampler` as the sampler of slot 0 of the pixel stage.
    SetPixelSampler { sampler: Option<Handle> },
    /// Bind `view` as the shader resource of slot 0 of the pixel stage.
    SetPixelShaderResource { view: Option<Handle> },
    /// Bind `shader` as the geometry shader, with no class instances.
    SetGeometryShader { shader: Option<Handle> },
    SetHullShader { shader: Option<Handle> },
    SetDomainShader { shader: Option<Handle> },
    SetComputeShader { shader: Option<Handle> },
    SetBlendState { state: Option<Handle>, factor: BlendFactor, sample_mask: u32 },
    SetDepthStencilState { state: Option<Handle>, stencil_ref: u32 },
    SetRasterizerState { state: Option<Handle> },
    /// Draw `index_count` indices from index `start_index` on, each offset by
    /// `base_vertex`.
    DrawIndexed { index_count: u32, start_index: u32, base_vertex: i32 },
    /// Call the host's function of batch `command` of draw list `list`.
    RawCallback { list: usize, command: usize },
    /// Bind again what the saved state holds of `category`.
    Restore { category: StateCategory },
}

/// What slots hold after `values` are bound from slot 0 on: the slots that
/// `values` reaches hold them, the others hold what they held.
pub open spec fn write_slots(slots: Seq<Option<Handle>>, values: Seq<Option<Handle>>) -> Seq<
    Option<Handle>,
> {
    Seq::new(
        slots.len(),
        |i: int|
            if i < values.len() {
                values[i]
            } else {
                slots[i]
            },
    )
}

/// The state `s` with what `saved` holds of `category` bound again.
pub open spec fn restore_category(category: StateCategory, saved: PipelineView, s: PipelineView) -> PipelineView {
    match category {
        StateCategory::ScissorRects => PipelineView { scissor_rects: saved.scissor_rects, ..s },
        StateCategory::Viewports => PipelineView { viewports: saved.viewports, ..s },
        StateCategory::RasterizerState => PipelineView {
            rasterizer_state: saved.rasterizer_state,
            ..s
        },
        StateCategory::BlendState => PipelineView {
            blend_state: saved.blend_state,
            blend_factor: saved.blend_factor,
            sample_mask: saved.sample_mask,
            ..s
        },
        StateCategory::DepthStencilState => PipelineView {
            depth_stencil_state: saved.depth_stencil_state,
            stencil_ref: saved.stencil_ref,
            ..s
        },
        StateCategory::PixelShaderResources => PipelineView {
            ps_shader_resources: write_slots(s.ps_shader_resources, saved.ps_shader_resources),
            ..s
        },
        StateCategory::PixelSamplers => PipelineView {
            ps_samplers: write_slots(s.ps_samplers, saved.ps_samplers),
            ..s
        },
        StateCategory::PixelShader => PipelineView {
            pixel_shader: saved.pixel_shader,
            ps_instances: saved.ps_instances,
            ..s
        },
        StateCategory::VertexShader => PipelineView {
            vertex_shader: saved.vertex_shader,
            vs_instances: saved.vs_instances,
            ..s
        },
        StateCategory::VertexConstantBuffers => PipelineView {
            vs_constant_buffers: write_slots(s.vs_constant_buffers, saved.vs_constant_buffers),
            ..s
        },
        StateCategory::GeometryShader => PipelineView {
            geometry_shader: saved.geometry_shader,
            gs_instances: saved.gs_instances,
            ..s
        },
        StateCategory::PrimitiveTopology => PipelineView {
            primitive_topology: saved.primitive_topology,
            ..s
        },
        StateCategory::IndexBuffer => PipelineView {
            index_buffer: saved.index_buffer,
            index_buffer_format: saved.index_buffer_format,
            index_buffer_offset: saved.index_buffer_offset,
            ..s
        },
        StateCategory::VertexBuffer => PipelineView {
            vertex_buffer: saved.vertex_buffer,
            vertex_buffer_stride: saved.vertex_buffer_stride,
            vertex_buffer_offset: saved.vertex_buffer_offset,
            ..s
        },
        StateCategory::InputLayout => PipelineView { input_layout: saved.input_layout, ..s },
    }
}

/// `a` and `b` hold the same of `category`.
pub open spec fn same_category(category: StateCategory, a: PipelineView, b: PipelineView) -> bool {
    match category {
        StateCategory::ScissorRects => a.scissor_rects == b.scissor_rects,
        StateCategory::Viewports => a.viewports == b.viewports,
        StateCategory::RasterizerState => a.rasterizer_state == b.rasterizer_state,
        StateCategory::BlendState => a.blend_state == b.blend_state && a.blend_factor
            == b.blend_factor && a.sample_mask == b.sample_mask,
        StateCategory::DepthStencilState => a.depth_stencil_state == b.depth_stencil_state
            && a.stencil_ref == b.stencil_ref,
        StateCategory::PixelShaderResources => a.ps_shader_resources == b.ps_shader_resources,
        StateCategory::PixelSamplers => a.ps_samplers == b.ps_samplers,
        StateCategory::PixelShader => a.pixel_shader == b.pixel_shader && a.ps_instances
            == b.ps_instances,
        StateCategory::VertexShader => a.vertex_shader == b.vertex_shader && a.vs_instances
            == b.vs_instances,
        StateCategory::VertexConstantBuffers => a.vs_constant_buffers == b.vs_constant_buffers,
        StateCategory::GeometryShader => a.geometry_shader == b.geometry_shader && a.gs_instances
            == b.gs_instances,
        StateCategory::PrimitiveTopology => a.primitive_topology == b.primitive_topology,
        StateCategory::IndexBuffer => a.index_buffer == b.index_buffer && a.index_buffer_format
            == b.index_buffer_format && a.index_buffer_offset == b.index_buffer_offset,
        StateCategory::VertexBuffer => a.vertex_buffer == b.vertex_buffer && a.vertex_buffer_stride
            == b.vertex_buffer_stride && a.vertex_buffer_offset == b.vertex_buffer_offset,
        StateCategory::InputLayout => a.input_layout == b.input_layout,
    }
}

/// `a` and `b` have as many slots of each kind.
pub open spec fn same_slots(a: PipelineView, b: PipelineView) -> bool {
    &&& a.ps_shader_resources.len() == b.ps_shader_resources.len()
    &&& a.ps_samplers.len() == b.ps_samplers.len()
    &&& a.vs_constant_buffers.len() == b.vs_constant_buffers.len()
}

/// What the saved part of the state is after `cmd`.  `saved` is the state that
/// a `Restore` command binds again.
pub open spec fn apply_pipeline(cmd: Command, saved: PipelineView, s: PipelineView) -> PipelineView {
    match cmd {
        Command::SetViewport { viewport } => PipelineView { viewports: seq![viewport], ..s },
        Command::SetScissorRect { rect } => PipelineView { scissor_rects: seq![rect], ..s },
        Command::SetInputLayout { layout } => PipelineView { input_layout: layout, ..s },
        Command::SetVertexBuffer { buffer, stride, offset } => PipelineView {
            vertex_buffer: buffer,
            vertex_buffer_stride: stride,
            vertex_buffer_offset: offset,
            ..s
        },
        Command::SetIndexBuffer { buffer, format, offset } => PipelineView {
            index_buffer: buffer,
            index_buffer_format: format,
            index_buffer_offset: offset,
            ..s
        },
        Command::SetPrimitiveTopology { topology } => PipelineView {
            primitive_topology: topology,
            ..s
        },
        Command::SetVertexShader { shader } => PipelineView {
            vertex_shader: shader,
            vs_instances: Seq::empty(),
            ..s
        },
        Command::SetVertexConstantBuffer { buffer } => PipelineView {
            vs_constant_buffers: write_slots(s.vs_constant_buffers, seq![buffer]),
            ..s
        },
        Command::SetPixelShader { shader } => PipelineView {
            pixel_shader: shader,
            ps_instances: Seq::empty(),
            ..s
        },
        Command::SetPixelSampler { sampler } => PipelineView {
            ps_samplers: write_slots(s.ps_samplers, seq![sampler]),
            ..s
        },
        Command::SetPixelShaderResource { view } => PipelineView {
            ps_shader_resources: write_slots(s.ps_shader_resources, seq![view]),
            ..s
        },
        Command::SetGeometryShader { shader } => PipelineView {
            geometry_shader: shader,
            gs_instances: Seq::empty(),
            ..s
        },
        Command::SetBlendState { state, factor, sample_mask } => PipelineView {
            blend_state: state,
            blend_factor: factor,
            sample_mask: sample_mask,
            ..s
        },
        Command::SetDepthStencilState { state, stencil_ref } => PipelineView {
            depth_stencil_state: state,
            stencil_ref: stencil_ref,
            ..s
        },
        Command::SetRasterizerState { state } => PipelineView { rasterizer_state: state, ..s },
        Command::Restore { category } => restore_category(category, saved, s),
        _ => s,
    }
}

/// What a state holds of one kind: the arguments of the one call to the
/// device context that binds that kind.
#[allow(inconsistent_fields)]
#[derive(Debug, Clone, PartialEq, Eq)]
pub enum Binding {
    ScissorRects { rects: Vec<Rect> },
    Viewports { viewports: Vec<Viewport> },
    RasterizerState { state: Option<Handle> },
    BlendState { state: Option<Handle>, factor: BlendFactor, sample_mask: u32 },
    DepthStencilState { state: Option<Handle>, stencil_ref: u32 },
    /// The shader resources of the pixel stage, from slot 0 on.
    PixelShaderResources { views: Vec<Option<Handle>> },
    /// The samplers of the pixel stage, from slot 0 on.
    PixelSamplers { samplers: Vec<Option<Handle>> },
    PixelShader { shader: Option<Handle>, instances: Vec<Option<Handle>> },
    VertexShader { shader: Option<Handle>, instances: Vec<Option<Handle>> },
    /// The constant buffers of the vertex stage, from slot 0 on.
    VertexConstantBuffers { buffers: Vec<Option<Handle>> },
    GeometryShader { shader: Option<Handle>, instances: Vec<Option<Handle>> },
    PrimitiveTopology { topology: u32 },
    IndexBuffer { buffer: Option<Handle>, format: u32, offset: u32 },
    /// The vertex buffer of slot 0.
    VertexBuffer { buffer: Option<Handle>, stride: u32, offset: u32 },
    InputLayout { layout: Option<Handle> },
}

impl Binding {
    /// The kind of state that the call binds.
    pub open spec fn category(&self) -> StateCategory {
        match *self {
            Binding::ScissorRects { .. } => StateCategory::ScissorRects,
            Binding::Viewports { .. } => StateCategory::Viewports,
            Binding::RasterizerState { .. } => StateCategory::RasterizerState,
            Binding::BlendState { .. } => StateCategory::BlendState,
            Binding::DepthStencilState { .. } => StateCategory::DepthStencilState,
            Binding::PixelShaderResources { .. } => StateCategory::PixelShaderResources,
            Binding::PixelSamplers { .. } => StateCategory::PixelSamplers,
            Binding::PixelShader { .. } => StateCategory::PixelShader,
            Binding::VertexShader { .. } => StateCategory::VertexShader,
            Binding::VertexConstantBuffers { .. } => StateCategory::VertexConstantBuffers,
            Binding::GeometryShader { .. } => StateCategory::GeometryShader,
            Binding::PrimitiveTopology { .. } => StateCategory::PrimitiveTopology,
            Binding::IndexBuffer { .. } => StateCategory::IndexBuffer,
            Binding::VertexBuffer { .. } => StateCategory::VertexBuffer,
            Binding::InputLayout { .. } => StateCategory::InputLayout,
        }
    }

    /// The state `s` after the call with these arguments.
    pub open spec fn bound(&self, s: PipelineView) -> PipelineView {
        match *self {
            Binding::ScissorRects { rects } => PipelineView { scissor_rects: rects@, ..s },
            Binding::Viewports { viewports } => PipelineView { viewports: viewports@, ..s },
            Binding::RasterizerState { state } => PipelineView { rasterizer_state: state, ..s },
            Binding::BlendState { state, factor, sample_mask } => PipelineView {
                blend_state: state,
                blend_factor: factor,
                sample_mask: sample_mask,
                ..s
            },
            Binding::DepthStencilState { state, stencil_ref } => PipelineView {
                depth_stencil_state: state,
                stencil_ref: stencil_ref,
                ..s
            },
            Binding::PixelShaderResources { views } => PipelineView {
                ps_shader_resources: write_slots(s.ps_shader_resources, views@),
                ..s
            },
            Binding::PixelSamplers { samplers } => PipelineView {
                ps_samplers: write_slots(s.ps_samplers, samplers@),
                ..s
            },
            Binding::PixelShader { shader, instances } => PipelineView {
                pixel_shader: shader,
                ps_instances: instances@,
                ..s
            },
            Binding::VertexShader { shader, instances } => PipelineView {
                vertex_shader: shader,
                vs_instances: instances@,
                ..s
            },
            Binding::VertexConstantBuffers { buffers } => PipelineView {
                vs_constant_buffers: write_slots(s.vs_constant_buffers, buffers@),
                ..s
            },
            Binding::GeometryShader { shader, instances } => PipelineView {
                geometry_shader: shader,
                gs_instances: instances@,
                ..s
            },
            Binding::PrimitiveTopology { topology } => PipelineView {
                primitive_topology: topology,
                ..s
            },
            Binding::IndexBuffer { buffer, format, offset } => PipelineView {
                index_buffer: buffer,
                index_buffer_format: format,
                index_buffer_offset: offset,
                ..s
            },
            Binding::VertexBuffer { buffer, stride, offset } => PipelineView {
                vertex_buffer: buffer,
                vertex_buffer_stride: stride,
                vertex_buffer_offset: offset,
                ..s
            },
            Binding::InputLayout { layout } => PipelineView { input_layout: layout, ..s },
        }
    }
}

/// A copy of `v`.
fn copy_of<T: Copy>(v: &Vec<T>) -> (copy: Vec<T>)
    ensures
        copy@ == v@,
{
    let mut copy: Vec<T> = Vec::new();
    let mut i: usize = 0;
    while i < v.len()
        invariant
            i <= v.len(),
            copy@ == v@.take(i as int),
        decreases v.len() - i,
    {
        copy.push(v[i]);
        i = i + 1;
    }
    copy
}

/// Binds `values` to `slots` from slot 0 on.
fn bind_slots(slots: &mut Vec<Option<Handle>>, values: &Vec<Option<Handle>>)
    ensures
        final(slots)@ == write_slots(old(slots)@, values@),
{
    let ghost before = slots@;
    let mut i: usize = 0;
    while i < slots.len() && i < values.len()
        invariant
            slots@.len() == before.len(),
            i <= slots@.len(),
            i <= values@.len(),
            forall|k: int| 0 <= k < i ==> slots@[k] == values@[k],
            forall|k: int| i <= k < slots@.len() ==> slots@[k] == before[k],
        decreases slots@.len() - i,
    {
        slots.set(i, values[i]);
        i = i + 1;
    }
}

/// One value as the only one of a list.
fn only<T>(value: T) -> (list: Vec<T>)
    ensures
        list@ == seq![value],
{
    let mut list: Vec<T> = Vec::new();
    list.push(value);
    list
}

impl PipelineState {
    /// What this state holds of `category`, as the arguments of the call that
    /// binds it again: made after any state, the call puts back of `category`
    /// exactly what this state holds of it.
    pub fn binding(&self, category: StateCategory) -> (binding: Binding)
        ensures
            binding.category() == category,
            forall|s: PipelineView| #[trigger]
                binding.bound(s) == restore_category(category, self@, s),
    {
        match category {
            StateCategory::ScissorRects => Binding::ScissorRects {
                rects: copy_of(&self.scissor_rects),
            },
            StateCategory::Viewports => Binding::Viewports {
                viewports: copy_of(&self.viewports),
            },
            StateCategory::RasterizerState => Binding::RasterizerState {
                state: self.rasterizer_state,
            },
            StateCategory::BlendState => Binding::BlendState {
                state: self.blend_state,
                factor: self.blend_factor,
                sample_mask: self.sample_mask,
            },
            StateCategory::DepthStencilState => Binding::DepthStencilState {
                state: self.depth_stencil_state,
                stencil_ref: self.stencil_ref,
            },
            StateCategory::PixelShaderResources => Binding::PixelShaderResources {
                views: copy_of(&self.ps_shader_resources),
            },
            StateCategory::PixelSamplers => Binding::PixelSamplers {
                samplers: copy_of(&self.ps_samplers),
            },
            StateCategory::PixelShader => Binding::PixelShader {
                shader: self.pixel_shader,
                instances: copy_of(&self.ps_instances),
            },
            StateCategory::VertexShader => Binding::VertexShader {
                shader: self.vertex_shader,
                instances: copy_of(&self.vs_instances),
            },
            StateCategory::VertexConstantBuffers => Binding::VertexConstantBuffers {
                buffers: copy_of(&self.vs_constant_buffers),
            },
            StateCategory::GeometryShader => Binding::GeometryShader {
                shader: self.geometry_shader,
                instances: copy_of(&self.gs_instances),
            },
            StateCategory::PrimitiveTopology => Binding::PrimitiveTopology {
                topology: self.primitive_topology,
            },
            StateCategory::IndexBuffer => Binding::IndexBuffer {
                buffer: self.index_buffer,
                format: self.index_buffer_format,
                offset: self.index_buffer_offset,
            },
            StateCategory::VertexBuffer => Binding::VertexBuffer {
                buffer: self.vertex_buffer,
                stride: self.vertex_buffer_stride,
                offset: self.vertex_buffer_offset,
            },
            StateCategory::InputLayout => Binding::InputLayout { layout: self.input_layout },
        }
    }

    /// Does to this state what the call with the arguments `binding` does to
    /// the saved part of a device context's state.
    pub fn bind(&mut self, binding: &Binding)
        ensures
            final(self)@ == binding.bound(old(self)@),
    {
        match binding {
            Binding::ScissorRects { rects } => {
                self.scissor_rects = copy_of(rects);
            },
            Binding::Viewports { viewports } => {
                self.viewports = copy_of(viewports);
            },
            Binding::RasterizerState { state } => {
                self.rasterizer_state = *state;
            },
            Binding::BlendState { state, factor, sample_mask } => {
                self.blend_state = *state;
                self.blend_factor = *factor;
                self.sample_mask = *sample_mask;
            },
            Binding::DepthStencilState { state, stencil_ref } => {
                self.depth_stencil_state = *state;
                self.stencil_ref = *stencil_ref;
            },
            Binding::PixelShaderResources { views } => {
                bind_slots(&mut self.ps_shader_resources, views);
            },
            Binding::PixelSamplers { samplers } => {
                bind_slots(&mut self.ps_samplers, samplers);
            },
            Binding::PixelShader { shader, instances } => {
                self.pixel_shader = *shader;
                self.ps_instances = copy_of(instances);
            },
            Binding::VertexShader { shader, instances } => {
                self.vertex_shader = *shader;
                self.vs_instances = copy_of(instances);
            },
            Binding::VertexConstantBuffers { buffers } => {
                bind_slots(&mut self.vs_constant_buffers, buffers);
            },
            Binding::GeometryShader { shader, instances } => {
                self.geometry_shader = *shader;
                self.gs_instances = copy_of(instances);
            },
            Binding::PrimitiveTopology { topology } => {
                self.primitive_topology = *topology;
            },
            Binding::IndexBuffer { buffer, format, offset } => {
                self.index_buffer = *buffer;
                self.index_buffer_format = *format;
                self.index_buffer_offset = *offset;
            },
            Binding::VertexBuffer { buffer, stride, offset } => {
                self.vertex_buffer = *buffer;
                self.vertex_buffer_stride = *stride;
                self.vertex_buffer_offset = *offset;
            },
            Binding::InputLayout { layout } => {
                self.input_layout = *layout;
            },
        }
    }

    /// Does to this state what the command `cmd` does to the saved part of a
    /// device context's state.  `saved` is the state that a `Restore` command
    /// binds again.  With this a sequence of commands can be tried on a state
    /// without a device.
    pub fn execute(&mut self, cmd: Command, saved: &PipelineState)
        ensures
            final(self)@ == apply_pipeline(cmd, saved@, old(self)@),
    {
        match cmd {
            Command::SetViewport { viewport } => {
                self.viewports = only(viewport);
            },
            Command::SetScissorRect { rect } => {
                self.scissor_rects = only(rect);
            },
            Command::SetInputLayout { layout } => {
                self.input_layout = layout;
            },
            Command::SetVertexBuffer { buffer, stride, offset } => {
                self.vertex_buffer = buffer;
                self.vertex_buffer_stride = stride;
                self.vertex_buffer_offset = offset;
            },
            Command::SetIndexBuffer { buffer, format, offset } => {
                self.index_buffer = buffer;
                self.index_buffer_format = format;
                self.index_buffer_offset = offset;
            },
            Command::SetPrimitiveTopology { topology } => {
                self.primitive_topology = topology;
            },
            Command::SetVertexShader { shader } => {
                self.vertex_shader = shader;
                self.vs_instances = Vec::new();
            },
            Command::SetVertexConstantBuffer { buffer } => {
                let values = only(buffer);
                bind_slots(&mut self.vs_constant_buffers, &values);
            },
            Command::SetPixelShader { shader } => {
                self.pixel_shader = shader;
                self.ps_instances = Vec::new();
            },
            Command::SetPixelSampler { sampler } => {
                let values = only(sampler);
                bind_slots(&mut self.ps_samplers, &values);
            },
            Command::SetPixelShaderResource { view } => {
                let values = only(view);
                bind_slots(&mut self.ps_shader_resources, &values);
            },
            Command::SetGeometryShader { shader } => {
                self.geometry_shader = shader;
                self.gs_instances = Vec::new();
            },
            Command::SetBlendState { state, factor, sample_mask } => {
                self.blend_state = state;
                self.blend_factor = factor;
                self.sample_mask = sample_mask;
            },
            Command::SetDepthStencilState { state, stencil_ref } => {
                self.depth_stencil_state = state;
                self.stencil_ref = stencil_ref;
            },
            Command::SetRasterizerState { state } => {
                self.rasterizer_state = state;
            },
            Command::Restore { category } => {
                let binding = saved.binding(category);
                self.bind(&binding);
            },
            _ => {},
        }
    }

    /// Runs the commands `cmds` on this state, in order.
    pub fn execute_all(&mut self, cmds: &Vec<Command>, saved: &PipelineState)
        ensures
            final(self)@ == run_pipeline(cmds@, saved@, old(self)@),
    {
        let mut i: usize = 0;
        while i < cmds.len()
            invariant
                i <= cmds.len(),
                self@ == run_pipeline(cmds@.take(i as int), saved@, old(self)@),
            decreases cmds.len() - i,
        {
            assert(cmds@.take(i as int + 1).drop_last() =~= cmds@.take(i as int));
            self.execute(cmds[i], saved);
            i = i + 1;
        }
        assert(cmds@.take(i as int) =~= cmds@);
    }
}

/// What the saved part of the state is after the commands `cmds`, in order.
pub open spec fn run_pipeline(cmds: Seq<Command>, saved: PipelineView, s: PipelineView) -> PipelineView
    decreases cmds.len(),
{
    if cmds.len() == 0 {
        s
    } else {
        apply_pipeline(cmds.last(), saved, run_pipeline(cmds.drop_last(), saved, s))
    }
}

/// The saved part of a context's state goes its own way: what it is after some
/// commands depends on nothing else of the context.
pub proof fn lemma_run_pipeline(cmds: Seq<Command>, saved: PipelineView, s: ContextView)
    ensures
        run(cmds, saved, s).pipeline == run_pipeline(cmds, saved, s.pipeline),
    decreases cmds.len(),
{
    if cmds.len() > 0 {
        lemma_run_pipeline(cmds.drop_last(), saved, s);
    }
}

/// What the context's state is after `cmd`.
pub open spec fn apply(cmd: Command, saved: PipelineView, s: ContextView) -> ContextView {
    match cmd {
        Command::SetRenderTargets { view } => ContextView { render_target: view, ..s },
        Command::SetHullShader { shader } => ContextView { hull_shader: shader, ..s },
        Command::SetDomainShader { shader } => ContextView { domain_shader: shader, ..s },
        Command::SetComputeShader { shader } => ContextView { compute_shader: shader, ..s },
        _ => ContextView { pipeline: apply_pipeline(cmd, saved, s.pipeline), ..s },
    }
}

/// What the context's state is after the commands `cmds`, in order.
pub open spec fn run(cmds: Seq<Command>, saved: PipelineView, s: ContextView) -> ContextView
    decreases cmds.len(),
{
    if cmds.len() == 0 {
        s
    } else {
        apply(cmds.last(), saved, run(cmds.drop_last(), saved, s))
    }
}

/// Running commands one after another is running the first ones, then the
/// others.
pub proof fn lemma_run_concat(a: Seq<Command>, b: Seq<Command>, saved: PipelineView, s: ContextView)
    ensures
        run(a + b, saved, s) == run(b, saved, run(a, saved, s)),
    decreases b.len(),
{
    if b.len() == 0 {
    } else {
        assert((a + b).drop_last() =~= a + b.drop_last());
        lemma_run_concat(a, b.drop_last(), saved, s);
    }
}

/// No command changes how many slots of a kind there are.
pub proof fn lemma_run_keeps_slots(cmds: Seq<Command>, saved: PipelineView, s: ContextView)
    ensures
        same_slots(run(cmds, saved, s).pipeline, s.pipeline),
    decreases cmds.len(),
{
    if cmds.len() > 0 {
        lemma_run_keeps_slots(cmds.drop_last(), saved, s);
    }
}

} // verus!
