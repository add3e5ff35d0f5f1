use riri_imgui_hook::d3d11_impl::backup::StateBackup;
use riri_imgui_hook::d3d11_impl::context::{
    Binding, BlendFactor, Command, PipelineState, StateCategory, FORMAT_R16_UINT,
    TOPOLOGY_TRIANGLE_LIST,
};
use riri_imgui_hook::d3d11_impl::devices::DeviceObjects;
use riri_imgui_hook::d3d11_impl::font::{FontObjects, FONT_TEX_ID};
use riri_imgui_hook::d3d11_impl::shader::{PixelShader, VertexShader};
use riri_imgui_hook::d3d11_impl::state::{D3D11Hook, RenderError, RENDERER_NAME};
use riri_imgui_hook::draw_data::{DrawCmd, DrawData, DrawList};
use riri_imgui_hook::types::{Rect, Viewport};
use riri_imgui_hook::win32_impl::events::{Io, RENDERER_HAS_VTX_OFFSET};

const RTV: usize = 0x100;
const VS: usize = 0x200;
const LAYOUT: usize = 0x201;
const CBUFFER: usize = 0x202;
const PS: usize = 0x300;
const BLEND: usize = 0x400;
const RASTER: usize = 0x401;
const DEPTH: usize = 0x402;
const SAMPLER: usize = 0x500;
const FONT_VIEW: usize = 0x501;
const VB: usize = 0x600;
const IB: usize = 0x601;

const IMAGE: usize = 0x9000;

/// A renderer with one texture registered, under the identifier 0.
fn hook() -> D3D11Hook {
    let mut h = bare_hook();
    assert_eq!(h.register_texture(IMAGE), Some(0));
    h
}

fn bare_hook() -> D3D11Hook {
    let mut io = Io::new();
    D3D11Hook::new(
        &mut io,
        Some(RTV),
        VertexShader::new(Some(VS), Some(LAYOUT), Some(CBUFFER)),
        PixelShader::new(Some(PS)),
        DeviceObjects::new(Some(BLEND), Some(RASTER), Some(DEPTH)),
        FontObjects::new(Some(SAMPLER), Some(FONT_VIEW)),
        Some(VB),
        Some(IB),
    )
}

fn rect(n: i32) -> Rect {
    Rect { left: n, top: n, right: n + 10, bottom: n + 20 }
}

fn width() -> u32 {
    1280.0f32.to_bits()
}

fn height() -> u32 {
    720.0f32.to_bits()
}

fn frame() -> DrawData {
    let lists = vec![
        DrawList {
            vtx_count: 4,
            idx_count: 6,
            commands: vec![DrawCmd::Elements { count: 6, clip_rect: rect(1), texture_id: FONT_TEX_ID }],
        },
        DrawList {
            vtx_count: 8,
            idx_count: 12,
            commands: vec![
                DrawCmd::Elements { count: 6, clip_rect: rect(2), texture_id: 0 },
                DrawCmd::Elements { count: 6, clip_rect: rect(3), texture_id: 0 },
            ],
        },
    ];
    DrawData::new(width(), height(), lists).unwrap()
}

/// The state of a host that has bound objects of its own everywhere.
fn host_state() -> PipelineState {
    let mut s = PipelineState::unbound(4, 3, 2);
    s.scissor_rects = vec![rect(100), rect(200)];
    s.viewports = vec![Viewport {
        top_left_x: 1,
        top_left_y: 2,
        width: 3,
        height: 4,
        min_depth: 5,
        max_depth: 6,
    }];
    s.rasterizer_state = Some(0xA1);
    s.blend_state = Some(0xA2);
    s.blend_factor = BlendFactor { r: 11, g: 12, b: 13, a: 14 };
    s.sample_mask = 0x0F0F_0F0F;
    s.depth_stencil_state = Some(0xA3);
    s.stencil_ref = 77;
    s.ps_shader_resources = vec![Some(0xB1), None, Some(0xB3), Some(0xB4)];
    s.ps_samplers = vec![Some(0xC1), Some(0xC2), None];
    s.pixel_shader = Some(0xD1);
    s.ps_instances = vec![Some(0xD2), Some(0xD3)];
    s.vertex_shader = Some(0xE1);
    s.vs_instances = vec![Some(0xE2)];
    s.vs_constant_buffers = vec![Some(0xF1), Some(0xF2)];
    s.geometry_shader = Some(0x1A1);
    s.gs_instances = vec![Some(0x1A2), None, Some(0x1A3)];
    s.primitive_topology = 5;
    s.index_buffer = Some(0x1B1);
    s.index_buffer_format = 42;
    s.index_buffer_offset = 64;
    s.vertex_buffer = Some(0x1C1);
    s.vertex_buffer_stride = 32;
    s.vertex_buffer_offset = 96;
    s.input_layout = Some(0x1D1);
    s
}

fn setup() -> Vec<Command> {
    vec![
        Command::SetViewport {
            viewport: Viewport {
                top_left_x: 0,
                top_left_y: 0,
                width: width(),
                height: height(),
                min_depth: 0,
                max_depth: 1.0f32.to_bits(),
            },
        },
        Command::SetInputLayout { layout: Some(LAYOUT) },
        Command::SetVertexBuffer { buffer: Some(VB), stride: 20, offset: 0 },
        Command::SetIndexBuffer { buffer: Some(IB), format: FORMAT_R16_UINT, offset: 0 },
        Command::SetPrimitiveTopology { topology: TOPOLOGY_TRIANGLE_LIST },
        Command::SetVertexShader { shader: Some(VS) },
        Command::SetVertexConstantBuffer { buffer: Some(CBUFFER) },
        Command::SetPixelShader { shader: Some(PS) },
        Command::SetPixelSampler { sampler: Some(SAMPLER) },
        Command::SetGeometryShader { shader: None },
        Command::SetHullShader { shader: None },
        Command::SetDomainShader { shader: None },
        Command::SetComputeShader { shader: None },
        Command::SetBlendState {
            state: Some(BLEND),
            factor: BlendFactor { r: 0, g: 0, b: 0, a: 0 },
            sample_mask: 0xFFFF_FFFF,
        },
        Command::SetDepthStencilState { state: Some(DEPTH), stencil_ref: 0 },
        Command::SetRasterizerState { state: Some(RASTER) },
    ]
}

#[test]
fn a_new_renderer_announces_vertex_offsets() {
    let mut io = Io::new();
    io.backend_flags = 2;
    let blank = D3D11Hook::new_blank(&mut io);
    assert_eq!(io.backend_flags, 2 | RENDERER_HAS_VTX_OFFSET);
    assert_eq!(blank.get_bindings(), None);
    assert_eq!(blank.get_render_target_view(), None);
    assert_eq!(blank.get_vertex_buffer().map(|b| b.len()), None);
    assert_eq!(RENDERER_NAME, "riri-imgui-hook-d3d11");
    let h = hook();
    assert_eq!(h.get_render_target_view(), Some(RTV));
    assert_eq!(h.get_vertex_buffer().unwrap().len(), 5000);
    assert_eq!(h.get_index_buffer().unwrap().len(), 10000);
    let b = h.get_bindings().unwrap();
    assert_eq!(b.input_layout, Some(LAYOUT));
    assert_eq!(b.vertex_buffer, Some(VB));
    assert_eq!(b.index_buffer, Some(IB));
    assert_eq!(b.vertex_shader, Some(VS));
    assert_eq!(b.constant_buffer, Some(CBUFFER));
    assert_eq!(b.pixel_shader, Some(PS));
    assert_eq!(b.font_sampler, Some(SAMPLER));
    assert_eq!(b.font_view, Some(FONT_VIEW));
    assert_eq!(b.blend_state, Some(BLEND));
    assert_eq!(b.depth_stencil_state, Some(DEPTH));
    assert_eq!(b.rasterizer_state, Some(RASTER));
}

#[test]
fn an_empty_display_asks_nothing_of_the_device() {
    let h = hook();
    for (w, h_bits) in [(0u32, 0u32), (0, height()), (width(), 0), ((-1.0f32).to_bits(), height())] {
        let lists = vec![DrawList {
            vtx_count: 4,
            idx_count: 6,
            commands: vec![DrawCmd::Elements { count: 6, clip_rect: rect(1), texture_id: 0 }],
        }];
        let data = DrawData::new(w, h_bits, lists).unwrap();
        let plan = h.render(&data, host_state()).unwrap();
        assert!(plan.work.is_empty());
        assert!(plan.restore.is_empty());
        assert!(plan.backup.is_none());
    }
    // Not even a renderer without device objects fails on it.
    let mut io = Io::new();
    let blank = D3D11Hook::new_blank(&mut io);
    let data = DrawData::new(0, 0, vec![]).unwrap();
    assert!(blank.render(&data, host_state()).unwrap().work.is_empty());
}

#[test]
fn an_empty_display_grows_no_buffer() {
    let mut h = hook();
    let lists = vec![DrawList { vtx_count: 9000, idx_count: 20000, commands: vec![] }];
    let data = DrawData::new(0, 0, lists).unwrap();
    assert_eq!(h.ensure_buffers(&data), (false, false));
    assert_eq!(h.get_vertex_buffer().unwrap().len(), 5000);
    assert_eq!(h.get_vertex_buffer().unwrap().get_buffer(), Some(VB));
    assert_eq!(h.get_index_buffer().unwrap().len(), 10000);
}

#[test]
fn render_needs_device_objects_and_buffers() {
    let mut io = Io::new();
    let blank = D3D11Hook::new_blank(&mut io);
    assert_eq!(
        blank.render(&frame(), host_state()).err(),
        Some(RenderError::DeviceObjectsMissing)
    );
    let mut h = hook();
    let lists = vec![DrawList { vtx_count: 5001, idx_count: 3, commands: vec![] }];
    let big = DrawData::new(width(), height(), lists).unwrap();
    // Too small.
    assert_eq!(h.render(&big, host_state()).err(), Some(RenderError::BuffersNotReady));
    // Large enough, but the new buffer has no buffer object yet.
    assert_eq!(h.ensure_buffers(&big), (true, false));
    assert_eq!(h.get_vertex_buffer().unwrap().len(), 10001);
    assert_eq!(h.get_vertex_buffer().unwrap().get_buffer(), None);
    assert_eq!(h.render(&big, host_state()).err(), Some(RenderError::BuffersNotReady));
    h.attach_vertex_buffer(0x777);
    let plan = h.render(&big, host_state()).unwrap();
    assert!(plan.work.contains(&Command::SetVertexBuffer {
        buffer: Some(0x777),
        stride: 20,
        offset: 0
    }));
    // The index buffer likewise.
    let lists = vec![DrawList { vtx_count: 1, idx_count: 10001, commands: vec![] }];
    let big = DrawData::new(width(), height(), lists).unwrap();
    assert_eq!(h.ensure_buffers(&big), (false, true));
    assert_eq!(h.get_index_buffer().unwrap().len(), 20001);
    assert_eq!(h.render(&big, host_state()).err(), Some(RenderError::BuffersNotReady));
    h.attach_index_buffer(0x888);
    assert!(h.render(&big, host_state()).is_ok());
    assert_eq!(h.ensure_buffers(&big), (false, false));
}

#[test]
fn the_plan_of_a_frame() {
    let h = hook();
    let plan = h.render(&frame(), host_state()).unwrap();
    let mut expected = vec![
        Command::SetRenderTargets { view: Some(RTV) },
        Command::MapBuffers,
        Command::UploadVertices { list: 0, offset: 0, count: 4 },
        Command::UploadIndices { list: 0, offset: 0, count: 6 },
        Command::UploadVertices { list: 1, offset: 4, count: 8 },
        Command::UploadIndices { list: 1, offset: 6, count: 12 },
        Command::UnmapBuffers,
        Command::UploadProjection { buffer: Some(CBUFFER) },
    ];
    expected.extend(setup());
    expected.extend(vec![
        Command::SetPixelShaderResource { view: Some(FONT_VIEW) },
        Command::SetScissorRect { rect: rect(1) },
        Command::DrawIndexed { index_count: 6, start_index: 0, base_vertex: 0 },
        Command::SetPixelShaderResource { view: Some(0x9000) },
        Command::SetScissorRect { rect: rect(2) },
        Command::DrawIndexed { index_count: 6, start_index: 6, base_vertex: 4 },
        Command::SetScissorRect { rect: rect(3) },
        Command::DrawIndexed { index_count: 6, start_index: 12, base_vertex: 4 },
    ]);
    assert_eq!(plan.work, expected);
    assert_eq!(plan.backup.as_ref().unwrap().state(), &host_state());
    assert_eq!(plan.restore.len(), 15);
    assert_eq!(plan.restore[0], Command::Restore { category: StateCategory::ScissorRects });
    assert_eq!(plan.restore[14], Command::Restore { category: StateCategory::InputLayout });
    let binds = plan
        .work
        .iter()
        .filter(|c| matches!(c, Command::SetPixelShaderResource { .. }))
        .count();
    // Once for the font atlas, once for the texture that two batches share.
    assert_eq!(binds, 2);
}

#[test]
fn control_batches_in_the_plan() {
    let h = hook();
    let lists = vec![DrawList {
        vtx_count: 3,
        idx_count: 3,
        commands: vec![
            DrawCmd::RawCallback,
            DrawCmd::ResetRenderState,
            DrawCmd::Elements { count: 3, clip_rect: rect(0), texture_id: FONT_TEX_ID },
        ],
    }];
    let data = DrawData::new(width(), height(), lists).unwrap();
    let plan = h.render(&data, host_state()).unwrap();
    let at = plan.work.iter().position(|c| matches!(c, Command::RawCallback { .. })).unwrap();
    assert_eq!(plan.work[at], Command::RawCallback { list: 0, command: 0 });
    assert_eq!(&plan.work[at + 1..at + 17], &setup()[..]);
    assert_eq!(plan.work[at + 17], Command::SetPixelShaderResource { view: Some(FONT_VIEW) });
    assert_eq!(plan.work[at + 18], Command::SetScissorRect { rect: rect(0) });
    assert_eq!(
        plan.work[at + 19],
        Command::DrawIndexed { index_count: 3, start_index: 0, base_vertex: 0 }
    );
    assert_eq!(plan.work.len(), at + 20);
    // The fixed state binds no texture.
    assert!(setup().iter().all(|c| !matches!(c, Command::SetPixelShaderResource { .. })));
}

#[test]
fn backup_then_restore_is_a_round_trip() {
    let saved = StateBackup::backup(host_state());
    assert_eq!(saved.state(), &host_state());
    let mut state = host_state();
    state.execute_all(&saved.restore(), saved.state());
    assert_eq!(state, host_state());
}

#[test]
fn restore_puts_every_category_back() {
    let saved = StateBackup::backup(host_state());
    // A context in which the overlay has changed whatever it could.
    let mut scrambled = PipelineState::unbound(4, 3, 2);
    scrambled.scissor_rects = vec![rect(9)];
    scrambled.ps_shader_resources = vec![Some(1), Some(2), Some(3), Some(4)];
    scrambled.primitive_topology = 4;
    scrambled.gs_instances = vec![None];
    let categories = [
        StateCategory::ScissorRects,
        StateCategory::Viewports,
        StateCategory::RasterizerState,
        StateCategory::BlendState,
        StateCategory::DepthStencilState,
        StateCategory::PixelShaderResources,
        StateCategory::PixelSamplers,
        StateCategory::PixelShader,
        StateCategory::VertexShader,
        StateCategory::VertexConstantBuffers,
        StateCategory::GeometryShader,
        StateCategory::PrimitiveTopology,
        StateCategory::IndexBuffer,
        StateCategory::VertexBuffer,
        StateCategory::InputLayout,
    ];
    let restore = saved.restore();
    assert_eq!(restore.len(), categories.len());
    for (command, category) in restore.iter().zip(categories.iter()) {
        assert_eq!(*command, Command::Restore { category: *category });
    }
    // One category alone changes that category and nothing else.
    let mut one = scrambled.clone();
    one.execute(Command::Restore { category: StateCategory::BlendState }, saved.state());
    let mut expected = scrambled.clone();
    expected.blend_state = Some(0xA2);
    expected.blend_factor = BlendFactor { r: 11, g: 12, b: 13, a: 14 };
    expected.sample_mask = 0x0F0F_0F0F;
    assert_eq!(one, expected);
    // All of them give the saved state.
    scrambled.execute_all(&restore, saved.state());
    assert_eq!(scrambled, host_state());
}

#[test]
fn the_host_state_survives_a_frame() {
    let h = hook();
    let plan = h.render(&frame(), host_state()).unwrap();
    let saved = plan.backup.as_ref().unwrap();
    let mut state = host_state();
    state.execute_all(&plan.work, saved.state());
    // The overlay has bound its own objects.
    assert_eq!(state.vertex_shader, Some(VS));
    assert_eq!(state.vs_instances, vec![]);
    assert_eq!(state.pixel_shader, Some(PS));
    assert_eq!(state.input_layout, Some(LAYOUT));
    assert_eq!(state.vertex_buffer, Some(VB));
    assert_eq!(state.index_buffer_format, FORMAT_R16_UINT);
    assert_eq!(state.primitive_topology, TOPOLOGY_TRIANGLE_LIST);
    assert_eq!(state.scissor_rects, vec![rect(3)]);
    assert_eq!(state.viewports.len(), 1);
    assert_eq!(state.ps_shader_resources, vec![Some(0x9000), None, Some(0xB3), Some(0xB4)]);
    assert_eq!(state.ps_samplers, vec![Some(SAMPLER), Some(0xC2), None]);
    assert_eq!(state.vs_constant_buffers, vec![Some(CBUFFER), Some(0xF2)]);
    assert_eq!(state.geometry_shader, None);
    assert_eq!(state.sample_mask, 0xFFFF_FFFF);
    assert_ne!(state, host_state());
    state.execute_all(&plan.restore, saved.state());
    assert_eq!(state, host_state());
}

#[test]
fn the_host_state_survives_a_frame_that_fails_on_the_way() {
    let h = hook();
    let plan = h.render(&frame(), host_state()).unwrap();
    let saved = plan.backup.as_ref().unwrap();
    for done in 0..=plan.work.len() {
        let mut state = host_state();
        state.execute_all(&plan.work[..done].to_vec(), saved.state());
        state.execute_all(&plan.restore, saved.state());
        assert_eq!(state, host_state(), "after {} commands", done);
    }
}

#[test]
fn commands_on_a_state() {
    let mut state = PipelineState::unbound(2, 0, 1);
    let saved = PipelineState::unbound(2, 0, 1);
    assert_eq!(state.ps_shader_resources, vec![None, None]);
    assert_eq!(state.ps_samplers, vec![]);
    state.execute(Command::SetPixelShaderResource { view: Some(5) }, &saved);
    assert_eq!(state.ps_shader_resources, vec![Some(5), None]);
    // There is no slot to bind a sampler to.
    state.execute(Command::SetPixelSampler { sampler: Some(6) }, &saved);
    assert_eq!(state.ps_samplers, vec![]);
    state.execute(Command::SetVertexConstantBuffer { buffer: Some(7) }, &saved);
    assert_eq!(state.vs_constant_buffers, vec![Some(7)]);
    // Commands that do not bind state leave it alone.
    let before = state.clone();
    state.execute(Command::SetRenderTargets { view: Some(1) }, &saved);
    state.execute(Command::SetHullShader { shader: Some(1) }, &saved);
    state.execute(Command::MapBuffers, &saved);
    state.execute(Command::UploadProjection { buffer: Some(1) }, &saved);
    state.execute(Command::DrawIndexed { index_count: 3, start_index: 0, base_vertex: 0 }, &saved);
    state.execute(Command::RawCallback { list: 0, command: 0 }, &saved);
    assert_eq!(state, before);
}

#[test]
fn resize_lets_the_view_go_and_takes_a_new_one() {
    let mut h = hook();
    h.invalidate_render_target_view();
    assert_eq!(h.get_render_target_view(), None);
    assert!(h.get_bindings().is_some());
    let plan = h.render(&frame(), host_state()).unwrap();
    assert_eq!(plan.work[0], Command::SetRenderTargets { view: None });
    h.create_render_target_view(Some(0x111));
    assert_eq!(h.get_render_target_view(), Some(0x111));
    let plan = h.render(&frame(), host_state()).unwrap();
    assert_eq!(plan.work[0], Command::SetRenderTargets { view: Some(0x111) });
    h.create_render_target_view(None);
    assert_eq!(h.get_render_target_view(), None);
}

#[test]
fn input_layout_covers_the_vertex() {
    let elements = VertexShader::input_elements();
    assert_eq!(elements.len(), 3);
    assert_eq!(elements[0].semantic_name, "POSITION");
    assert_eq!(elements[1].semantic_name, "TEXCOORD");
    assert_eq!(elements[2].semantic_name, "COLOR");
    assert_eq!(
        elements.iter().map(|e| (e.format, e.aligned_byte_offset)).collect::<Vec<_>>(),
        vec![(16, 0), (16, 8), (28, 16)]
    );
    let vs = VertexShader::new(Some(1), Some(2), Some(3));
    assert_eq!(vs.get_shader(), Some(1));
    assert_eq!(vs.get_input_layout(), Some(2));
    assert_eq!(vs.get_constant_buffer(), Some(3));
    assert_eq!(vs.get_constant_buffer_owned(), Some(3));
    let objects = DeviceObjects::new(Some(4), Some(5), Some(6));
    assert_eq!(objects.get_blend_state(), Some(4));
    assert_eq!(objects.get_rasterizer_state(), Some(5));
    assert_eq!(objects.get_depth_stencil_state(), Some(6));
}

#[test]
fn textures_are_registered_under_running_identifiers() {
    let mut h = bare_hook();
    assert_eq!(h.get_texture(0), None);
    assert_eq!(h.register_texture(0xA0), Some(0));
    assert_eq!(h.register_texture(0xA1), Some(1));
    assert_eq!(h.get_texture(0), Some(0xA0));
    assert_eq!(h.get_texture(1), Some(0xA1));
    assert_eq!(h.get_texture(2), None);
    assert_eq!(h.replace_texture(1, 0xB1), Some(0xA1));
    assert_eq!(h.get_texture(1), Some(0xB1));
    assert_eq!(h.replace_texture(7, 0xB7), None);
    assert_eq!(h.get_texture(7), Some(0xB7));
    assert_eq!(h.remove_texture(0), Some(0xA0));
    assert_eq!(h.remove_texture(0), None);
    assert_eq!(h.get_texture(0), None);
    // The count goes on where it was.
    assert_eq!(h.register_texture(0xA2), Some(2));
    assert_eq!(h.get_texture(2), Some(0xA2));
}

fn frame_with(textures: &[usize]) -> DrawData {
    let commands = textures
        .iter()
        .map(|t| DrawCmd::Elements { count: 3, clip_rect: rect(0), texture_id: *t })
        .collect();
    let lists = vec![DrawList { vtx_count: 3, idx_count: 9, commands }];
    DrawData::new(width(), height(), lists).unwrap()
}

#[test]
fn a_texture_that_is_not_registered_fails_the_frame() {
    let mut h = hook();
    assert_eq!(
        h.render(&frame_with(&[0, 5, 6]), host_state()).err(),
        Some(RenderError::TextureNotFound { texture_id: 5 })
    );
    assert_eq!(
        h.render(&frame_with(&[FONT_TEX_ID, 6, 0, 5]), host_state()).err(),
        Some(RenderError::TextureNotFound { texture_id: 6 })
    );
    // The address of a view is no identifier.
    assert_eq!(
        h.render(&frame_with(&[IMAGE]), host_state()).err(),
        Some(RenderError::TextureNotFound { texture_id: IMAGE })
    );
    // The renderer is as it was, and draws the next frame.
    let plan = h.render(&frame_with(&[0, FONT_TEX_ID, 0]), host_state()).unwrap();
    let views: Vec<Option<usize>> = plan
        .work
        .iter()
        .filter_map(|c| match c {
            Command::SetPixelShaderResource { view } => Some(*view),
            _ => None,
        })
        .collect();
    assert_eq!(views, vec![Some(IMAGE), Some(FONT_VIEW), Some(IMAGE)]);
    // Once the texture is taken out, its batches fail.
    assert_eq!(h.remove_texture(0), Some(IMAGE));
    assert_eq!(
        h.render(&frame_with(&[0]), host_state()).err(),
        Some(RenderError::TextureNotFound { texture_id: 0 })
    );
    assert!(h.render(&frame_with(&[FONT_TEX_ID]), host_state()).is_ok());
}

#[test]
fn an_unknown_texture_comes_after_missing_objects_and_buffers() {
    let mut io = Io::new();
    let blank = D3D11Hook::new_blank(&mut io);
    assert_eq!(
        blank.render(&frame_with(&[5]), host_state()).err(),
        Some(RenderError::DeviceObjectsMissing)
    );
    let mut h = bare_hook();
    let lists = vec![DrawList {
        vtx_count: 6000,
        idx_count: 3,
        commands: vec![DrawCmd::Elements { count: 3, clip_rect: rect(0), texture_id: 5 }],
    }];
    let big = DrawData::new(width(), height(), lists).unwrap();
    assert_eq!(h.render(&big, host_state()).err(), Some(RenderError::BuffersNotReady));
    h.ensure_buffers(&big);
    h.attach_vertex_buffer(0x700);
    assert_eq!(
        h.render(&big, host_state()).err(),
        Some(RenderError::TextureNotFound { texture_id: 5 })
    );
}

#[test]
fn two_batches_with_one_texture_bind_it_once() {
    let h = hook();
    for texture in [0, FONT_TEX_ID] {
        let plan = h.render(&frame_with(&[texture, texture]), host_state()).unwrap();
        let binds = plan
            .work
            .iter()
            .filter(|c| matches!(c, Command::SetPixelShaderResource { .. }))
            .count();
        let draws =
            plan.work.iter().filter(|c| matches!(c, Command::DrawIndexed { .. })).count();
        assert_eq!(binds, 1);
        assert_eq!(draws, 2);
    }
}

#[test]
fn a_frame_that_draws_nothing_binds_no_texture() {
    let h = hook();
    let plan = h.render(&frame_with(&[]), host_state()).unwrap();
    assert!(plan.work.iter().all(|c| !matches!(c, Command::SetPixelShaderResource { .. })));
}

#[test]
fn descriptions_of_the_state_objects() {
    let blend = DeviceObjects::blend_desc();
    assert!(blend.blend_enable && blend.independent_blend_enable && !blend.alpha_to_coverage_enable);
    assert_eq!((blend.src_blend, blend.dest_blend, blend.blend_op), (5, 6, 1));
    assert_eq!((blend.src_blend_alpha, blend.dest_blend_alpha, blend.blend_op_alpha), (2, 6, 1));
    assert_eq!(blend.render_target_write_mask, 15);
    let raster = DeviceObjects::rasterizer_desc();
    assert_eq!((raster.fill_mode, raster.cull_mode), (3, 1));
    assert!(raster.scissor_enable && raster.depth_clip_enable);
    assert!(!raster.front_counter_clockwise && !raster.multisample_enable);
    assert!(!raster.antialiased_line_enable);
    assert_eq!(raster.depth_bias, 0);
    assert_eq!(f32::from_bits(raster.depth_bias_clamp), 0.0);
    assert_eq!(f32::from_bits(raster.slope_scaled_depth_bias), 0.0);
    let depth = DeviceObjects::depth_stencil_desc();
    assert!(!depth.depth_enable && !depth.stencil_enable);
    assert_eq!((depth.depth_write_mask, depth.depth_func), (1, 8));
    assert_eq!((depth.stencil_read_mask, depth.stencil_write_mask), (0, 0));
    assert_eq!(
        (
            depth.face.stencil_fail_op,
            depth.face.stencil_depth_fail_op,
            depth.face.stencil_pass_op,
            depth.face.stencil_func
        ),
        (1, 1, 1, 8)
    );
}

#[test]
fn the_saved_state_hands_out_the_arguments_of_each_call() {
    let saved = StateBackup::backup(host_state());
    assert_eq!(
        saved.saved(StateCategory::ScissorRects),
        Binding::ScissorRects { rects: vec![rect(100), rect(200)] }
    );
    assert_eq!(
        saved.saved(StateCategory::BlendState),
        Binding::BlendState {
            state: Some(0xA2),
            factor: BlendFactor { r: 11, g: 12, b: 13, a: 14 },
            sample_mask: 0x0F0F_0F0F,
        }
    );
    assert_eq!(
        saved.saved(StateCategory::DepthStencilState),
        Binding::DepthStencilState { state: Some(0xA3), stencil_ref: 77 }
    );
    assert_eq!(
        saved.saved(StateCategory::PixelSamplers),
        Binding::PixelSamplers { samplers: vec![Some(0xC1), Some(0xC2), None] }
    );
    assert_eq!(
        saved.saved(StateCategory::PixelShader),
        Binding::PixelShader { shader: Some(0xD1), instances: vec![Some(0xD2), Some(0xD3)] }
    );
    assert_eq!(
        saved.saved(StateCategory::GeometryShader),
        Binding::GeometryShader {
            shader: Some(0x1A1),
            instances: vec![Some(0x1A2), None, Some(0x1A3)],
        }
    );
    assert_eq!(
        saved.saved(StateCategory::IndexBuffer),
        Binding::IndexBuffer { buffer: Some(0x1B1), format: 42, offset: 64 }
    );
    assert_eq!(
        saved.saved(StateCategory::VertexBuffer),
        Binding::VertexBuffer { buffer: Some(0x1C1), stride: 32, offset: 96 }
    );
    assert_eq!(
        saved.saved(StateCategory::InputLayout),
        Binding::InputLayout { layout: Some(0x1D1) }
    );
}

#[test]
fn binding_what_was_saved_is_what_a_restore_command_does() {
    let saved = StateBackup::backup(host_state());
    for category in StateBackup::capture_order() {
        let mut by_command = PipelineState::unbound(4, 3, 2);
        by_command.execute(Command::Restore { category }, saved.state());
        let mut by_call = PipelineState::unbound(4, 3, 2);
        by_call.bind(&saved.saved(category));
        assert_eq!(by_command, by_call);
        assert_ne!(by_call, PipelineState::unbound(4, 3, 2));
    }
}

#[test]
fn a_binding_reaches_no_further_than_the_slots_there_are() {
    let mut state = PipelineState::unbound(2, 1, 1);
    state.bind(&Binding::PixelShaderResources { views: vec![Some(1), Some(2), Some(3)] });
    assert_eq!(state.ps_shader_resources, vec![Some(1), Some(2)]);
    state.bind(&Binding::PixelShaderResources { views: vec![None] });
    assert_eq!(state.ps_shader_resources, vec![None, Some(2)]);
}
