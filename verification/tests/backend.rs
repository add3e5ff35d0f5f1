use riri_imgui_hook::backend::{
    add_allocator, add_gui_callback, hook_execute_command_lists, hook_present,
    hook_resize_buffers, hook_window_proc, register_gui_callback, remove_gui_callback, Backend,
    CommandQueueStore, FrameFailure, FramePlan, HookKind, HookRequest, HookStep, Renderer,
    WindowProcResult,
};
use riri_imgui_hook::d3d11_impl::context::{Command, PipelineState};
use riri_imgui_hook::d3d11_impl::devices::DeviceObjects;
use riri_imgui_hook::d3d11_impl::font::FontObjects;
use riri_imgui_hook::d3d11_impl::init::D3D11Init;
use riri_imgui_hook::d3d11_impl::shader::{PixelShader, VertexShader};
use riri_imgui_hook::d3d11_impl::state::{D3D11Hook, RenderError};
use riri_imgui_hook::d3d12_impl::init::D3D12Init;
use riri_imgui_hook::d3d12_impl::state::{D3D12Hook, FrameCommand, FrameError};
use riri_imgui_hook::draw_data::{DrawData, DrawList};
use riri_imgui_hook::hresult::InitError;
use riri_imgui_hook::registry::RendererType;
use riri_imgui_hook::types::Rect;
use riri_imgui_hook::win32_impl::events::{InputEvent, Io};
use riri_imgui_hook::win32_impl::input::{WM_LBUTTONDOWN, WM_MOUSEMOVE};
use riri_imgui_hook::win32_impl::state::Win32Impl;

fn d3d11(io: &mut Io) -> D3D11Hook {
    D3D11Hook::new(
        io,
        Some(0x100),
        VertexShader::new(Some(1), Some(2), Some(3)),
        PixelShader::new(Some(4)),
        DeviceObjects::new(Some(5), Some(6), Some(7)),
        FontObjects::new(Some(8), Some(9)),
        Some(10),
        Some(11),
    )
}

fn backend11() -> (Backend, Io) {
    let mut io = Io::new();
    let platform = Win32Impl::new(&mut io, 0x1000, 0x4242, 0);
    let renderer = d3d11(&mut io);
    (Backend::init_d3d11(platform, renderer), io)
}

fn backend12() -> (Backend, Io) {
    let mut io = Io::new();
    let platform = Win32Impl::new(&mut io, 0x1000, 0x4242, 0);
    let renderer =
        D3D12Hook::new(
            &mut io,
            &vec![0xB0, 0xB1],
            &vec![0xA0, 0xA1],
            0x1000,
            32,
            riri_imgui_hook::d3d12_impl::font::FontObjects::new(0xF1, 0xF2),
            Some(1),
            Some(2),
        )
        .unwrap();
    (Backend::init_d3d12(platform, renderer), io)
}

fn frame() -> DrawData {
    let lists = vec![DrawList { vtx_count: 3, idx_count: 3, commands: vec![] }];
    DrawData::new(1.0f32.to_bits(), 1.0f32.to_bits(), lists).unwrap()
}

fn originals(script: &[HookStep]) -> usize {
    script.iter().filter(|s| **s == HookStep::InvokeOriginal).count()
}

#[test]
fn first_presentation_makes_the_backend_and_presents() {
    let store = CommandQueueStore::new();
    let script = hook_present(false, RendererType::Direct3D11, &store);
    assert_eq!(script, vec![HookStep::InitDirect3D11, HookStep::InvokeOriginal]);
    assert_eq!(originals(&script), 1);
}

#[test]
fn later_presentations_tick_and_present() {
    let store = CommandQueueStore::new();
    for renderer in [RendererType::Direct3D11, RendererType::Direct3D12] {
        let script = hook_present(true, renderer, &store);
        assert_eq!(script, vec![HookStep::Tick, HookStep::InvokeOriginal]);
        assert_eq!(originals(&script), 1);
    }
}

#[test]
fn the_frame_ring_backend_waits_for_a_command_queue() {
    let mut store = CommandQueueStore::new();
    let script = hook_present(false, RendererType::Direct3D12, &store);
    assert_eq!(script, vec![HookStep::InvokeOriginal]);
    store.set(0xC0DE);
    let script = hook_present(false, RendererType::Direct3D12, &store);
    assert_eq!(
        script,
        vec![HookStep::InitDirect3D12 { command_queue: 0xC0DE }, HookStep::InvokeOriginal]
    );
    assert_eq!(originals(&script), 1);
}

#[test]
fn the_command_queue_is_stored_once() {
    let mut store = CommandQueueStore::new();
    assert_eq!(store.try_get(), None);
    // A submission before any presentation.
    let script = hook_execute_command_lists(&store, 0xAAA0);
    assert_eq!(
        script,
        vec![HookStep::StoreCommandQueue { command_queue: 0xAAA0 }, HookStep::InvokeOriginal]
    );
    let mut stores = 0;
    for step in &script {
        if let HookStep::StoreCommandQueue { command_queue } = step {
            store.set(*command_queue);
            stores += 1;
        }
    }
    assert_eq!(store.try_get(), Some(0xAAA0));
    // Storing another queue changes nothing: the slot keeps the first.
    store.set(0xCCC0);
    assert_eq!(store.try_get(), Some(0xAAA0));
    // A second submission, on another queue, does not overwrite it.
    let script = hook_execute_command_lists(&store, 0xBBB0);
    assert_eq!(script, vec![HookStep::InvokeOriginal]);
    for step in &script {
        if let HookStep::StoreCommandQueue { command_queue } = step {
            store.set(*command_queue);
            stores += 1;
        }
    }
    assert_eq!(stores, 1);
    assert_eq!(store.try_get(), Some(0xAAA0));
}

#[test]
fn a_null_command_queue_is_not_stored() {
    let store = CommandQueueStore::new();
    assert_eq!(hook_execute_command_lists(&store, 0), vec![HookStep::InvokeOriginal]);
}

#[test]
fn resize_invalidates_before_and_recreates_after_the_original() {
    let script = hook_resize_buffers(true);
    assert_eq!(
        script,
        vec![
            HookStep::InvalidateRenderTarget,
            HookStep::InvokeOriginal,
            HookStep::RecreateRenderTarget
        ]
    );
    assert_eq!(hook_resize_buffers(false), vec![HookStep::InvokeOriginal]);
    // Run the script on a renderer and record what the host's own resize would see.
    let (mut backend, _io) = backend11();
    let mut log = vec![];
    for step in &script {
        match step {
            HookStep::InvalidateRenderTarget => {
                backend.invalidate_render_target_view();
                log.push("invalidate");
            }
            HookStep::InvokeOriginal => {
                match backend.get_renderer() {
                    Renderer::Direct3D11(r) => assert_eq!(r.get_render_target_view(), None),
                    Renderer::Direct3D12(_) => panic!("another renderer"),
                }
                log.push("original");
            }
            HookStep::RecreateRenderTarget => {
                assert!(backend.create_render_target_view(&vec![0x222]));
                log.push("recreate");
            }
            _ => panic!("not a step of a resize"),
        }
    }
    assert_eq!(log, vec!["invalidate", "original", "recreate"]);
    match backend.get_renderer() {
        Renderer::Direct3D11(r) => assert_eq!(r.get_render_target_view(), Some(0x222)),
        Renderer::Direct3D12(_) => panic!("another renderer"),
    }
}

#[test]
fn resize_of_the_frame_ring() {
    let (mut backend, _io) = backend12();
    assert_eq!(backend.get_renderer().get_kind(), RendererType::Direct3D12);
    backend.invalidate_render_target_view();
    match backend.get_renderer() {
        Renderer::Direct3D12(r) => {
            assert_eq!(r.get_frame(0).unwrap().resrc, None);
            assert_eq!(r.get_frame(1).unwrap().resrc, None);
        }
        Renderer::Direct3D11(_) => panic!("another renderer"),
    }
    assert!(!backend.create_render_target_view(&vec![1]));
    assert!(backend.create_render_target_view(&vec![0xD0, 0xD1]));
    match backend.get_renderer() {
        Renderer::Direct3D12(r) => {
            assert_eq!(r.get_frame(0).unwrap().resrc, Some(0xD0));
            assert_eq!(r.get_frame(1).unwrap().resrc, Some(0xD1));
        }
        Renderer::Direct3D11(_) => panic!("another renderer"),
    }
}

#[test]
fn recreation_without_a_view_leaves_the_renderer_without_one() {
    let (mut backend, _io) = backend11();
    assert!(!backend.create_render_target_view(&vec![]));
    match backend.get_renderer() {
        Renderer::Direct3D11(r) => assert_eq!(r.get_render_target_view(), None),
        Renderer::Direct3D12(_) => panic!("another renderer"),
    }
}

#[test]
fn the_renderer_of_the_backend_renders() {
    let (mut backend, _io) = backend11();
    assert_eq!(backend.get_renderer().get_kind(), RendererType::Direct3D11);
    match backend.render(&frame(), PipelineState::unbound(1, 1, 1), 0) {
        Ok(FramePlan::Direct3D11(plan)) => {
            assert_eq!(plan.work[0], Command::SetRenderTargets { view: Some(0x100) });
            assert_eq!(plan.restore.len(), 15);
        }
        _ => panic!("the frame can be drawn"),
    }
    let lists = vec![DrawList { vtx_count: 6000, idx_count: 3, commands: vec![] }];
    let big = DrawData::new(1.0f32.to_bits(), 1.0f32.to_bits(), lists).unwrap();
    match backend.render(&big, PipelineState::unbound(1, 1, 1), 0) {
        Err(e) => assert_eq!(e, FrameFailure::Direct3D11(RenderError::BuffersNotReady)),
        Ok(_) => panic!("the vertex buffer is too small"),
    }
    let (mut backend, _io) = backend12();
    match backend.render(&frame(), PipelineState::unbound(0, 0, 0), 0) {
        Ok(FramePlan::Direct3D12(commands)) => {
            assert_eq!(commands[0], FrameCommand::ResetAllocator { frame: 1 });
            assert_eq!(*commands.last().unwrap(), FrameCommand::Signal { value: 1 });
        }
        _ => panic!("the frame can be recorded"),
    }
    backend.render(&frame(), PipelineState::unbound(0, 0, 0), 0).unwrap();
    match backend.render(&frame(), PipelineState::unbound(0, 0, 0), 0) {
        Err(e) => assert_eq!(e, FrameFailure::Direct3D12(FrameError::FrameInFlight)),
        Ok(_) => panic!("the next frame is in flight"),
    }
}

#[test]
fn callbacks_are_a_set_and_each_is_called_once() {
    let (mut backend, mut io) = backend11();
    assert!(!backend.has_callback(0x10));
    backend.add_callback(0x10);
    backend.add_callback(0x20);
    backend.add_callback(0x10);
    backend.add_callback(0x30);
    assert!(backend.has_callback(0x10));
    let client = Rect { left: 0, top: 0, right: 10, bottom: 10 };
    let mut plan = backend.tick(&mut io, client, 5, 0, None);
    plan.callbacks.sort();
    assert_eq!(plan.callbacks, vec![0x10, 0x20, 0x30]);
    backend.remove_callback(0x20);
    backend.remove_callback(0x99);
    remove_gui_callback(&mut backend, 0x10);
    assert!(!backend.has_callback(0x10));
    assert!(!backend.has_callback(0x20));
    assert!(backend.has_callback(0x30));
    let plan = backend.tick(&mut io, client, 6, 0, None);
    assert_eq!(plan.callbacks, vec![0x30]);
}

#[test]
fn a_callback_taken_out_can_be_registered_again() {
    let (mut backend, mut io) = backend11();
    backend.add_callback(0x10);
    backend.remove_callback(0x10);
    let client = Rect { left: 0, top: 0, right: 10, bottom: 10 };
    let plan = backend.tick(&mut io, client, 5, 0, None);
    assert_eq!(plan.callbacks, vec![]);
    backend.add_callback(0x10);
    let plan = backend.tick(&mut io, client, 6, 0, None);
    assert_eq!(plan.callbacks, vec![0x10]);
}

#[test]
fn allocator_callbacks_are_called_once_last_first() {
    let (mut backend, mut io) = backend11();
    add_allocator(&mut backend, 0xA1);
    add_allocator(&mut backend, 0xA2);
    backend.add_allocator_callback(0xA1);
    backend.add_callback(0x10);
    let client = Rect { left: 0, top: 0, right: 10, bottom: 10 };
    let plan = backend.tick(&mut io, client, 5, 0, None);
    assert_eq!(plan.allocator_callbacks, vec![0xA1, 0xA2, 0xA1]);
    assert_eq!(plan.callbacks, vec![0x10]);
    let plan = backend.tick(&mut io, client, 6, 0, None);
    assert_eq!(plan.allocator_callbacks, vec![]);
    assert_eq!(plan.callbacks, vec![0x10]);
}

#[test]
fn tick_begins_the_frame_of_the_platform_layer() {
    let (mut backend, mut io) = backend11();
    let client = Rect { left: 0, top: 0, right: 800, bottom: 600 };
    backend.tick(&mut io, client, 1_000, 0x1000, Some((3, 4)));
    assert_eq!(io.display_size, (800, 600));
    assert_eq!(io.delta_time, 1_000);
    assert_eq!(io.events, vec![InputEvent::MousePos { x: 3, y: 4, screen: false }]);
    backend.tick(&mut io, client, 1_500, 0x9999, Some((3, 4)));
    assert_eq!(io.delta_time, 500);
    assert_eq!(io.events.len(), 1);
}

#[test]
fn callbacks_of_another_version_are_refused() {
    let (mut backend, _io) = backend11();
    assert!(!register_gui_callback(&mut backend, 0x10, "1.89.1", "1.89.2"));
    assert!(!backend.has_callback(0x10));
    assert!(!register_gui_callback(&mut backend, 0x10, "", "1.89.2"));
    assert!(!register_gui_callback(&mut backend, 0x10, "1.89.2 ", "1.89.2"));
    assert!(register_gui_callback(&mut backend, 0x10, "1.89.2", "1.89.2"));
    assert!(backend.has_callback(0x10));
}

#[test]
fn callbacks_are_checked_against_the_linked_gui_library() {
    let (mut backend, _io) = backend11();
    let version = imgui::dear_imgui_version();
    assert!(!version.is_empty());
    let other = format!("{}-other", version);
    assert!(!add_gui_callback(&mut backend, 0x10, &other));
    assert!(!add_gui_callback(&mut backend, 0x10, ""));
    assert!(!backend.has_callback(0x10));
    assert!(add_gui_callback(&mut backend, 0x10, version));
    assert!(backend.has_callback(0x10));
}

#[test]
fn window_messages_go_to_the_platform_layer() {
    let (mut backend, mut io) = backend11();
    assert_eq!(
        hook_window_proc(Some(&mut backend), &mut io, WM_LBUTTONDOWN, 0, 0, true),
        WindowProcResult::InvokeOriginal
    );
    io.want_capture_mouse = true;
    assert_eq!(
        hook_window_proc(Some(&mut backend), &mut io, WM_LBUTTONDOWN, 0, 0, true),
        WindowProcResult::Handled { result: 0 }
    );
    assert_eq!(
        hook_window_proc(Some(&mut backend), &mut io, WM_MOUSEMOVE, 0, 0, true),
        WindowProcResult::InvokeOriginal
    );
    assert_eq!(io.events.len(), 3);
    // Without a backend every message goes on, and nothing is queued.
    let mut fresh = Io::new();
    fresh.want_capture_mouse = true;
    assert_eq!(
        hook_window_proc(None, &mut fresh, WM_LBUTTONDOWN, 0, 0, true),
        WindowProcResult::InvokeOriginal
    );
    assert!(fresh.events.is_empty());
}

#[test]
fn the_backend_keeps_the_first_half_of_a_surrogate_pair() {
    let (mut backend, _io) = backend11();
    // The input state is made anew for every message, as the embedding
    // program does; the half that was seen stays with the backend.
    let mut io = Io::new();
    hook_window_proc(Some(&mut backend), &mut io, 0x0102, 0xD83D, 0, true);
    assert!(io.events.is_empty());
    let mut io = Io::new();
    hook_window_proc(Some(&mut backend), &mut io, 0x0102, 0xDE00, 0, true);
    assert_eq!(io.events, vec![InputEvent::Character { c: '\u{1F600}' }]);
}

#[test]
fn hooks_for_each_runtime() {
    let init = D3D11Init::new(0, 0xB000, Some(0x5C), 0x7000, 0x7100);
    assert_eq!(
        Backend::make_hooks_d3d11(&init),
        vec![
            HookRequest { target: 0x7000, kind: HookKind::Present, resolve_thunk: true },
            HookRequest { target: 0x7100, kind: HookKind::ResizeBuffers, resolve_thunk: true },
        ]
    );
    assert_eq!(Backend::make_hooks_d3d11(&Err(InitError::fail())), vec![]);
    let init = Ok(D3D12Init::new(0x8000, 0x8100, 0x8200));
    assert_eq!(
        Backend::make_hooks_d3d12(&init),
        vec![
            HookRequest { target: 0x8000, kind: HookKind::Present, resolve_thunk: false },
            HookRequest { target: 0x8100, kind: HookKind::ResizeBuffers, resolve_thunk: false },
            HookRequest {
                target: 0x8200,
                kind: HookKind::ExecuteCommandLists,
                resolve_thunk: false
            },
        ]
    );
    assert_eq!(Backend::make_hooks_d3d12(&Err(InitError::not_found())), vec![]);
    let (backend, _io) = backend11();
    assert_eq!(
        backend.window_hook(),
        HookRequest { target: 0x4242, kind: HookKind::WindowProc, resolve_thunk: false }
    );
    assert_eq!(backend.get_platform().get_hwnd(), 0x1000);
}

#[test]
fn textures_are_registered_through_the_backend() {
    let (mut backend, _io) = backend11();
    assert_eq!(backend.register_texture(0xAB), Some(0));
    assert_eq!(backend.register_texture(0xCD), Some(1));
    match backend.get_renderer() {
        Renderer::Direct3D11(r) => {
            assert_eq!(r.get_texture(0), Some(0xAB));
            assert_eq!(r.get_texture(1), Some(0xCD));
        }
        Renderer::Direct3D12(_) => panic!("another renderer"),
    }
    assert_eq!(backend.remove_texture(0), Some(0xAB));
    assert_eq!(backend.remove_texture(0), None);
    // The frame-ring renderer draws with descriptors and registers nothing.
    let (mut backend, _io) = backend12();
    assert_eq!(backend.register_texture(0xAB), None);
    assert_eq!(backend.remove_texture(0), None);
    assert_eq!(backend.get_renderer().get_kind(), RendererType::Direct3D12);
}

#[test]
fn buffers_grow_through_the_backend() {
    let (mut backend, _io) = backend11();
    let lists = vec![DrawList { vtx_count: 6000, idx_count: 3, commands: vec![] }];
    let big = DrawData::new(1.0f32.to_bits(), 1.0f32.to_bits(), lists).unwrap();
    assert_eq!(backend.ensure_buffers(&big), (true, false));
    backend.attach_vertex_buffer(0x321);
    match backend.get_renderer() {
        Renderer::Direct3D11(r) => {
            assert_eq!(r.get_vertex_buffer().unwrap().len(), 11000);
            assert_eq!(r.get_vertex_buffer().unwrap().get_buffer(), Some(0x321));
        }
        Renderer::Direct3D12(_) => panic!("another renderer"),
    }
    assert!(backend.render(&big, PipelineState::unbound(1, 1, 1), 0).is_ok());
    let (mut backend, _io) = backend12();
    assert_eq!(backend.ensure_buffers(&big), (false, false));
    backend.attach_index_buffer(0x55);
    match backend.get_renderer() {
        Renderer::Direct3D12(r) => assert_eq!(r.get_index_buffer().get_resource(), Some(0x55)),
        Renderer::Direct3D11(_) => panic!("another renderer"),
    }
}
