use riri_imgui_hook::d3d12_impl::font::FontObjects;
use riri_imgui_hook::d3d12_impl::state::{
    D3D12Hook, FrameCommand, FrameContext, FrameError, ResourceState, RENDERER_NAME,
};
use riri_imgui_hook::draw_data::{DrawCmd, DrawData, DrawList};
use riri_imgui_hook::types::{Rect, Viewport};
use riri_imgui_hook::win32_impl::events::{Io, RENDERER_HAS_VTX_OFFSET};

const ALLOC: usize = 0xA1100;
const FONT: usize = 0xF047;

fn allocators(frames: usize) -> Vec<usize> {
    (0..frames).map(|i| ALLOC + i).collect()
}

fn font() -> FontObjects {
    FontObjects::new(0xF1, 0xF2)
}

fn hook(frames: usize) -> D3D12Hook {
    let mut io = Io::new();
    let back_buffers: Vec<usize> = (0..frames).map(|i| 0xB000 + i).collect();
    D3D12Hook::new(
        &mut io,
        &back_buffers,
        &allocators(frames),
        0x1000,
        32,
        font(),
        Some(0x51),
        Some(0x52),
    )
    .unwrap()
}

fn rect(n: i32) -> Rect {
    Rect { left: n, top: n, right: n + 10, bottom: n + 20 }
}

fn width() -> u32 {
    640.0f32.to_bits()
}

fn height() -> u32 {
    480.0f32.to_bits()
}

fn frame() -> DrawData {
    let lists = vec![DrawList {
        vtx_count: 4,
        idx_count: 6,
        commands: vec![
            DrawCmd::Elements { count: 3, clip_rect: rect(1), texture_id: FONT },
            DrawCmd::Elements { count: 3, clip_rect: rect(2), texture_id: 0x77 },
        ],
    }];
    DrawData::new(width(), height(), lists).unwrap()
}

fn setup() -> Vec<FrameCommand> {
    vec![
        FrameCommand::SetViewport {
            viewport: Viewport {
                top_left_x: 0,
                top_left_y: 0,
                width: width(),
                height: height(),
                min_depth: 0,
                max_depth: 1.0f32.to_bits(),
            },
        },
        FrameCommand::SetBuffers,
        FrameCommand::SetPipeline,
        FrameCommand::SetProjection,
    ]
}

#[test]
fn a_new_ring_has_a_frame_for_each_back_buffer() {
    let mut io = Io::new();
    let h = D3D12Hook::new(&mut io, &vec![0xB0, 0xB1, 0xB2], &allocators(3), 0x1000, 32, font(), None, None)
        .unwrap();
    assert_eq!(io.backend_flags, RENDERER_HAS_VTX_OFFSET);
    assert_eq!(RENDERER_NAME, "riri-imgui-hook-d3d12");
    assert!(h.is_sound());
    assert_eq!(h.frame_count(), 3);
    assert_eq!(h.get_frame_index(), 0);
    for i in 0..3 {
        assert_eq!(
            h.get_frame(i),
            Some(FrameContext {
                alloc: Some(ALLOC + i),
                resrc: Some(0xB0 + i),
                desc_handle: 0x1000 + 32 * i,
                fence: 0
            })
        );
    }
    assert_eq!(h.get_frame(3), None);
    assert_eq!(h.get_vertex_buffer().len(), 5000);
    assert_eq!(h.get_vertex_buffer().get_resource(), None);
    assert_eq!(h.get_index_buffer().len(), 10000);
    assert_eq!(
        FrameContext::default(),
        FrameContext { alloc: None, resrc: None, desc_handle: 0, fence: 0 }
    );
}

#[test]
fn no_ring_without_back_buffers_or_beyond_the_address_space() {
    let mut io = Io::new();
    assert!(D3D12Hook::new(&mut io, &vec![], &vec![], 0x1000, 32, font(), None, None).is_none());
    assert_eq!(io.backend_flags, 0);
    assert!(D3D12Hook::new(&mut io, &vec![1, 2], &allocators(2), usize::MAX - 31, 32, font(), None, None)
        .is_none());
    assert_eq!(io.backend_flags, 0);
    let edge =
        D3D12Hook::new(&mut io, &vec![1, 2], &allocators(2), usize::MAX - 32, 32, font(), None, None)
            .unwrap();
    assert_eq!(edge.get_frame(1).unwrap().desc_handle, usize::MAX);
    let single =
        D3D12Hook::new(&mut io, &vec![1], &allocators(1), usize::MAX, u32::MAX, font(), None, None)
            .unwrap();
    assert_eq!(single.get_frame(0).unwrap().desc_handle, usize::MAX);
}

#[test]
fn the_ring_index_advances_modulo_its_length() {
    for len in 1..5usize {
        let mut h = hook(len);
        let mut index = 0;
        for round in 0..(3 * len as u64) {
            // The fence has always reached what was signalled: the GPU keeps up.
            let commands = h.render(&frame(), round).unwrap();
            let next = (index + 1) % len;
            assert_eq!(h.get_frame_index(), next);
            assert_eq!(commands[0], FrameCommand::ResetAllocator { frame: next });
            assert_eq!(h.get_frame(next).unwrap().fence, round + 1);
            index = next;
        }
    }
}

#[test]
fn a_frame_in_flight_is_not_selected() {
    let mut h = hook(2);
    // Frames are submitted with the fence values 1, 2, ... while the fence
    // stays at 0: the GPU has finished nothing.
    assert!(h.render(&frame(), 0).is_ok());
    assert_eq!(h.get_frame_index(), 1);
    assert!(h.render(&frame(), 0).is_ok());
    assert_eq!(h.get_frame_index(), 0);
    // The next frame is frame 1, which waits for fence value 1.
    assert!(!h.next_frame_retired(0));
    assert_eq!(h.render(&frame(), 0).err(), Some(FrameError::FrameInFlight));
    assert_eq!(h.get_frame_index(), 0);
    assert_eq!(h.get_frame(1).unwrap().fence, 1);
    assert_eq!(h.get_frame(0).unwrap().fence, 2);
    // Once the fence reaches 1, frame 1 is free again.
    assert!(h.next_frame_retired(1));
    let commands = h.render(&frame(), 1).unwrap();
    assert_eq!(h.get_frame_index(), 1);
    assert_eq!(*commands.last().unwrap(), FrameCommand::Signal { value: 3 });
    assert_eq!(h.get_frame(1).unwrap().fence, 3);
    // Frame 0 waits for 2.
    assert_eq!(h.render(&frame(), 1).err(), Some(FrameError::FrameInFlight));
    assert!(h.render(&frame(), 2).is_ok());
}

#[test]
fn an_empty_display_records_nothing() {
    let mut h = hook(3);
    let data = DrawData::new(0, 0, vec![DrawList { vtx_count: 9999, idx_count: 3, commands: vec![] }])
        .unwrap();
    assert_eq!(h.render(&data, 0), Ok(vec![]));
    assert_eq!(h.get_frame_index(), 0);
    assert_eq!(h.get_vertex_buffer().len(), 5000);
    assert_eq!(h.get_frame(1).unwrap().fence, 0);
}

#[test]
fn the_commands_of_a_frame() {
    let mut h = hook(3);
    let commands = h.render(&frame(), 0).unwrap();
    let mut expected = vec![
        FrameCommand::ResetAllocator { frame: 1 },
        FrameCommand::ResetCommandList { frame: 1 },
        FrameCommand::Transition {
            frame: 1,
            before: ResourceState::Present,
            after: ResourceState::RenderTarget,
        },
        FrameCommand::SetRenderTarget { frame: 1, descriptor: 0x1020 },
        FrameCommand::SetDescriptorHeaps,
        FrameCommand::MapBuffers,
        FrameCommand::UploadVertices { list: 0, offset: 0, count: 4 },
        FrameCommand::UploadIndices { list: 0, offset: 0, count: 6 },
        FrameCommand::UnmapBuffers,
    ];
    expected.extend(setup());
    expected.extend(vec![
        FrameCommand::BindTexture { texture_id: FONT },
        FrameCommand::SetScissorRect { rect: rect(1) },
        FrameCommand::DrawIndexed { index_count: 3, start_index: 0, base_vertex: 0 },
        FrameCommand::BindTexture { texture_id: 0x77 },
        FrameCommand::SetScissorRect { rect: rect(2) },
        FrameCommand::DrawIndexed { index_count: 3, start_index: 3, base_vertex: 0 },
        FrameCommand::Transition {
            frame: 1,
            before: ResourceState::RenderTarget,
            after: ResourceState::Present,
        },
        FrameCommand::Close,
        FrameCommand::Execute,
        FrameCommand::Signal { value: 1 },
    ]);
    assert_eq!(commands, expected);
}

#[test]
fn buffers_without_a_resource_are_created_in_the_frame() {
    let mut io = Io::new();
    let mut h =
        D3D12Hook::new(&mut io, &vec![1, 2], &allocators(2), 0x1000, 32, font(), None, Some(0x52))
            .unwrap();
    let lists = vec![DrawList { vtx_count: 10, idx_count: 10001, commands: vec![] }];
    let data = DrawData::new(width(), height(), lists).unwrap();
    let commands = h.render(&data, 0).unwrap();
    // The vertex buffer never had a resource; the index buffer has grown.
    assert_eq!(commands[5], FrameCommand::CreateVertexBuffer { capacity: 5000 });
    assert_eq!(commands[6], FrameCommand::CreateIndexBuffer { capacity: 20001 });
    assert_eq!(commands[7], FrameCommand::MapBuffers);
    assert_eq!(h.get_index_buffer().get_resource(), None);
    h.attach_vertex_buffer(0x61);
    h.attach_index_buffer(0x62);
    assert_eq!(h.get_vertex_buffer().get_resource(), Some(0x61));
    assert_eq!(h.get_index_buffer().get_resource(), Some(0x62));
    assert_eq!(h.get_index_buffer().len(), 20001);
    let commands = h.render(&data, 1).unwrap();
    assert_eq!(commands[5], FrameCommand::MapBuffers);
}

#[test]
fn the_steps_of_a_frame_one_by_one() {
    let h = hook(2);
    assert_eq!(
        h.prepare(),
        vec![
            FrameCommand::ResetAllocator { frame: 0 },
            FrameCommand::ResetCommandList { frame: 0 },
            FrameCommand::Transition {
                frame: 0,
                before: ResourceState::Present,
                after: ResourceState::RenderTarget,
            },
            FrameCommand::SetRenderTarget { frame: 0, descriptor: 0x1000 },
            FrameCommand::SetDescriptorHeaps,
        ]
    );
    assert_eq!(
        h.upload_buffer_data(&frame()),
        vec![
            FrameCommand::MapBuffers,
            FrameCommand::UploadVertices { list: 0, offset: 0, count: 4 },
            FrameCommand::UploadIndices { list: 0, offset: 0, count: 6 },
            FrameCommand::UnmapBuffers,
        ]
    );
    assert_eq!(h.setup_render_state(&frame()), setup());
}

#[test]
fn resize_lets_the_back_buffers_go_and_takes_new_ones() {
    let mut h = hook(3);
    h.render(&frame(), 0).unwrap();
    h.invalidate_device_objects();
    for i in 0..3 {
        assert_eq!(h.get_frame(i).unwrap().resrc, None);
        assert_eq!(h.get_frame(i).unwrap().alloc, Some(ALLOC + i));
        assert_eq!(h.get_frame(i).unwrap().desc_handle, 0x1000 + 32 * i);
    }
    assert_eq!(h.get_frame(1).unwrap().fence, 1);
    assert_eq!(h.get_frame_index(), 1);
    // As many back buffers as there are frames.
    assert!(!h.create_device_objects(&vec![1, 2]));
    assert_eq!(h.get_frame(0).unwrap().resrc, None);
    assert!(h.create_device_objects(&vec![0xC0, 0xC1, 0xC2]));
    for i in 0..3 {
        assert_eq!(h.get_frame(i).unwrap().resrc, Some(0xC0 + i));
    }
    assert_eq!(h.get_frame(1).unwrap().fence, 1);
    assert!(h.is_sound());
}

#[test]
fn every_frame_has_an_allocator_of_its_own() {
    let mut io = Io::new();
    // One allocator for each back buffer.
    assert!(D3D12Hook::new(&mut io, &vec![1, 2], &vec![7], 0, 32, font(), None, None).is_none());
    assert!(
        D3D12Hook::new(&mut io, &vec![1, 2], &vec![7, 8, 9], 0, 32, font(), None, None).is_none()
    );
    assert!(D3D12Hook::new(&mut io, &vec![1], &vec![], 0, 32, font(), None, None).is_none());
    // No allocator twice.
    assert!(D3D12Hook::new(&mut io, &vec![1, 2], &vec![7, 7], 0, 32, font(), None, None).is_none());
    assert!(
        D3D12Hook::new(&mut io, &vec![1, 2, 3], &vec![7, 8, 7], 0, 32, font(), None, None).is_none()
    );
    assert_eq!(io.backend_flags, 0);
    let h = D3D12Hook::new(&mut io, &vec![1, 2, 3], &vec![7, 8, 9], 0, 32, font(), None, None)
        .unwrap();
    assert!(h.is_sound());
    assert_eq!(h.get_font_objects(), font());
    let held: Vec<Option<usize>> = (0..3).map(|i| h.get_frame(i).unwrap().alloc).collect();
    assert_eq!(held, vec![Some(7), Some(8), Some(9)]);
}

#[test]
fn a_reset_reaches_no_allocator_in_flight() {
    // The fence stands at 0 while two frames are recorded: the GPU has
    // finished nothing.
    let mut h = hook(2);
    let first = h.render(&frame(), 0).unwrap();
    let second = h.render(&frame(), 0).unwrap();
    assert_eq!(first[0], FrameCommand::ResetAllocator { frame: 1 });
    assert_eq!(second[0], FrameCommand::ResetAllocator { frame: 0 });
    // Frame 1 waits for the fence; the allocator that the second call resets
    // is that of frame 0, with which nothing was submitted before.
    assert_eq!(h.get_frame(1).unwrap().fence, 1);
    assert_ne!(h.get_frame(0).unwrap().alloc, h.get_frame(1).unwrap().alloc);
    // No further frame is recorded until the GPU has caught up.
    assert_eq!(h.render(&frame(), 0).err(), Some(FrameError::FrameInFlight));
}

#[test]
fn two_batches_with_one_texture_record_one_binding() {
    for texture in [FONT, 0x77] {
        let mut h = hook(2);
        let lists = vec![DrawList {
            vtx_count: 4,
            idx_count: 6,
            commands: vec![
                DrawCmd::Elements { count: 3, clip_rect: rect(1), texture_id: texture },
                DrawCmd::Elements { count: 3, clip_rect: rect(2), texture_id: texture },
            ],
        }];
        let data = DrawData::new(width(), height(), lists).unwrap();
        let commands = h.render(&data, 0).unwrap();
        let binds =
            commands.iter().filter(|c| matches!(c, FrameCommand::BindTexture { .. })).count();
        let draws =
            commands.iter().filter(|c| matches!(c, FrameCommand::DrawIndexed { .. })).count();
        assert_eq!(binds, 1);
        assert_eq!(draws, 2);
    }
}
