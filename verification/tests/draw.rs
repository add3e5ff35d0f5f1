use riri_imgui_hook::draw_data::{DrawCmd, DrawData, DrawList, DrawOp, MAX_COUNT};
use riri_imgui_hook::types::{is_non_positive, Rect};

const FONT: usize = usize::MAX;

fn rect(n: i32) -> Rect {
    Rect { left: n, top: n + 1, right: n + 2, bottom: n + 3 }
}

fn elements(count: usize, clip: i32, texture_id: usize) -> DrawCmd {
    DrawCmd::Elements { count, clip_rect: rect(clip), texture_id }
}

fn one() -> u32 {
    1.0f32.to_bits()
}

#[test]
fn totals_are_the_sums_of_the_lists() {
    let lists = vec![
        DrawList { vtx_count: 4, idx_count: 9, commands: vec![elements(6, 0, FONT)] },
        DrawList { vtx_count: 8, idx_count: 15, commands: vec![] },
    ];
    let data = DrawData::new(one(), one(), lists).unwrap();
    assert_eq!(data.total_vtx_count(), 12);
    assert_eq!(data.total_idx_count(), 24);
    assert_eq!(data.draw_lists().len(), 2);
    assert_eq!(data.display_size(), (one(), one()));
}

#[test]
fn frames_beyond_the_limit_are_refused() {
    assert_eq!(MAX_COUNT, 0x7FFF_FFFF);
    let fits = vec![DrawList { vtx_count: MAX_COUNT, idx_count: MAX_COUNT, commands: vec![] }];
    assert!(DrawData::new(one(), one(), fits).is_some());
    let vertices = vec![
        DrawList { vtx_count: MAX_COUNT, idx_count: 0, commands: vec![] },
        DrawList { vtx_count: 1, idx_count: 0, commands: vec![] },
    ];
    assert!(DrawData::new(one(), one(), vertices).is_none());
    let indices = vec![DrawList { vtx_count: 0, idx_count: MAX_COUNT + 1, commands: vec![] }];
    assert!(DrawData::new(one(), one(), indices).is_none());
    let drawn = vec![
        DrawList { vtx_count: 0, idx_count: 0, commands: vec![elements(MAX_COUNT, 0, 1)] },
        DrawList {
            vtx_count: 0,
            idx_count: 0,
            commands: vec![DrawCmd::ResetRenderState, elements(1, 0, 1)],
        },
    ];
    assert!(DrawData::new(one(), one(), drawn).is_none());
    let huge = vec![DrawList { vtx_count: usize::MAX, idx_count: 0, commands: vec![] }];
    assert!(DrawData::new(one(), one(), huge).is_none());
}

#[test]
fn an_empty_frame_draws_nothing() {
    let data = DrawData::new(one(), one(), vec![]).unwrap();
    assert_eq!(data.plan(), vec![]);
    assert_eq!(data.total_vtx_count(), 0);
}

#[test]
fn same_texture_is_bound_once() {
    let lists = vec![DrawList {
        vtx_count: 4,
        idx_count: 12,
        commands: vec![elements(6, 0, 7), elements(6, 10, 7)],
    }];
    let data = DrawData::new(one(), one(), lists).unwrap();
    let ops = data.plan();
    assert_eq!(
        ops,
        vec![
            DrawOp::BindTexture { texture_id: 7 },
            DrawOp::SetScissor { rect: rect(0) },
            DrawOp::DrawIndexed { index_count: 6, start_index: 0, base_vertex: 0 },
            DrawOp::SetScissor { rect: rect(10) },
            DrawOp::DrawIndexed { index_count: 6, start_index: 6, base_vertex: 0 },
        ]
    );
    let binds = ops.iter().filter(|op| matches!(op, DrawOp::BindTexture { .. })).count();
    assert_eq!(binds, 1);
}

#[test]
fn the_first_batch_binds_its_texture() {
    for texture in [FONT, 0, 7] {
        let lists = vec![DrawList {
            vtx_count: 4,
            idx_count: 6,
            commands: vec![DrawCmd::ResetRenderState, elements(6, 0, texture)],
        }];
        let data = DrawData::new(one(), one(), lists).unwrap();
        assert_eq!(
            data.plan(),
            vec![
                DrawOp::ResetRenderState,
                DrawOp::BindTexture { texture_id: texture },
                DrawOp::SetScissor { rect: rect(0) },
                DrawOp::DrawIndexed { index_count: 6, start_index: 0, base_vertex: 0 },
            ]
        );
    }
}

#[test]
fn a_texture_is_bound_again_only_after_another() {
    let lists = vec![
        DrawList { vtx_count: 1, idx_count: 6, commands: vec![elements(3, 0, 7), elements(3, 0, 7)] },
        DrawList { vtx_count: 1, idx_count: 6, commands: vec![elements(3, 0, 7), elements(3, 0, 8)] },
        DrawList { vtx_count: 1, idx_count: 6, commands: vec![elements(3, 0, 7)] },
    ];
    let data = DrawData::new(one(), one(), lists).unwrap();
    let bound: Vec<usize> = data
        .plan()
        .iter()
        .filter_map(|op| match op {
            DrawOp::BindTexture { texture_id } => Some(*texture_id),
            _ => None,
        })
        .collect();
    assert_eq!(bound, vec![7, 8, 7]);
}

#[test]
fn offsets_run_on_across_batches_and_lists() {
    let lists = vec![
        DrawList {
            vtx_count: 4,
            idx_count: 9,
            commands: vec![elements(6, 0, FONT), elements(3, 1, 7)],
        },
        DrawList {
            vtx_count: 8,
            idx_count: 15,
            commands: vec![
                elements(12, 2, 7),
                DrawCmd::ResetRenderState,
                DrawCmd::RawCallback,
                elements(3, 3, FONT),
            ],
        },
        DrawList { vtx_count: 2, idx_count: 3, commands: vec![elements(3, 4, FONT)] },
    ];
    let data = DrawData::new(one(), one(), lists).unwrap();
    assert_eq!(
        data.plan(),
        vec![
            DrawOp::BindTexture { texture_id: FONT },
            DrawOp::SetScissor { rect: rect(0) },
            DrawOp::DrawIndexed { index_count: 6, start_index: 0, base_vertex: 0 },
            DrawOp::BindTexture { texture_id: 7 },
            DrawOp::SetScissor { rect: rect(1) },
            DrawOp::DrawIndexed { index_count: 3, start_index: 6, base_vertex: 0 },
            DrawOp::SetScissor { rect: rect(2) },
            DrawOp::DrawIndexed { index_count: 12, start_index: 9, base_vertex: 4 },
            DrawOp::ResetRenderState,
            DrawOp::RawCallback { list: 1, command: 2 },
            DrawOp::BindTexture { texture_id: FONT },
            DrawOp::SetScissor { rect: rect(3) },
            DrawOp::DrawIndexed { index_count: 3, start_index: 21, base_vertex: 4 },
            DrawOp::SetScissor { rect: rect(4) },
            DrawOp::DrawIndexed { index_count: 3, start_index: 24, base_vertex: 12 },
        ]
    );
}

#[test]
fn control_batches_do_not_change_the_texture() {
    let lists = vec![DrawList {
        vtx_count: 0,
        idx_count: 0,
        commands: vec![
            elements(1, 0, 5),
            DrawCmd::ResetRenderState,
            DrawCmd::RawCallback,
            elements(1, 0, 5),
        ],
    }];
    let data = DrawData::new(one(), one(), lists).unwrap();
    let ops = data.plan();
    let binds = ops.iter().filter(|op| matches!(op, DrawOp::BindTexture { .. })).count();
    assert_eq!(binds, 1);
    assert_eq!(ops.len(), 7);
}

#[test]
fn emptiness_of_the_display() {
    let zero = 0.0f32.to_bits();
    let half = 0.5f32.to_bits();
    let minus = (-3.0f32).to_bits();
    assert!(DrawData::new(zero, zero, vec![]).unwrap().is_display_empty());
    assert!(DrawData::new(one(), zero, vec![]).unwrap().is_display_empty());
    assert!(DrawData::new(zero, one(), vec![]).unwrap().is_display_empty());
    assert!(DrawData::new(minus, one(), vec![]).unwrap().is_display_empty());
    assert!(!DrawData::new(one(), one(), vec![]).unwrap().is_display_empty());
    assert!(!DrawData::new(half, f32::INFINITY.to_bits(), vec![]).unwrap().is_display_empty());
}

#[test]
fn non_positive_floats_by_their_bits() {
    let samples = [
        0.0f32,
        -0.0,
        1.0,
        -1.0,
        0.5,
        -0.5,
        f32::MIN_POSITIVE,
        -f32::MIN_POSITIVE,
        f32::from_bits(1),
        f32::from_bits(0x8000_0001),
        f32::MAX,
        f32::MIN,
        f32::INFINITY,
        f32::NEG_INFINITY,
        f32::NAN,
        -f32::NAN,
        f32::from_bits(0x7F80_0001),
        f32::from_bits(0xFF80_0001),
        f32::from_bits(0xFFFF_FFFF),
        1280.0,
        720.0,
    ];
    for x in samples {
        assert_eq!(is_non_positive(x.to_bits()), x <= 0.0, "{:?}", x);
    }
}
