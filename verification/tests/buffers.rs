use riri_imgui_hook::d3d11_impl::buffer::{
    IndexBuffer, VertexBuffer, INDEX_BUF_ADD_CAPACITY, INDEX_SIZE, VERTEX_BUF_ADD_CAPACITY,
    VERTEX_SIZE,
};
use riri_imgui_hook::d3d12_impl::buffer::{
    IndexBuffer as UploadIndexBuffer, VertexBuffer as UploadVertexBuffer,
};

#[test]
fn new_buffers_have_the_slack() {
    assert_eq!(VERTEX_BUF_ADD_CAPACITY, 5000);
    assert_eq!(INDEX_BUF_ADD_CAPACITY, 10000);
    assert_eq!(VertexBuffer::new(None, 0).len(), 5000);
    assert_eq!(VertexBuffer::new(Some(7), 123).len(), 5123);
    assert_eq!(VertexBuffer::new(Some(7), 123).get_buffer(), Some(7));
    assert_eq!(IndexBuffer::new(None, 0).len(), 10000);
    assert_eq!(IndexBuffer::new(Some(9), 1).len(), 10001);
    assert_eq!(IndexBuffer::new(Some(9), 1).get_buffer(), Some(9));
}

#[test]
fn byte_widths() {
    assert_eq!(VertexBuffer::new(None, 0).byte_width(), Some(100_000));
    assert_eq!(IndexBuffer::new(None, 0).byte_width(), Some(20_000));
    // 214_748_365 * 20 is just beyond what 32 bits hold.
    assert_eq!(VertexBuffer::new(None, 214_748_364 - 5000).byte_width(), Some(4_294_967_280));
    assert_eq!(VertexBuffer::new(None, 214_748_365 - 5000).byte_width(), None);
    assert_eq!(IndexBuffer::new(None, 2_147_483_647 - 10000).byte_width(), Some(4_294_967_294));
    assert_eq!(IndexBuffer::new(None, 2_147_483_648 - 10000).byte_width(), None);
}

#[test]
fn element_sizes_match_the_gui_library() {
    assert_eq!(std::mem::size_of::<imgui::DrawVert>(), VERTEX_SIZE);
    assert_eq!(std::mem::size_of::<imgui::DrawIdx>(), INDEX_SIZE);
}

#[test]
fn vertex_capacity_follows_the_requests() {
    let mut buffer = VertexBuffer::new(Some(1), 0);
    let requests = [100usize, 5000, 5001, 6000, 10001, 10002, 3, 30000, 1];
    let grown = [false, false, true, false, false, true, false, true, false];
    let capacity = [5000usize, 5000, 10001, 10001, 10001, 15002, 15002, 35000, 35000];
    let mut max = 0;
    let mut last = buffer.len();
    for i in 0..requests.len() {
        let g = buffer.ensure_capacity(requests[i]);
        max = max.max(requests[i]);
        assert_eq!(g, grown[i]);
        assert_eq!(buffer.len(), capacity[i]);
        assert!(buffer.len() >= last);
        assert!(buffer.len() >= max);
        if g {
            assert_eq!(buffer.len(), max + 5000);
        }
        last = buffer.len();
    }
}

#[test]
fn index_capacity_follows_the_requests() {
    let mut buffer = IndexBuffer::new(Some(1), 0);
    assert!(!buffer.ensure_capacity(10000));
    assert_eq!(buffer.len(), 10000);
    assert!(buffer.ensure_capacity(10001));
    assert_eq!(buffer.len(), 20001);
    assert!(!buffer.ensure_capacity(0));
    assert_eq!(buffer.len(), 20001);
}

#[test]
fn growing_lets_the_buffer_object_go() {
    let mut buffer = VertexBuffer::new(Some(0xAB), 0);
    buffer.ensure_capacity(10);
    assert_eq!(buffer.get_buffer(), Some(0xAB));
    buffer.ensure_capacity(5001);
    assert_eq!(buffer.get_buffer(), None);
    buffer.attach(0xCD);
    assert_eq!(buffer.get_buffer(), Some(0xCD));
    assert_eq!(buffer.len(), 10001);
    let mut indices = IndexBuffer::new(Some(0xAB), 0);
    indices.ensure_capacity(10001);
    assert_eq!(indices.get_buffer(), None);
    indices.attach(0xEF);
    assert_eq!(indices.get_buffer(), Some(0xEF));
}

#[test]
fn upload_buffers_grow_alike() {
    let mut vertices = UploadVertexBuffer::new(Some(4), 0);
    let mut indices = UploadIndexBuffer::new(Some(5), 0);
    assert_eq!(vertices.len(), 5000);
    assert_eq!(indices.len(), 10000);
    assert_eq!(vertices.width(), Some(100_000));
    assert_eq!(indices.width(), Some(20_000));
    assert!(!vertices.ensure_capacity(5000));
    assert!(vertices.ensure_capacity(7000));
    assert_eq!(vertices.len(), 12000);
    assert_eq!(vertices.get_resource(), None);
    vertices.attach(8);
    assert_eq!(vertices.get_resource(), Some(8));
    assert!(indices.ensure_capacity(10001));
    assert_eq!(indices.len(), 20001);
    assert!(!indices.ensure_capacity(20001));
    assert_eq!(indices.len(), 20001);
}
