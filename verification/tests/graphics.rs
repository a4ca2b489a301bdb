use nokden::graphics::{
    BufferUsage, GraphicsSystem, Mat4, PresentMode, RenderCommand, SurfaceCapabilities,
    SurfaceFormat, FORMAT_B8G8R8_UNORM, TRANSFORM_IDENTITY, find_memorytype_index, image_count,
    mat4_to_bytes, present_mode, resolution, select_format, transform, words_to_bytes,
};

fn caps(min: u32, max: u32, width: u32, height: u32, transforms: u32) -> SurfaceCapabilities {
    SurfaceCapabilities {
        min_image_count: min,
        max_image_count: max,
        current_width: width,
        current_height: height,
        supported_transforms: transforms,
        current_transform: 4,
    }
}

#[test]
fn frame_start_then_frame_end_completes() {
    let mut graphics = GraphicsSystem::new(2);
    assert!(graphics.is_idle());
    let index = graphics.frame_start(0);
    assert!(!graphics.is_idle());
    assert_eq!(index.image(), 0);
    graphics.frame_end(index);
    assert!(graphics.is_idle());
}

#[test]
fn frame_bracket_records_open_and_close_commands() {
    let mut graphics = GraphicsSystem::new(3);
    let index = graphics.frame_start(2);
    assert_eq!(
        graphics.commands().as_slice(),
        &[
            RenderCommand::BeginRenderPass { image: 2 },
            RenderCommand::SetViewport,
            RenderCommand::SetScissor,
        ],
    );
    graphics.frame_end(index);
    assert_eq!(graphics.commands().last(), Some(&RenderCommand::EndRenderPass));
    assert_eq!(graphics.commands().len(), 4);
}

#[test]
fn bind_buffer_memory_hands_out_fresh_ids_and_queues_bytes() {
    let mut graphics = GraphicsSystem::new(1);
    let first = graphics.bind_buffer_memory(vec![1, 2, 3], BufferUsage::Index);
    let second = graphics.bind_buffer_memory(vec![9], BufferUsage::Vertex);
    assert_ne!(first.buffer, first.memory);
    assert_ne!(first.buffer, second.buffer);
    assert_ne!(first.memory, second.memory);
    let uploads = graphics.take_uploads();
    assert_eq!(uploads.len(), 2);
    assert_eq!(uploads[0].buffer, first.buffer);
    assert_eq!(uploads[0].usage, BufferUsage::Index);
    assert_eq!(uploads[0].bytes, vec![1, 2, 3]);
    assert_eq!(uploads[1].buffer, second.buffer);
    assert_eq!(uploads[1].usage, BufferUsage::Vertex);
    assert_eq!(uploads[1].bytes, vec![9]);
    assert!(graphics.take_uploads().is_empty());
}

#[test]
fn words_serialize_little_endian() {
    let bytes = words_to_bytes(&vec![0x0102_0304, 0xAABB_CCDD]);
    assert_eq!(bytes, vec![0x04, 0x03, 0x02, 0x01, 0xDD, 0xCC, 0xBB, 0xAA]);
}

#[test]
fn matrix_serializes_to_64_bytes_in_column_order() {
    let mut lanes = [0u32; 16];
    for (i, lane) in lanes.iter_mut().enumerate() {
        *lane = 0x0100_0000 + i as u32;
    }
    let bytes = mat4_to_bytes(&Mat4 { m: lanes });
    assert_eq!(bytes.len(), 64);
    assert_eq!(&bytes[0..4], &[0x00, 0x00, 0x00, 0x01]);
    assert_eq!(&bytes[4..8], &[0x01, 0x00, 0x00, 0x01]);
    assert_eq!(&bytes[60..64], &[0x0F, 0x00, 0x00, 0x01]);
}

#[test]
fn image_count_asks_for_one_more_than_minimum() {
    assert_eq!(image_count(&caps(2, 0, 100, 100, 0)), 3);
    assert_eq!(image_count(&caps(2, 8, 100, 100, 0)), 3);
}

#[test]
fn image_count_respects_surface_maximum() {
    assert_eq!(image_count(&caps(3, 3, 100, 100, 0)), 3);
}

#[test]
fn resolution_follows_surface_unless_undecided() {
    assert_eq!(resolution(&caps(1, 0, 640, 480, 0), 1280, 720), (640, 480));
    assert_eq!(resolution(&caps(1, 0, u32::MAX, 480, 0), 1280, 720), (1280, 720));
}

#[test]
fn transform_prefers_identity() {
    assert_eq!(transform(&caps(1, 0, 1, 1, TRANSFORM_IDENTITY | 8)), TRANSFORM_IDENTITY);
    assert_eq!(transform(&caps(1, 0, 1, 1, 8)), 4);
}

#[test]
fn format_replaces_undefined_with_fallback() {
    let picked = select_format(&vec![SurfaceFormat { format: 0, color_space: 7 }]);
    assert_eq!(picked, SurfaceFormat { format: FORMAT_B8G8R8_UNORM, color_space: 7 });
    let kept = select_format(&vec![
        SurfaceFormat { format: 44, color_space: 7 },
        SurfaceFormat { format: 0, color_space: 9 },
    ]);
    assert_eq!(kept, SurfaceFormat { format: 44, color_space: 7 });
}

#[test]
fn present_mode_prefers_immediate_falls_back_to_fifo() {
    assert_eq!(
        present_mode(&vec![PresentMode::Fifo, PresentMode::Immediate]),
        PresentMode::Immediate,
    );
    assert_eq!(
        present_mode(&vec![PresentMode::Mailbox, PresentMode::Fifo]),
        PresentMode::Fifo,
    );
    assert_eq!(present_mode(&vec![]), PresentMode::Fifo);
}

#[test]
fn memory_type_prefers_exact_match() {
    // type 0 is a superset match, type 1 an exact one: exact wins.
    let types = vec![0b1111, 0b0111];
    assert_eq!(find_memorytype_index(0b11, &types, 0b0111), Some(1));
}

#[test]
fn memory_type_falls_back_to_superset_match() {
    let types = vec![0b0001, 0b1111];
    assert_eq!(find_memorytype_index(0b10, &types, 0b0111), Some(1));
}

#[test]
fn memory_type_respects_requirement_bits() {
    let types = vec![0b0111, 0b0111];
    // only type 1 is allowed by the requirement mask
    assert_eq!(find_memorytype_index(0b10, &types, 0b0111), Some(1));
    // nothing allowed
    assert_eq!(find_memorytype_index(0b00, &types, 0b0111), None);
}

#[test]
fn memory_type_none_when_no_flags_fit() {
    let types = vec![0b0001, 0b0010];
    assert_eq!(find_memorytype_index(0b11, &types, 0b0100), None);
}
