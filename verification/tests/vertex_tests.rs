use render_core::vertex::{
    StepMode, VertexAttribute, VertexBuffer, VertexDataError, VertexFormat, VertexLayout,
};

#[test]
fn desc_describes_position_and_color() {
    let layout = VertexLayout::desc();
    assert_eq!(layout.array_stride, 24);
    assert_eq!(layout.step_mode, StepMode::Vertex);
    assert_eq!(
        layout.attributes,
        vec![
            VertexAttribute { offset: 0, shader_location: 0, format: VertexFormat::Float3 },
            VertexAttribute { offset: 12, shader_location: 1, format: VertexFormat::Float3 },
        ]
    );
    assert!(layout.is_well_formed());
}

#[test]
fn format_sizes_are_four_bytes_a_float() {
    assert_eq!(VertexFormat::Float.size(), 4);
    assert_eq!(VertexFormat::Float2.size(), 8);
    assert_eq!(VertexFormat::Float3.size(), 12);
    assert_eq!(VertexFormat::Float4.size(), 16);
}

#[test]
fn layout_with_attribute_past_the_stride_is_refused() {
    let mut layout = VertexLayout::desc();
    layout.array_stride = 23;
    assert!(!layout.is_well_formed());
    layout.array_stride = 24;
    layout.attributes[1].offset = 13;
    assert!(!layout.is_well_formed());
    layout.attributes[1].offset = u64::MAX;
    assert!(!layout.is_well_formed());
}

#[test]
fn layout_with_repeated_shader_location_is_refused() {
    let mut layout = VertexLayout::desc();
    layout.attributes[1].shader_location = 0;
    assert!(!layout.is_well_formed());
}

#[test]
fn layout_with_empty_records_is_refused() {
    let layout =
        VertexLayout { array_stride: 0, step_mode: StepMode::Vertex, attributes: Vec::new() };
    assert!(!layout.is_well_formed());
    let layout =
        VertexLayout { array_stride: 4, step_mode: StepMode::Instance, attributes: Vec::new() };
    assert!(layout.is_well_formed());
}

#[test]
fn upload_counts_whole_records() {
    let layout = VertexLayout::desc();
    let buffer = VertexBuffer::upload(72, &layout).unwrap();
    assert_eq!(buffer.vertex_count(), 3);
    assert_eq!(buffer.byte_len(), 72);
    let empty = VertexBuffer::upload(0, &layout).unwrap();
    assert_eq!(empty.vertex_count(), 0);
}

#[test]
fn upload_refuses_partial_records() {
    let layout = VertexLayout::desc();
    assert_eq!(VertexBuffer::upload(71, &layout).unwrap_err(), VertexDataError::PartialRecord);
    assert_eq!(VertexBuffer::upload(1, &layout).unwrap_err(), VertexDataError::PartialRecord);
}

#[test]
fn upload_refuses_empty_records_and_too_many() {
    let layout =
        VertexLayout { array_stride: 0, step_mode: StepMode::Vertex, attributes: Vec::new() };
    assert_eq!(VertexBuffer::upload(72, &layout).unwrap_err(), VertexDataError::EmptyRecord);
    let layout =
        VertexLayout { array_stride: 1, step_mode: StepMode::Vertex, attributes: Vec::new() };
    assert_eq!(VertexBuffer::upload(0xffff_ffff, &layout).unwrap().vertex_count(), u32::MAX);
    assert_eq!(
        VertexBuffer::upload(0x1_0000_0000, &layout).unwrap_err(),
        VertexDataError::TooManyVertices
    );
}
