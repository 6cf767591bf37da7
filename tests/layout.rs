use d3d11_triangle::layout::{
    element_size, triangle_attributes, triangle_buffer_width, triangle_layout, Attribute,
    ElementFormat, InputElement, Semantic, VertexLayout, TRIANGLE_VERTEX_COUNT,
};

#[test]
fn element_sizes_are_four_bytes_per_component() {
    assert_eq!(element_size(ElementFormat::Float3), 12);
    assert_eq!(element_size(ElementFormat::Float4), 16);
}

#[test]
fn triangle_layout_packs_position_then_color() {
    let layout = triangle_layout();
    assert_eq!(layout.stride, 28);
    assert_eq!(
        layout.elements,
        vec![
            InputElement { semantic: Semantic::Position, format: ElementFormat::Float3, offset: 0 },
            InputElement { semantic: Semantic::Color, format: ElementFormat::Float4, offset: 12 },
        ]
    );
    assert_eq!(triangle_attributes().len(), 2);
}

#[test]
fn triangle_buffer_holds_three_vertices() {
    assert_eq!(TRIANGLE_VERTEX_COUNT, 3);
    assert_eq!(triangle_buffer_width(), 84);
}

#[test]
fn pack_of_no_attributes_is_empty() {
    let layout = VertexLayout::pack(&Vec::new()).unwrap();
    assert_eq!(layout.stride, 0);
    assert!(layout.elements.is_empty());
}

#[test]
fn pack_offsets_follow_previous_attribute() {
    let attrs = vec![
        Attribute { semantic: Semantic::Color, format: ElementFormat::Float4 },
        Attribute { semantic: Semantic::Position, format: ElementFormat::Float3 },
        Attribute { semantic: Semantic::Color, format: ElementFormat::Float4 },
    ];
    let layout = VertexLayout::pack(&attrs).unwrap();
    let offsets: Vec<u32> = layout.elements.iter().map(|e| e.offset).collect();
    assert_eq!(offsets, vec![0, 16, 28]);
    assert_eq!(layout.stride, 44);
    assert_eq!(layout.elements[1].semantic, Semantic::Position);
    assert_eq!(layout.elements[1].format, ElementFormat::Float3);
}

#[test]
fn buffer_width_multiplies_stride_by_count() {
    let layout = triangle_layout();
    assert_eq!(layout.buffer_width(0), Some(0));
    assert_eq!(layout.buffer_width(10), Some(280));
}

#[test]
fn buffer_width_that_overflows_is_none() {
    let layout = triangle_layout();
    assert_eq!(layout.buffer_width(u32::MAX / 28), Some(u32::MAX / 28 * 28));
    assert_eq!(layout.buffer_width(u32::MAX / 28 + 1), None);
    assert_eq!(layout.buffer_width(u32::MAX), None);
}
