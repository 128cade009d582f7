use glres::raw::AsRaw;
use glres::vertex::{
    compute_layout, flatten_records, upload_and_bind, AttribBinding, Buffer, BufferType,
    RecordShape, Semantic, Vertex, VertexArray,
};

const FULL: RecordShape = RecordShape { has_color: true, has_texture: true };

#[test]
fn full_record_layout_has_documented_offsets() {
    // position(3) + color(3) + texcoord(2): 8 components, 32-byte stride,
    // offsets 0, 12 and 24.
    let layout = compute_layout(FULL);
    assert_eq!(layout.byte_stride, 32);
    assert_eq!(layout.fields.len(), 3);
    assert_eq!(layout.fields[0].semantic, Semantic::Position);
    assert_eq!(layout.fields[0].components, 3);
    assert_eq!(layout.fields[0].byte_offset, 0);
    assert_eq!(layout.fields[1].semantic, Semantic::Color);
    assert_eq!(layout.fields[1].components, 3);
    assert_eq!(layout.fields[1].byte_offset, 12);
    assert_eq!(layout.fields[2].semantic, Semantic::TexCoord);
    assert_eq!(layout.fields[2].components, 2);
    assert_eq!(layout.fields[2].byte_offset, 24);
}

#[test]
fn partial_record_layouts_follow_declared_order() {
    let position_only = compute_layout(RecordShape { has_color: false, has_texture: false });
    assert_eq!(position_only.byte_stride, 12);
    assert_eq!(position_only.fields.len(), 1);

    let with_color = compute_layout(RecordShape { has_color: true, has_texture: false });
    assert_eq!(with_color.byte_stride, 24);
    assert_eq!(with_color.fields.len(), 2);
    assert_eq!(with_color.fields[1].semantic, Semantic::Color);
    assert_eq!(with_color.fields[1].byte_offset, 12);

    let with_texture = compute_layout(RecordShape { has_color: false, has_texture: true });
    assert_eq!(with_texture.byte_stride, 20);
    assert_eq!(with_texture.fields.len(), 2);
    assert_eq!(with_texture.fields[1].semantic, Semantic::TexCoord);
    assert_eq!(with_texture.fields[1].byte_offset, 12);
}

#[test]
fn flatten_preserves_field_order() {
    let v = Vertex::new([1, 2, 3], [4, 5, 6], [7, 8]);
    assert_eq!(v.flatten(), vec![1, 2, 3, 4, 5, 6, 7, 8]);
    assert_eq!(v.size(), 32);
    assert_eq!(v.shape(), FULL);

    let p = Vertex::position_only([9, 10, 11]);
    assert_eq!(p.flatten(), vec![9, 10, 11]);
    assert_eq!(p.size(), 12);
}

#[test]
fn flatten_carries_real_scalar_bit_patterns() {
    let v = Vertex::position_only([0.5f32.to_bits(), (-0.5f32).to_bits(), 0.0f32.to_bits()]);
    let flat = v.flatten();
    assert_eq!(f32::from_bits(flat[0]), 0.5);
    assert_eq!(f32::from_bits(flat[1]), -0.5);
    assert_eq!(f32::from_bits(flat[2]), 0.0);
}

#[test]
fn flatten_records_concatenates_in_input_order() {
    let records = vec![
        Vertex::new([1, 2, 3], [4, 5, 6], [7, 8]),
        Vertex::new([11, 12, 13], [14, 15, 16], [17, 18]),
    ];
    assert_eq!(
        flatten_records(&records),
        vec![1, 2, 3, 4, 5, 6, 7, 8, 11, 12, 13, 14, 15, 16, 17, 18]
    );
    assert_eq!(flatten_records(&Vec::new()), Vec::<u32>::new());
}

#[test]
fn buffer_targets_match_api() {
    let vbo = Buffer::new_vertex(1);
    assert_eq!(vbo.type_, BufferType::Vertex);
    assert_eq!(vbo.target(), gl33::GL_ARRAY_BUFFER.0);
    let ebo = Buffer::new_element(2);
    assert_eq!(ebo.type_, BufferType::Element);
    assert_eq!(ebo.target(), gl33::GL_ELEMENT_ARRAY_BUFFER.0);
}

#[test]
fn buffer_upload_is_full_range_static() {
    let mut ebo = Buffer::new_element(2);
    assert_eq!(ebo.size_bytes(), 0);
    let desc = ebo.data(vec![0, 1, 3, 1, 2, 3]);
    assert_eq!(desc.target, gl33::GL_ELEMENT_ARRAY_BUFFER.0);
    assert_eq!(desc.usage, gl33::GL_STATIC_DRAW.0);
    assert_eq!(desc.byte_len, 24);
    assert_eq!(ebo.size_bytes(), 24);
    assert_eq!(ebo.contents, vec![0, 1, 3, 1, 2, 3]);
}

#[test]
fn upload_and_bind_round_trips_byte_size() {
    // N records of 8 components: the buffer reads back N * 8 * 4 bytes.
    let records = vec![
        Vertex::new([1, 2, 3], [4, 5, 6], [7, 8]),
        Vertex::new([21, 22, 23], [24, 25, 26], [27, 28]),
        Vertex::new([31, 32, 33], [34, 35, 36], [37, 38]),
    ];
    let layout = compute_layout(FULL);
    let mut vbo = Buffer::new_vertex(1);
    let (desc, binds) = upload_and_bind(&mut vbo, &records, &layout, FULL);
    assert_eq!(desc.byte_len, 3 * 8 * 4);
    assert_eq!(vbo.size_bytes(), 3 * 8 * 4);
    assert_eq!(desc.target, gl33::GL_ARRAY_BUFFER.0);
    assert_eq!(desc.usage, gl33::GL_STATIC_DRAW.0);
    assert_eq!(
        binds,
        vec![
            AttribBinding {
                index: 0,
                components: 3,
                type_: gl33::GL_FLOAT.0,
                byte_stride: 32,
                byte_offset: 0,
            },
            AttribBinding {
                index: 1,
                components: 3,
                type_: gl33::GL_FLOAT.0,
                byte_stride: 32,
                byte_offset: 12,
            },
            AttribBinding {
                index: 2,
                components: 2,
                type_: gl33::GL_FLOAT.0,
                byte_stride: 32,
                byte_offset: 24,
            },
        ]
    );
    // Order-preserving: the first record's words come first.
    assert_eq!(vbo.contents[0..8], [1, 2, 3, 4, 5, 6, 7, 8]);
}

#[test]
fn as_raw_flattens_vertices_and_vectors() {
    let v = Vertex::new([1, 2, 3], [4, 5, 6], [7, 8]);
    assert_eq!(v.as_raw(), vec![1, 2, 3, 4, 5, 6, 7, 8]);
    let records = vec![Vertex::position_only([1, 2, 3]), Vertex::position_only([4, 5, 6])];
    assert_eq!(records.as_raw(), vec![1, 2, 3, 4, 5, 6]);
}

#[test]
fn vertex_array_wraps_handle() {
    let vao = VertexArray::new(4);
    assert_eq!(vao.id, 4);
}
