//! End-to-end scenario: a unit square (4 vertices, 6 indices forming two
//! triangles) drawn with a trivial pass-through shader pair.

use glres::err::Error;
use glres::shader::{LinkEvent, Program};
use glres::vertex::{compute_layout, upload_and_bind, Buffer, RecordShape, Vertex};

#[test]
fn unit_square_with_pass_through_shaders() {
    // The pass-through pair compiles and links: every stage reports
    // success and the program gets handle 1.
    let events = vec![
        LinkEvent::ProgramCreated(1),
        LinkEvent::StageCreated(1),
        LinkEvent::StageCompiled(1, String::new()),
        LinkEvent::StageCreated(2),
        LinkEvent::StageCompiled(1, String::new()),
        LinkEvent::ProgramLinked(1, String::new()),
    ];
    let mut program = Program::new();
    assert_eq!(program.link(&events), Ok(()));
    assert!(program.id > 0);

    // Four position-only corners of the unit square.
    let corners = [
        [0.5f32, 0.5, 0.0],
        [0.5, -0.5, 0.0],
        [-0.5, -0.5, 0.0],
        [-0.5, 0.5, 0.0],
    ];
    let records: Vec<Vertex> = corners
        .iter()
        .map(|c| Vertex::position_only([c[0].to_bits(), c[1].to_bits(), c[2].to_bits()]))
        .collect();
    let shape = RecordShape { has_color: false, has_texture: false };
    let layout = compute_layout(shape);
    let mut vbo = Buffer::new_vertex(1);
    let (desc, binds) = upload_and_bind(&mut vbo, &records, &layout, shape);

    // Position-only records: 4 vertices x 3 components x 4 bytes.
    assert_eq!(desc.byte_len, 48);
    assert_eq!(vbo.size_bytes(), 48);
    assert_eq!(binds.len(), 1);
    assert_eq!(binds[0].components, 3);
    assert_eq!(binds[0].byte_stride, 12);
    assert_eq!(binds[0].byte_offset, 0);

    // Two triangles over the four corners.
    let mut ebo = Buffer::new_element(2);
    let index_desc = ebo.data(vec![0, 1, 3, 1, 2, 3]);
    assert_eq!(index_desc.byte_len, 24);

    // No uniforms are declared, so a lookup on any name misses: the
    // reported location is negative and the write is refused.
    assert_eq!(
        program.uniform_check("texture1".to_string(), -1),
        Err(Error::UniformNotFound("texture1".to_string()))
    );
}
