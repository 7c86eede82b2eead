use render_core::bytes::words_to_bytes;
use render_core::vertex::{
    BufferUsage, Indexing, Mesh, MeshError, RenderObject, Vertex, VertexFormat, VertexStepMode,
};

fn vertex(position: [f32; 3], color: [f32; 3]) -> Vertex {
    Vertex {
        position: [position[0].to_bits(), position[1].to_bits(), position[2].to_bits()],
        color: [color[0].to_bits(), color[1].to_bits(), color[2].to_bits()],
    }
}

fn floats(vertex: &Vertex) -> ([f32; 3], [f32; 3]) {
    (
        [
            f32::from_bits(vertex.position[0]),
            f32::from_bits(vertex.position[1]),
            f32::from_bits(vertex.position[2]),
        ],
        [
            f32::from_bits(vertex.color[0]),
            f32::from_bits(vertex.color[1]),
            f32::from_bits(vertex.color[2]),
        ],
    )
}

fn native_bytes(words: &[u32]) -> Vec<u8> {
    let mut bytes = Vec::new();
    for word in words {
        for byte in word.to_ne_bytes() {
            bytes.push(byte);
        }
    }
    bytes
}

#[test]
fn triangle_has_three_vertices_drawn_in_order() {
    let mesh = Mesh::triangle();
    assert_eq!(mesh.name(), "Triangle");
    assert_eq!(mesh.verts().len(), 3);
    assert!(matches!(mesh.index(), Indexing::Count(3)));
    assert_eq!(mesh.count(), 3);
}

#[test]
fn triangle_vertices_are_the_declared_numbers() {
    let mesh = Mesh::triangle();
    let verts = mesh.verts();
    assert_eq!(floats(&verts[0]), ([0.0, 0.5, 0.0], [1.0, 0.0, 1.0]));
    assert_eq!(floats(&verts[1]), ([-0.5, -0.5, 0.0], [0.0, 1.0, 0.0]));
    assert_eq!(floats(&verts[2]), ([0.5, -0.5, 0.0], [0.0, 0.0, 1.0]));
}

#[test]
fn pentagon_has_five_vertices_and_ten_indices() {
    let mesh = Mesh::pentagon();
    assert_eq!(mesh.name(), "PENTAGON");
    assert_eq!(mesh.verts().len(), 5);
    match mesh.index() {
        Indexing::Index(indices) => assert_eq!(indices, &vec![0, 1, 4, 1, 2, 4, 2, 3, 4, 0]),
        Indexing::Count(_) => panic!("the pentagon is indexed"),
    }
    assert_eq!(mesh.count(), 10);
}

#[test]
fn pentagon_vertices_are_the_declared_numbers() {
    let mesh = Mesh::pentagon();
    let verts = mesh.verts();
    assert_eq!(floats(&verts[0]), ([-0.0868241, 0.49240386, 0.0], [0.5, 0.9, 0.1]));
    assert_eq!(floats(&verts[1]), ([-0.49513406, 0.06958647, 0.0], [0.5, 0.1, 0.2]));
    assert_eq!(floats(&verts[2]), ([-0.21918549, -0.44939706, 0.0], [0.5, 0.8, 0.3]));
    assert_eq!(floats(&verts[3]), ([0.35966998, -0.3473291, 0.0], [0.5, 0.2, 0.4]));
    assert_eq!(floats(&verts[4]), ([0.44147372, 0.2347359, 0.0], [0.5, 0.6, 0.5]));
}

#[test]
fn every_pentagon_index_names_a_vertex() {
    let mesh = Mesh::pentagon();
    let len = mesh.verts().len() as u32;
    match mesh.index() {
        Indexing::Index(indices) => assert!(indices.iter().all(|index| *index < len)),
        Indexing::Count(_) => panic!("the pentagon is indexed"),
    }
}

#[test]
fn words_become_their_native_bytes() {
    let words = vec![0x0102_0304, 0xaabb_ccdd, 0, u32::MAX];
    let bytes = words_to_bytes(&words);
    assert_eq!(bytes.len(), 16);
    assert_eq!(bytes, native_bytes(&words));
    assert_eq!(&bytes[0..4], &0x0102_0304u32.to_ne_bytes());
}

#[test]
fn no_words_become_no_bytes() {
    assert_eq!(words_to_bytes(&Vec::new()), Vec::<u8>::new());
}

#[test]
fn vertex_buffer_holds_the_records_in_order() {
    let mesh = Mesh::triangle();
    let buffer = mesh.to_vertex_buffer();
    assert_eq!(buffer.label, "Triangle");
    assert_eq!(buffer.usage, BufferUsage::Vertex);
    assert_eq!(buffer.contents.len(), 3 * 24);
    let mut expected = Vec::new();
    for number in [
        0.0f32, 0.5, 0.0, 1.0, 0.0, 1.0, -0.5, -0.5, 0.0, 0.0, 1.0, 0.0, 0.5, -0.5, 0.0, 0.0, 0.0,
        1.0,
    ] {
        for byte in number.to_ne_bytes() {
            expected.push(byte);
        }
    }
    assert_eq!(buffer.contents, expected);
}

#[test]
fn vertex_record_has_position_at_0_and_color_at_12() {
    let mesh = Mesh::pentagon();
    let buffer = mesh.to_vertex_buffer();
    assert_eq!(buffer.contents.len(), 5 * 24);
    let record = &buffer.contents[3 * 24..4 * 24];
    assert_eq!(&record[0..4], &0.35966998f32.to_ne_bytes());
    assert_eq!(&record[4..8], &(-0.3473291f32).to_ne_bytes());
    assert_eq!(&record[12..16], &0.5f32.to_ne_bytes());
    assert_eq!(&record[20..24], &0.4f32.to_ne_bytes());
}

#[test]
fn mesh_without_indices_has_no_index_buffer() {
    assert!(Mesh::triangle().to_index_buffer().is_none());
}

#[test]
fn index_buffer_holds_the_indices_byte_for_byte() {
    let mesh = Mesh::pentagon();
    let buffer = mesh.to_index_buffer().expect("the pentagon is indexed");
    assert_eq!(buffer.label, "PENTAGON_indeces");
    assert_eq!(buffer.usage, BufferUsage::Index);
    assert_eq!(buffer.contents, native_bytes(&[0, 1, 4, 1, 2, 4, 2, 3, 4, 0]));
}

#[test]
fn upload_of_a_mesh_without_indices() {
    let object = RenderObject::from_mesh(Mesh::triangle());
    assert!(object.index_buffer.is_none());
    assert_eq!(object.count, 3);
    assert_eq!(object.vertex_buffer.label, "Triangle");
    assert_eq!(object.vertex_buffer.usage, BufferUsage::Vertex);
    assert_eq!(object.vertex_buffer.contents, Mesh::triangle().to_vertex_buffer().contents);
}

#[test]
fn upload_of_a_mesh_with_indices() {
    let object = RenderObject::from_mesh(Mesh::pentagon());
    assert_eq!(object.count, 10);
    assert_eq!(object.vertex_buffer.contents.len(), 120);
    let index_buffer = object.index_buffer.expect("the pentagon is indexed");
    assert_eq!(index_buffer.contents, native_bytes(&[0, 1, 4, 1, 2, 4, 2, 3, 4, 0]));
}

#[test]
fn upload_count_is_the_effective_count() {
    let corner = vertex([0.0, 0.0, 0.0], [1.0, 1.0, 1.0]);
    let indexed = Mesh::new(
        "strip".to_string(),
        vec![corner, corner, corner, corner],
        Indexing::Index(vec![0, 1, 2, 2, 1, 3, 3]),
    )
    .unwrap();
    assert_eq!(indexed.count(), 7);
    assert_eq!(RenderObject::from_mesh(indexed).count, 7);
    let plain = Mesh::new("dots".to_string(), vec![corner, corner], Indexing::Count(2)).unwrap();
    assert_eq!(plain.count(), 2);
    assert_eq!(RenderObject::from_mesh(plain).count, 2);
}

#[test]
fn new_mesh_keeps_its_parts() {
    let a = vertex([1.0, 2.0, 3.0], [0.25, 0.5, 0.75]);
    let b = vertex([-1.0, -2.0, -3.0], [0.0, 0.0, 0.0]);
    let mesh = Mesh::new("pair".to_string(), vec![a, b], Indexing::Index(vec![1, 0, 1])).unwrap();
    assert_eq!(mesh.name(), "pair");
    assert_eq!(mesh.verts(), &vec![a, b]);
    assert_eq!(mesh.index(), &Indexing::Index(vec![1, 0, 1]));
    assert_eq!(floats(&mesh.verts()[0]), ([1.0, 2.0, 3.0], [0.25, 0.5, 0.75]));
}

#[test]
fn new_mesh_with_no_index_at_all() {
    let a = vertex([0.0, 0.0, 0.0], [0.0, 0.0, 0.0]);
    let mesh = Mesh::new("bare".to_string(), vec![a], Indexing::Index(Vec::new())).unwrap();
    assert_eq!(mesh.count(), 0);
    let buffer = mesh.to_index_buffer().expect("the mesh is indexed");
    assert!(buffer.contents.is_empty());
}

#[test]
fn new_mesh_needs_a_vertex() {
    let made = Mesh::new("none".to_string(), Vec::new(), Indexing::Count(0));
    assert_eq!(made.err(), Some(MeshError::NoVertices));
    let made = Mesh::new("none".to_string(), Vec::new(), Indexing::Index(vec![0]));
    assert_eq!(made.err(), Some(MeshError::NoVertices));
}

#[test]
fn new_mesh_names_the_first_index_out_of_range() {
    let a = vertex([0.0, 0.0, 0.0], [0.0, 0.0, 0.0]);
    let made = Mesh::new("bad".to_string(), vec![a, a], Indexing::Index(vec![0, 1, 2, 0, 7]));
    assert_eq!(made.err(), Some(MeshError::IndexOutOfRange(2)));
    let made = Mesh::new("bad".to_string(), vec![a, a], Indexing::Index(vec![2]));
    assert_eq!(made.err(), Some(MeshError::IndexOutOfRange(0)));
}

#[test]
fn new_mesh_needs_the_count_of_its_vertices() {
    let a = vertex([0.0, 0.0, 0.0], [0.0, 0.0, 0.0]);
    let made = Mesh::new("off".to_string(), vec![a, a], Indexing::Count(3));
    assert_eq!(made.err(), Some(MeshError::CountMismatch));
    let made = Mesh::new("off".to_string(), vec![a, a], Indexing::Count(1));
    assert_eq!(made.err(), Some(MeshError::CountMismatch));
    assert!(Mesh::new("on".to_string(), vec![a, a], Indexing::Count(2)).is_ok());
}

#[test]
fn vertex_layout_is_two_attributes_of_three_floats() {
    let layout = Vertex::desc();
    assert_eq!(layout.array_stride, 24);
    assert_eq!(layout.step_mode, VertexStepMode::Vertex);
    assert_eq!(layout.attributes.len(), 2);
    assert_eq!(layout.attributes[0].format, VertexFormat::Float32x3);
    assert_eq!(layout.attributes[0].offset, 0);
    assert_eq!(layout.attributes[0].shader_location, 0);
    assert_eq!(layout.attributes[1].format, VertexFormat::Float32x3);
    assert_eq!(layout.attributes[1].offset, 12);
    assert_eq!(layout.attributes[1].shader_location, 1);
}

#[test]
fn vertex_layout_fills_the_stride() {
    let layout = Vertex::desc();
    let mut end = 0;
    for attribute in &layout.attributes {
        assert_eq!(attribute.offset, end);
        end += attribute.format.size();
    }
    assert_eq!(end, layout.array_stride);
}

#[test]
fn vertex_formats_have_four_bytes_a_component() {
    assert_eq!(VertexFormat::Float32.size(), 4);
    assert_eq!(VertexFormat::Float32x2.size(), 8);
    assert_eq!(VertexFormat::Float32x3.size(), 12);
    assert_eq!(VertexFormat::Float32x4.size(), 16);
}
