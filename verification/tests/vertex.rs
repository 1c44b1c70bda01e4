use render_state::error::StartupError;
use render_state::vertex::{Vertex, VertexAttribute, VertexBuffer, VertexLayout, COMPONENT_BYTES, VERTEX_WORDS};

fn vertex(position: [f32; 3], color: [f32; 3]) -> Vertex {
    Vertex {
        position: [position[0].to_bits(), position[1].to_bits(), position[2].to_bits()],
        color: [color[0].to_bits(), color[1].to_bits(), color[2].to_bits()],
    }
}

fn triangle() -> Vec<Vertex> {
    vec![
        vertex([0.0, 0.5, 0.0], [1.0, 0.0, 0.0]),
        vertex([-0.5, -0.5, 0.0], [0.0, 1.0, 0.0]),
        vertex([0.5, -0.5, 0.0], [0.0, 0.0, 1.0]),
    ]
}

#[test]
fn layout_is_position_then_color() {
    let layout = Vertex::layout();
    assert_eq!(
        layout,
        VertexLayout {
            stride: 24,
            position: VertexAttribute { shader_location: 0, offset: 0, components: 3 },
            color: VertexAttribute { shader_location: 1, offset: 12, components: 3 },
        }
    );
    assert_eq!(layout.stride, COMPONENT_BYTES * VERTEX_WORDS as u64);
    assert_eq!(layout.color.offset, layout.position.offset + COMPONENT_BYTES * layout.position.components as u64);
    assert_eq!(layout.stride, layout.color.offset + COMPONENT_BYTES * layout.color.components as u64);
}

#[test]
fn buffer_length_is_count_times_stride() {
    let buffer = VertexBuffer::build(&triangle()).unwrap();
    assert_eq!(buffer.count(), 3);
    assert_eq!(buffer.bytes().len() as u64, 3 * Vertex::layout().stride);
    assert_eq!(buffer.bytes().len(), 72);
}

#[test]
fn empty_buffer_has_no_bytes() {
    let buffer = VertexBuffer::build(&vec![]).unwrap();
    assert_eq!(buffer.count(), 0);
    assert_eq!(buffer.bytes().len(), 0);
}

#[test]
fn buffer_length_holds_for_many_counts() {
    for count in [1usize, 2, 5, 64, 1000] {
        let vertices = vec![vertex([1.0, 2.0, 3.0], [0.25, 0.5, 0.75]); count];
        let buffer = VertexBuffer::build(&vertices).unwrap();
        assert_eq!(buffer.count() as usize, count);
        assert_eq!(buffer.bytes().len() as u64, count as u64 * Vertex::layout().stride);
    }
}

#[test]
fn buffer_bytes_are_the_floats_in_memory_order() {
    let buffer = VertexBuffer::build(&triangle()).unwrap();
    let floats: [f32; 18] = [
        0.0, 0.5, 0.0, 1.0, 0.0, 0.0, -0.5, -0.5, 0.0, 0.0, 1.0, 0.0, 0.5, -0.5, 0.0, 0.0, 0.0, 1.0,
    ];
    let mut expected: Vec<u8> = Vec::new();
    for float in floats {
        expected.extend_from_slice(&float.to_ne_bytes());
    }
    assert_eq!(buffer.bytes(), expected.as_slice());
}

#[test]
fn buffer_bytes_of_one_word_pattern() {
    let one = Vertex { position: [0x0403_0201, 0, 0xFFFF_FFFF], color: [0x8000_0000, 1, 0x0102_0304] };
    let buffer = VertexBuffer::build(&vec![one]).unwrap();
    let bytes = buffer.bytes();
    let little: Vec<u8> = vec![
        1, 2, 3, 4, 0, 0, 0, 0, 255, 255, 255, 255, 0, 0, 0, 128, 1, 0, 0, 0, 4, 3, 2, 1,
    ];
    let big: Vec<u8> = vec![
        4, 3, 2, 1, 0, 0, 0, 0, 255, 255, 255, 255, 128, 0, 0, 0, 0, 0, 0, 1, 1, 2, 3, 4,
    ];
    if u32::from_ne_bytes([1, 0, 0, 0]) == 1 {
        assert_eq!(bytes, little.as_slice());
    } else {
        assert_eq!(bytes, big.as_slice());
    }
}

#[test]
fn attributes_stand_where_the_layout_says() {
    let vertices = triangle();
    let buffer = VertexBuffer::build(&vertices).unwrap();
    let bytes = buffer.bytes();
    let layout = Vertex::layout();
    for (v, vertex) in vertices.iter().enumerate() {
        for c in 0..3usize {
            let at = v * layout.stride as usize + layout.position.offset as usize + 4 * c;
            let word = u32::from_ne_bytes([bytes[at], bytes[at + 1], bytes[at + 2], bytes[at + 3]]);
            assert_eq!(word, vertex.position[c]);
            let at = v * layout.stride as usize + layout.color.offset as usize + 4 * c;
            let word = u32::from_ne_bytes([bytes[at], bytes[at + 1], bytes[at + 2], bytes[at + 3]]);
            assert_eq!(word, vertex.color[c]);
        }
    }
}

#[test]
fn build_never_fails_on_a_list_that_fits() {
    let built: Result<VertexBuffer, StartupError> = VertexBuffer::build(&triangle());
    assert!(built.is_ok());
}
