//! The static geometry: what a vertex holds, how the pipeline is told to read
//! it, and the buffer contents that are uploaded once.
//!
//! Numbers that the graphics device reads as single-precision floats are held
//! here as their IEEE-754 bit patterns.

use vstd::prelude::*;
use crate::error::StartupError;

verus! {

/// Bytes in one component of an attribute.
pub const COMPONENT_BYTES: u64 = 4;

/// 32-bit words in one vertex: three of position, three of colour.
pub const VERTEX_WORDS: usize = 6;

/// One corner of the geometry.
#[derive(Clone, Copy, Debug, PartialEq, Eq)]
pub struct Vertex {
    pub position: [u32; 3],
    pub color: [u32; 3],
}

/// Where the pipeline finds one input of the vertex shader inside a vertex.
#[derive(Clone, Copy, Debug, PartialEq, Eq, Structural)]
pub struct VertexAttribute {
    /// The `@location` of the shader input that receives the attribute.
    pub shader_location: u32,
    /// Bytes from the start of the vertex.
    pub offset: u64,
    /// How many 32-bit floats the attribute holds.
    pub components: u32,
}

/// How the pipeline steps through the vertex buffer.
#[derive(Clone, Copy, Debug, PartialEq, Eq, Structural)]
pub struct VertexLayout {
    /// Bytes from one vertex to the next.
    pub stride: u64,
    pub position: VertexAttribute,
    pub color: VertexAttribute,
}

impl VertexAttribute {
    /// The first byte after the attribute.
    pub open spec fn end(self) -> int {
        self.offset + COMPONENT_BYTES * self.components
    }
}

impl VertexLayout {
    /// The attributes follow one another from the first byte of the vertex to
    /// its last, with no gap and no overlap.
    pub open spec fn tiles(self) -> bool {
        &&& self.position.offset == 0
        &&& self.color.offset == self.position.end()
        &&& self.stride == self.color.end()
    }
}

impl Vertex {
    /// The words of a vertex in buffer order: position, then colour.
    pub open spec fn words(self) -> Seq<u32> {
        self.position@ + self.color@
    }

    /// The layout of a vertex in the buffer, as a value.
    pub open spec fn layout_spec() -> VertexLayout {
        VertexLayout {
            stride: 24,
            position: VertexAttribute { shader_location: 0, offset: 0, components: 3 },
            color: VertexAttribute { shader_location: 1, offset: 12, components: 3 },
        }
    }

    /// The one description of a vertex's layout. The buffer is written to it
    /// and the pipeline is built from it.
    pub fn layout() -> (layout: VertexLayout)
        ensures
            layout == Vertex::layout_spec(),
            layout.tiles(),
            layout.stride == COMPONENT_BYTES * VERTEX_WORDS,
    {
        VertexLayout {
            stride: 24,
            position: VertexAttribute { shader_location: 0, offset: 0, components: 3 },
            color: VertexAttribute { shader_location: 1, offset: 12, components: 3 },
        }
    }
}

/// The words of a list of vertices, one vertex after the other.
pub open spec fn words_of(vertices: Seq<Vertex>) -> Seq<u32> {
    Seq::new(6 * vertices.len(), |i: int| vertices[i / 6].words()[i % 6])
}

/// Byte `k` (0 to 3) of a word, counted from the least significant.
pub open spec fn byte_of(word: u32, k: int) -> u8 {
    if k == 0 {
        (word % 256) as u8
    } else if k == 1 {
        (word / 0x100 % 256) as u8
    } else if k == 2 {
        (word / 0x1_0000 % 256) as u8
    } else {
        (word / 0x100_0000) as u8
    }
}

/// The bytes of a list of words, least significant byte of each word first.
pub open spec fn little_endian(words: Seq<u32>) -> Seq<u8> {
    Seq::new(4 * words.len(), |i: int| byte_of(words[i / 4], i % 4))
}

/// The bytes of a list of words, most significant byte of each word first.
pub open spec fn big_endian(words: Seq<u32>) -> Seq<u8> {
    Seq::new(4 * words.len(), |i: int| byte_of(words[i / 4], 3 - i % 4))
}

/// `bytemuck::cast_slice` from `u32` to `u8`: the same memory read as bytes.
/// Four bytes for each word, in the byte order of the machine, which is one of
/// the two. The cast cannot fail in this direction: bytes need no alignment
/// and any number of words is a whole number of bytes.
#[verifier::external_body]
fn words_as_bytes(words: &[u32]) -> (bytes: &[u8])
    ensures
        bytes@.len() == 4 * words@.len(),
        bytes@ == little_endian(words@) || bytes@ == big_endian(words@),
{
    bytemuck::cast_slice(words)
}

/// The contents of the vertex buffer. Built once and never changed.
pub struct VertexBuffer {
    words: Vec<u32>,
    count: u32,
}

impl View for VertexBuffer {
    type V = Seq<u32>;

    closed spec fn view(&self) -> Seq<u32> {
        self.words@
    }
}

impl VertexBuffer {
    #[verifier::type_invariant]
    spec fn whole_vertices(self) -> bool {
        self.words@.len() == VERTEX_WORDS * self.count
    }

    /// How many vertices the buffer holds.
    pub closed spec fn vertex_count(self) -> u32 {
        self.count
    }

    /// Lays the vertices out. Fails only where their number does not fit the
    /// 32-bit count of a draw call.
    pub fn build(vertices: &Vec<Vertex>) -> (built: Result<VertexBuffer, StartupError>)
        ensures
            built is Ok <==> vertices@.len() <= u32::MAX,
            built matches Ok(buffer) ==> buffer@ == words_of(vertices@) && buffer.vertex_count()
                == vertices@.len(),
            built matches Err(e) ==> e == StartupError::PipelineBuildFailed,
    {
        if vertices.len() > u32::MAX as usize {
            return Err(StartupError::PipelineBuildFailed);
        }
        let mut words: Vec<u32> = Vec::new();
        let mut i: usize = 0;
        while i < vertices.len()
            invariant
                i <= vertices.len(),
                words@.len() == 6 * i,
                forall|k: int| 0 <= k < 6 * i ==> words@[k] == vertices@[k / 6].words()[k % 6],
            decreases vertices.len() - i,
        {
            let vertex = vertices[i];
            let ghost before = words@;
            words.push(vertex.position[0]);
            words.push(vertex.position[1]);
            words.push(vertex.position[2]);
            words.push(vertex.color[0]);
            words.push(vertex.color[1]);
            words.push(vertex.color[2]);
            assert(words@ =~= before + vertex.words());
            i += 1;
        }
        assert(words@ =~= words_of(vertices@));
        Ok(VertexBuffer { words, count: vertices.len() as u32 })
    }

    /// The number of vertices, as a draw call takes it.
    pub fn count(&self) -> (count: u32)
        ensures
            count == self.vertex_count(),
            VERTEX_WORDS * count == self@.len(),
    {
        proof {
            use_type_invariant(self);
        }
        self.count
    }

    /// The bytes to upload: exactly one stride for each vertex, each word in
    /// the byte order of the machine.
    pub fn bytes(&self) -> (bytes: &[u8])
        ensures
            bytes@.len() == self.vertex_count() * Vertex::layout_spec().stride,
            bytes@ == little_endian(self@) || bytes@ == big_endian(self@),
    {
        proof {
            use_type_invariant(self);
        }
        words_as_bytes(self.words.as_slice())
    }
}

/// In the words of a list of vertices, each attribute of each vertex stands
/// where the layout says: at the vertex's stride plus the attribute's offset.
pub proof fn layout_matches_words(vertices: Seq<Vertex>, v: int, c: int)
    requires
        0 <= v < vertices.len(),
        0 <= c < 3,
    ensures
        words_of(vertices).len() * COMPONENT_BYTES == vertices.len() * Vertex::layout_spec().stride,
        words_of(vertices)[(v * Vertex::layout_spec().stride + Vertex::layout_spec().position.offset)
            / 4 + c] == vertices[v].position@[c],
        words_of(vertices)[(v * Vertex::layout_spec().stride + Vertex::layout_spec().color.offset)
            / 4 + c] == vertices[v].color@[c],
{
}

} // verus!
