//! The vertices of the sample triangle and the bytes they occupy in a vertex
//! buffer.
//!
//! A coordinate or a colour channel is kept as the bit pattern of the
//! single-precision number it stands for.

use vstd::prelude::*;
use vstd::arithmetic::div_mod::lemma_fundamental_div_mod_converse;

verus! {

/// Bytes a position takes in a vertex: three single-precision numbers.
pub const POSITION_SIZE: u32 = 12;

/// Bytes a colour takes in a vertex: four single-precision numbers. The
/// input layout reads only the first three of them.
pub const COLOR_SIZE: u32 = 16;

/// Bytes from one vertex to the next.
pub const VERTEX_STRIDE: u32 = 28;

/// Bit pattern of `0.0`.
pub const ZERO: u32 = 0;

/// Bit pattern of `1.0`.
pub const ONE: u32 = 0x3F80_0000;

/// Bit pattern of `0.25`.
pub const QUARTER: u32 = 0x3E80_0000;

/// Bit pattern of `-0.25`.
pub const MINUS_QUARTER: u32 = 0xBE80_0000;

/// Bit pattern of a quarter of the aspect ratio of a 1280 by 720 surface.
pub const QUARTER_ASPECT: u32 = 0x3EE3_8E39;

/// Bit pattern of the negated quarter of that aspect ratio.
pub const MINUS_QUARTER_ASPECT: u32 = 0xBEE3_8E39;

/// Three single-precision numbers, as bit patterns.
#[derive(Clone, Copy, Debug, PartialEq, Eq, Structural)]
pub struct Vector3 {
    pub x: u32,
    pub y: u32,
    pub z: u32,
}

/// Four single-precision numbers, as bit patterns.
#[derive(Clone, Copy, Debug, PartialEq, Eq, Structural)]
pub struct Vector4 {
    pub x: u32,
    pub y: u32,
    pub z: u32,
    pub w: u32,
}

/// A vertex with a position and a colour of red, green, blue and alpha.
#[derive(Clone, Copy, Debug, PartialEq, Eq, Structural)]
pub struct ColoredVertex {
    pub position: Vector3,
    pub color: Vector4,
}

/// The four bytes of `word`, least significant first.
pub open spec fn word_bytes(word: u32) -> Seq<u8> {
    seq![
        (word & 0xff) as u8,
        ((word >> 8) & 0xff) as u8,
        ((word >> 16) & 0xff) as u8,
        ((word >> 24) & 0xff) as u8,
    ]
}

/// The word whose bytes, least significant first, are the four bytes of
/// `bytes` from `offset` on.
pub open spec fn word_at(bytes: Seq<u8>, offset: int) -> u32 {
    (bytes[offset] as u32) | (bytes[offset + 1] as u32) << 8 | (bytes[offset + 2] as u32) << 16 | (
    bytes[offset + 3] as u32) << 24
}

/// The bytes of one vertex: its position, then its colour.
pub open spec fn vertex_bytes(vertex: ColoredVertex) -> Seq<u8> {
    word_bytes(vertex.position.x) + word_bytes(vertex.position.y) + word_bytes(vertex.position.z)
        + word_bytes(vertex.color.x) + word_bytes(vertex.color.y) + word_bytes(vertex.color.z)
        + word_bytes(vertex.color.w)
}

/// The vertex whose bytes are the 28 bytes of `bytes` from `offset` on.
pub open spec fn vertex_at(bytes: Seq<u8>, offset: int) -> ColoredVertex {
    ColoredVertex {
        position: Vector3 {
            x: word_at(bytes, offset),
            y: word_at(bytes, offset + 4),
            z: word_at(bytes, offset + 8),
        },
        color: Vector4 {
            x: word_at(bytes, offset + 12),
            y: word_at(bytes, offset + 16),
            z: word_at(bytes, offset + 20),
            w: word_at(bytes, offset + 24),
        },
    }
}

/// The bytes of a run of vertices, one vertex after the other.
pub open spec fn vertex_image(vertices: Seq<ColoredVertex>) -> Seq<u8>
    decreases vertices.len(),
{
    if vertices.len() == 0 {
        Seq::empty()
    } else {
        vertex_image(vertices.drop_last()) + vertex_bytes(vertices.last())
    }
}

/// The vertices that a run of bytes holds, one every 28 bytes.
pub open spec fn vertices_in(image: Seq<u8>) -> Seq<ColoredVertex> {
    Seq::new((image.len() / 28) as nat, |index: int| vertex_at(image, 28 * index))
}

/// The three vertices of the sample triangle.
pub open spec fn sample_triangle() -> Seq<ColoredVertex> {
    seq![
        ColoredVertex {
            position: Vector3 { x: ZERO, y: QUARTER_ASPECT, z: ZERO },
            color: Vector4 { x: ONE, y: ZERO, z: ZERO, w: ONE },
        },
        ColoredVertex {
            position: Vector3 { x: QUARTER, y: MINUS_QUARTER_ASPECT, z: ZERO },
            color: Vector4 { x: ZERO, y: ONE, z: ZERO, w: ONE },
        },
        ColoredVertex {
            position: Vector3 { x: MINUS_QUARTER, y: MINUS_QUARTER_ASPECT, z: ZERO },
            color: Vector4 { x: ZERO, y: ZERO, z: ONE, w: ONE },
        },
    ]
}

/// The sample triangle: a red top, a green right and a blue left corner.
pub fn sample_colored_triangle_vertices() -> (vertices: [ColoredVertex; 3])
    ensures
        vertices@ == sample_triangle(),
{
    [
        ColoredVertex {
            position: Vector3 { x: ZERO, y: QUARTER_ASPECT, z: ZERO },
            color: Vector4 { x: ONE, y: ZERO, z: ZERO, w: ONE },
        },
        ColoredVertex {
            position: Vector3 { x: QUARTER, y: MINUS_QUARTER_ASPECT, z: ZERO },
            color: Vector4 { x: ZERO, y: ONE, z: ZERO, w: ONE },
        },
        ColoredVertex {
            position: Vector3 { x: MINUS_QUARTER, y: MINUS_QUARTER_ASPECT, z: ZERO },
            color: Vector4 { x: ZERO, y: ZERO, z: ONE, w: ONE },
        },
    ]
}

fn push_word(out: &mut Vec<u8>, word: u32)
    ensures
        final(out)@ == old(out)@ + word_bytes(word),
{
    out.push((word & 0xff) as u8);
    out.push(((word >> 8) & 0xff) as u8);
    out.push(((word >> 16) & 0xff) as u8);
    out.push(((word >> 24) & 0xff) as u8);
}

fn push_vertex(out: &mut Vec<u8>, vertex: &ColoredVertex)
    ensures
        final(out)@ == old(out)@ + vertex_bytes(*vertex),
{
    push_word(out, vertex.position.x);
    push_word(out, vertex.position.y);
    push_word(out, vertex.position.z);
    push_word(out, vertex.color.x);
    push_word(out, vertex.color.y);
    push_word(out, vertex.color.z);
    push_word(out, vertex.color.w);
}

/// The bytes that a vertex buffer holding `vertices` contains.
pub fn vertices_to_bytes(vertices: &[ColoredVertex]) -> (image: Vec<u8>)
    ensures
        image@ == vertex_image(vertices@),
        image@.len() == vertices@.len() * VERTEX_STRIDE,
{
    let mut image: Vec<u8> = Vec::new();
    let mut done: usize = 0;
    while done < vertices.len()
        invariant
            done <= vertices@.len(),
            image@ == vertex_image(vertices@.take(done as int)),
        decreases vertices@.len() - done,
    {
        push_vertex(&mut image, &vertices[done]);
        proof {
            let next = vertices@.take(done + 1);
            assert(next.drop_last() == vertices@.take(done as int));
            assert(next.last() == vertices@[done as int]);
        }
        done = done + 1;
    }
    proof {
        assert(vertices@.take(done as int) == vertices@);
        lemma_image_layout(vertices@);
    }
    image
}

fn read_word(image: &[u8], offset: usize) -> (word: u32)
    requires
        offset + 4 <= image@.len(),
    ensures
        word == word_at(image@, offset as int),
{
    (image[offset] as u32) | (image[offset + 1] as u32) << 8 | (image[offset + 2] as u32) << 16 | (
    image[offset + 3] as u32) << 24
}

/// The vertices that `image` holds, if it holds a whole number of them.
pub fn vertices_from_bytes(image: &[u8]) -> (vertices: Option<Vec<ColoredVertex>>)
    ensures
        image@.len() % 28 == 0 ==> vertices is Some && vertices->0@ == vertices_in(image@),
        image@.len() % 28 != 0 ==> vertices is None,
{
    if image.len() % 28 != 0 {
        return None;
    }
    let count = image.len() / 28;
    let mut vertices: Vec<ColoredVertex> = Vec::new();
    let mut done: usize = 0;
    while done < count
        invariant
            count == image@.len() / 28,
            count * 28 == image@.len(),
            image@.len() <= usize::MAX,
            done <= count,
            vertices@.len() == done,
            forall|index: int| 0 <= index < done ==> vertices@[index] == vertex_at(image@, 28 * index),
        decreases count - done,
    {
        let offset = done * 28;
        vertices.push(
            ColoredVertex {
                position: Vector3 {
                    x: read_word(image, offset),
                    y: read_word(image, offset + 4),
                    z: read_word(image, offset + 8),
                },
                color: Vector4 {
                    x: read_word(image, offset + 12),
                    y: read_word(image, offset + 16),
                    z: read_word(image, offset + 20),
                    w: read_word(image, offset + 24),
                },
            },
        );
        done = done + 1;
    }
    assert(vertices@ =~= vertices_in(image@));
    Some(vertices)
}

/// The image of `n` vertices takes `n` strides, and its byte `i` is byte
/// `i % 28` of vertex `i / 28`.
pub proof fn lemma_image_layout(vertices: Seq<ColoredVertex>)
    ensures
        vertex_image(vertices).len() == vertices.len() * VERTEX_STRIDE,
        forall|i: int|
            0 <= i < vertices.len() * VERTEX_STRIDE ==> #[trigger] vertex_image(vertices)[i]
                == vertex_bytes(vertices[i / 28])[i % 28],
    decreases vertices.len(),
{
    if vertices.len() > 0 {
        let head = vertices.drop_last();
        lemma_image_layout(head);
        assert(vertex_bytes(vertices.last()).len() == 28);
        assert forall|i: int| 0 <= i < vertices.len() * VERTEX_STRIDE implies #[trigger] vertex_image(
            vertices,
        )[i] == vertex_bytes(vertices[i / 28])[i % 28] by {
            if i < head.len() * 28 {
                assert(vertex_image(vertices)[i] == vertex_image(head)[i]);
                assert(head[i / 28] == vertices[i / 28]);
            } else {
                assert(i / 28 == head.len());
                assert(i % 28 == i - head.len() * 28);
            }
        }
    }
}

proof fn lemma_word_round_trip(word: u32)
    ensures
        word_at(word_bytes(word), 0) == word,
{
    let b0 = (word & 0xff) as u8;
    let b1 = ((word >> 8) & 0xff) as u8;
    let b2 = ((word >> 16) & 0xff) as u8;
    let b3 = ((word >> 24) & 0xff) as u8;
    assert((b0 as u32) | (b1 as u32) << 8 | (b2 as u32) << 16 | (b3 as u32) << 24 == word)
        by (bit_vector)
        requires
            b0 == (word & 0xff) as u8,
            b1 == ((word >> 8) & 0xff) as u8,
            b2 == ((word >> 16) & 0xff) as u8,
            b3 == ((word >> 24) & 0xff) as u8,
    ;
}

proof fn lemma_vertex_round_trip(vertex: ColoredVertex)
    ensures
        vertex_at(vertex_bytes(vertex), 0) == vertex,
{
    let bytes = vertex_bytes(vertex);
    lemma_word_round_trip(vertex.position.x);
    lemma_word_round_trip(vertex.position.y);
    lemma_word_round_trip(vertex.position.z);
    lemma_word_round_trip(vertex.color.x);
    lemma_word_round_trip(vertex.color.y);
    lemma_word_round_trip(vertex.color.z);
    lemma_word_round_trip(vertex.color.w);
    assert(word_at(bytes, 0) == word_at(word_bytes(vertex.position.x), 0));
    assert(word_at(bytes, 4) == word_at(word_bytes(vertex.position.y), 0));
    assert(word_at(bytes, 8) == word_at(word_bytes(vertex.position.z), 0));
    assert(word_at(bytes, 12) == word_at(word_bytes(vertex.color.x), 0));
    assert(word_at(bytes, 16) == word_at(word_bytes(vertex.color.y), 0));
    assert(word_at(bytes, 20) == word_at(word_bytes(vertex.color.z), 0));
    assert(word_at(bytes, 24) == word_at(word_bytes(vertex.color.w), 0));
}

proof fn lemma_image_len(vertices: Seq<ColoredVertex>)
    ensures
        vertex_image(vertices).len() == vertices.len() * 28,
    decreases vertices.len(),
{
    if vertices.len() > 0 {
        lemma_image_len(vertices.drop_last());
        assert(vertex_bytes(vertices.last()).len() == 28);
    }
}

proof fn lemma_image_byte(vertices: Seq<ColoredVertex>, index: int, k: int)
    requires
        0 <= index < vertices.len(),
        0 <= k < 28,
    ensures
        vertex_image(vertices)[28 * index + k] == vertex_bytes(vertices[index])[k],
{
    let i = 28 * index + k;
    lemma_fundamental_div_mod_converse(i, 28, index, k);
    lemma_image_layout(vertices);
    assert(vertex_image(vertices)[i] == vertex_bytes(vertices[i / 28])[i % 28]);
}

proof fn lemma_image_word(vertices: Seq<ColoredVertex>, index: int, offset: int)
    requires
        0 <= index < vertices.len(),
        0 <= offset <= 24,
    ensures
        word_at(vertex_image(vertices), 28 * index + offset) == word_at(
            vertex_bytes(vertices[index]),
            offset,
        ),
{
    lemma_image_byte(vertices, index, offset);
    lemma_image_byte(vertices, index, offset + 1);
    lemma_image_byte(vertices, index, offset + 2);
    lemma_image_byte(vertices, index, offset + 3);
}

proof fn lemma_vertex_in_image(vertices: Seq<ColoredVertex>, index: int)
    requires
        0 <= index < vertices.len(),
    ensures
        vertex_at(vertex_image(vertices), 28 * index) == vertices[index],
{
    lemma_vertex_round_trip(vertices[index]);
    lemma_image_word(vertices, index, 0);
    lemma_image_word(vertices, index, 4);
    lemma_image_word(vertices, index, 8);
    lemma_image_word(vertices, index, 12);
    lemma_image_word(vertices, index, 16);
    lemma_image_word(vertices, index, 20);
    lemma_image_word(vertices, index, 24);
}

/// The bytes of vertices, read as vertices again, are the vertices byte for
/// byte: nothing is lost on the way into the buffer and out of it.
pub proof fn lemma_image_round_trip(vertices: Seq<ColoredVertex>)
    ensures
        vertices_in(vertex_image(vertices)) == vertices,
{
    let image = vertex_image(vertices);
    lemma_image_len(vertices);
    assert(image.len() / 28 == vertices.len());
    assert forall|index: int| 0 <= index < vertices.len() implies vertex_at(image, 28 * index)
        == vertices[index] by {
        lemma_vertex_in_image(vertices, index);
    }
    assert(vertices_in(image) =~= vertices);
}

} // verus!
