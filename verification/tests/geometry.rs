use cgmath::Vector3 as FloatVector3;
use cgmath::Vector4 as FloatVector4;
use dx_renderer::geometry::sample_colored_triangle_vertices;
use dx_renderer::geometry::vertices_from_bytes;
use dx_renderer::geometry::vertices_to_bytes;
use dx_renderer::geometry::ColoredVertex;
use dx_renderer::geometry::Vector3;
use dx_renderer::geometry::Vector4;
use dx_renderer::geometry::COLOR_SIZE;
use dx_renderer::geometry::POSITION_SIZE;
use dx_renderer::geometry::VERTEX_STRIDE;

const ASPECT_RATIO: f32 = 1280.0 / 720.0;

fn float_triangle() -> [(FloatVector3<f32>, FloatVector4<f32>); 3] {
    [
        (
            FloatVector3::new(0.0, 0.25 * ASPECT_RATIO, 0.0),
            FloatVector4::new(1.0, 0.0, 0.0, 1.0),
        ),
        (
            FloatVector3::new(0.25, -0.25 * ASPECT_RATIO, 0.0),
            FloatVector4::new(0.0, 1.0, 0.0, 1.0),
        ),
        (
            FloatVector3::new(-0.25, -0.25 * ASPECT_RATIO, 0.0),
            FloatVector4::new(0.0, 0.0, 1.0, 1.0),
        ),
    ]
}

#[test]
fn sample_triangle_holds_the_bits_of_its_coordinates() {
    let vertices = sample_colored_triangle_vertices();
    let floats = float_triangle();
    assert_eq!(vertices.len(), 3);
    for (vertex, (position, color)) in vertices.iter().zip(floats.iter()) {
        assert_eq!(vertex.position.x, position.x.to_bits());
        assert_eq!(vertex.position.y, position.y.to_bits());
        assert_eq!(vertex.position.z, position.z.to_bits());
        assert_eq!(vertex.color.x, color.x.to_bits());
        assert_eq!(vertex.color.y, color.y.to_bits());
        assert_eq!(vertex.color.z, color.z.to_bits());
        assert_eq!(vertex.color.w, color.w.to_bits());
    }
}

#[test]
fn sample_triangle_is_red_green_blue() {
    let vertices = sample_colored_triangle_vertices();
    let one = 1.0f32.to_bits();
    assert_eq!(vertices[0].color, Vector4 { x: one, y: 0, z: 0, w: one });
    assert_eq!(vertices[1].color, Vector4 { x: 0, y: one, z: 0, w: one });
    assert_eq!(vertices[2].color, Vector4 { x: 0, y: 0, z: one, w: one });
    assert_eq!(f32::from_bits(vertices[0].position.y), 0.25 * ASPECT_RATIO);
    assert_eq!(f32::from_bits(vertices[1].position.x), 0.25);
    assert_eq!(f32::from_bits(vertices[2].position.x), -0.25);
    assert_eq!(f32::from_bits(vertices[2].position.y), -0.25 * ASPECT_RATIO);
}

#[test]
fn vertex_takes_28_bytes() {
    assert_eq!(POSITION_SIZE, 12);
    assert_eq!(COLOR_SIZE, 16);
    assert_eq!(VERTEX_STRIDE, POSITION_SIZE + COLOR_SIZE);
    assert_eq!(VERTEX_STRIDE as usize, std::mem::size_of::<ColoredVertex>());
    assert_eq!(
        VERTEX_STRIDE as usize,
        std::mem::size_of::<FloatVector3<f32>>() + std::mem::size_of::<FloatVector4<f32>>()
    );
}

#[test]
fn triangle_image_is_84_bytes_of_little_endian_floats() {
    let image = vertices_to_bytes(&sample_colored_triangle_vertices());
    assert_eq!(image.len(), 84);
    let mut expected = Vec::new();
    for (position, color) in float_triangle().iter() {
        for number in [position.x, position.y, position.z, color.x, color.y, color.z, color.w] {
            expected.extend_from_slice(&number.to_le_bytes());
        }
    }
    assert_eq!(image, expected);
}

#[test]
fn image_bytes_of_one_vertex_are_exact() {
    let vertex = ColoredVertex {
        position: Vector3 { x: 0x0403_0201, y: 0x0807_0605, z: 0x0C0B_0A09 },
        color: Vector4 { x: 0x100F_0E0D, y: 0x1413_1211, z: 0x1817_1615, w: 0x1C1B_1A19 },
    };
    let image = vertices_to_bytes(&[vertex]);
    let expected: Vec<u8> = (1..=28).collect();
    assert_eq!(image, expected);
}

#[test]
fn empty_run_of_vertices_has_an_empty_image() {
    assert_eq!(vertices_to_bytes(&[]), Vec::<u8>::new());
    assert_eq!(vertices_from_bytes(&[]), Some(Vec::new()));
}

#[test]
fn image_reads_back_as_the_vertices() {
    let vertices = sample_colored_triangle_vertices();
    let image = vertices_to_bytes(&vertices);
    assert_eq!(vertices_from_bytes(&image), Some(vertices.to_vec()));
    let written = image.clone();
    let remapped = written.clone();
    assert_eq!(&remapped[..84], &image[..]);
}

#[test]
fn image_of_many_vertices_reads_back() {
    let mut vertices = Vec::new();
    for n in 0..50u32 {
        vertices.push(ColoredVertex {
            position: Vector3 { x: n, y: n.wrapping_mul(0x9E37_79B9), z: !n },
            color: Vector4 { x: n << 24, y: n << 16, z: n << 8, w: u32::MAX - n },
        });
    }
    let image = vertices_to_bytes(&vertices);
    assert_eq!(image.len(), 50 * 28);
    assert_eq!(vertices_from_bytes(&image), Some(vertices));
}

#[test]
fn partial_vertex_does_not_read_back() {
    let image = vertices_to_bytes(&sample_colored_triangle_vertices());
    assert_eq!(vertices_from_bytes(&image[..83]), None);
    assert_eq!(vertices_from_bytes(&image[..1]), None);
    assert_eq!(vertices_from_bytes(&image[..56]).map(|v| v.len()), Some(2));
}
