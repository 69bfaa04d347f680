//! The vertex buffer: a buffer in the upload heap that is written once, and
//! the view through which the input assembler reads it.

use vstd::prelude::*;
use crate::geometry::VERTEX_STRIDE;
use crate::swap_chain::FORMAT_UNKNOWN;

verus! {

/// The heap that the CPU writes and the GPU reads.
pub const HEAP_TYPE_UPLOAD: u32 = 2;

pub const CPU_PAGE_PROPERTY_UNKNOWN: u32 = 0;

pub const MEMORY_POOL_UNKNOWN: u32 = 0;

pub const HEAP_FLAG_NONE: u32 = 0;

pub const RESOURCE_DIMENSION_BUFFER: u32 = 1;

pub const TEXTURE_LAYOUT_ROW_MAJOR: u32 = 1;

pub const RESOURCE_FLAG_NONE: u32 = 0;

/// The state in which a resource of the upload heap is created.
pub const RESOURCE_STATE_GENERIC_READ: u32 = 0xAC3;

/// Where a committed resource lives.
#[derive(Clone, Copy, Debug, PartialEq, Eq, Structural)]
pub struct HeapProperties {
    pub heap_type: u32,
    pub cpu_page_property: u32,
    pub memory_pool_preference: u32,
    pub creation_node_mask: u32,
    pub visible_node_mask: u32,
}

/// The upload heap of the only node.
pub fn upload_heap_properties() -> (properties: HeapProperties)
    ensures
        properties == (HeapProperties {
            heap_type: HEAP_TYPE_UPLOAD,
            cpu_page_property: CPU_PAGE_PROPERTY_UNKNOWN,
            memory_pool_preference: MEMORY_POOL_UNKNOWN,
            creation_node_mask: 0,
            visible_node_mask: 0,
        }),
{
    HeapProperties {
        heap_type: HEAP_TYPE_UPLOAD,
        cpu_page_property: CPU_PAGE_PROPERTY_UNKNOWN,
        memory_pool_preference: MEMORY_POOL_UNKNOWN,
        creation_node_mask: 0,
        visible_node_mask: 0,
    }
}

/// A resource.
#[derive(Clone, Copy, Debug, PartialEq, Eq, Structural)]
pub struct ResourceDesc {
    pub dimension: u32,
    pub alignment: u64,
    pub width: u64,
    pub height: u32,
    pub depth_or_array_size: u16,
    pub mip_levels: u16,
    pub format: u32,
    pub sample_count: u32,
    pub sample_quality: u32,
    pub layout: u32,
    pub flags: u32,
}

/// A plain buffer of `size_in_bytes` bytes.
pub open spec fn buffer_of(size_in_bytes: u64) -> ResourceDesc {
    ResourceDesc {
        dimension: RESOURCE_DIMENSION_BUFFER,
        alignment: 0,
        width: size_in_bytes,
        height: 1,
        depth_or_array_size: 1,
        mip_levels: 1,
        format: FORMAT_UNKNOWN,
        sample_count: 1,
        sample_quality: 0,
        layout: TEXTURE_LAYOUT_ROW_MAJOR,
        flags: RESOURCE_FLAG_NONE,
    }
}

/// The buffer that holds `vertex_count` vertices and not a byte more.
pub fn vertex_buffer_desc(vertex_count: u32) -> (desc: ResourceDesc)
    ensures
        desc == buffer_of((vertex_count * VERTEX_STRIDE) as u64),
{
    assert(vertex_count * VERTEX_STRIDE <= u64::MAX) by {
        assert(VERTEX_STRIDE == 28);
    }
    let size: u64 = vertex_count as u64 * VERTEX_STRIDE as u64;
    buffer_desc(size)
}

fn buffer_desc(size_in_bytes: u64) -> (desc: ResourceDesc)
    ensures
        desc == buffer_of(size_in_bytes),
{
    ResourceDesc {
        dimension: RESOURCE_DIMENSION_BUFFER,
        alignment: 0,
        width: size_in_bytes,
        height: 1,
        depth_or_array_size: 1,
        mip_levels: 1,
        format: FORMAT_UNKNOWN,
        sample_count: 1,
        sample_quality: 0,
        layout: TEXTURE_LAYOUT_ROW_MAJOR,
        flags: RESOURCE_FLAG_NONE,
    }
}

/// The bytes of a mapped buffer that the CPU is going to read.
#[derive(Clone, Copy, Debug, PartialEq, Eq, Structural)]
pub struct MapRange {
    pub begin: usize,
    pub end: usize,
}

/// The range with which a buffer is mapped for writing only: the CPU reads
/// nothing.
pub fn write_only_range() -> (range: MapRange)
    ensures
        range.begin == 0,
        range.end == 0,
{
    MapRange { begin: 0, end: 0 }
}

/// How the input assembler finds the vertices.
#[derive(Clone, Copy, Debug, PartialEq, Eq, Structural)]
pub struct VertexBufferView {
    pub buffer_location: u64,
    pub size_in_bytes: u32,
    pub stride_in_bytes: u32,
}

/// The view of `vertex_count` vertices that lie at `buffer_location`.
pub open spec fn view_of(buffer_location: u64, vertex_count: int) -> VertexBufferView {
    VertexBufferView {
        buffer_location,
        size_in_bytes: (vertex_count * VERTEX_STRIDE) as u32,
        stride_in_bytes: VERTEX_STRIDE,
    }
}

/// The view of `vertex_count` vertices that lie at `buffer_location`: its
/// size is the number of vertices times the stride.
pub fn vertex_buffer_view(buffer_location: u64, vertex_count: u32) -> (view: VertexBufferView)
    requires
        vertex_count * VERTEX_STRIDE <= u32::MAX,
    ensures
        view == view_of(buffer_location, vertex_count as int),
        view.size_in_bytes == vertex_count * view.stride_in_bytes,
        view.stride_in_bytes == 28,
    no_unwind
{
    VertexBufferView {
        buffer_location,
        size_in_bytes: vertex_count * VERTEX_STRIDE,
        stride_in_bytes: VERTEX_STRIDE,
    }
}

} // verus!
