//! The presentation surface: the command queue that feeds it, the swap chain
//! and the heap of its render-target views.

use vstd::prelude::*;
use crate::descriptor::offset_address;
use crate::descriptor::offset_pointer;
use crate::descriptor::CD3D12_CPU_DESCRIPTOR_HANDLE;

verus! {

/// Width of the surface in pixels. The window, the viewport, the scissor
/// rectangle and the swap chain all take it from here.
pub const SURFACE_WIDTH: u32 = 1280;

/// Height of the surface in pixels.
pub const SURFACE_HEIGHT: u32 = 720;

/// Buffers of a double-buffered swap chain.
pub const FRAME_COUNT: u32 = 2;

/// The most buffers a swap chain can have.
pub const MAX_SWAP_CHAIN_BUFFERS: u32 = 16;

pub const FORMAT_UNKNOWN: u32 = 0;

/// Four channels of eight bits each.
pub const FORMAT_R8G8B8A8_UNORM: u32 = 28;

pub const ALPHA_MODE_IGNORE: u32 = 3;

pub const SCALING_STRETCH: u32 = 0;

pub const SWAP_EFFECT_FLIP_DISCARD: u32 = 4;

pub const SWAP_CHAIN_FLAG_FRAME_LATENCY_WAITABLE_OBJECT: u32 = 64;

pub const USAGE_RENDER_TARGET_OUTPUT: u32 = 32;

pub const COMMAND_LIST_TYPE_DIRECT: u32 = 0;

pub const COMMAND_QUEUE_PRIORITY_NORMAL: i32 = 0;

pub const COMMAND_QUEUE_FLAG_NONE: u32 = 0;

pub const DESCRIPTOR_HEAP_TYPE_RTV: u32 = 2;

pub const DESCRIPTOR_HEAP_FLAG_NONE: u32 = 0;

/// Presentation waits for one vertical blank.
pub const PRESENT_SYNC_INTERVAL: u32 = 1;

pub const PRESENT_FLAGS: u32 = 0;

/// A command queue.
#[derive(Clone, Copy, Debug, PartialEq, Eq, Structural)]
pub struct CommandQueueDesc {
    pub list_type: u32,
    pub priority: i32,
    pub flags: u32,
    pub node_mask: u32,
}

/// The one queue of the renderer: direct, of normal priority.
pub fn command_queue_desc() -> (desc: CommandQueueDesc)
    ensures
        desc == (CommandQueueDesc {
            list_type: COMMAND_LIST_TYPE_DIRECT,
            priority: COMMAND_QUEUE_PRIORITY_NORMAL,
            flags: COMMAND_QUEUE_FLAG_NONE,
            node_mask: 0,
        }),
{
    CommandQueueDesc {
        list_type: COMMAND_LIST_TYPE_DIRECT,
        priority: COMMAND_QUEUE_PRIORITY_NORMAL,
        flags: COMMAND_QUEUE_FLAG_NONE,
        node_mask: 0,
    }
}

/// A swap chain.
#[derive(Clone, Copy, Debug, PartialEq, Eq, Structural)]
pub struct SwapChainDesc {
    pub width: u32,
    pub height: u32,
    pub format: u32,
    pub stereo: bool,
    pub sample_count: u32,
    pub sample_quality: u32,
    pub buffer_usage: u32,
    pub buffer_count: u32,
    pub scaling: u32,
    pub swap_effect: u32,
    pub alpha_mode: u32,
    pub flags: u32,
}

/// The flip-model swap chain of `frame_count` buffers: as large as the
/// surface, eight bits per channel, one sample per pixel, alpha ignored.
pub open spec fn flip_swap_chain(frame_count: u32) -> SwapChainDesc {
    SwapChainDesc {
        width: SURFACE_WIDTH,
        height: SURFACE_HEIGHT,
        format: FORMAT_R8G8B8A8_UNORM,
        stereo: false,
        sample_count: 1,
        sample_quality: 0,
        buffer_usage: USAGE_RENDER_TARGET_OUTPUT,
        buffer_count: frame_count,
        scaling: SCALING_STRETCH,
        swap_effect: SWAP_EFFECT_FLIP_DISCARD,
        alpha_mode: ALPHA_MODE_IGNORE,
        flags: SWAP_CHAIN_FLAG_FRAME_LATENCY_WAITABLE_OBJECT,
    }
}

/// The swap chain of `frame_count` buffers.
pub fn swap_chain_desc(frame_count: u32) -> (desc: SwapChainDesc)
    ensures
        desc == flip_swap_chain(frame_count),
{
    SwapChainDesc {
        width: SURFACE_WIDTH,
        height: SURFACE_HEIGHT,
        format: FORMAT_R8G8B8A8_UNORM,
        stereo: false,
        sample_count: 1,
        sample_quality: 0,
        buffer_usage: USAGE_RENDER_TARGET_OUTPUT,
        buffer_count: frame_count,
        scaling: SCALING_STRETCH,
        swap_effect: SWAP_EFFECT_FLIP_DISCARD,
        alpha_mode: ALPHA_MODE_IGNORE,
        flags: SWAP_CHAIN_FLAG_FRAME_LATENCY_WAITABLE_OBJECT,
    }
}

/// A descriptor heap.
#[derive(Clone, Copy, Debug, PartialEq, Eq, Structural)]
pub struct DescriptorHeapDesc {
    pub heap_type: u32,
    pub num_descriptors: u32,
    pub flags: u32,
    pub node_mask: u32,
}

/// The heap that holds one render-target view for each of `frame_count`
/// buffers.
pub fn rtv_heap_desc(frame_count: u32) -> (desc: DescriptorHeapDesc)
    ensures
        desc == (DescriptorHeapDesc {
            heap_type: DESCRIPTOR_HEAP_TYPE_RTV,
            num_descriptors: frame_count,
            flags: DESCRIPTOR_HEAP_FLAG_NONE,
            node_mask: 0,
        }),
{
    DescriptorHeapDesc {
        heap_type: DESCRIPTOR_HEAP_TYPE_RTV,
        num_descriptors: frame_count,
        flags: DESCRIPTOR_HEAP_FLAG_NONE,
        node_mask: 0,
    }
}

/// Address of the render-target view of buffer `index` in a heap that
/// starts at `heap_start` and spaces its descriptors by `increment` bytes.
pub open spec fn rtv_address(heap_start: usize, increment: u32, index: u32) -> int {
    offset_address(heap_start as int, index as int, increment as int)
}

/// The handle of the render-target view of buffer `index`.
pub fn render_target_view(heap_start: usize, increment: u32, index: u32) -> (handle:
    CD3D12_CPU_DESCRIPTOR_HANDLE)
    ensures
        handle.ptr as int == rtv_address(heap_start, increment, index),
{
    CD3D12_CPU_DESCRIPTOR_HANDLE { ptr: offset_pointer(heap_start, index as i64, increment) }
}

} // verus!
