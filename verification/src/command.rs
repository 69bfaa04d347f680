//! The commands of one frame and the order in which they are recorded.

use vstd::prelude::*;
use crate::descriptor::CD3D12_CPU_DESCRIPTOR_HANDLE;
use crate::swap_chain::SURFACE_HEIGHT;
use crate::swap_chain::SURFACE_WIDTH;
use crate::upload::VertexBufferView;

verus! {

/// Native value of the state in which a buffer is presented.
pub const RESOURCE_STATE_PRESENT: u32 = 0;

/// Native value of the state in which a buffer is rendered to.
pub const RESOURCE_STATE_RENDER_TARGET: u32 = 0x4;

/// A transition that covers every subresource.
pub const RESOURCE_BARRIER_ALL_SUBRESOURCES: u32 = 0xffff_ffff;

pub const RESOURCE_BARRIER_FLAG_NONE: u32 = 0;

/// A list of separate triangles.
pub const PRIMITIVE_TOPOLOGY_TRIANGLELIST: u32 = 4;

/// Commands recorded for one frame.
pub const COMMANDS_PER_FRAME: u32 = 13;

/// The region of the surface that is drawn to, in pixels, and the range of
/// depth. The native viewport holds the same whole numbers in floating point.
#[derive(Clone, Copy, Debug, PartialEq, Eq, Structural)]
pub struct Viewport {
    pub top_left_x: u32,
    pub top_left_y: u32,
    pub width: u32,
    pub height: u32,
    pub min_depth: u32,
    pub max_depth: u32,
}

/// A rectangle in pixels.
#[derive(Clone, Copy, Debug, PartialEq, Eq, Structural)]
pub struct Rect {
    pub left: i32,
    pub top: i32,
    pub right: i32,
    pub bottom: i32,
}

/// The viewport that covers the surface.
pub open spec fn full_viewport() -> Viewport {
    Viewport {
        top_left_x: 0,
        top_left_y: 0,
        width: SURFACE_WIDTH,
        height: SURFACE_HEIGHT,
        min_depth: 0,
        max_depth: 1,
    }
}

/// The scissor rectangle that covers the surface.
pub open spec fn full_scissor() -> Rect {
    Rect { left: 0, top: 0, right: SURFACE_WIDTH as i32, bottom: SURFACE_HEIGHT as i32 }
}

/// A colour as the bit patterns of four single-precision numbers.
#[derive(Clone, Copy, Debug, PartialEq, Eq, Structural)]
pub struct ClearColor {
    pub red: u32,
    pub green: u32,
    pub blue: u32,
    pub alpha: u32,
}

/// The colour every frame is cleared to: `(0.0, 0.2, 0.4, 1.0)`.
pub open spec fn clear_color() -> ClearColor {
    ClearColor { red: 0, green: 0x3E4C_CCCD, blue: 0x3ECC_CCCD, alpha: 0x3F80_0000 }
}

/// The two states a back buffer is in.
#[derive(Clone, Copy, Debug, PartialEq, Eq, Structural)]
pub enum ResourceState {
    Present,
    RenderTarget,
}

impl ResourceState {
    /// The native value of the state.
    pub fn bits(self) -> (bits: u32)
        ensures
            self == ResourceState::Present ==> bits == RESOURCE_STATE_PRESENT,
            self == ResourceState::RenderTarget ==> bits == RESOURCE_STATE_RENDER_TARGET,
    {
        match self {
            ResourceState::Present => RESOURCE_STATE_PRESENT,
            ResourceState::RenderTarget => RESOURCE_STATE_RENDER_TARGET,
        }
    }
}

/// One command of a frame.
#[allow(inconsistent_fields)]
#[derive(Clone, Copy, Debug, PartialEq, Eq, Structural)]
pub enum Command {
    /// Reset the allocator of the frame.
    ResetAllocator,
    /// Reset the command list and bind the pipeline state again.
    ResetCommandList,
    SetGraphicsRootSignature,
    SetViewport { viewport: Viewport },
    SetScissorRect { rect: Rect },
    /// Move back buffer `buffer_index` from state `before` to state `after`.
    Transition { buffer_index: u32, before: ResourceState, after: ResourceState },
    SetRenderTarget { view: CD3D12_CPU_DESCRIPTOR_HANDLE },
    ClearRenderTarget { view: CD3D12_CPU_DESCRIPTOR_HANDLE, color: ClearColor },
    SetPrimitiveTopology { topology: u32 },
    SetVertexBuffer { slot: u32, view: VertexBufferView },
    DrawInstanced { vertex_count: u32, instance_count: u32, start_vertex: u32, start_instance: u32 },
    /// Close the list: nothing is recorded until the next reset.
    Close,
}

/// What the commands of a frame depend on.
#[derive(Clone, Copy, Debug, PartialEq, Eq, Structural)]
pub struct FrameInputs {
    pub viewport: Viewport,
    pub scissor_rect: Rect,
    /// Index of the back buffer that the frame is drawn to.
    pub frame_index: u32,
    /// Render-target view of that buffer.
    pub render_target: CD3D12_CPU_DESCRIPTOR_HANDLE,
    pub vertex_buffer_view: VertexBufferView,
    pub vertex_count: u32,
}

/// The commands of one frame, in the order of their recording.
pub open spec fn frame_commands(inputs: FrameInputs) -> Seq<Command> {
    seq![
        Command::ResetAllocator,
        Command::ResetCommandList,
        Command::SetGraphicsRootSignature,
        Command::SetViewport { viewport: inputs.viewport },
        Command::SetScissorRect { rect: inputs.scissor_rect },
        Command::Transition {
            buffer_index: inputs.frame_index,
            before: ResourceState::Present,
            after: ResourceState::RenderTarget,
        },
        Command::SetRenderTarget { view: inputs.render_target },
        Command::ClearRenderTarget { view: inputs.render_target, color: clear_color() },
        Command::SetPrimitiveTopology { topology: PRIMITIVE_TOPOLOGY_TRIANGLELIST },
        Command::SetVertexBuffer { slot: 0, view: inputs.vertex_buffer_view },
        Command::DrawInstanced {
            vertex_count: inputs.vertex_count,
            instance_count: 1,
            start_vertex: 0,
            start_instance: 0,
        },
        Command::Transition {
            buffer_index: inputs.frame_index,
            before: ResourceState::RenderTarget,
            after: ResourceState::Present,
        },
        Command::Close,
    ]
}

/// Whether `command` writes to the render target.
pub open spec fn writes_render_target(command: Command) -> bool {
    command is ClearRenderTarget || command is DrawInstanced
}

/// Whether `command` hands back buffer `buffer_index` over for rendering.
pub open spec fn opens_rendering(command: Command, buffer_index: u32) -> bool {
    command == (Command::Transition {
        buffer_index,
        before: ResourceState::Present,
        after: ResourceState::RenderTarget,
    })
}

/// Whether `command` hands back buffer `buffer_index` back for presentation.
pub open spec fn closes_rendering(command: Command, buffer_index: u32) -> bool {
    command == (Command::Transition {
        buffer_index,
        before: ResourceState::RenderTarget,
        after: ResourceState::Present,
    })
}

/// Whether the command at `position` stands between a transition of
/// `buffer_index` to the render-target state and the next transition, which
/// takes the buffer back to the present state.
pub open spec fn within_rendering(commands: Seq<Command>, buffer_index: u32, position: int) -> bool {
    exists|opening: int, closing: int|
        0 <= opening < position < closing < commands.len() && opens_rendering(
            #[trigger] commands[opening],
            buffer_index,
        ) && closes_rendering(#[trigger] commands[closing], buffer_index) && forall|between: int|
            opening < between < closing ==> !(#[trigger] commands[between] is Transition)
}

/// Whether every command that writes to the render target stands within the
/// rendering of `buffer_index`.
pub open spec fn writes_are_bracketed(commands: Seq<Command>, buffer_index: u32) -> bool {
    forall|position: int|
        0 <= position < commands.len() && writes_render_target(#[trigger] commands[position])
            ==> within_rendering(commands, buffer_index, position)
}

/// Whether the list starts with the two resets, ends with its closing and is
/// closed nowhere else.
pub open spec fn is_closed_recording(commands: Seq<Command>) -> bool {
    &&& commands.len() >= 3
    &&& commands[0] == Command::ResetAllocator
    &&& commands[1] == Command::ResetCommandList
    &&& commands.last() == Command::Close
    &&& forall|position: int|
        0 <= position < commands.len() - 1 ==> !(#[trigger] commands[position] is Close)
}

/// Records the commands of one frame.
pub fn record_frame(inputs: &FrameInputs) -> (commands: Vec<Command>)
    ensures
        commands@ == frame_commands(*inputs),
        commands@.len() == COMMANDS_PER_FRAME,
        writes_are_bracketed(commands@, inputs.frame_index),
        is_closed_recording(commands@),
{
    let mut commands: Vec<Command> = Vec::new();
    commands.push(Command::ResetAllocator);
    commands.push(Command::ResetCommandList);
    commands.push(Command::SetGraphicsRootSignature);
    commands.push(Command::SetViewport { viewport: inputs.viewport });
    commands.push(Command::SetScissorRect { rect: inputs.scissor_rect });
    commands.push(
        Command::Transition {
            buffer_index: inputs.frame_index,
            before: ResourceState::Present,
            after: ResourceState::RenderTarget,
        },
    );
    commands.push(Command::SetRenderTarget { view: inputs.render_target });
    commands.push(
        Command::ClearRenderTarget {
            view: inputs.render_target,
            color: ClearColor { red: 0, green: 0x3E4C_CCCD, blue: 0x3ECC_CCCD, alpha: 0x3F80_0000 },
        },
    );
    commands.push(Command::SetPrimitiveTopology { topology: PRIMITIVE_TOPOLOGY_TRIANGLELIST });
    commands.push(Command::SetVertexBuffer { slot: 0, view: inputs.vertex_buffer_view });
    commands.push(
        Command::DrawInstanced {
            vertex_count: inputs.vertex_count,
            instance_count: 1,
            start_vertex: 0,
            start_instance: 0,
        },
    );
    commands.push(
        Command::Transition {
            buffer_index: inputs.frame_index,
            before: ResourceState::RenderTarget,
            after: ResourceState::Present,
        },
    );
    commands.push(Command::Close);
    proof {
        assert(commands@ =~= frame_commands(*inputs));
        lemma_frame_is_bracketed(*inputs);
    }
    commands
}

/// In the commands of a frame, whatever the frame is drawn with, the clear
/// and the draw stand after the transition of the back buffer to the
/// render-target state and before its transition back, no other transition
/// stands between the two, and the list is closed at its end and only there.
pub proof fn lemma_frame_is_bracketed(inputs: FrameInputs)
    ensures
        writes_are_bracketed(frame_commands(inputs), inputs.frame_index),
        is_closed_recording(frame_commands(inputs)),
        frame_commands(inputs).len() == COMMANDS_PER_FRAME,
{
    let commands = frame_commands(inputs);
    assert(opens_rendering(commands[5], inputs.frame_index));
    assert(closes_rendering(commands[11], inputs.frame_index));
    assert forall|position: int|
        0 <= position < commands.len() && writes_render_target(
            #[trigger] commands[position],
        ) implies within_rendering(commands, inputs.frame_index, position) by {
        assert(position == 7 || position == 10);
        assert forall|between: int| 5 < between < 11 implies !(#[trigger] commands[between]
            is Transition) by {
            assert(between == 6 || between == 7 || between == 8 || between == 9 || between == 10);
        }
    }
}

} // verus!
