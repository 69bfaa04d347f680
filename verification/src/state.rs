//! What a renderer remembers between two native calls, the call it waits
//! for in each stage, and how the answer to that call moves it on.
//!
//! The renderer makes no native call itself. In every stage it asks for one
//! ([`Request`]); the embedding program makes the call and reports what the
//! driver returned ([`Reply`]).

use vstd::prelude::*;
use crate::command::frame_commands;
use crate::command::full_scissor;
use crate::command::full_viewport;
use crate::command::Command;
use crate::command::FrameInputs;
use crate::command::Rect;
use crate::command::Viewport;
use crate::command::COMMANDS_PER_FRAME;
use crate::descriptor::CD3D12_CPU_DESCRIPTOR_HANDLE;
use crate::error::hr_succeeded;
use crate::error::RendererError;
use crate::error::Resource;
use crate::error::ShaderStage;
use crate::error::SyncFailure;
use crate::error::DXGI_ERROR_NOT_FOUND;
use crate::geometry::VERTEX_STRIDE;
use crate::pipeline::compile_flags;
use crate::pipeline::shader_compiled;
use crate::pipeline::triangle_pipeline;
use crate::pipeline::GraphicsPipelineDesc;
use crate::pipeline::RootSignatureDesc;
use crate::pipeline::ROOT_SIGNATURE_FLAG_ALLOW_INPUT_LAYOUT;
use crate::pipeline::ROOT_SIGNATURE_VERSION_1_0;
use crate::swap_chain::flip_swap_chain;
use crate::swap_chain::rtv_address;
use crate::swap_chain::CommandQueueDesc;
use crate::swap_chain::DescriptorHeapDesc;
use crate::swap_chain::SwapChainDesc;
use crate::swap_chain::COMMAND_LIST_TYPE_DIRECT;
use crate::swap_chain::COMMAND_QUEUE_FLAG_NONE;
use crate::swap_chain::COMMAND_QUEUE_PRIORITY_NORMAL;
use crate::swap_chain::DESCRIPTOR_HEAP_FLAG_NONE;
use crate::swap_chain::DESCRIPTOR_HEAP_TYPE_RTV;
use crate::swap_chain::FRAME_COUNT;
use crate::swap_chain::PRESENT_FLAGS;
use crate::swap_chain::PRESENT_SYNC_INTERVAL;
use crate::upload::buffer_of;
use crate::upload::view_of;
use crate::upload::HeapProperties;
use crate::upload::MapRange;
use crate::upload::ResourceDesc;
use crate::upload::VertexBufferView;
use crate::upload::CPU_PAGE_PROPERTY_UNKNOWN;
use crate::upload::HEAP_TYPE_UPLOAD;
use crate::upload::MEMORY_POOL_UNKNOWN;
use crate::upload::RESOURCE_STATE_GENERIC_READ;
use crate::window::Window;

verus! {

/// The lowest feature level a device must support: 11.0.
pub const FEATURE_LEVEL_11_0: u32 = 0xb000;

/// Factory flag that turns the debug layer of the factory on.
pub const CREATE_FACTORY_DEBUG: u32 = 0x1;

/// Vertices of the triangle.
pub const TRIANGLE_VERTEX_COUNT: u32 = 3;

/// The value a fence is created with.
pub const INITIAL_FENCE_VALUE: u64 = 0;

/// A wait without a time limit.
pub const INFINITE: u32 = 0xFFFF_FFFF;

/// Result of a wait that the event ended.
pub const WAIT_OBJECT_0: u64 = 0;

/// Result of a wait on an object whose owner went away.
pub const WAIT_ABANDONED: u64 = 0x80;

/// Result of a wait that ran out of time.
pub const WAIT_TIMEOUT: u64 = 0x102;

/// Where a renderer stands. But for the stages of rest, a stage is named
/// after the native call whose answer it waits for.
#[derive(Clone, Copy, Debug, PartialEq, Eq, Structural)]
pub enum Stage {
    /// Nothing has been loaded.
    Created,
    EnablingValidation,
    CreatingFactory,
    EnumeratingAdapter,
    CastingAdapter,
    ReleasingEnumeration,
    ProbingAdapter,
    ReleasingProbe,
    ReleasingAdapter,
    CreatingDevice,
    CreatingCommandQueue,
    CreatingSwapChain,
    UpgradingSwapChain,
    ReadingBackBuffer,
    CreatingDescriptorHeap,
    ReadingDescriptorSize,
    ReadingHeapStart,
    CreatingRenderTarget,
    CreatingCommandAllocator,
    /// Device, queue, swap chain, render-target views and allocator exist.
    PipelineLoaded,
    SerializingRootSignature,
    CreatingRootSignature,
    CompilingVertexShader,
    CompilingPixelShader,
    CreatingPipelineState,
    CreatingCommandList,
    ClosingCommandList,
    CreatingVertexBuffer,
    MappingVertexBuffer,
    WritingVertices,
    UnmappingVertexBuffer,
    ReadingGpuAddress,
    CreatingFence,
    CreatingFenceEvent,
    /// The queue is asked to signal the fence.
    Signaling,
    /// The fence was signaled; how far the GPU has come is being read.
    ReadingCompletedValue,
    RegisteringWait,
    /// The GPU is behind; the thread is blocked on the fence event.
    Waiting,
    ReadingFrameIndex,
    /// Idle: everything is loaded and no frame is in flight.
    Ready,
    Recording,
    Executing,
    Presenting,
    ClosingFenceEvent,
    /// Torn down.
    Destroyed,
    /// Given up. The failure says why.
    Failed,
}

/// What a renderer is busy with.
#[derive(Clone, Copy, Debug, PartialEq, Eq, Structural)]
pub enum Run {
    /// Nothing: no native call is waited for.
    Rest,
    /// Loading the pipeline.
    Pipeline,
    /// Loading the assets.
    Assets,
    /// Synchronizing the CPU with the GPU, or closing the fence event after
    /// the last synchronization.
    Synchronization,
    /// Recording, submitting or presenting a frame.
    Frame,
}

impl Stage {
    /// What a renderer in this stage is busy with.
    pub open spec fn run(self) -> Run {
        match self {
            Stage::Created | Stage::PipelineLoaded | Stage::Ready | Stage::Destroyed
            | Stage::Failed => Run::Rest,
            Stage::EnablingValidation | Stage::CreatingFactory | Stage::EnumeratingAdapter
            | Stage::CastingAdapter | Stage::ReleasingEnumeration | Stage::ProbingAdapter
            | Stage::ReleasingProbe | Stage::ReleasingAdapter | Stage::CreatingDevice
            | Stage::CreatingCommandQueue | Stage::CreatingSwapChain | Stage::UpgradingSwapChain
            | Stage::ReadingBackBuffer | Stage::CreatingDescriptorHeap
            | Stage::ReadingDescriptorSize | Stage::ReadingHeapStart | Stage::CreatingRenderTarget
            | Stage::CreatingCommandAllocator => Run::Pipeline,
            Stage::SerializingRootSignature | Stage::CreatingRootSignature
            | Stage::CompilingVertexShader | Stage::CompilingPixelShader
            | Stage::CreatingPipelineState | Stage::CreatingCommandList | Stage::ClosingCommandList
            | Stage::CreatingVertexBuffer | Stage::MappingVertexBuffer | Stage::WritingVertices
            | Stage::UnmappingVertexBuffer | Stage::ReadingGpuAddress | Stage::CreatingFence
            | Stage::CreatingFenceEvent => Run::Assets,
            Stage::Signaling | Stage::ReadingCompletedValue | Stage::RegisteringWait
            | Stage::Waiting | Stage::ReadingFrameIndex | Stage::ClosingFenceEvent =>
                Run::Synchronization,
            Stage::Recording | Stage::Executing | Stage::Presenting => Run::Frame,
        }
    }
}

/// How the last synchronization got past the fence.
#[derive(Clone, Copy, Debug, PartialEq, Eq, Structural)]
pub enum WaitOutcome {
    /// The GPU had reached the signaled value already: the thread was not
    /// blocked.
    NotNeeded,
    /// The thread was blocked until the fence event fired.
    Signaled,
    /// The wait was abandoned. This is worth a log line and nothing more.
    Abandoned,
    /// The wait ran out of time.
    TimedOut,
}

/// What the driver returned for a native call: its result code, or 0 where
/// the call has none; the number it yielded, or 0; the text it yielded, or
/// none.
#[derive(Clone, Debug, PartialEq, Eq)]
pub struct Reply {
    pub status: i32,
    pub value: u64,
    pub text: String,
}

/// The native call that the embedding program has to make next.
#[allow(inconsistent_fields)]
#[derive(Clone, Copy, Debug, PartialEq, Eq, Structural)]
pub enum Request {
    /// Get the debug interface and enable the validation layer.
    EnableDebugLayer,
    CreateFactory { flags: u32 },
    /// Get the adapter at `index`. The result code tells whether there is
    /// one.
    EnumerateAdapter { index: u32 },
    /// Get the second adapter interface of the adapter at `index`.
    CastAdapter { index: u32 },
    /// Release the interface of the adapter at `index` that the enumeration
    /// handed out.
    ReleaseEnumeratedAdapter { index: u32 },
    /// Create a device on the adapter at `index`, only to learn whether the
    /// adapter supports `feature_level`.
    ProbeDevice { index: u32, feature_level: u32 },
    /// Release the device that told that the adapter at `index` is capable.
    ReleaseProbeDevice { index: u32 },
    /// Release the adapter at `index`: it is of no use.
    ReleaseAdapter { index: u32 },
    /// Create the device on the adapter at `index`.
    CreateDevice { index: u32, feature_level: u32 },
    CreateCommandQueue { desc: CommandQueueDesc },
    CreateSwapChain { window: Window, desc: SwapChainDesc },
    /// Get the third swap chain interface, and release the first.
    UpgradeSwapChain,
    /// Ask the swap chain for the index of its current back buffer.
    QueryBackBufferIndex,
    CreateDescriptorHeap { desc: DescriptorHeapDesc },
    /// Ask the device how many bytes lie between two descriptors of a heap.
    QueryDescriptorIncrementSize { heap_type: u32 },
    /// Ask the heap for the CPU handle of its first descriptor.
    QueryHeapStart,
    /// Get back buffer `buffer_index` and create its view at `handle`.
    CreateRenderTargetView { buffer_index: u32, handle: CD3D12_CPU_DESCRIPTOR_HANDLE },
    CreateCommandAllocator { list_type: u32 },
    SerializeRootSignature { desc: RootSignatureDesc },
    /// Create the root signature from its serialized form.
    CreateRootSignature,
    /// Compile the shader of `stage`. The value of the reply is the size of
    /// the bytecode, its text the compiler's diagnostic.
    CompileShader { stage: ShaderStage, flags: u32 },
    CreateGraphicsPipelineState { desc: GraphicsPipelineDesc },
    CreateCommandList { list_type: u32 },
    /// Close the command list, which was created open.
    CloseCommandList,
    CreateVertexBuffer { heap: HeapProperties, desc: ResourceDesc, initial_state: u32 },
    /// Map the vertex buffer. The value of the reply is the address it is
    /// mapped at.
    MapVertexBuffer { read_range: MapRange },
    /// Copy `size_in_bytes` bytes of vertices to the mapped buffer.
    WriteVertices { size_in_bytes: u32 },
    /// Unmap the vertex buffer: nothing more is written to it.
    UnmapVertexBuffer,
    /// Ask the vertex buffer for its GPU address.
    QueryGpuAddress,
    CreateFence { initial_value: u64 },
    /// Create the event that tells when the fence is reached. The value of
    /// the reply is its handle, the status the system's error code.
    CreateFenceEvent,
    /// Let the queue set the fence to `value` once it has come this far.
    Signal { value: u64 },
    /// Ask the fence for the value that the GPU has reached.
    QueryCompletedValue,
    /// Let the fence fire the event once it has reached `value`.
    SetEventOnCompletion { value: u64 },
    /// Block on the fence event. The value of the reply is the result of the
    /// wait.
    WaitForEvent { timeout: u32 },
    /// Record `command`. The status of the reply is its result code where it
    /// has one.
    Record { command: Command },
    /// Hand the closed command list to the queue.
    ExecuteCommandList,
    Present { sync_interval: u32, flags: u32 },
    CloseFenceEvent,
    /// Nothing is left to do.
    Done,
    /// The renderer has failed.
    Abort,
}

/// What a renderer remembers.
#[derive(Clone, Debug, PartialEq, Eq)]
pub struct RendererState {
    pub stage: Stage,
    /// Why the renderer failed, once it has.
    pub failure: Option<RendererError>,
    /// Whether the build asks for the validation layer.
    pub validation_enabled: bool,
    /// Whether the validation layer has been enabled.
    pub validation_active: bool,
    pub viewport: Viewport,
    pub scissor_rect: Rect,
    pub window: Window,
    /// Index of the adapter under examination, and then of the one selected.
    pub adapter_index: u32,
    /// Buffers of the swap chain.
    pub frame_count: u32,
    /// Index of the back buffer that the next frame is drawn to.
    pub frame_index: u32,
    pub rtv_heap_start: usize,
    pub rtv_descriptor_size: u32,
    /// Render-target views created so far.
    pub render_target_count: u32,
    pub vertex_buffer_view: VertexBufferView,
    /// The value that the next synchronization signals.
    pub fence_value: u64,
    /// The value that the last synchronization signaled.
    pub signaled_value: u64,
    pub last_wait: WaitOutcome,
    /// Commands of the frame recorded so far.
    pub recorded: u32,
    /// Whether the synchronization under way is the last one.
    pub tearing_down: bool,
}

/// The command at `position` of a frame; past its end, the closing.
pub open spec fn frame_command_at(inputs: FrameInputs, position: int) -> Command {
    if 0 <= position < COMMANDS_PER_FRAME {
        frame_commands(inputs)[position]
    } else {
        Command::Close
    }
}

impl RendererState {
    /// A renderer that has loaded nothing.
    pub open spec fn initial(validation_enabled: bool) -> RendererState {
        RendererState {
            stage: Stage::Created,
            failure: None,
            validation_enabled,
            validation_active: false,
            viewport: full_viewport(),
            scissor_rect: full_scissor(),
            window: Window { handle: 0 },
            adapter_index: 0,
            frame_count: FRAME_COUNT,
            frame_index: 0,
            rtv_heap_start: 0,
            rtv_descriptor_size: 0,
            render_target_count: 0,
            vertex_buffer_view: VertexBufferView {
                buffer_location: 0,
                size_in_bytes: 0,
                stride_in_bytes: 0,
            },
            fence_value: 0,
            signaled_value: 0,
            last_wait: WaitOutcome::NotNeeded,
            recorded: 0,
            tearing_down: false,
        }
    }

    /// This state in another stage.
    pub open spec fn at(self, stage: Stage) -> RendererState {
        RendererState { stage, ..self }
    }

    /// This state after it failed with `error`.
    pub open spec fn failed_with(self, error: RendererError) -> RendererState {
        RendererState { stage: Stage::Failed, failure: Some(error), ..self }
    }

    /// Goes on to `next` if `status` reports success, fails with `error` if
    /// not.
    pub open spec fn checked(self, status: i32, next: Stage, error: RendererError) -> RendererState {
        if hr_succeeded(status) {
            self.at(next)
        } else {
            self.failed_with(error)
        }
    }

    /// What the commands of the next frame are recorded with.
    pub open spec fn frame_inputs(self) -> FrameInputs {
        FrameInputs {
            viewport: self.viewport,
            scissor_rect: self.scissor_rect,
            frame_index: self.frame_index,
            render_target: CD3D12_CPU_DESCRIPTOR_HANDLE {
                ptr: rtv_address(self.rtv_heap_start, self.rtv_descriptor_size, self.frame_index)
                    as usize,
            },
            vertex_buffer_view: self.vertex_buffer_view,
            vertex_count: TRIANGLE_VERTEX_COUNT,
        }
    }

    /// The native call that this state waits for.
    pub open spec fn request(self) -> Request {
        match self.stage {
            Stage::Created | Stage::PipelineLoaded | Stage::Ready | Stage::Destroyed => Request::Done,
            Stage::Failed => Request::Abort,
            Stage::EnablingValidation => Request::EnableDebugLayer,
            Stage::CreatingFactory => Request::CreateFactory {
                flags: if self.validation_enabled {
                    CREATE_FACTORY_DEBUG
                } else {
                    0
                },
            },
            Stage::EnumeratingAdapter => Request::EnumerateAdapter { index: self.adapter_index },
            Stage::CastingAdapter => Request::CastAdapter { index: self.adapter_index },
            Stage::ReleasingEnumeration => Request::ReleaseEnumeratedAdapter {
                index: self.adapter_index,
            },
            Stage::ProbingAdapter => Request::ProbeDevice {
                index: self.adapter_index,
                feature_level: FEATURE_LEVEL_11_0,
            },
            Stage::ReleasingProbe => Request::ReleaseProbeDevice { index: self.adapter_index },
            Stage::ReleasingAdapter => Request::ReleaseAdapter { index: self.adapter_index },
            Stage::CreatingDevice => Request::CreateDevice {
                index: self.adapter_index,
                feature_level: FEATURE_LEVEL_11_0,
            },
            Stage::CreatingCommandQueue => Request::CreateCommandQueue {
                desc: CommandQueueDesc {
                    list_type: COMMAND_LIST_TYPE_DIRECT,
                    priority: COMMAND_QUEUE_PRIORITY_NORMAL,
                    flags: COMMAND_QUEUE_FLAG_NONE,
                    node_mask: 0,
                },
            },
            Stage::CreatingSwapChain => Request::CreateSwapChain {
                window: self.window,
                desc: flip_swap_chain(self.frame_count),
            },
            Stage::UpgradingSwapChain => Request::UpgradeSwapChain,
            Stage::ReadingBackBuffer | Stage::ReadingFrameIndex => Request::QueryBackBufferIndex,
            Stage::CreatingDescriptorHeap => Request::CreateDescriptorHeap {
                desc: DescriptorHeapDesc {
                    heap_type: DESCRIPTOR_HEAP_TYPE_RTV,
                    num_descriptors: self.frame_count,
                    flags: DESCRIPTOR_HEAP_FLAG_NONE,
                    node_mask: 0,
                },
            },
            Stage::ReadingDescriptorSize => Request::QueryDescriptorIncrementSize {
                heap_type: DESCRIPTOR_HEAP_TYPE_RTV,
            },
            Stage::ReadingHeapStart => Request::QueryHeapStart,
            Stage::CreatingRenderTarget => Request::CreateRenderTargetView {
                buffer_index: self.render_target_count,
                handle: CD3D12_CPU_DESCRIPTOR_HANDLE {
                    ptr: rtv_address(
                        self.rtv_heap_start,
                        self.rtv_descriptor_size,
                        self.render_target_count,
                    ) as usize,
                },
            },
            Stage::CreatingCommandAllocator => Request::CreateCommandAllocator {
                list_type: COMMAND_LIST_TYPE_DIRECT,
            },
            Stage::SerializingRootSignature => Request::SerializeRootSignature {
                desc: RootSignatureDesc {
                    num_parameters: 0,
                    num_static_samplers: 0,
                    flags: ROOT_SIGNATURE_FLAG_ALLOW_INPUT_LAYOUT,
                    version: ROOT_SIGNATURE_VERSION_1_0,
                },
            },
            Stage::CreatingRootSignature => Request::CreateRootSignature,
            Stage::CompilingVertexShader => Request::CompileShader {
                stage: ShaderStage::Vertex,
                flags: compile_flags(self.validation_enabled),
            },
            Stage::CompilingPixelShader => Request::CompileShader {
                stage: ShaderStage::Pixel,
                flags: compile_flags(self.validation_enabled),
            },
            Stage::CreatingPipelineState => Request::CreateGraphicsPipelineState {
                desc: triangle_pipeline(),
            },
            Stage::CreatingCommandList => Request::CreateCommandList {
                list_type: COMMAND_LIST_TYPE_DIRECT,
            },
            Stage::ClosingCommandList => Request::CloseCommandList,
            Stage::CreatingVertexBuffer => Request::CreateVertexBuffer {
                heap: HeapProperties {
                    heap_type: HEAP_TYPE_UPLOAD,
                    cpu_page_property: CPU_PAGE_PROPERTY_UNKNOWN,
                    memory_pool_preference: MEMORY_POOL_UNKNOWN,
                    creation_node_mask: 0,
                    visible_node_mask: 0,
                },
                desc: buffer_of((TRIANGLE_VERTEX_COUNT * VERTEX_STRIDE) as u64),
                initial_state: RESOURCE_STATE_GENERIC_READ,
            },
            Stage::MappingVertexBuffer => Request::MapVertexBuffer {
                read_range: MapRange { begin: 0, end: 0 },
            },
            Stage::WritingVertices => Request::WriteVertices {
                size_in_bytes: (TRIANGLE_VERTEX_COUNT * VERTEX_STRIDE) as u32,
            },
            Stage::UnmappingVertexBuffer => Request::UnmapVertexBuffer,
            Stage::ReadingGpuAddress => Request::QueryGpuAddress,
            Stage::CreatingFence => Request::CreateFence { initial_value: INITIAL_FENCE_VALUE },
            Stage::CreatingFenceEvent => Request::CreateFenceEvent,
            Stage::Signaling => Request::Signal { value: self.fence_value },
            Stage::ReadingCompletedValue => Request::QueryCompletedValue,
            Stage::RegisteringWait => Request::SetEventOnCompletion { value: self.signaled_value },
            Stage::Waiting => Request::WaitForEvent { timeout: INFINITE },
            Stage::Recording => Request::Record {
                command: frame_command_at(self.frame_inputs(), self.recorded as int),
            },
            Stage::Executing => Request::ExecuteCommandList,
            Stage::Presenting => Request::Present {
                sync_interval: PRESENT_SYNC_INTERVAL,
                flags: PRESENT_FLAGS,
            },
            Stage::ClosingFenceEvent => Request::CloseFenceEvent,
        }
    }

    /// The state in which loading the pipeline for `window` starts. Only a
    /// renderer that has loaded nothing starts.
    pub open spec fn begin_pipeline(self, window: Window) -> RendererState {
        if self.stage == Stage::Created {
            RendererState {
                stage: if self.validation_enabled {
                    Stage::EnablingValidation
                } else {
                    Stage::CreatingFactory
                },
                window,
                adapter_index: 0,
                ..self
            }
        } else {
            self
        }
    }

    /// The state in which loading the assets starts. Only a renderer whose
    /// pipeline is loaded starts.
    pub open spec fn begin_assets(self) -> RendererState {
        if self.stage == Stage::PipelineLoaded {
            self.at(Stage::SerializingRootSignature)
        } else {
            self
        }
    }

    /// The state in which a synchronization starts. Only an idle renderer
    /// starts.
    pub open spec fn begin_wait(self) -> RendererState {
        if self.stage == Stage::Ready {
            RendererState { stage: Stage::Signaling, tearing_down: false, ..self }
        } else {
            self
        }
    }

    /// The state in which a frame starts. Only an idle renderer starts.
    pub open spec fn begin_frame(self) -> RendererState {
        if self.stage == Stage::Ready {
            RendererState { stage: Stage::Recording, recorded: 0, ..self }
        } else {
            self
        }
    }

    /// The state in which tearing down starts. Only an idle renderer starts.
    pub open spec fn begin_teardown(self) -> RendererState {
        if self.stage == Stage::Ready {
            RendererState { stage: Stage::Signaling, tearing_down: true, ..self }
        } else {
            self
        }
    }

    /// The state after the driver answered `reply` to the call of a stage
    /// that loads the pipeline.
    pub open spec fn advance_pipeline(self, reply: Reply) -> RendererState {
        let code = reply.status;
        match self.stage {
            Stage::EnablingValidation => if hr_succeeded(code) {
                RendererState { stage: Stage::CreatingFactory, validation_active: true, ..self }
            } else {
                self.failed_with(RendererError::DeviceCreationFailed { code })
            },
            Stage::CreatingFactory => self.checked(
                code,
                Stage::EnumeratingAdapter,
                RendererError::ResourceCreationFailed { resource: Resource::Factory, code },
            ),
            Stage::EnumeratingAdapter => if code == DXGI_ERROR_NOT_FOUND {
                self.failed_with(RendererError::AdapterEnumerationExhausted)
            } else {
                self.checked(
                    code,
                    Stage::CastingAdapter,
                    RendererError::DeviceCreationFailed { code },
                )
            },
            Stage::CastingAdapter => self.checked(
                code,
                Stage::ReleasingEnumeration,
                RendererError::DeviceCreationFailed { code },
            ),
            Stage::ReleasingEnumeration => self.at(Stage::ProbingAdapter),
            Stage::ProbingAdapter => if hr_succeeded(code) {
                self.at(Stage::ReleasingProbe)
            } else {
                self.at(Stage::ReleasingAdapter)
            },
            Stage::ReleasingProbe => self.at(Stage::CreatingDevice),
            Stage::ReleasingAdapter => if self.adapter_index < u32::MAX {
                RendererState {
                    stage: Stage::EnumeratingAdapter,
                    adapter_index: (self.adapter_index + 1) as u32,
                    ..self
                }
            } else {
                self.failed_with(RendererError::AdapterEnumerationExhausted)
            },
            Stage::CreatingDevice => self.checked(
                code,
                Stage::CreatingCommandQueue,
                RendererError::DeviceCreationFailed { code },
            ),
            Stage::CreatingCommandQueue => self.checked(
                code,
                Stage::CreatingSwapChain,
                RendererError::ResourceCreationFailed { resource: Resource::CommandQueue, code },
            ),
            Stage::CreatingSwapChain => self.checked(
                code,
                Stage::UpgradingSwapChain,
                RendererError::ResourceCreationFailed { resource: Resource::SwapChain, code },
            ),
            Stage::UpgradingSwapChain => self.checked(
                code,
                Stage::ReadingBackBuffer,
                RendererError::ResourceCreationFailed { resource: Resource::SwapChain, code },
            ),
            Stage::ReadingBackBuffer => if reply.value < self.frame_count {
                RendererState {
                    stage: Stage::CreatingDescriptorHeap,
                    frame_index: reply.value as u32,
                    ..self
                }
            } else {
                self.failed_with(
                    RendererError::SynchronizationFailed {
                        cause: SyncFailure::BackBufferOutOfRange { index: reply.value },
                    },
                )
            },
            Stage::CreatingDescriptorHeap => self.checked(
                code,
                Stage::ReadingDescriptorSize,
                RendererError::ResourceCreationFailed { resource: Resource::DescriptorHeap, code },
            ),
            Stage::ReadingDescriptorSize => if reply.value <= u32::MAX {
                RendererState {
                    stage: Stage::ReadingHeapStart,
                    rtv_descriptor_size: reply.value as u32,
                    ..self
                }
            } else {
                self.failed_with(
                    RendererError::ResourceCreationFailed { resource: Resource::DescriptorHeap, code },
                )
            },
            Stage::ReadingHeapStart => if reply.value <= usize::MAX {
                RendererState {
                    stage: if self.frame_count > 0 {
                        Stage::CreatingRenderTarget
                    } else {
                        Stage::CreatingCommandAllocator
                    },
                    rtv_heap_start: reply.value as usize,
                    render_target_count: 0,
                    ..self
                }
            } else {
                self.failed_with(
                    RendererError::ResourceCreationFailed { resource: Resource::DescriptorHeap, code },
                )
            },
            Stage::CreatingRenderTarget => if !hr_succeeded(code) {
                self.failed_with(
                    RendererError::ResourceCreationFailed { resource: Resource::RenderTarget, code },
                )
            } else if self.render_target_count + 1 < self.frame_count {
                RendererState {
                    render_target_count: (self.render_target_count + 1) as u32,
                    ..self
                }
            } else {
                RendererState {
                    stage: Stage::CreatingCommandAllocator,
                    render_target_count: self.frame_count,
                    ..self
                }
            },
            Stage::CreatingCommandAllocator => self.checked(
                code,
                Stage::PipelineLoaded,
                RendererError::ResourceCreationFailed { resource: Resource::CommandAllocator, code },
            ),
            _ => self,
        }
    }

    /// The state after the driver answered `reply` to the call of a stage
    /// that loads the assets.
    pub open spec fn advance_assets(self, reply: Reply) -> RendererState {
        let code = reply.status;
        match self.stage {
            Stage::SerializingRootSignature => self.checked(
                code,
                Stage::CreatingRootSignature,
                RendererError::ResourceCreationFailed { resource: Resource::RootSignature, code },
            ),
            Stage::CreatingRootSignature => self.checked(
                code,
                Stage::CompilingVertexShader,
                RendererError::ResourceCreationFailed { resource: Resource::RootSignature, code },
            ),
            Stage::CompilingVertexShader => if shader_compiled(code, reply.value) {
                self.at(Stage::CompilingPixelShader)
            } else {
                self.failed_with(
                    RendererError::ShaderCompileFailed {
                        stage: ShaderStage::Vertex,
                        code,
                        diagnostic: reply.text,
                    },
                )
            },
            Stage::CompilingPixelShader => if shader_compiled(code, reply.value) {
                self.at(Stage::CreatingPipelineState)
            } else {
                self.failed_with(
                    RendererError::ShaderCompileFailed {
                        stage: ShaderStage::Pixel,
                        code,
                        diagnostic: reply.text,
                    },
                )
            },
            Stage::CreatingPipelineState => self.checked(
                code,
                Stage::CreatingCommandList,
                RendererError::ResourceCreationFailed { resource: Resource::PipelineState, code },
            ),
            Stage::CreatingCommandList => self.checked(
                code,
                Stage::ClosingCommandList,
                RendererError::ResourceCreationFailed { resource: Resource::CommandList, code },
            ),
            Stage::ClosingCommandList => self.checked(
                code,
                Stage::CreatingVertexBuffer,
                RendererError::ResourceCreationFailed { resource: Resource::CommandList, code },
            ),
            Stage::CreatingVertexBuffer => self.checked(
                code,
                Stage::MappingVertexBuffer,
                RendererError::ResourceCreationFailed { resource: Resource::VertexBuffer, code },
            ),
            Stage::MappingVertexBuffer => if hr_succeeded(code) && reply.value != 0 {
                self.at(Stage::WritingVertices)
            } else {
                self.failed_with(
                    RendererError::ResourceCreationFailed { resource: Resource::VertexBuffer, code },
                )
            },
            Stage::WritingVertices => self.at(Stage::UnmappingVertexBuffer),
            Stage::UnmappingVertexBuffer => self.at(Stage::ReadingGpuAddress),
            Stage::ReadingGpuAddress => RendererState {
                stage: Stage::CreatingFence,
                vertex_buffer_view: view_of(reply.value, TRIANGLE_VERTEX_COUNT as int),
                ..self
            },
            Stage::CreatingFence => if hr_succeeded(code) {
                RendererState { stage: Stage::CreatingFenceEvent, fence_value: 1, ..self }
            } else {
                self.failed_with(
                    RendererError::ResourceCreationFailed { resource: Resource::Fence, code },
                )
            },
            Stage::CreatingFenceEvent => if reply.value != 0 {
                RendererState { stage: Stage::Signaling, tearing_down: false, ..self }
            } else {
                self.failed_with(
                    RendererError::ResourceCreationFailed { resource: Resource::FenceEvent, code },
                )
            },
            _ => self,
        }
    }

    /// The state after the driver answered `reply` to the call of a stage
    /// that synchronizes the CPU with the GPU.
    pub open spec fn advance_sync(self, reply: Reply) -> RendererState {
        let code = reply.status;
        match self.stage {
            Stage::Signaling => if !hr_succeeded(code) {
                self.failed_with(
                    RendererError::SynchronizationFailed {
                        cause: SyncFailure::SignalRejected { code },
                    },
                )
            } else if self.fence_value == u64::MAX {
                self.failed_with(
                    RendererError::SynchronizationFailed { cause: SyncFailure::FenceExhausted },
                )
            } else {
                RendererState {
                    stage: Stage::ReadingCompletedValue,
                    signaled_value: self.fence_value,
                    fence_value: (self.fence_value + 1) as u64,
                    ..self
                }
            },
            Stage::ReadingCompletedValue => if reply.value < self.signaled_value {
                self.at(Stage::RegisteringWait)
            } else {
                RendererState {
                    stage: Stage::ReadingFrameIndex,
                    last_wait: WaitOutcome::NotNeeded,
                    ..self
                }
            },
            Stage::RegisteringWait => self.checked(
                code,
                Stage::Waiting,
                RendererError::SynchronizationFailed {
                    cause: SyncFailure::RegistrationRejected { code },
                },
            ),
            Stage::Waiting => if reply.value == WAIT_OBJECT_0 {
                RendererState {
                    stage: Stage::ReadingFrameIndex,
                    last_wait: WaitOutcome::Signaled,
                    ..self
                }
            } else if reply.value == WAIT_ABANDONED {
                RendererState {
                    stage: Stage::ReadingFrameIndex,
                    last_wait: WaitOutcome::Abandoned,
                    ..self
                }
            } else if reply.value == WAIT_TIMEOUT {
                RendererState {
                    stage: Stage::ReadingFrameIndex,
                    last_wait: WaitOutcome::TimedOut,
                    ..self
                }
            } else {
                self.failed_with(
                    RendererError::SynchronizationFailed {
                        cause: SyncFailure::WaitFailed { result: reply.value },
                    },
                )
            },
            Stage::ReadingFrameIndex => if reply.value < self.frame_count {
                RendererState {
                    stage: if self.tearing_down {
                        Stage::ClosingFenceEvent
                    } else {
                        Stage::Ready
                    },
                    frame_index: reply.value as u32,
                    ..self
                }
            } else {
                self.failed_with(
                    RendererError::SynchronizationFailed {
                        cause: SyncFailure::BackBufferOutOfRange { index: reply.value },
                    },
                )
            },
            Stage::ClosingFenceEvent => self.at(Stage::Destroyed),
            _ => self,
        }
    }

    /// The state after the driver answered `reply` to the call of a stage
    /// that records, submits or presents a frame.
    pub open spec fn advance_frame(self, reply: Reply) -> RendererState {
        let code = reply.status;
        match self.stage {
            Stage::Recording => if !hr_succeeded(code) {
                self.failed_with(
                    RendererError::ResourceCreationFailed {
                        resource: if self.recorded == 0 {
                            Resource::CommandAllocator
                        } else {
                            Resource::CommandList
                        },
                        code,
                    },
                )
            } else if self.recorded + 1 < COMMANDS_PER_FRAME {
                RendererState { recorded: (self.recorded + 1) as u32, ..self }
            } else {
                RendererState { stage: Stage::Executing, recorded: COMMANDS_PER_FRAME, ..self }
            },
            Stage::Executing => self.at(Stage::Presenting),
            Stage::Presenting => if hr_succeeded(code) {
                RendererState { stage: Stage::Signaling, tearing_down: false, ..self }
            } else {
                self.failed_with(RendererError::PresentFailed { code })
            },
            _ => self,
        }
    }

    /// The state after the driver answered `reply` to the call that this
    /// state waits for. A state that waits for nothing stays as it is.
    pub open spec fn advance(self, reply: Reply) -> RendererState {
        match self.stage.run() {
            Run::Rest => self,
            Run::Pipeline => self.advance_pipeline(reply),
            Run::Assets => self.advance_assets(reply),
            Run::Synchronization => self.advance_sync(reply),
            Run::Frame => self.advance_frame(reply),
        }
    }
}

} // verus!
