//! The steps of the renderer as executable code: each does what the state
//! model says of it.

use vstd::prelude::*;
use crate::command::record_frame;
use crate::command::Command;
use crate::command::FrameInputs;
use crate::command::COMMANDS_PER_FRAME;
use crate::error::RendererError;
use crate::error::Resource;
use crate::error::ShaderStage;
use crate::error::SyncFailure;
use crate::error::DXGI_ERROR_NOT_FOUND;
use crate::pipeline::graphics_pipeline_desc;
use crate::pipeline::root_signature_desc;
use crate::pipeline::shader_compile_flags;
use crate::state::RendererState;
use crate::state::Reply;
use crate::state::Request;
use crate::state::Run;
use crate::state::Stage;
use crate::state::WaitOutcome;
use crate::state::CREATE_FACTORY_DEBUG;
use crate::state::FEATURE_LEVEL_11_0;
use crate::state::INFINITE;
use crate::state::INITIAL_FENCE_VALUE;
use crate::state::TRIANGLE_VERTEX_COUNT;
use crate::state::WAIT_ABANDONED;
use crate::state::WAIT_OBJECT_0;
use crate::state::WAIT_TIMEOUT;
use crate::swap_chain::command_queue_desc;
use crate::swap_chain::render_target_view;
use crate::swap_chain::rtv_heap_desc;
use crate::swap_chain::swap_chain_desc;
use crate::swap_chain::COMMAND_LIST_TYPE_DIRECT;
use crate::swap_chain::DESCRIPTOR_HEAP_TYPE_RTV;
use crate::swap_chain::PRESENT_FLAGS;
use crate::swap_chain::PRESENT_SYNC_INTERVAL;
use crate::upload::upload_heap_properties;
use crate::upload::vertex_buffer_desc;
use crate::upload::vertex_buffer_view;
use crate::upload::write_only_range;
use crate::upload::RESOURCE_STATE_GENERIC_READ;
use crate::window::Window;

verus! {

impl RendererState {
    /// What the commands of the next frame are recorded with.
    pub fn inputs(&self) -> (inputs: FrameInputs)
        ensures
            inputs == self.frame_inputs(),
    {
        FrameInputs {
            viewport: self.viewport,
            scissor_rect: self.scissor_rect,
            frame_index: self.frame_index,
            render_target: render_target_view(
                self.rtv_heap_start,
                self.rtv_descriptor_size,
                self.frame_index,
            ),
            vertex_buffer_view: self.vertex_buffer_view,
            vertex_count: TRIANGLE_VERTEX_COUNT,
        }
    }

    /// The native call that this state waits for.
    pub fn next_request(&self) -> (request: Request)
        ensures
            request == self.request(),
    {
        match self.stage {
            Stage::Created | Stage::PipelineLoaded | Stage::Ready | Stage::Destroyed => Request::Done,
            Stage::Failed => Request::Abort,
            Stage::EnablingValidation => Request::EnableDebugLayer,
            Stage::CreatingFactory => Request::CreateFactory {
                flags: if self.validation_enabled {
                    CREATE_FACTORY_DEBUG
                } else {
                    0
                },
            },
            Stage::EnumeratingAdapter => Request::EnumerateAdapter {
                index: self.adapter_index,
            },
            Stage::CastingAdapter => Request::CastAdapter { index: self.adapter_index },
            Stage::ReleasingEnumeration => Request::ReleaseEnumeratedAdapter {
                index: self.adapter_index,
            },
            Stage::ProbingAdapter => Request::ProbeDevice {
                index: self.adapter_index,
                feature_level: FEATURE_LEVEL_11_0,
            },
            Stage::ReleasingProbe => Request::ReleaseProbeDevice { index: self.adapter_index },
            Stage::ReleasingAdapter => Request::ReleaseAdapter { index: self.adapter_index },
            Stage::CreatingDevice => Request::CreateDevice {
                index: self.adapter_index,
                feature_level: FEATURE_LEVEL_11_0,
            },
            Stage::CreatingCommandQueue => Request::CreateCommandQueue { desc: command_queue_desc() },
            Stage::CreatingSwapChain => Request::CreateSwapChain {
                window: self.window,
                desc: swap_chain_desc(self.frame_count),
            },
            Stage::UpgradingSwapChain => Request::UpgradeSwapChain,
            Stage::ReadingBackBuffer | Stage::ReadingFrameIndex => Request::QueryBackBufferIndex,
            Stage::CreatingDescriptorHeap => Request::CreateDescriptorHeap {
                desc: rtv_heap_desc(self.frame_count),
            },
            Stage::ReadingDescriptorSize => Request::QueryDescriptorIncrementSize {
                heap_type: DESCRIPTOR_HEAP_TYPE_RTV,
            },
            Stage::ReadingHeapStart => Request::QueryHeapStart,
            Stage::CreatingRenderTarget => Request::CreateRenderTargetView {
                buffer_index: self.render_target_count,
                handle: render_target_view(
                    self.rtv_heap_start,
                    self.rtv_descriptor_size,
                    self.render_target_count,
                ),
            },
            Stage::CreatingCommandAllocator => Request::CreateCommandAllocator {
                list_type: COMMAND_LIST_TYPE_DIRECT,
            },
            Stage::SerializingRootSignature => Request::SerializeRootSignature {
                desc: root_signature_desc(),
            },
            Stage::CreatingRootSignature => Request::CreateRootSignature,
            Stage::CompilingVertexShader => Request::CompileShader {
                stage: ShaderStage::Vertex,
                flags: shader_compile_flags(self.validation_enabled),
            },
            Stage::CompilingPixelShader => Request::CompileShader {
                stage: ShaderStage::Pixel,
                flags: shader_compile_flags(self.validation_enabled),
            },
            Stage::CreatingPipelineState => Request::CreateGraphicsPipelineState {
                desc: graphics_pipeline_desc(),
            },
            Stage::CreatingCommandList => Request::CreateCommandList {
                list_type: COMMAND_LIST_TYPE_DIRECT,
            },
            Stage::ClosingCommandList => Request::CloseCommandList,
            Stage::CreatingVertexBuffer => Request::CreateVertexBuffer {
                heap: upload_heap_properties(),
                desc: vertex_buffer_desc(TRIANGLE_VERTEX_COUNT),
                initial_state: RESOURCE_STATE_GENERIC_READ,
            },
            Stage::MappingVertexBuffer => Request::MapVertexBuffer { read_range: write_only_range() },
            Stage::WritingVertices => Request::WriteVertices {
                size_in_bytes: vertex_buffer_view(0, TRIANGLE_VERTEX_COUNT).size_in_bytes,
            },
            Stage::UnmappingVertexBuffer => Request::UnmapVertexBuffer,
            Stage::ReadingGpuAddress => Request::QueryGpuAddress,
            Stage::CreatingFence => Request::CreateFence { initial_value: INITIAL_FENCE_VALUE },
            Stage::CreatingFenceEvent => Request::CreateFenceEvent,
            Stage::Signaling => Request::Signal { value: self.fence_value },
            Stage::ReadingCompletedValue => Request::QueryCompletedValue,
            Stage::RegisteringWait => Request::SetEventOnCompletion {
                value: self.signaled_value,
            },
            Stage::Waiting => Request::WaitForEvent { timeout: INFINITE },
            Stage::Recording => {
                let commands = record_frame(&self.inputs());
                if self.recorded < COMMANDS_PER_FRAME {
                    Request::Record { command: commands[self.recorded as usize] }
                } else {
                    Request::Record { command: Command::Close }
                }
            },
            Stage::Executing => Request::ExecuteCommandList,
            Stage::Presenting => Request::Present {
                sync_interval: PRESENT_SYNC_INTERVAL,
                flags: PRESENT_FLAGS,
            },
            Stage::ClosingFenceEvent => Request::CloseFenceEvent,
        }
    }

    /// Starts loading the pipeline for `window`, if nothing has been loaded.
    pub fn start_pipeline(&mut self, window: Window)
        ensures
            *final(self) == old(self).begin_pipeline(window),
        no_unwind
    {
        if self.stage == Stage::Created {
            self.window = window;
            self.adapter_index = 0;
            self.stage = if self.validation_enabled {
                Stage::EnablingValidation
            } else {
                Stage::CreatingFactory
            };
        }
    }

    /// Starts loading the assets, if the pipeline is loaded and they are not.
    pub fn start_assets(&mut self)
        ensures
            *final(self) == old(self).begin_assets(),
        no_unwind
    {
        if self.stage == Stage::PipelineLoaded {
            self.stage = Stage::SerializingRootSignature;
        }
    }

    /// Starts a synchronization, if the state is idle.
    pub fn start_wait(&mut self)
        ensures
            *final(self) == old(self).begin_wait(),
        no_unwind
    {
        if self.stage == Stage::Ready {
            self.tearing_down = false;
            self.stage = Stage::Signaling;
        }
    }

    /// Starts a frame, if the state is idle.
    pub fn start_frame(&mut self)
        ensures
            *final(self) == old(self).begin_frame(),
        no_unwind
    {
        if self.stage == Stage::Ready {
            self.recorded = 0;
            self.stage = Stage::Recording;
        }
    }

    /// Starts tearing down, if the state is idle.
    pub fn start_teardown(&mut self)
        ensures
            *final(self) == old(self).begin_teardown(),
        no_unwind
    {
        if self.stage == Stage::Ready {
            self.tearing_down = true;
            self.stage = Stage::Signaling;
        }
    }

    fn fail(&mut self, error: RendererError)
        ensures
            *final(self) == old(self).failed_with(error),
        no_unwind
    {
        self.failure = Some(error);
        self.stage = Stage::Failed;
    }

    fn check(&mut self, status: i32, next: Stage, error: RendererError)
        ensures
            *final(self) == old(self).checked(status, next, error),
        no_unwind
    {
        if status >= 0 {
            self.stage = next;
        } else {
            self.fail(error);
        }
    }

    fn answer_pipeline(&mut self, reply: Reply)
        ensures
            *final(self) == old(self).advance_pipeline(reply),
        no_unwind
    {
        let code = reply.status;
        let value = reply.value;
        match self.stage {
            Stage::EnablingValidation => {
                if code >= 0 {
                    self.validation_active = true;
                    self.stage = Stage::CreatingFactory;
                } else {
                    self.fail(RendererError::DeviceCreationFailed { code });
                }
            },
            Stage::CreatingFactory => self.check(
                code,
                Stage::EnumeratingAdapter,
                RendererError::ResourceCreationFailed { resource: Resource::Factory, code },
            ),
            Stage::EnumeratingAdapter => {
                if code == DXGI_ERROR_NOT_FOUND {
                    self.fail(RendererError::AdapterEnumerationExhausted);
                } else {
                    self.check(
                        code,
                        Stage::CastingAdapter,
                        RendererError::DeviceCreationFailed { code },
                    );
                }
            },
            Stage::CastingAdapter => self.check(
                code,
                Stage::ReleasingEnumeration,
                RendererError::DeviceCreationFailed { code },
            ),
            Stage::ReleasingEnumeration => {
                self.stage = Stage::ProbingAdapter;
            },
            Stage::ProbingAdapter => {
                if code >= 0 {
                    self.stage = Stage::ReleasingProbe;
                } else {
                    self.stage = Stage::ReleasingAdapter;
                }
            },
            Stage::ReleasingProbe => {
                self.stage = Stage::CreatingDevice;
            },
            Stage::ReleasingAdapter => {
                if self.adapter_index < u32::MAX {
                    self.adapter_index = self.adapter_index + 1;
                    self.stage = Stage::EnumeratingAdapter;
                } else {
                    self.fail(RendererError::AdapterEnumerationExhausted);
                }
            },
            Stage::CreatingDevice => self.check(
                code,
                Stage::CreatingCommandQueue,
                RendererError::DeviceCreationFailed { code },
            ),
            Stage::CreatingCommandQueue => self.check(
                code,
                Stage::CreatingSwapChain,
                RendererError::ResourceCreationFailed { resource: Resource::CommandQueue, code },
            ),
            Stage::CreatingSwapChain => self.check(
                code,
                Stage::UpgradingSwapChain,
                RendererError::ResourceCreationFailed { resource: Resource::SwapChain, code },
            ),
            Stage::UpgradingSwapChain => self.check(
                code,
                Stage::ReadingBackBuffer,
                RendererError::ResourceCreationFailed { resource: Resource::SwapChain, code },
            ),
            Stage::ReadingBackBuffer => {
                if value < self.frame_count as u64 {
                    self.frame_index = value as u32;
                    self.stage = Stage::CreatingDescriptorHeap;
                } else {
                    self.fail(
                        RendererError::SynchronizationFailed {
                            cause: SyncFailure::BackBufferOutOfRange { index: value },
                        },
                    );
                }
            },
            Stage::CreatingDescriptorHeap => self.check(
                code,
                Stage::ReadingDescriptorSize,
                RendererError::ResourceCreationFailed { resource: Resource::DescriptorHeap, code },
            ),
            Stage::ReadingDescriptorSize => {
                if value <= u32::MAX as u64 {
                    self.rtv_descriptor_size = value as u32;
                    self.stage = Stage::ReadingHeapStart;
                } else {
                    self.fail(
                        RendererError::ResourceCreationFailed {
                            resource: Resource::DescriptorHeap,
                            code,
                        },
                    );
                }
            },
            Stage::ReadingHeapStart => {
                if value <= usize::MAX as u64 {
                    self.rtv_heap_start = value as usize;
                    self.render_target_count = 0;
                    self.stage = if self.frame_count > 0 {
                        Stage::CreatingRenderTarget
                    } else {
                        Stage::CreatingCommandAllocator
                    };
                } else {
                    self.fail(
                        RendererError::ResourceCreationFailed {
                            resource: Resource::DescriptorHeap,
                            code,
                        },
                    );
                }
            },
            Stage::CreatingRenderTarget => {
                if code < 0 {
                    self.fail(
                        RendererError::ResourceCreationFailed {
                            resource: Resource::RenderTarget,
                            code,
                        },
                    );
                } else if self.render_target_count as u64 + 1 < self.frame_count as u64 {
                    self.render_target_count = self.render_target_count + 1;
                } else {
                    self.render_target_count = self.frame_count;
                    self.stage = Stage::CreatingCommandAllocator;
                }
            },
            Stage::CreatingCommandAllocator => self.check(
                code,
                Stage::PipelineLoaded,
                RendererError::ResourceCreationFailed { resource: Resource::CommandAllocator, code },
            ),
            _ => {},
        }
    }

    fn answer_assets(&mut self, reply: Reply)
        ensures
            *final(self) == old(self).advance_assets(reply),
        no_unwind
    {
        let code = reply.status;
        let value = reply.value;
        match self.stage {
            Stage::SerializingRootSignature => self.check(
                code,
                Stage::CreatingRootSignature,
                RendererError::ResourceCreationFailed { resource: Resource::RootSignature, code },
            ),
            Stage::CreatingRootSignature => self.check(
                code,
                Stage::CompilingVertexShader,
                RendererError::ResourceCreationFailed { resource: Resource::RootSignature, code },
            ),
            Stage::CompilingVertexShader => {
                if code >= 0 && value > 0 {
                    self.stage = Stage::CompilingPixelShader;
                } else {
                    self.fail(
                        RendererError::ShaderCompileFailed {
                            stage: ShaderStage::Vertex,
                            code,
                            diagnostic: reply.text,
                        },
                    );
                }
            },
            Stage::CompilingPixelShader => {
                if code >= 0 && value > 0 {
                    self.stage = Stage::CreatingPipelineState;
                } else {
                    self.fail(
                        RendererError::ShaderCompileFailed {
                            stage: ShaderStage::Pixel,
                            code,
                            diagnostic: reply.text,
                        },
                    );
                }
            },
            Stage::CreatingPipelineState => self.check(
                code,
                Stage::CreatingCommandList,
                RendererError::ResourceCreationFailed { resource: Resource::PipelineState, code },
            ),
            Stage::CreatingCommandList => self.check(
                code,
                Stage::ClosingCommandList,
                RendererError::ResourceCreationFailed { resource: Resource::CommandList, code },
            ),
            Stage::ClosingCommandList => self.check(
                code,
                Stage::CreatingVertexBuffer,
                RendererError::ResourceCreationFailed { resource: Resource::CommandList, code },
            ),
            Stage::CreatingVertexBuffer => self.check(
                code,
                Stage::MappingVertexBuffer,
                RendererError::ResourceCreationFailed { resource: Resource::VertexBuffer, code },
            ),
            Stage::MappingVertexBuffer => {
                if code >= 0 && value != 0 {
                    self.stage = Stage::WritingVertices;
                } else {
                    self.fail(
                        RendererError::ResourceCreationFailed {
                            resource: Resource::VertexBuffer,
                            code,
                        },
                    );
                }
            },
            Stage::WritingVertices => {
                self.stage = Stage::UnmappingVertexBuffer;
            },
            Stage::UnmappingVertexBuffer => {
                self.stage = Stage::ReadingGpuAddress;
            },
            Stage::ReadingGpuAddress => {
                self.vertex_buffer_view = vertex_buffer_view(value, TRIANGLE_VERTEX_COUNT);
                self.stage = Stage::CreatingFence;
            },
            Stage::CreatingFence => {
                if code >= 0 {
                    self.fence_value = 1;
                    self.stage = Stage::CreatingFenceEvent;
                } else {
                    self.fail(
                        RendererError::ResourceCreationFailed { resource: Resource::Fence, code },
                    );
                }
            },
            Stage::CreatingFenceEvent => {
                if value != 0 {
                    self.tearing_down = false;
                    self.stage = Stage::Signaling;
                } else {
                    self.fail(
                        RendererError::ResourceCreationFailed {
                            resource: Resource::FenceEvent,
                            code,
                        },
                    );
                }
            },
            _ => {},
        }
    }

    fn answer_sync(&mut self, reply: Reply)
        ensures
            *final(self) == old(self).advance_sync(reply),
        no_unwind
    {
        let code = reply.status;
        let value = reply.value;
        match self.stage {
            Stage::Signaling => {
                if code < 0 {
                    self.fail(
                        RendererError::SynchronizationFailed {
                            cause: SyncFailure::SignalRejected { code },
                        },
                    );
                } else if self.fence_value == u64::MAX {
                    self.fail(
                        RendererError::SynchronizationFailed { cause: SyncFailure::FenceExhausted },
                    );
                } else {
                    self.signaled_value = self.fence_value;
                    self.fence_value = self.fence_value + 1;
                    self.stage = Stage::ReadingCompletedValue;
                }
            },
            Stage::ReadingCompletedValue => {
                if value < self.signaled_value {
                    self.stage = Stage::RegisteringWait;
                } else {
                    self.last_wait = WaitOutcome::NotNeeded;
                    self.stage = Stage::ReadingFrameIndex;
                }
            },
            Stage::RegisteringWait => self.check(
                code,
                Stage::Waiting,
                RendererError::SynchronizationFailed {
                    cause: SyncFailure::RegistrationRejected { code },
                },
            ),
            Stage::Waiting => {
                if value == WAIT_OBJECT_0 {
                    self.last_wait = WaitOutcome::Signaled;
                    self.stage = Stage::ReadingFrameIndex;
                } else if value == WAIT_ABANDONED {
                    self.last_wait = WaitOutcome::Abandoned;
                    self.stage = Stage::ReadingFrameIndex;
                } else if value == WAIT_TIMEOUT {
                    self.last_wait = WaitOutcome::TimedOut;
                    self.stage = Stage::ReadingFrameIndex;
                } else {
                    self.fail(
                        RendererError::SynchronizationFailed {
                            cause: SyncFailure::WaitFailed { result: value },
                        },
                    );
                }
            },
            Stage::ReadingFrameIndex => {
                if value < self.frame_count as u64 {
                    self.frame_index = value as u32;
                    self.stage = if self.tearing_down {
                        Stage::ClosingFenceEvent
                    } else {
                        Stage::Ready
                    };
                } else {
                    self.fail(
                        RendererError::SynchronizationFailed {
                            cause: SyncFailure::BackBufferOutOfRange { index: value },
                        },
                    );
                }
            },
            Stage::ClosingFenceEvent => {
                self.stage = Stage::Destroyed;
            },
            _ => {},
        }
    }

    fn answer_frame(&mut self, reply: Reply)
        ensures
            *final(self) == old(self).advance_frame(reply),
        no_unwind
    {
        let code = reply.status;
        match self.stage {
            Stage::Recording => {
                if code < 0 {
                    let resource = if self.recorded == 0 {
                        Resource::CommandAllocator
                    } else {
                        Resource::CommandList
                    };
                    self.fail(RendererError::ResourceCreationFailed { resource, code });
                } else if self.recorded as u64 + 1 < COMMANDS_PER_FRAME as u64 {
                    self.recorded = self.recorded + 1;
                } else {
                    self.recorded = COMMANDS_PER_FRAME;
                    self.stage = Stage::Executing;
                }
            },
            Stage::Executing => {
                self.stage = Stage::Presenting;
            },
            Stage::Presenting => {
                if code >= 0 {
                    self.tearing_down = false;
                    self.stage = Stage::Signaling;
                } else {
                    self.fail(RendererError::PresentFailed { code });
                }
            },
            _ => {},
        }
    }

    /// Takes the driver's answer to the native call that this state waits
    /// for.
    pub fn apply(&mut self, reply: Reply)
        ensures
            *final(self) == old(self).advance(reply),
        no_unwind
    {
        match self.stage.current_run() {
            Run::Rest => {},
            Run::Pipeline => self.answer_pipeline(reply),
            Run::Assets => self.answer_assets(reply),
            Run::Synchronization => self.answer_sync(reply),
            Run::Frame => self.answer_frame(reply),
        }
    }
}

impl Stage {
    /// What a renderer in this stage is busy with.
    pub fn current_run(self) -> (run: Run)
        ensures
            run == self.run(),
        no_unwind
    {
        match self {
            Stage::Created | Stage::PipelineLoaded | Stage::Ready | Stage::Destroyed
            | Stage::Failed => Run::Rest,
            Stage::EnablingValidation | Stage::CreatingFactory | Stage::EnumeratingAdapter
            | Stage::CastingAdapter | Stage::ReleasingEnumeration | Stage::ProbingAdapter
            | Stage::ReleasingProbe | Stage::ReleasingAdapter | Stage::CreatingDevice
            | Stage::CreatingCommandQueue | Stage::CreatingSwapChain | Stage::UpgradingSwapChain
            | Stage::ReadingBackBuffer | Stage::CreatingDescriptorHeap
            | Stage::ReadingDescriptorSize | Stage::ReadingHeapStart | Stage::CreatingRenderTarget
            | Stage::CreatingCommandAllocator => Run::Pipeline,
            Stage::SerializingRootSignature | Stage::CreatingRootSignature
            | Stage::CompilingVertexShader | Stage::CompilingPixelShader
            | Stage::CreatingPipelineState | Stage::CreatingCommandList | Stage::ClosingCommandList
            | Stage::CreatingVertexBuffer | Stage::MappingVertexBuffer | Stage::WritingVertices
            | Stage::UnmappingVertexBuffer | Stage::ReadingGpuAddress | Stage::CreatingFence
            | Stage::CreatingFenceEvent => Run::Assets,
            Stage::Signaling | Stage::ReadingCompletedValue | Stage::RegisteringWait
            | Stage::Waiting | Stage::ReadingFrameIndex | Stage::ClosingFenceEvent =>
                Run::Synchronization,
            Stage::Recording | Stage::Executing | Stage::Presenting => Run::Frame,
        }
    }
}

} // verus!
