use dx_renderer::command::Command;
use dx_renderer::command::ResourceState;
use dx_renderer::descriptor::CD3D12_CPU_DESCRIPTOR_HANDLE;
use dx_renderer::error::succeeded;
use dx_renderer::error::RendererError;
use dx_renderer::error::Resource;
use dx_renderer::error::ShaderStage;
use dx_renderer::error::SyncFailure;
use dx_renderer::error::DXGI_ERROR_NOT_FOUND;
use dx_renderer::renderer::Renderer;
use dx_renderer::state::Reply;
use dx_renderer::state::Request;
use dx_renderer::state::Run;
use dx_renderer::state::Stage;
use dx_renderer::state::WaitOutcome;
use dx_renderer::swap_chain::swap_chain_desc;
use dx_renderer::upload::VertexBufferView;
use dx_renderer::window::Window;

const E_FAIL: i32 = -2147467259;

fn ok() -> Reply {
    Reply { status: 0, value: 0, text: String::new() }
}

fn failed(status: i32) -> Reply {
    Reply { status, value: 0, text: String::new() }
}

fn value(value: u64) -> Reply {
    Reply { status: 0, value, text: String::new() }
}

/// Answers every call of a run with success. Queries are answered from the
/// arguments.
fn drive(renderer: &mut Renderer, first: Request, back_buffer: u64, completed: u64) -> Vec<Request> {
    let mut seen = Vec::new();
    let mut request = first;
    let mut steps = 0;
    while request != Request::Done && request != Request::Abort {
        seen.push(request);
        let reply = match request {
            Request::QueryBackBufferIndex => value(back_buffer),
            Request::QueryDescriptorIncrementSize { .. } => value(32),
            Request::QueryHeapStart => value(0x1000),
            Request::CompileShader { .. } => value(512),
            Request::MapVertexBuffer { .. } => value(0x7000_0000),
            Request::QueryGpuAddress => value(0x8000_0000),
            Request::CreateFenceEvent => value(0x44),
            Request::QueryCompletedValue => value(completed),
            _ => ok(),
        };
        request = renderer.answer(reply);
        steps += 1;
        assert!(steps < 200);
    }
    seen.push(request);
    seen
}

fn ready_renderer(back_buffer: u64) -> Renderer {
    let mut renderer = Renderer::new(false);
    let first = renderer.load_pipeline(Window { handle: 0xBEEF });
    drive(&mut renderer, first, back_buffer, u64::MAX);
    assert_eq!(renderer.state().stage, Stage::PipelineLoaded);
    let first = renderer.load_assets();
    drive(&mut renderer, first, back_buffer, u64::MAX);
    assert_eq!(renderer.state().stage, Stage::Ready);
    renderer
}

#[test]
fn new_renderer_has_loaded_nothing() {
    let renderer = Renderer::new(true);
    let state = renderer.state();
    assert_eq!(state.stage, Stage::Created);
    assert_eq!(state.failure, None);
    assert!(state.validation_enabled);
    assert_eq!(state.frame_count, 2);
    assert_eq!(state.frame_index, 0);
    assert_eq!(state.fence_value, 0);
    assert_eq!(state.viewport.width, 1280);
    assert_eq!(state.viewport.height, 720);
    assert_eq!(state.viewport.min_depth, 0);
    assert_eq!(state.viewport.max_depth, 1);
    assert_eq!(state.scissor_rect.right, 1280);
    assert_eq!(state.scissor_rect.bottom, 720);
    assert_eq!(renderer.pending(), Request::Done);
}

#[test]
fn validation_layer_comes_before_any_device() {
    let mut renderer = Renderer::new(true);
    let first = renderer.load_pipeline(Window { handle: 1 });
    assert_eq!(first, Request::EnableDebugLayer);
    let seen = drive(&mut renderer, first, 0, 0);
    let layer = seen.iter().position(|r| *r == Request::EnableDebugLayer).unwrap();
    let probe = seen.iter().position(|r| matches!(r, Request::ProbeDevice { .. })).unwrap();
    let device = seen.iter().position(|r| matches!(r, Request::CreateDevice { .. })).unwrap();
    assert!(layer < probe && probe < device);
    assert_eq!(seen[1], Request::CreateFactory { flags: 1 });
}

#[test]
fn release_build_skips_the_validation_layer() {
    let mut renderer = Renderer::new(false);
    let first = renderer.load_pipeline(Window { handle: 1 });
    assert_eq!(first, Request::CreateFactory { flags: 0 });
    let seen = drive(&mut renderer, first, 0, 0);
    assert!(!seen.contains(&Request::EnableDebugLayer));
}

#[test]
fn validation_layer_failure_is_fatal() {
    let mut renderer = Renderer::new(true);
    renderer.load_pipeline(Window { handle: 1 });
    assert_eq!(renderer.answer(failed(E_FAIL)), Request::Abort);
    assert_eq!(
        renderer.state().failure,
        Some(RendererError::DeviceCreationFailed { code: E_FAIL })
    );
    assert_eq!(renderer.state().stage, Stage::Failed);
}

#[test]
fn load_pipeline_asks_for_each_object_in_turn() {
    let mut renderer = Renderer::new(false);
    let window = Window { handle: 77 };
    let first = renderer.load_pipeline(window);
    let seen = drive(&mut renderer, first, 1, 0);
    let names: Vec<String> = seen
        .iter()
        .map(|r| format!("{:?}", r).split(|c: char| !c.is_alphanumeric()).next().unwrap().to_string())
        .collect();
    assert_eq!(
        names,
        vec![
            "CreateFactory",
            "EnumerateAdapter",
            "CastAdapter",
            "ReleaseEnumeratedAdapter",
            "ProbeDevice",
            "ReleaseProbeDevice",
            "CreateDevice",
            "CreateCommandQueue",
            "CreateSwapChain",
            "UpgradeSwapChain",
            "QueryBackBufferIndex",
            "CreateDescriptorHeap",
            "QueryDescriptorIncrementSize",
            "QueryHeapStart",
            "CreateRenderTargetView",
            "CreateRenderTargetView",
            "CreateCommandAllocator",
            "Done",
        ]
    );
    assert_eq!(seen[8], Request::CreateSwapChain { window, desc: swap_chain_desc(2) });
    assert_eq!(
        seen[14],
        Request::CreateRenderTargetView {
            buffer_index: 0,
            handle: CD3D12_CPU_DESCRIPTOR_HANDLE { ptr: 0x1000 },
        }
    );
    assert_eq!(
        seen[15],
        Request::CreateRenderTargetView {
            buffer_index: 1,
            handle: CD3D12_CPU_DESCRIPTOR_HANDLE { ptr: 0x1020 },
        }
    );
    let state = renderer.state();
    assert_eq!(state.stage, Stage::PipelineLoaded);
    assert_eq!(state.render_target_count, state.frame_count);
    assert_eq!(state.rtv_descriptor_size, 32);
    assert_eq!(state.rtv_heap_start, 0x1000);
    assert_eq!(state.window, window);
}

#[test]
fn initial_frame_index_comes_from_the_swap_chain() {
    for reported in [0u64, 1] {
        let mut renderer = Renderer::new(false);
        let first = renderer.load_pipeline(Window { handle: 1 });
        drive(&mut renderer, first, reported, 0);
        assert_eq!(renderer.state().stage, Stage::PipelineLoaded);
        assert_eq!(renderer.state().frame_index as u64, reported);
    }
}

#[test]
fn back_buffer_index_beyond_the_swap_chain_is_refused() {
    let mut renderer = Renderer::new(false);
    let first = renderer.load_pipeline(Window { handle: 1 });
    let seen = drive(&mut renderer, first, 2, 0);
    assert_eq!(*seen.last().unwrap(), Request::Abort);
    assert_eq!(
        renderer.state().failure,
        Some(RendererError::SynchronizationFailed {
            cause: SyncFailure::BackBufferOutOfRange { index: 2 }
        })
    );
    assert!(renderer.state().frame_index < renderer.state().frame_count);
}

#[test]
fn second_of_three_adapters_is_selected() {
    let mut renderer = Renderer::new(false);
    let mut seen = vec![renderer.load_pipeline(Window { handle: 1 })];
    // factory
    seen.push(renderer.answer(ok()));
    // adapter 0: enumerated, cast, no support for the feature level
    seen.push(renderer.answer(ok()));
    seen.push(renderer.answer(ok()));
    seen.push(renderer.answer(ok()));
    seen.push(renderer.answer(failed(E_FAIL)));
    // adapter 0 released
    seen.push(renderer.answer(ok()));
    // adapter 1: enumerated, cast, supports the feature level
    seen.push(renderer.answer(ok()));
    seen.push(renderer.answer(ok()));
    seen.push(renderer.answer(ok()));
    seen.push(renderer.answer(ok()));
    assert_eq!(
        seen,
        vec![
            Request::CreateFactory { flags: 0 },
            Request::EnumerateAdapter { index: 0 },
            Request::CastAdapter { index: 0 },
            Request::ReleaseEnumeratedAdapter { index: 0 },
            Request::ProbeDevice { index: 0, feature_level: 0xb000 },
            Request::ReleaseAdapter { index: 0 },
            Request::EnumerateAdapter { index: 1 },
            Request::CastAdapter { index: 1 },
            Request::ReleaseEnumeratedAdapter { index: 1 },
            Request::ProbeDevice { index: 1, feature_level: 0xb000 },
            Request::ReleaseProbeDevice { index: 1 },
        ]
    );
    assert_eq!(renderer.answer(ok()), Request::CreateDevice { index: 1, feature_level: 0xb000 });
    assert_eq!(renderer.state().adapter_index, 1);
    // The third adapter is never asked for: nothing of it is held.
    let rest = drive(&mut renderer, Request::CreateDevice { index: 1, feature_level: 0xb000 }, 0, 0);
    assert!(!rest.iter().any(|r| matches!(
        r,
        Request::EnumerateAdapter { .. } | Request::CastAdapter { .. } | Request::ProbeDevice { .. }
    )));
    assert_eq!(renderer.state().stage, Stage::PipelineLoaded);
}

#[test]
fn no_suitable_adapter_exhausts_the_enumeration() {
    let mut renderer = Renderer::new(false);
    renderer.load_pipeline(Window { handle: 1 });
    renderer.answer(ok());
    for index in 0..3u32 {
        assert_eq!(renderer.pending(), Request::EnumerateAdapter { index });
        renderer.answer(ok());
        renderer.answer(ok());
        renderer.answer(ok());
        assert_eq!(renderer.answer(failed(E_FAIL)), Request::ReleaseAdapter { index });
        renderer.answer(ok());
    }
    assert_eq!(renderer.answer(failed(DXGI_ERROR_NOT_FOUND)), Request::Abort);
    assert_eq!(renderer.state().failure, Some(RendererError::AdapterEnumerationExhausted));
}

#[test]
fn adapter_cast_failure_is_fatal() {
    let mut renderer = Renderer::new(false);
    renderer.load_pipeline(Window { handle: 1 });
    renderer.answer(ok());
    renderer.answer(ok());
    assert_eq!(renderer.answer(failed(E_FAIL)), Request::Abort);
    assert_eq!(
        renderer.state().failure,
        Some(RendererError::DeviceCreationFailed { code: E_FAIL })
    );
}

fn fail_at(renderer: &mut Renderer, first: Request, target: &str, reply: Reply) -> Option<RendererError> {
    let mut request = first;
    let mut pending_reply = Some(reply);
    let mut steps = 0;
    while request != Request::Done && request != Request::Abort {
        let name = format!("{:?}", request);
        let answer = if name.starts_with(target) && pending_reply.is_some() {
            pending_reply.take().unwrap()
        } else {
            match request {
                Request::QueryDescriptorIncrementSize { .. } => value(32),
                Request::QueryHeapStart => value(0x1000),
                Request::CompileShader { .. } => value(512),
                Request::MapVertexBuffer { .. } => value(0x7000_0000),
                Request::QueryGpuAddress => value(0x8000_0000),
                Request::CreateFenceEvent => value(0x44),
                _ => ok(),
            }
        };
        request = renderer.answer(answer);
        steps += 1;
        assert!(steps < 200);
    }
    renderer.state().failure.clone()
}

#[test]
fn each_creation_failure_names_its_resource() {
    let cases = [
        ("CreateFactory", Resource::Factory),
        ("CreateCommandQueue", Resource::CommandQueue),
        ("CreateSwapChain", Resource::SwapChain),
        ("UpgradeSwapChain", Resource::SwapChain),
        ("CreateDescriptorHeap", Resource::DescriptorHeap),
        ("CreateRenderTargetView", Resource::RenderTarget),
        ("CreateCommandAllocator", Resource::CommandAllocator),
    ];
    for (target, resource) in cases {
        let mut renderer = Renderer::new(false);
        let first = renderer.load_pipeline(Window { handle: 1 });
        let failure = fail_at(&mut renderer, first, target, failed(E_FAIL));
        assert_eq!(
            failure,
            Some(RendererError::ResourceCreationFailed { resource, code: E_FAIL }),
            "{}",
            target
        );
    }
    let cases = [
        ("SerializeRootSignature", Resource::RootSignature),
        ("CreateRootSignature", Resource::RootSignature),
        ("CreateGraphicsPipelineState", Resource::PipelineState),
        ("CreateCommandList", Resource::CommandList),
        ("CloseCommandList", Resource::CommandList),
        ("CreateVertexBuffer", Resource::VertexBuffer),
        ("MapVertexBuffer", Resource::VertexBuffer),
        ("CreateFence {", Resource::Fence),
    ];
    for (target, resource) in cases {
        let mut renderer = Renderer::new(false);
        let first = renderer.load_pipeline(Window { handle: 1 });
        drive(&mut renderer, first, 0, 0);
        let first = renderer.load_assets();
        let failure = fail_at(&mut renderer, first, target, failed(E_FAIL));
        assert_eq!(
            failure,
            Some(RendererError::ResourceCreationFailed { resource, code: E_FAIL }),
            "{}",
            target
        );
    }
}

#[test]
fn device_creation_failure_is_fatal() {
    let mut renderer = Renderer::new(false);
    let first = renderer.load_pipeline(Window { handle: 1 });
    let failure = fail_at(&mut renderer, first, "CreateDevice", failed(E_FAIL));
    assert_eq!(failure, Some(RendererError::DeviceCreationFailed { code: E_FAIL }));
}

#[test]
fn null_mapping_and_null_event_are_failures() {
    let mut renderer = Renderer::new(false);
    let first = renderer.load_pipeline(Window { handle: 1 });
    drive(&mut renderer, first, 0, 0);
    let first = renderer.load_assets();
    let failure = fail_at(&mut renderer, first, "MapVertexBuffer", value(0));
    assert_eq!(
        failure,
        Some(RendererError::ResourceCreationFailed { resource: Resource::VertexBuffer, code: 0 })
    );

    let mut renderer = Renderer::new(false);
    let first = renderer.load_pipeline(Window { handle: 1 });
    drive(&mut renderer, first, 0, 0);
    let first = renderer.load_assets();
    let failure = fail_at(
        &mut renderer,
        first,
        "CreateFenceEvent",
        Reply { status: 8, value: 0, text: String::new() },
    );
    assert_eq!(
        failure,
        Some(RendererError::ResourceCreationFailed { resource: Resource::FenceEvent, code: 8 })
    );
}

#[test]
fn shader_compile_failure_carries_the_diagnostic() {
    let diagnostic = "shaders.hlsl(1,1): error X3501: 'VSMain': entrypoint not found";
    let mut renderer = Renderer::new(false);
    let first = renderer.load_pipeline(Window { handle: 1 });
    drive(&mut renderer, first, 0, 0);
    let first = renderer.load_assets();
    let failure = fail_at(
        &mut renderer,
        first,
        "CompileShader { stage: Vertex",
        Reply { status: E_FAIL, value: 0, text: diagnostic.to_string() },
    );
    match failure {
        Some(RendererError::ShaderCompileFailed { stage, code, diagnostic: text }) => {
            assert_eq!(stage, ShaderStage::Vertex);
            assert_eq!(code, E_FAIL);
            assert!(!text.is_empty());
            assert_eq!(text, diagnostic);
        }
        other => panic!("{:?}", other),
    }
    assert_eq!(renderer.pending(), Request::Abort);
}

#[test]
fn pixel_shader_failure_names_the_pixel_stage() {
    let mut renderer = Renderer::new(false);
    let first = renderer.load_pipeline(Window { handle: 1 });
    drive(&mut renderer, first, 0, 0);
    let first = renderer.load_assets();
    let failure = fail_at(
        &mut renderer,
        first,
        "CompileShader { stage: Pixel",
        Reply { status: E_FAIL, value: 0, text: "error X3000: syntax error".to_string() },
    );
    assert_eq!(
        failure,
        Some(RendererError::ShaderCompileFailed {
            stage: ShaderStage::Pixel,
            code: E_FAIL,
            diagnostic: "error X3000: syntax error".to_string(),
        })
    );
}

#[test]
fn successful_compile_without_bytecode_is_a_failure() {
    let mut renderer = Renderer::new(false);
    let first = renderer.load_pipeline(Window { handle: 1 });
    drive(&mut renderer, first, 0, 0);
    let first = renderer.load_assets();
    let failure = fail_at(&mut renderer, first, "CompileShader", value(0));
    assert_eq!(
        failure,
        Some(RendererError::ShaderCompileFailed {
            stage: ShaderStage::Vertex,
            code: 0,
            diagnostic: String::new(),
        })
    );
}

#[test]
fn load_assets_asks_for_each_object_in_turn() {
    let mut renderer = Renderer::new(true);
    let first = renderer.load_pipeline(Window { handle: 1 });
    drive(&mut renderer, first, 1, 0);
    let first = renderer.load_assets();
    let seen = drive(&mut renderer, first, 1, 1);
    let names: Vec<String> = seen
        .iter()
        .map(|r| format!("{:?}", r).split(|c: char| !c.is_alphanumeric()).next().unwrap().to_string())
        .collect();
    assert_eq!(
        names,
        vec![
            "SerializeRootSignature",
            "CreateRootSignature",
            "CompileShader",
            "CompileShader",
            "CreateGraphicsPipelineState",
            "CreateCommandList",
            "CloseCommandList",
            "CreateVertexBuffer",
            "MapVertexBuffer",
            "WriteVertices",
            "UnmapVertexBuffer",
            "QueryGpuAddress",
            "CreateFence",
            "CreateFenceEvent",
            "Signal",
            "QueryCompletedValue",
            "QueryBackBufferIndex",
            "Done",
        ]
    );
    assert_eq!(seen[2], Request::CompileShader { stage: ShaderStage::Vertex, flags: 5 });
    assert_eq!(seen[3], Request::CompileShader { stage: ShaderStage::Pixel, flags: 5 });
    assert_eq!(seen[9], Request::WriteVertices { size_in_bytes: 84 });
    assert_eq!(seen[12], Request::CreateFence { initial_value: 0 });
    assert_eq!(seen[14], Request::Signal { value: 1 });
    let state = renderer.state();
    assert_eq!(state.stage, Stage::Ready);
    assert_eq!(state.fence_value, 2);
    assert_eq!(
        state.vertex_buffer_view,
        VertexBufferView { buffer_location: 0x8000_0000, size_in_bytes: 84, stride_in_bytes: 28 }
    );
    assert_eq!(state.render_target_count, state.frame_count);
}

#[test]
fn vertex_buffer_holds_three_vertices_of_28_bytes() {
    let renderer = ready_renderer(0);
    let view = renderer.state().vertex_buffer_view;
    assert_eq!(view.stride_in_bytes, 28);
    assert_eq!(view.size_in_bytes, 3 * view.stride_in_bytes);
    assert_eq!(view.size_in_bytes, 84);
    assert_eq!(renderer.vertex_data().len(), 84);
}

#[test]
fn synchronization_signals_then_increments() {
    let mut renderer = ready_renderer(0);
    let initial = renderer.state().fence_value;
    assert_eq!(renderer.wait_for_previous_frame(), Request::Signal { value: initial });
    assert_eq!(renderer.state().fence_value, initial);
    assert_eq!(renderer.answer(ok()), Request::QueryCompletedValue);
    assert_eq!(renderer.state().fence_value, initial + 1);
    assert_eq!(renderer.state().signaled_value, initial);
    assert_eq!(renderer.state().stage, Stage::ReadingCompletedValue);
}

#[test]
fn wait_blocks_only_while_the_gpu_is_behind() {
    // The GPU has reached the signaled value: no wait.
    let mut renderer = ready_renderer(0);
    let initial = renderer.state().fence_value;
    renderer.wait_for_previous_frame();
    renderer.answer(ok());
    assert_eq!(renderer.answer(value(initial)), Request::QueryBackBufferIndex);
    assert_eq!(renderer.state().last_wait, WaitOutcome::NotNeeded);
    assert_eq!(renderer.answer(value(1)), Request::Done);
    assert_eq!(renderer.state().fence_value, initial + 1);
    assert_eq!(renderer.state().frame_index, 1);

    // Second synchronization, the GPU still at the value of the first: wait.
    assert_eq!(renderer.wait_for_previous_frame(), Request::Signal { value: initial + 1 });
    renderer.answer(ok());
    assert_eq!(
        renderer.answer(value(initial)),
        Request::SetEventOnCompletion { value: initial + 1 }
    );
    assert_eq!(renderer.state().stage, Stage::RegisteringWait);
    assert_eq!(renderer.answer(ok()), Request::WaitForEvent { timeout: 0xFFFF_FFFF });
    assert_eq!(renderer.state().stage, Stage::Waiting);
    assert_eq!(renderer.answer(value(0)), Request::QueryBackBufferIndex);
    assert_eq!(renderer.state().last_wait, WaitOutcome::Signaled);
    assert_eq!(renderer.answer(value(0)), Request::Done);
    assert_eq!(renderer.state().fence_value, initial + 2);
    assert_eq!(renderer.state().frame_index, 0);
    assert_eq!(renderer.state().stage, Stage::Ready);
}

#[test]
fn gpu_one_short_of_the_signaled_value_blocks() {
    let mut renderer = ready_renderer(0);
    let initial = renderer.state().fence_value;
    renderer.wait_for_previous_frame();
    renderer.answer(ok());
    assert_eq!(
        renderer.answer(value(initial - 1)),
        Request::SetEventOnCompletion { value: initial }
    );
}

#[test]
fn fence_value_grows_by_one_per_frame() {
    let mut renderer = ready_renderer(0);
    let initial = renderer.state().fence_value;
    for frame in 1..=5u64 {
        renderer.update();
        let first = renderer.render();
        drive(&mut renderer, first, frame % 2, 0);
        assert_eq!(renderer.state().stage, Stage::Ready);
        assert_eq!(renderer.state().fence_value, initial + frame);
        assert_eq!(renderer.state().frame_index as u64, frame % 2);
        assert!(renderer.state().frame_index < renderer.state().frame_count);
    }
}

#[test]
fn abandoned_wait_is_not_fatal() {
    let mut renderer = ready_renderer(0);
    renderer.wait_for_previous_frame();
    renderer.answer(ok());
    renderer.answer(value(0));
    renderer.answer(ok());
    assert_eq!(renderer.answer(value(0x80)), Request::QueryBackBufferIndex);
    assert_eq!(renderer.state().last_wait, WaitOutcome::Abandoned);
    assert_eq!(renderer.answer(value(0)), Request::Done);
    assert_eq!(renderer.state().failure, None);
}

#[test]
fn timed_out_wait_is_not_fatal() {
    let mut renderer = ready_renderer(0);
    renderer.wait_for_previous_frame();
    renderer.answer(ok());
    renderer.answer(value(0));
    renderer.answer(ok());
    assert_eq!(renderer.answer(value(0x102)), Request::QueryBackBufferIndex);
    assert_eq!(renderer.state().last_wait, WaitOutcome::TimedOut);
}

#[test]
fn failed_wait_is_fatal() {
    for result in [0xFFFF_FFFFu64, 7] {
        let mut renderer = ready_renderer(0);
        renderer.wait_for_previous_frame();
        renderer.answer(ok());
        renderer.answer(value(0));
        renderer.answer(ok());
        assert_eq!(renderer.answer(value(result)), Request::Abort);
        assert_eq!(
            renderer.state().failure,
            Some(RendererError::SynchronizationFailed { cause: SyncFailure::WaitFailed { result } })
        );
    }
}

#[test]
fn rejected_signal_and_registration_are_fatal() {
    let mut renderer = ready_renderer(0);
    let initial = renderer.state().fence_value;
    renderer.wait_for_previous_frame();
    assert_eq!(renderer.answer(failed(E_FAIL)), Request::Abort);
    assert_eq!(
        renderer.state().failure,
        Some(RendererError::SynchronizationFailed {
            cause: SyncFailure::SignalRejected { code: E_FAIL }
        })
    );
    assert_eq!(renderer.state().fence_value, initial);

    let mut renderer = ready_renderer(0);
    renderer.wait_for_previous_frame();
    renderer.answer(ok());
    renderer.answer(value(0));
    assert_eq!(renderer.answer(failed(E_FAIL)), Request::Abort);
    assert_eq!(
        renderer.state().failure,
        Some(RendererError::SynchronizationFailed {
            cause: SyncFailure::RegistrationRejected { code: E_FAIL }
        })
    );
}

#[test]
fn frame_index_beyond_the_swap_chain_is_refused() {
    let mut renderer = ready_renderer(1);
    renderer.wait_for_previous_frame();
    renderer.answer(ok());
    renderer.answer(value(u64::MAX));
    assert_eq!(renderer.answer(value(2)), Request::Abort);
    assert_eq!(
        renderer.state().failure,
        Some(RendererError::SynchronizationFailed {
            cause: SyncFailure::BackBufferOutOfRange { index: 2 }
        })
    );
    assert_eq!(renderer.state().frame_index, 1);
}

#[test]
fn frame_records_submits_presents_and_synchronizes() {
    let mut renderer = ready_renderer(1);
    let commands = renderer.populate_command_list();
    let first = renderer.render();
    let seen = drive(&mut renderer, first, 0, u64::MAX);
    assert_eq!(seen.len(), 13 + 2 + 3 + 1);
    for (position, command) in commands.iter().enumerate() {
        assert_eq!(seen[position], Request::Record { command: *command });
    }
    assert_eq!(seen[13], Request::ExecuteCommandList);
    assert_eq!(seen[14], Request::Present { sync_interval: 1, flags: 0 });
    assert_eq!(seen[15], Request::Signal { value: 2 });
    assert_eq!(seen[16], Request::QueryCompletedValue);
    assert_eq!(seen[17], Request::QueryBackBufferIndex);
    assert_eq!(seen[18], Request::Done);
    assert_eq!(renderer.state().frame_index, 0);
}

#[test]
fn frame_commands_bracket_the_draw() {
    let renderer = ready_renderer(1);
    let commands = renderer.populate_command_list();
    let view = CD3D12_CPU_DESCRIPTOR_HANDLE { ptr: 0x1020 };
    assert_eq!(commands.len(), 13);
    assert_eq!(commands[0], Command::ResetAllocator);
    assert_eq!(commands[1], Command::ResetCommandList);
    assert_eq!(commands[2], Command::SetGraphicsRootSignature);
    assert_eq!(commands[3], Command::SetViewport { viewport: renderer.state().viewport });
    assert_eq!(commands[4], Command::SetScissorRect { rect: renderer.state().scissor_rect });
    assert_eq!(
        commands[5],
        Command::Transition {
            buffer_index: 1,
            before: ResourceState::Present,
            after: ResourceState::RenderTarget,
        }
    );
    assert_eq!(commands[6], Command::SetRenderTarget { view });
    match commands[7] {
        Command::ClearRenderTarget { view: cleared, color } => {
            assert_eq!(cleared, view);
            assert_eq!(f32::from_bits(color.red), 0.0);
            assert_eq!(f32::from_bits(color.green), 0.2);
            assert_eq!(f32::from_bits(color.blue), 0.4);
            assert_eq!(f32::from_bits(color.alpha), 1.0);
        }
        other => panic!("{:?}", other),
    }
    assert_eq!(commands[8], Command::SetPrimitiveTopology { topology: 4 });
    assert_eq!(
        commands[9],
        Command::SetVertexBuffer { slot: 0, view: renderer.state().vertex_buffer_view }
    );
    assert_eq!(
        commands[10],
        Command::DrawInstanced {
            vertex_count: 3,
            instance_count: 1,
            start_vertex: 0,
            start_instance: 0,
        }
    );
    assert_eq!(
        commands[11],
        Command::Transition {
            buffer_index: 1,
            before: ResourceState::RenderTarget,
            after: ResourceState::Present,
        }
    );
    assert_eq!(commands[12], Command::Close);
    let mut rendering = false;
    for command in commands.iter() {
        match command {
            Command::Transition { after: ResourceState::RenderTarget, .. } => rendering = true,
            Command::Transition { after: ResourceState::Present, .. } => rendering = false,
            Command::ClearRenderTarget { .. } | Command::DrawInstanced { .. } => assert!(rendering),
            _ => {}
        }
    }
    assert!(!rendering);
}

#[test]
fn recording_failures_name_allocator_and_list() {
    let mut renderer = ready_renderer(0);
    renderer.render();
    assert_eq!(renderer.answer(failed(E_FAIL)), Request::Abort);
    assert_eq!(
        renderer.state().failure,
        Some(RendererError::ResourceCreationFailed {
            resource: Resource::CommandAllocator,
            code: E_FAIL
        })
    );

    let mut renderer = ready_renderer(0);
    renderer.render();
    renderer.answer(ok());
    assert_eq!(renderer.answer(failed(E_FAIL)), Request::Abort);
    assert_eq!(
        renderer.state().failure,
        Some(RendererError::ResourceCreationFailed { resource: Resource::CommandList, code: E_FAIL })
    );
}

#[test]
fn present_failure_is_fatal() {
    let mut renderer = ready_renderer(0);
    let first = renderer.render();
    let failure = fail_at(&mut renderer, first, "Present", failed(E_FAIL));
    assert_eq!(failure, Some(RendererError::PresentFailed { code: E_FAIL }));
    assert_eq!(renderer.state().stage, Stage::Failed);
    // A failed renderer stays failed.
    assert_eq!(renderer.answer(ok()), Request::Abort);
    assert_eq!(renderer.render(), Request::Abort);
}

#[test]
fn destroy_synchronizes_then_closes_the_event() {
    let mut renderer = ready_renderer(0);
    let first = renderer.destroy();
    let seen = drive(&mut renderer, first, 0, u64::MAX);
    assert_eq!(
        seen,
        vec![
            Request::Signal { value: 2 },
            Request::QueryCompletedValue,
            Request::QueryBackBufferIndex,
            Request::CloseFenceEvent,
            Request::Done,
        ]
    );
    assert_eq!(renderer.state().stage, Stage::Destroyed);
    assert_eq!(renderer.render(), Request::Done);
    assert_eq!(renderer.state().stage, Stage::Destroyed);
}

#[test]
fn runs_start_only_from_their_stage() {
    let mut renderer = Renderer::new(false);
    assert_eq!(renderer.load_assets(), Request::Done);
    assert_eq!(renderer.render(), Request::Done);
    assert_eq!(renderer.wait_for_previous_frame(), Request::Done);
    assert_eq!(renderer.destroy(), Request::Done);
    assert_eq!(renderer.state().stage, Stage::Created);
    assert_eq!(renderer.answer(failed(E_FAIL)), Request::Done);
    assert_eq!(renderer.state().stage, Stage::Created);
    let first = renderer.load_pipeline(Window { handle: 1 });
    // A second start does not restart the run.
    renderer.answer(ok());
    assert_eq!(
        renderer.load_pipeline(Window { handle: 2 }),
        Request::EnumerateAdapter { index: 0 }
    );
    assert_eq!(renderer.state().window, Window { handle: 1 });
    assert_eq!(first, Request::CreateFactory { flags: 0 });
}

#[test]
fn fence_that_cannot_grow_fails_the_synchronization() {
    let renderer = ready_renderer(0);
    let mut state = renderer.state().clone();
    state.fence_value = u64::MAX;
    state.start_wait();
    assert_eq!(state.next_request(), Request::Signal { value: u64::MAX });
    state.apply(ok());
    assert_eq!(state.stage, Stage::Failed);
    assert_eq!(
        state.failure,
        Some(RendererError::SynchronizationFailed { cause: SyncFailure::FenceExhausted })
    );
    assert_eq!(state.fence_value, u64::MAX);
    assert_eq!(state.next_request(), Request::Abort);
}

#[test]
fn adapter_index_that_cannot_grow_exhausts_the_enumeration() {
    let mut state = Renderer::new(false).state().clone();
    state.start_pipeline(Window { handle: 1 });
    state.apply(ok());
    state.adapter_index = u32::MAX;
    state.apply(ok());
    state.apply(ok());
    state.apply(ok());
    state.apply(failed(E_FAIL));
    assert_eq!(state.next_request(), Request::ReleaseAdapter { index: u32::MAX });
    state.apply(ok());
    assert_eq!(state.failure, Some(RendererError::AdapterEnumerationExhausted));
}

#[test]
fn enumeration_failure_other_than_not_found_is_fatal() {
    let mut renderer = Renderer::new(false);
    renderer.load_pipeline(Window { handle: 1 });
    renderer.answer(ok());
    assert_eq!(renderer.answer(failed(E_FAIL)), Request::Abort);
    assert_eq!(
        renderer.state().failure,
        Some(RendererError::DeviceCreationFailed { code: E_FAIL })
    );
}

#[test]
fn descriptor_size_and_heap_start_must_fit() {
    let mut renderer = Renderer::new(false);
    let first = renderer.load_pipeline(Window { handle: 1 });
    let failure =
        fail_at(&mut renderer, first, "QueryDescriptorIncrementSize", value(u32::MAX as u64 + 1));
    assert_eq!(
        failure,
        Some(RendererError::ResourceCreationFailed { resource: Resource::DescriptorHeap, code: 0 })
    );
    let mut renderer = Renderer::new(false);
    let first = renderer.load_pipeline(Window { handle: 1 });
    fail_at(&mut renderer, first, "QueryDescriptorIncrementSize", value(u32::MAX as u64));
    assert_eq!(renderer.state().rtv_descriptor_size, u32::MAX);
    assert_eq!(renderer.state().stage, Stage::PipelineLoaded);
}

#[test]
fn state_steps_match_the_renderer() {
    let mut renderer = Renderer::new(true);
    let mut state = renderer.state().clone();
    let window = Window { handle: 3 };
    let mut request = renderer.load_pipeline(window);
    state.start_pipeline(window);
    let mut steps = 0;
    while request != Request::Done {
        assert_eq!(state.next_request(), request);
        assert_eq!(&state, renderer.state());
        let reply = match request {
            Request::QueryDescriptorIncrementSize { .. } => value(8),
            Request::QueryHeapStart => value(64),
            _ => ok(),
        };
        state.apply(reply.clone());
        request = renderer.answer(reply);
        steps += 1;
        assert!(steps < 100);
    }
    assert_eq!(&state, renderer.state());
    assert_eq!(state.inputs().render_target, CD3D12_CPU_DESCRIPTOR_HANDLE { ptr: 64 });
    assert_eq!(state.inputs().frame_index, 0);
    assert_eq!(state.inputs().vertex_count, 3);
}

#[test]
fn errors_give_their_code_and_diagnostic() {
    assert_eq!(RendererError::AdapterEnumerationExhausted.code(), Some(DXGI_ERROR_NOT_FOUND));
    assert_eq!(DXGI_ERROR_NOT_FOUND as u32, 0x887A_0002);
    assert_eq!(RendererError::DeviceCreationFailed { code: -3 }.code(), Some(-3));
    assert_eq!(
        RendererError::ResourceCreationFailed { resource: Resource::Fence, code: -4 }.code(),
        Some(-4)
    );
    assert_eq!(RendererError::PresentFailed { code: -5 }.code(), Some(-5));
    let compile = RendererError::ShaderCompileFailed {
        stage: ShaderStage::Pixel,
        code: -6,
        diagnostic: "error X3000".to_string(),
    };
    assert_eq!(compile.code(), Some(-6));
    assert_eq!(compile.diagnostic(), "error X3000");
    assert_eq!(RendererError::PresentFailed { code: -5 }.diagnostic(), "");
    let signal = RendererError::SynchronizationFailed {
        cause: SyncFailure::SignalRejected { code: -7 },
    };
    assert_eq!(signal.code(), Some(-7));
    let registration = RendererError::SynchronizationFailed {
        cause: SyncFailure::RegistrationRejected { code: -8 },
    };
    assert_eq!(registration.code(), Some(-8));
    for cause in [
        SyncFailure::WaitFailed { result: 0xFFFF_FFFF },
        SyncFailure::BackBufferOutOfRange { index: 2 },
        SyncFailure::FenceExhausted,
    ] {
        assert_eq!(RendererError::SynchronizationFailed { cause }.code(), None);
    }
}

#[test]
fn native_result_codes_succeed_from_zero_up() {
    assert!(succeeded(0));
    assert!(succeeded(1));
    assert!(succeeded(i32::MAX));
    assert!(!succeeded(-1));
    assert!(!succeeded(E_FAIL));
    assert!(!succeeded(i32::MIN));
}

#[test]
fn resource_states_have_their_native_values() {
    assert_eq!(ResourceState::Present.bits(), 0);
    assert_eq!(ResourceState::RenderTarget.bits(), 4);
}

#[test]
fn frame_takes_at_most_twenty_native_calls() {
    // The GPU is behind: the frame waits, which is the longest it gets.
    let mut renderer = ready_renderer(0);
    let first = renderer.render();
    let seen = drive(&mut renderer, first, 1, 0);
    assert_eq!(seen.len() - 1, 20);
    assert_eq!(renderer.state().stage, Stage::Ready);
    // The GPU has caught up: two calls fewer.
    let first = renderer.render();
    let seen = drive(&mut renderer, first, 0, u64::MAX);
    assert_eq!(seen.len() - 1, 18);
}

#[test]
fn stages_belong_to_their_runs() {
    assert_eq!(Stage::Created.current_run(), Run::Rest);
    assert_eq!(Stage::PipelineLoaded.current_run(), Run::Rest);
    assert_eq!(Stage::Ready.current_run(), Run::Rest);
    assert_eq!(Stage::Destroyed.current_run(), Run::Rest);
    assert_eq!(Stage::Failed.current_run(), Run::Rest);
    assert_eq!(Stage::EnablingValidation.current_run(), Run::Pipeline);
    assert_eq!(Stage::CreatingCommandAllocator.current_run(), Run::Pipeline);
    assert_eq!(Stage::SerializingRootSignature.current_run(), Run::Assets);
    assert_eq!(Stage::CreatingFenceEvent.current_run(), Run::Assets);
    assert_eq!(Stage::Signaling.current_run(), Run::Synchronization);
    assert_eq!(Stage::ClosingFenceEvent.current_run(), Run::Synchronization);
    assert_eq!(Stage::Recording.current_run(), Run::Frame);
    assert_eq!(Stage::Presenting.current_run(), Run::Frame);
    let mut renderer = Renderer::new(true);
    let mut request = renderer.load_pipeline(Window { handle: 1 });
    while request != Request::Done {
        assert_eq!(renderer.state().stage.current_run(), Run::Pipeline);
        request = renderer.answer(match request {
            Request::QueryDescriptorIncrementSize { .. } => value(32),
            _ => ok(),
        });
    }
    assert_eq!(renderer.state().stage.current_run(), Run::Rest);
    assert!(renderer.state().validation_active);
}
