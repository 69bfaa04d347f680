use dx_renderer::error::RendererError;
use dx_renderer::error::Resource;
use dx_renderer::error::ShaderStage;
use dx_renderer::error::SyncFailure;

const E_FAIL: i32 = -2147467259;

#[test]
fn message_of_a_device_failure_has_the_code_in_hex() {
    assert_eq!(
        RendererError::DeviceCreationFailed { code: E_FAIL }.message(),
        "device creation failed: 0x80004005"
    );
    assert_eq!(
        RendererError::DeviceCreationFailed { code: -2005270526 }.message(),
        "device creation failed: 0x887a0002"
    );
}

#[test]
fn message_writes_every_code_in_eight_digits() {
    for code in [0, 1, 9, 10, 15, 16, 255, 0x1234_5678, i32::MAX, -1, i32::MIN, E_FAIL, -2005270524] {
        assert_eq!(
            RendererError::PresentFailed { code }.message(),
            format!("presentation failed: 0x{:08x}", code)
        );
    }
    let mut code: i32 = 1;
    for _ in 0..200 {
        code = code.wrapping_mul(1103515245).wrapping_add(12345);
        assert_eq!(
            RendererError::PresentFailed { code }.message(),
            format!("presentation failed: 0x{:08x}", code as u32)
        );
    }
}

#[test]
fn message_of_a_shader_failure_ends_with_the_diagnostic() {
    let diagnostic = "shaders.hlsl(12,5): error X3000: syntax error\n";
    let error = RendererError::ShaderCompileFailed {
        stage: ShaderStage::Vertex,
        code: E_FAIL,
        diagnostic: diagnostic.to_string(),
    };
    assert_eq!(
        error.message(),
        format!("vertex shader compilation failed: 0x80004005: {}", diagnostic)
    );
    let error = RendererError::ShaderCompileFailed {
        stage: ShaderStage::Pixel,
        code: 0,
        diagnostic: String::new(),
    };
    assert_eq!(error.message(), "pixel shader compilation failed: 0x00000000: ");
}

#[test]
fn message_names_the_resource() {
    let names = [
        (Resource::Factory, "factory"),
        (Resource::CommandQueue, "command queue"),
        (Resource::SwapChain, "swap chain"),
        (Resource::DescriptorHeap, "descriptor heap"),
        (Resource::RenderTarget, "render target"),
        (Resource::CommandAllocator, "command allocator"),
        (Resource::RootSignature, "root signature"),
        (Resource::PipelineState, "pipeline state"),
        (Resource::CommandList, "command list"),
        (Resource::VertexBuffer, "vertex buffer"),
        (Resource::Fence, "fence"),
        (Resource::FenceEvent, "fence event"),
    ];
    for (resource, name) in names {
        assert_eq!(
            RendererError::ResourceCreationFailed { resource, code: -16 }.message(),
            format!("creation of the {} failed: 0xfffffff0", name)
        );
    }
}

#[test]
fn message_of_other_failures() {
    assert_eq!(
        RendererError::AdapterEnumerationExhausted.message(),
        "no adapter supports the minimum feature level"
    );
    let sync = |cause| RendererError::SynchronizationFailed { cause }.message();
    assert_eq!(
        sync(SyncFailure::SignalRejected { code: E_FAIL }),
        "synchronization failed: signal rejected: 0x80004005"
    );
    assert_eq!(
        sync(SyncFailure::RegistrationRejected { code: -1 }),
        "synchronization failed: wait registration rejected: 0xffffffff"
    );
    assert_eq!(
        sync(SyncFailure::WaitFailed { result: 0xFFFF_FFFF }),
        "synchronization failed: wait failed"
    );
    assert_eq!(
        sync(SyncFailure::BackBufferOutOfRange { index: 2 }),
        "synchronization failed: back buffer out of range"
    );
    assert_eq!(sync(SyncFailure::FenceExhausted), "synchronization failed: fence exhausted");
}
