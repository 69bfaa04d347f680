//! Native result codes and the failures the renderer reports.

use vstd::prelude::*;
use vstd::string::StringExecFns;

verus! {

/// The success code without further information.
pub const S_OK: i32 = 0;

/// The code with which adapter enumeration reports that no adapter has the
/// index asked for (`0x887A0002`).
pub const DXGI_ERROR_NOT_FOUND: i32 = -2005270526;

/// Whether a native result code reports success: every non-negative code
/// does.
pub open spec fn hr_succeeded(hr: i32) -> bool {
    hr >= 0
}

/// Whether the native result code `hr` reports success.
pub fn succeeded(hr: i32) -> (ok: bool)
    ensures
        ok == hr_succeeded(hr),
{
    hr >= 0
}

/// The native objects whose creation can fail.
#[derive(Clone, Copy, Debug, PartialEq, Eq, Structural)]
pub enum Resource {
    Factory,
    CommandQueue,
    SwapChain,
    DescriptorHeap,
    RenderTarget,
    CommandAllocator,
    RootSignature,
    PipelineState,
    CommandList,
    VertexBuffer,
    Fence,
    FenceEvent,
}

/// The two programmable stages of the pipeline.
#[derive(Clone, Copy, Debug, PartialEq, Eq, Structural)]
pub enum ShaderStage {
    Vertex,
    Pixel,
}

/// Why a frame synchronization failed.
#[derive(Clone, Copy, Debug, PartialEq, Eq, Structural)]
pub enum SyncFailure {
    /// The queue refused to signal the fence.
    SignalRejected { code: i32 },
    /// The fence refused to register the completion event.
    RegistrationRejected { code: i32 },
    /// The wait on the completion event ended with a result other than
    /// signaled, abandoned or timed out.
    WaitFailed { result: u64 },
    /// The swap chain named a back buffer that it does not have.
    BackBufferOutOfRange { index: u64 },
    /// The fence value cannot grow any further.
    FenceExhausted,
}

/// Every way in which the renderer gives up. All of them are final.
#[derive(Clone, Debug, PartialEq, Eq)]
pub enum RendererError {
    /// Enumeration ran out of adapters before one supported the minimum
    /// feature level.
    AdapterEnumerationExhausted,
    /// The validation layer, an adapter interface or the device could not be
    /// had.
    DeviceCreationFailed { code: i32 },
    /// A queue, swap chain, heap, view, list, buffer, fence or event could
    /// not be created or prepared.
    ResourceCreationFailed { resource: Resource, code: i32 },
    /// A shader did not compile. `diagnostic` is the compiler's own text.
    ShaderCompileFailed { stage: ShaderStage, code: i32, diagnostic: String },
    /// The CPU could not be paced behind the GPU.
    SynchronizationFailed { cause: SyncFailure },
    /// The swap chain refused to present.
    PresentFailed { code: i32 },
}

/// The hexadecimal digit of a value below 16.
pub open spec fn hex_digit(value: int) -> char {
    if value == 0 {
        '0'
    } else if value == 1 {
        '1'
    } else if value == 2 {
        '2'
    } else if value == 3 {
        '3'
    } else if value == 4 {
        '4'
    } else if value == 5 {
        '5'
    } else if value == 6 {
        '6'
    } else if value == 7 {
        '7'
    } else if value == 8 {
        '8'
    } else if value == 9 {
        '9'
    } else if value == 10 {
        'a'
    } else if value == 11 {
        'b'
    } else if value == 12 {
        'c'
    } else if value == 13 {
        'd'
    } else if value == 14 {
        'e'
    } else {
        'f'
    }
}

/// A result code as the unsigned number of 32 bits that has its bits.
pub open spec fn code_bits(code: i32) -> int {
    if code < 0 {
        code + 0x1_0000_0000
    } else {
        code as int
    }
}

/// A result code in eight hexadecimal digits, as `0x887a0002` is written
/// without its prefix.
pub open spec fn hex_text(code: i32) -> Seq<char> {
    let bits = code_bits(code);
    seq![
        hex_digit(bits / 0x1000_0000 % 16),
        hex_digit(bits / 0x100_0000 % 16),
        hex_digit(bits / 0x10_0000 % 16),
        hex_digit(bits / 0x1_0000 % 16),
        hex_digit(bits / 0x1000 % 16),
        hex_digit(bits / 0x100 % 16),
        hex_digit(bits / 0x10 % 16),
        hex_digit(bits % 16),
    ]
}

/// What a resource is called in a message.
pub open spec fn resource_name(resource: Resource) -> Seq<char> {
    match resource {
        Resource::Factory => "factory"@,
        Resource::CommandQueue => "command queue"@,
        Resource::SwapChain => "swap chain"@,
        Resource::DescriptorHeap => "descriptor heap"@,
        Resource::RenderTarget => "render target"@,
        Resource::CommandAllocator => "command allocator"@,
        Resource::RootSignature => "root signature"@,
        Resource::PipelineState => "pipeline state"@,
        Resource::CommandList => "command list"@,
        Resource::VertexBuffer => "vertex buffer"@,
        Resource::Fence => "fence"@,
        Resource::FenceEvent => "fence event"@,
    }
}

/// What a shader stage is called in a message.
pub open spec fn stage_name(stage: ShaderStage) -> Seq<char> {
    match stage {
        ShaderStage::Vertex => "vertex"@,
        ShaderStage::Pixel => "pixel"@,
    }
}

/// The message that tells of a failure: what failed, the native result code
/// in hexadecimal where there is one, and for a shader the text of the
/// compiler as it came.
pub open spec fn message_text(error: RendererError) -> Seq<char> {
    match error {
        RendererError::AdapterEnumerationExhausted =>
            "no adapter supports the minimum feature level"@,
        RendererError::DeviceCreationFailed { code } => "device creation failed: 0x"@ + hex_text(
            code,
        ),
        RendererError::ResourceCreationFailed { resource, code } => "creation of the "@
            + resource_name(resource) + " failed: 0x"@ + hex_text(code),
        RendererError::ShaderCompileFailed { stage, code, diagnostic } => stage_name(stage)
            + " shader compilation failed: 0x"@ + hex_text(code) + ": "@ + diagnostic@,
        RendererError::SynchronizationFailed { cause } => match cause {
            SyncFailure::SignalRejected { code } => "synchronization failed: signal rejected: 0x"@
                + hex_text(code),
            SyncFailure::RegistrationRejected { code } =>
                "synchronization failed: wait registration rejected: 0x"@ + hex_text(code),
            SyncFailure::WaitFailed { .. } => "synchronization failed: wait failed"@,
            SyncFailure::BackBufferOutOfRange { .. } =>
                "synchronization failed: back buffer out of range"@,
            SyncFailure::FenceExhausted => "synchronization failed: fence exhausted"@,
        },
        RendererError::PresentFailed { code } => "presentation failed: 0x"@ + hex_text(code),
    }
}

fn digit_text(value: u64) -> (text: &'static str)
    requires
        value < 16,
    ensures
        text@ == seq![hex_digit(value as int)],
{
    proof {
        reveal_strlit("0");
        reveal_strlit("1");
        reveal_strlit("2");
        reveal_strlit("3");
        reveal_strlit("4");
        reveal_strlit("5");
        reveal_strlit("6");
        reveal_strlit("7");
        reveal_strlit("8");
        reveal_strlit("9");
        reveal_strlit("a");
        reveal_strlit("b");
        reveal_strlit("c");
        reveal_strlit("d");
        reveal_strlit("e");
        reveal_strlit("f");
    }
    let text = if value == 0 {
        "0"
    } else if value == 1 {
        "1"
    } else if value == 2 {
        "2"
    } else if value == 3 {
        "3"
    } else if value == 4 {
        "4"
    } else if value == 5 {
        "5"
    } else if value == 6 {
        "6"
    } else if value == 7 {
        "7"
    } else if value == 8 {
        "8"
    } else if value == 9 {
        "9"
    } else if value == 10 {
        "a"
    } else if value == 11 {
        "b"
    } else if value == 12 {
        "c"
    } else if value == 13 {
        "d"
    } else if value == 14 {
        "e"
    } else {
        "f"
    };
    text
}

fn append_hex(text: &mut String, code: i32)
    ensures
        final(text)@ == old(text)@ + hex_text(code),
{
    let bits: u64 = if code < 0 {
        (code as i64 + 0x1_0000_0000) as u64
    } else {
        code as u64
    };
    text.append(digit_text(bits / 0x1000_0000 % 16));
    text.append(digit_text(bits / 0x100_0000 % 16));
    text.append(digit_text(bits / 0x10_0000 % 16));
    text.append(digit_text(bits / 0x1_0000 % 16));
    text.append(digit_text(bits / 0x1000 % 16));
    text.append(digit_text(bits / 0x100 % 16));
    text.append(digit_text(bits / 0x10 % 16));
    text.append(digit_text(bits % 16));
}

fn resource_text(resource: Resource) -> (text: &'static str)
    ensures
        text@ == resource_name(resource),
{
    match resource {
        Resource::Factory => "factory",
        Resource::CommandQueue => "command queue",
        Resource::SwapChain => "swap chain",
        Resource::DescriptorHeap => "descriptor heap",
        Resource::RenderTarget => "render target",
        Resource::CommandAllocator => "command allocator",
        Resource::RootSignature => "root signature",
        Resource::PipelineState => "pipeline state",
        Resource::CommandList => "command list",
        Resource::VertexBuffer => "vertex buffer",
        Resource::Fence => "fence",
        Resource::FenceEvent => "fence event",
    }
}

impl RendererError {
    /// The message that tells of the failure.
    pub fn message(&self) -> (text: String)
        ensures
            text@ == message_text(*self),
    {
        match self {
            RendererError::AdapterEnumerationExhausted => String::from_str(
                "no adapter supports the minimum feature level",
            ),
            RendererError::DeviceCreationFailed { code } => {
                let mut text = String::from_str("device creation failed: 0x");
                append_hex(&mut text, *code);
                text
            },
            RendererError::ResourceCreationFailed { resource, code } => {
                let mut text = String::from_str("creation of the ");
                text.append(resource_text(*resource));
                text.append(" failed: 0x");
                append_hex(&mut text, *code);
                text
            },
            RendererError::ShaderCompileFailed { stage, code, diagnostic } => {
                let mut text = match stage {
                    ShaderStage::Vertex => String::from_str("vertex"),
                    ShaderStage::Pixel => String::from_str("pixel"),
                };
                text.append(" shader compilation failed: 0x");
                append_hex(&mut text, *code);
                text.append(": ");
                text.append(diagnostic.as_str());
                text
            },
            RendererError::SynchronizationFailed { cause } => match cause {
                SyncFailure::SignalRejected { code } => {
                    let mut text = String::from_str("synchronization failed: signal rejected: 0x");
                    append_hex(&mut text, *code);
                    text
                },
                SyncFailure::RegistrationRejected { code } => {
                    let mut text = String::from_str(
                        "synchronization failed: wait registration rejected: 0x",
                    );
                    append_hex(&mut text, *code);
                    text
                },
                SyncFailure::WaitFailed { .. } => String::from_str(
                    "synchronization failed: wait failed",
                ),
                SyncFailure::BackBufferOutOfRange { .. } => String::from_str(
                    "synchronization failed: back buffer out of range",
                ),
                SyncFailure::FenceExhausted => String::from_str(
                    "synchronization failed: fence exhausted",
                ),
            },
            RendererError::PresentFailed { code } => {
                let mut text = String::from_str("presentation failed: 0x");
                append_hex(&mut text, *code);
                text
            },
        }
    }

    /// The native result code that came with the failure, where one did.
    pub fn code(&self) -> (code: Option<i32>)
        ensures
            code == match *self {
                RendererError::AdapterEnumerationExhausted => Some(DXGI_ERROR_NOT_FOUND),
                RendererError::DeviceCreationFailed { code } => Some(code),
                RendererError::ResourceCreationFailed { code, .. } => Some(code),
                RendererError::ShaderCompileFailed { code, .. } => Some(code),
                RendererError::SynchronizationFailed { cause } => match cause {
                    SyncFailure::SignalRejected { code } => Some(code),
                    SyncFailure::RegistrationRejected { code } => Some(code),
                    _ => None,
                },
                RendererError::PresentFailed { code } => Some(code),
            },
    {
        match self {
            RendererError::AdapterEnumerationExhausted => Some(DXGI_ERROR_NOT_FOUND),
            RendererError::DeviceCreationFailed { code } => Some(*code),
            RendererError::ResourceCreationFailed { code, .. } => Some(*code),
            RendererError::ShaderCompileFailed { code, .. } => Some(*code),
            RendererError::SynchronizationFailed { cause } => match cause {
                SyncFailure::SignalRejected { code } => Some(*code),
                SyncFailure::RegistrationRejected { code } => Some(*code),
                _ => None,
            },
            RendererError::PresentFailed { code } => Some(*code),
        }
    }

    /// The text that the shader compiler gave; no text for a failure that
    /// is none of a shader.
    pub fn diagnostic(&self) -> (text: &str)
        ensures
            text@ == match *self {
                RendererError::ShaderCompileFailed { diagnostic, .. } => diagnostic@,
                _ => Seq::<char>::empty(),
            },
    {
        match self {
            RendererError::ShaderCompileFailed { diagnostic, .. } => diagnostic.as_str(),
            _ => {
                let none: &'static str = "";
                proof {
                    reveal_strlit("");
                }
                none
            },
        }
    }
}

} // verus!
