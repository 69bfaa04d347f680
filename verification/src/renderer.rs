//! The renderer: loads the pipeline and the assets, then records, submits
//! and presents one frame after the other, with the CPU paced behind the GPU.
//!
//! ```text
//! let mut request = renderer.load_pipeline(window);
//! while request is neither Done nor Abort {
//!     let reply = /* make the native call that `request` names */;
//!     request = renderer.answer(reply);
//! }
//! ```

use vstd::prelude::*;
use crate::command::frame_commands;
use crate::command::is_closed_recording;
use crate::command::record_frame;
use crate::command::writes_are_bracketed;
use crate::command::Command;
use crate::command::Rect;
use crate::command::Viewport;
use crate::command::COMMANDS_PER_FRAME;
use crate::geometry::sample_colored_triangle_vertices;
use crate::geometry::sample_triangle;
use crate::geometry::vertex_image;
use crate::geometry::vertices_to_bytes;
use crate::invariants::lemma_advance_preserves_wf;
use crate::invariants::lemma_begin_preserves_wf;
use crate::state::RendererState;
use crate::state::Reply;
use crate::state::Request;
use crate::state::Stage;
use crate::state::WaitOutcome;
use crate::swap_chain::FRAME_COUNT;
use crate::upload::VertexBufferView;
use crate::window::Window;

verus! {

/// A renderer. Its view is what it remembers, and that is well formed at all
/// times.
pub struct Renderer {
    state: RendererState,
}

impl View for Renderer {
    type V = RendererState;

    closed spec fn view(&self) -> RendererState {
        self.state
    }
}

impl Renderer {
    #[verifier::type_invariant]
    spec fn well_formed(self) -> bool {
        self.state.wf()
    }

    /// A renderer for a surface of 1280 by 720 pixels and a swap chain of two
    /// buffers. Nothing is loaded yet. `validation_enabled` says whether the
    /// build asks for the validation layer.
    pub fn new(validation_enabled: bool) -> (renderer: Renderer)
        ensures
            renderer@ == RendererState::initial(validation_enabled),
            renderer@.wf(),
    {
        Renderer {
            state: RendererState {
                stage: Stage::Created,
                failure: None,
                validation_enabled,
                validation_active: false,
                viewport: Viewport {
                    top_left_x: 0,
                    top_left_y: 0,
                    width: 1280,
                    height: 720,
                    min_depth: 0,
                    max_depth: 1,
                },
                scissor_rect: Rect { left: 0, top: 0, right: 1280, bottom: 720 },
                window: Window { handle: 0 },
                adapter_index: 0,
                frame_count: FRAME_COUNT,
                frame_index: 0,
                rtv_heap_start: 0,
                rtv_descriptor_size: 0,
                render_target_count: 0,
                vertex_buffer_view: VertexBufferView {
                    buffer_location: 0,
                    size_in_bytes: 0,
                    stride_in_bytes: 0,
                },
                fence_value: 0,
                signaled_value: 0,
                last_wait: WaitOutcome::NotNeeded,
                recorded: 0,
                tearing_down: false,
            },
        }
    }

    /// What the renderer remembers.
    pub fn state(&self) -> (state: &RendererState)
        ensures
            *state == self@,
            state.wf(),
    {
        proof {
            use_type_invariant(self);
        }
        &self.state
    }

    /// The native call that the renderer waits for.
    pub fn pending(&self) -> (request: Request)
        ensures
            request == self@.request(),
    {
        self.state.next_request()
    }

    /// The commands of the next frame: the allocator and the list are reset,
    /// the state of the pipeline is bound, the current back buffer is taken
    /// from the present to the render-target state, cleared, drawn to and
    /// taken back, and the list is closed.
    pub fn populate_command_list(&self) -> (commands: Vec<Command>)
        ensures
            commands@ == frame_commands(self@.frame_inputs()),
            commands@.len() == COMMANDS_PER_FRAME,
            writes_are_bracketed(commands@, self@.frame_index),
            is_closed_recording(commands@),
    {
        let inputs = self.state.inputs();
        record_frame(&inputs)
    }

    /// The bytes that are written to the vertex buffer: those of the sample
    /// triangle, 84 in all.
    pub fn vertex_data(&self) -> (image: Vec<u8>)
        ensures
            image@ == vertex_image(sample_triangle()),
            image@.len() == 84,
    {
        let vertices = sample_colored_triangle_vertices();
        vertices_to_bytes(vertices.as_slice())
    }

    /// Starts loading the pipeline for `window`: the validation layer where
    /// the build asks for it, and before any device; the factory; the first
    /// adapter that supports the minimum feature level; the device; the
    /// queue; the swap chain; a render-target view for each of its buffers;
    /// the command allocator. Hands out the first native call. A renderer
    /// that has loaded anything stays as it is.
    pub fn load_pipeline(&mut self, window: Window) -> (request: Request)
        ensures
            final(self)@ == old(self)@.begin_pipeline(window),
            final(self)@.wf(),
            request == final(self)@.request(),
    {
        proof {
            use_type_invariant(&*self);
            lemma_begin_preserves_wf(self.state, window);
        }
        self.state.start_pipeline(window);
        self.state.next_request()
    }

    /// Starts loading the assets: the root signature, the two shaders, the
    /// pipeline state, the command list, the vertex buffer with the
    /// triangle in it, the fence and its event, and a first synchronization.
    /// Hands out the first native call. A renderer whose pipeline is not
    /// loaded, or whose assets are, stays as it is.
    pub fn load_assets(&mut self) -> (request: Request)
        ensures
            final(self)@ == old(self)@.begin_assets(),
            final(self)@.wf(),
            request == final(self)@.request(),
    {
        proof {
            use_type_invariant(&*self);
            lemma_begin_preserves_wf(self.state, self.state.window);
        }
        self.state.start_assets();
        self.state.next_request()
    }

    /// Starts a synchronization: the queue signals the fence with the
    /// current fence value, the fence value grows by one, the thread blocks
    /// if the GPU has not reached the signaled value, and the index of the
    /// back buffer is read from the swap chain. Hands out the first native
    /// call. A renderer that is not idle stays as it is.
    pub fn wait_for_previous_frame(&mut self) -> (request: Request)
        ensures
            final(self)@ == old(self)@.begin_wait(),
            final(self)@.wf(),
            request == final(self)@.request(),
    {
        proof {
            use_type_invariant(&*self);
            lemma_begin_preserves_wf(self.state, self.state.window);
        }
        self.state.start_wait();
        self.state.next_request()
    }

    /// Starts a frame: its commands are recorded, the closed list is handed
    /// to the queue, the swap chain presents, and the CPU is synchronized
    /// with the GPU. Hands out the first native call. A renderer that is not
    /// idle stays as it is.
    pub fn render(&mut self) -> (request: Request)
        ensures
            final(self)@ == old(self)@.begin_frame(),
            final(self)@.wf(),
            request == final(self)@.request(),
    {
        proof {
            use_type_invariant(&*self);
            lemma_begin_preserves_wf(self.state, self.state.window);
        }
        self.state.start_frame();
        self.state.next_request()
    }

    /// Advances the scene. There is nothing to advance: the triangle stays
    /// where it is.
    pub fn update(&mut self)
        ensures
            final(self)@ == old(self)@,
    {
    }

    /// Starts tearing down: a last synchronization, so that the GPU uses
    /// nothing that is about to go, then the fence event is closed. Hands
    /// out the first native call. A renderer that is not idle stays as it
    /// is.
    pub fn destroy(&mut self) -> (request: Request)
        ensures
            final(self)@ == old(self)@.begin_teardown(),
            final(self)@.wf(),
            request == final(self)@.request(),
    {
        proof {
            use_type_invariant(&*self);
            lemma_begin_preserves_wf(self.state, self.state.window);
        }
        self.state.start_teardown();
        self.state.next_request()
    }

    /// Takes the driver's answer to the native call that the renderer waits
    /// for, and hands out the next one: `Done` where the run is over, `Abort`
    /// where the renderer has failed.
    pub fn answer(&mut self, reply: Reply) -> (request: Request)
        ensures
            final(self)@ == old(self)@.advance(reply),
            final(self)@.wf(),
            request == final(self)@.request(),
    {
        proof {
            use_type_invariant(&*self);
            lemma_advance_preserves_wf(self.state, reply);
        }
        self.state.apply(reply);
        self.state.next_request()
    }
}

} // verus!
