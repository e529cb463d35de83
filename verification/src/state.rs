use vstd::prelude::*;
use crate::geometry::{gen_vao, packed_layout, rect_vertices, Geometry, VERTEX_COUNT};
use crate::gl::{GlCall, Rgba};
use crate::shader::Shader;

verus! {

/// Width of the window when the application starts, in pixels.
pub const INITIAL_WIDTH: i32 = 800;

/// Height of the window when the application starts, in pixels.
pub const INITIAL_HEIGHT: i32 = 600;

/// Opaque white, the colour every frame is cleared to.
pub open spec fn background() -> Rgba {
    Rgba { red: 255, green: 255, blue: 255, alpha: 255 }
}

/// The colour every frame is cleared to.
pub fn background_color() -> (color: Rgba)
    ensures
        color == background(),
{
    Rgba { red: 255, green: 255, blue: 255, alpha: 255 }
}

/// What the windowing system reported, as far as the application cares.
#[derive(Clone, Copy, Debug, PartialEq, Eq, Structural)]
pub enum Signal {
    /// The user asked the application to end.
    Quit,
    /// The window now has this width and height, in pixels.
    Resized(i32, i32),
    /// Anything else.
    Other,
}

/// Whether the event loop is still going round.
#[derive(Clone, Copy, Debug, PartialEq, Eq, Structural)]
pub enum Phase {
    Running,
    Terminated,
}

/// What the owner of the window has to do after a signal.
#[derive(Debug, PartialEq, Eq)]
pub enum Reaction {
    /// Nothing.
    Proceed,
    /// Store the state's geometry in a new vertex array, hand that array to
    /// [`State::regen_vao`], make the request that it gives back, then make
    /// the request carried here, which fits the viewport to the window.
    Regenerate(GlCall),
    /// Leave the event loop.
    Stop,
}

/// The application's state: the window's extent, the vertex array that
/// holds the rectangle for that extent, and whether the loop still runs.
#[derive(Clone, Copy, Debug, PartialEq, Eq)]
pub struct State {
    pub win_width: i32,
    pub win_height: i32,
    pub vao: glow::NativeVertexArray,
    pub phase: Phase,
}

/// The request that fits the viewport to a window of the given extent.
pub open spec fn viewport_call(width: i32, height: i32) -> GlCall {
    GlCall::Viewport { x: 0, y: 0, width, height }
}

impl State {
    /// The state at start-up, for a vertex array that already holds the
    /// rectangle for the window's first extent.
    pub open spec fn initial(vao: glow::NativeVertexArray) -> State {
        State { win_width: INITIAL_WIDTH, win_height: INITIAL_HEIGHT, vao, phase: Phase::Running }
    }

    /// The state after a signal, and what is to be done about it.
    ///
    /// While running, a quit signal ends the loop, a resize takes over the
    /// reported extent and asks for new geometry and a new viewport, and
    /// anything else passes. Once terminated, nothing has any effect.
    pub open spec fn after(self, signal: Signal) -> (State, Reaction) {
        match (self.phase, signal) {
            (Phase::Running, Signal::Quit) => (
                State { phase: Phase::Terminated, ..self },
                Reaction::Stop,
            ),
            (Phase::Running, Signal::Resized(width, height)) => (
                State { win_width: width, win_height: height, ..self },
                Reaction::Regenerate(viewport_call(width, height)),
            ),
            _ => (self, Reaction::Proceed),
        }
    }

    /// The vertex data that belongs to the state's extent.
    pub open spec fn vertices(self) -> Seq<crate::ratio::Ratio> {
        rect_vertices(self.win_width, self.win_height)
    }

    /// The requests that draw one frame: clear to the background colour,
    /// make the program and the vertex array current, draw all vertices as
    /// triangles, show the result. A terminated loop draws nothing.
    pub open spec fn frame_calls(self, shader: Shader) -> Seq<GlCall> {
        match self.phase {
            Phase::Running => seq![
                GlCall::ClearColor(background()),
                GlCall::ClearColorBuffer,
                GlCall::UseProgram(shader.prog),
                GlCall::BindVertexArray(self.vao),
                GlCall::DrawTriangles { first: 0, count: VERTEX_COUNT },
                GlCall::SwapWindow,
            ],
            Phase::Terminated => Seq::empty(),
        }
    }

    pub fn new(vao: glow::NativeVertexArray) -> (state: State)
        ensures
            state == State::initial(vao),
    {
        State { win_width: INITIAL_WIDTH, win_height: INITIAL_HEIGHT, vao, phase: Phase::Running }
    }

    /// The rectangle's vertex data for the window as it is now.
    pub fn geometry(&self) -> (g: Geometry)
        ensures
            g.vertices@ == self.vertices(),
            g.layout == packed_layout(),
    {
        gen_vao(self.win_width, self.win_height)
    }

    /// Takes over the vertex array that now holds the state's geometry,
    /// and gives the request that releases the array it replaces. The
    /// buffer which that array read from is unknown to the state and stays.
    pub fn regen_vao(&mut self, vao: glow::NativeVertexArray) -> (release: GlCall)
        ensures
            *final(self) == (State { vao, ..*old(self) }),
            release == GlCall::DeleteVertexArray(old(self).vao),
    {
        let superseded = self.vao;
        self.vao = vao;
        GlCall::DeleteVertexArray(superseded)
    }

    /// Takes one signal of the windowing system.
    pub fn handle_events(&mut self, signal: Signal) -> (reaction: Reaction)
        ensures
            (*final(self), reaction) == old(self).after(signal),
    {
        match self.phase {
            Phase::Terminated => Reaction::Proceed,
            Phase::Running => match signal {
                Signal::Quit => {
                    self.phase = Phase::Terminated;
                    Reaction::Stop
                },
                Signal::Resized(width, height) => {
                    self.win_width = width;
                    self.win_height = height;
                    Reaction::Regenerate(GlCall::Viewport { x: 0, y: 0, width, height })
                },
                Signal::Other => Reaction::Proceed,
            },
        }
    }

    /// Whether the event loop has ended.
    pub fn should_close(&self) -> (b: bool)
        ensures
            b == (self.phase == Phase::Terminated),
    {
        match self.phase {
            Phase::Terminated => true,
            Phase::Running => false,
        }
    }

    /// The requests that draw one frame with the given program.
    pub fn frame(&self, shader: &Shader) -> (calls: Vec<GlCall>)
        ensures
            calls@ == self.frame_calls(*shader),
    {
        match self.phase {
            Phase::Terminated => Vec::new(),
            Phase::Running => vec![
                GlCall::ClearColor(background_color()),
                GlCall::ClearColorBuffer,
                shader.activate(),
                GlCall::BindVertexArray(self.vao),
                GlCall::DrawTriangles { first: 0, count: VERTEX_COUNT },
                GlCall::SwapWindow,
            ],
        }
    }
}

/// A resize takes over exactly the reported extent and asks for the
/// geometry to be made anew once; the vertex array and the loop stay as they
/// are. No other signal asks for new geometry.
pub proof fn lemma_resize(state: State, signal: Signal)
    requires
        state.phase == Phase::Running,
    ensures
        signal matches Signal::Resized(width, height) ==> {
            &&& state.after(signal).0.win_width == width
            &&& state.after(signal).0.win_height == height
            &&& state.after(signal).0.vao == state.vao
            &&& state.after(signal).0.phase == Phase::Running
            &&& state.after(signal).1 == Reaction::Regenerate(viewport_call(width, height))
            &&& state.after(signal).0.vertices() == rect_vertices(width, height)
        },
        state.after(signal).1 is Regenerate <==> signal is Resized,
{
}

/// A quit signal ends a running loop and nothing else does. Signals that
/// are neither a quit nor a resize leave the state as it was.
pub proof fn lemma_only_quit_terminates(state: State, signal: Signal)
    requires
        state.phase == Phase::Running,
    ensures
        state.after(signal).0.phase == Phase::Terminated <==> signal == Signal::Quit,
        state.after(signal).1 is Stop <==> signal == Signal::Quit,
        signal == Signal::Quit ==> state.after(signal).0 == (State {
            phase: Phase::Terminated,
            ..state
        }),
        signal == Signal::Other ==> state.after(signal) == (state, Reaction::Proceed),
{
}

/// A terminated loop stays terminated: no signal changes its state or asks
/// for anything.
pub proof fn lemma_terminated_is_final(state: State, signal: Signal)
    requires
        state.phase == Phase::Terminated,
    ensures
        state.after(signal) == (state, Reaction::Proceed),
        state.after(signal).0.phase == Phase::Terminated,
{
}

/// Resizing to the same extent a second time changes nothing: the state
/// and the geometry that belongs to it are the same as after the first.
pub proof fn lemma_resize_repeatable(state: State, width: i32, height: i32)
    requires
        state.phase == Phase::Running,
    ensures
        ({
            let once = state.after(Signal::Resized(width, height));
            let twice = once.0.after(Signal::Resized(width, height));
            &&& twice == once
            &&& twice.0.vertices() == once.0.vertices()
        }),
{
}

/// Taking over a new vertex array leaves the geometry that the state
/// stands for untouched: it follows the extent alone.
pub proof fn lemma_regen_keeps_vertices(state: State, vao: glow::NativeVertexArray)
    ensures
        (State { vao, ..state }).vertices() == state.vertices(),
{
}

/// A frame of a running loop draws every vertex of the geometry, after
/// the program and the vertex array were made current, and ends by showing
/// the frame.
pub proof fn lemma_frame_order(state: State, shader: Shader)
    requires
        state.phase == Phase::Running,
    ensures
        state.frame_calls(shader).len() == 6,
        state.frame_calls(shader)[2] == GlCall::UseProgram(shader.prog),
        state.frame_calls(shader)[3] == GlCall::BindVertexArray(state.vao),
        state.frame_calls(shader)[4] == (GlCall::DrawTriangles { first: 0, count: 6 }),
        state.frame_calls(shader).last() == GlCall::SwapWindow,
        state.vertices().len() == 2 * 6,
{
}

} // verus!
