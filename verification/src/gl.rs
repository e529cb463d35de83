use vstd::prelude::*;
use crate::ratio::Ratio;

verus! {

/// glow's handle to a shader stage object. Opaque here: the library only
/// carries the value from the reply that brought it to the calls that name it.
#[verifier::external_type_specification]
#[verifier::external_body]
pub struct ExNativeShader(glow::NativeShader);

/// glow's handle to a program object. Opaque, carried through.
#[verifier::external_type_specification]
#[verifier::external_body]
pub struct ExNativeProgram(glow::NativeProgram);

/// glow's handle to a vertex array object. Opaque, carried through.
#[verifier::external_type_specification]
#[verifier::external_body]
pub struct ExNativeVertexArray(glow::NativeVertexArray);

/// The two programmable stages of the pipeline that a program is linked from.
#[derive(Clone, Copy, Debug, PartialEq, Eq, Structural)]
pub enum Stage {
    Vertex,
    Fragment,
}

/// A colour with four channels, each from 0 (none) to 255 (full).
#[derive(Clone, Copy, Debug, PartialEq, Eq, Structural)]
pub struct Rgba {
    pub red: u8,
    pub green: u8,
    pub blue: u8,
    pub alpha: u8,
}

/// One request to the graphics layer.
///
/// The library decides which requests are made, in which order and with
/// which arguments; whoever owns the graphics context carries them out and,
/// for the requests that give something back, reports it as a [`GlReply`].
#[derive(Debug, PartialEq, Eq)]
pub enum GlCall {
    /// Create an empty program object. Answered by `GlReply::Program`.
    CreateProgram,
    /// Create an empty shader object for a stage. Answered by `GlReply::Shader`.
    CreateShader(Stage),
    /// Replace the source text of a shader object.
    ShaderSource(glow::NativeShader, String),
    /// Compile the source text held by a shader object.
    CompileShader(glow::NativeShader),
    /// Ask whether the last compilation succeeded. Answered by `GlReply::Status`.
    GetShaderCompileStatus(glow::NativeShader),
    /// Ask for the compiler's diagnostics. Answered by `GlReply::Log`.
    GetShaderInfoLog(glow::NativeShader),
    /// Attach a shader object to a program object.
    AttachShader(glow::NativeProgram, glow::NativeShader),
    /// Link the attached stages into an executable program.
    LinkProgram(glow::NativeProgram),
    /// Ask whether the last link succeeded. Answered by `GlReply::Status`.
    GetProgramLinkStatus(glow::NativeProgram),
    /// Ask for the linker's diagnostics. Answered by `GlReply::Log`.
    GetProgramInfoLog(glow::NativeProgram),
    /// Detach a shader object from a program object.
    DetachShader(glow::NativeProgram, glow::NativeShader),
    /// Release a shader object.
    DeleteShader(glow::NativeShader),
    /// Make a program current for the draw calls that follow.
    UseProgram(glow::NativeProgram),
    /// Look a uniform up by name in a program and store two components in
    /// it. The graphics layer ignores a name that no active uniform has.
    Uniform2 { program: glow::NativeProgram, name: String, value: (Ratio, Ratio) },
    /// Set the colour that clearing fills the colour buffer with.
    ClearColor(Rgba),
    /// Clear the colour buffer.
    ClearColorBuffer,
    /// Make a vertex array current.
    BindVertexArray(glow::NativeVertexArray),
    /// Release a vertex array.
    DeleteVertexArray(glow::NativeVertexArray),
    /// Draw `count` vertices of the current vertex array, from `first` on,
    /// as a list of triangles.
    DrawTriangles { first: i32, count: i32 },
    /// Map device coordinates to the window rectangle given in pixels.
    Viewport { x: i32, y: i32, width: i32, height: i32 },
    /// Show the finished frame in the window.
    SwapWindow,
}

/// What the graphics layer gave back for the last request of a batch.
#[derive(Debug, PartialEq, Eq)]
pub enum GlReply {
    /// The new program object, or why none could be created.
    Program(Result<glow::NativeProgram, String>),
    /// The new shader object, or why none could be created.
    Shader(Result<glow::NativeShader, String>),
    /// Whether a compilation or a link succeeded.
    Status(bool),
    /// Diagnostic text of the compiler or the linker.
    Log(String),
}

} // verus!
