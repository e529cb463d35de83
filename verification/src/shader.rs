use vstd::prelude::*;
use crate::gl::{GlCall, GlReply, Stage};
use crate::ratio::Ratio;

verus! {

/// A linked program of a vertex and a fragment stage.
#[derive(Clone, Copy, Debug, PartialEq, Eq)]
pub struct Shader {
    pub prog: glow::NativeProgram,
}

/// Why no program could be built. Every failure ends the build for good.
#[derive(Debug, PartialEq, Eq)]
pub enum ShaderError {
    /// A source text could not be had, or the graphics layer could not
    /// create an object. Carries the text that came with the failure.
    Startup(String),
    /// A stage did not compile. Carries the compiler's diagnostics.
    Compile(String),
    /// The stages did not link. Carries the linker's diagnostics.
    Link(String),
}

/// A build in progress: what has been obtained so far and which reply is
/// awaited. `Built` and `Failed` are final.
#[derive(Debug, PartialEq, Eq)]
pub enum ShaderBuild {
    /// The program object was requested.
    AwaitProgram { vert_source: String, frag_source: String },
    /// The vertex shader object was requested.
    AwaitVertexShader { program: glow::NativeProgram, vert_source: String, frag_source: String },
    /// The vertex stage was compiled and its status requested.
    AwaitVertexStatus { program: glow::NativeProgram, vert: glow::NativeShader, frag_source: String },
    /// The fragment shader object was requested.
    AwaitFragmentShader { program: glow::NativeProgram, vert: glow::NativeShader, frag_source: String },
    /// The fragment stage was compiled and its status requested.
    AwaitFragmentStatus { program: glow::NativeProgram, vert: glow::NativeShader, frag: glow::NativeShader },
    /// A stage failed to compile and the compiler's log was requested.
    AwaitCompileLog,
    /// The program was linked and its status requested.
    AwaitLinkStatus { program: glow::NativeProgram, vert: glow::NativeShader, frag: glow::NativeShader },
    /// The link failed and the linker's log was requested.
    AwaitLinkLog,
    /// The program is linked and its stage objects are released.
    Built(Shader),
    /// The build was given up.
    Failed(ShaderError),
}

/// The requests that give a fresh shader object its source and compile it,
/// ending with the question whether that worked.
pub open spec fn compile_calls(shader: glow::NativeShader, source: String) -> Seq<GlCall> {
    seq![
        GlCall::ShaderSource(shader, source),
        GlCall::CompileShader(shader),
        GlCall::GetShaderCompileStatus(shader),
    ]
}

/// The requests that release both stage objects of a linked program.
pub open spec fn release_calls(
    program: glow::NativeProgram,
    vert: glow::NativeShader,
    frag: glow::NativeShader,
) -> Seq<GlCall> {
    seq![
        GlCall::DetachShader(program, vert),
        GlCall::DeleteShader(vert),
        GlCall::DetachShader(program, frag),
        GlCall::DeleteShader(frag),
    ]
}

impl ShaderBuild {
    /// The build has ended, one way or the other.
    pub open spec fn finished(self) -> bool {
        self is Built || self is Failed
    }

    /// The state after `reply` and the requests to make next, in order.
    /// Only the last request of a batch is answered. A reply that the state
    /// does not await changes nothing and asks for nothing.
    pub open spec fn next(self, reply: GlReply) -> (ShaderBuild, Seq<GlCall>) {
        match (self, reply) {
            (ShaderBuild::AwaitProgram { vert_source, frag_source }, GlReply::Program(Ok(program))) => (
                ShaderBuild::AwaitVertexShader { program, vert_source, frag_source },
                seq![GlCall::CreateShader(Stage::Vertex)],
            ),
            (ShaderBuild::AwaitProgram { .. }, GlReply::Program(Err(text))) => (
                ShaderBuild::Failed(ShaderError::Startup(text)),
                Seq::empty(),
            ),
            (
                ShaderBuild::AwaitVertexShader { program, vert_source, frag_source },
                GlReply::Shader(Ok(vert)),
            ) => (
                ShaderBuild::AwaitVertexStatus { program, vert, frag_source },
                compile_calls(vert, vert_source),
            ),
            (ShaderBuild::AwaitVertexShader { .. }, GlReply::Shader(Err(text))) => (
                ShaderBuild::Failed(ShaderError::Startup(text)),
                Seq::empty(),
            ),
            (ShaderBuild::AwaitVertexStatus { program, vert, frag_source }, GlReply::Status(true)) => (
                ShaderBuild::AwaitFragmentShader { program, vert, frag_source },
                seq![GlCall::AttachShader(program, vert), GlCall::CreateShader(Stage::Fragment)],
            ),
            (ShaderBuild::AwaitVertexStatus { vert, .. }, GlReply::Status(false)) => (
                ShaderBuild::AwaitCompileLog,
                seq![GlCall::GetShaderInfoLog(vert)],
            ),
            (
                ShaderBuild::AwaitFragmentShader { program, vert, frag_source },
                GlReply::Shader(Ok(frag)),
            ) => (
                ShaderBuild::AwaitFragmentStatus { program, vert, frag },
                compile_calls(frag, frag_source),
            ),
            (ShaderBuild::AwaitFragmentShader { .. }, GlReply::Shader(Err(text))) => (
                ShaderBuild::Failed(ShaderError::Startup(text)),
                Seq::empty(),
            ),
            (ShaderBuild::AwaitFragmentStatus { program, vert, frag }, GlReply::Status(true)) => (
                ShaderBuild::AwaitLinkStatus { program, vert, frag },
                seq![
                    GlCall::AttachShader(program, frag),
                    GlCall::LinkProgram(program),
                    GlCall::GetProgramLinkStatus(program),
                ],
            ),
            (ShaderBuild::AwaitFragmentStatus { frag, .. }, GlReply::Status(false)) => (
                ShaderBuild::AwaitCompileLog,
                seq![GlCall::GetShaderInfoLog(frag)],
            ),
            (ShaderBuild::AwaitCompileLog, GlReply::Log(text)) => (
                ShaderBuild::Failed(ShaderError::Compile(text)),
                Seq::empty(),
            ),
            (ShaderBuild::AwaitLinkStatus { program, vert, frag }, GlReply::Status(true)) => (
                ShaderBuild::Built(Shader { prog: program }),
                release_calls(program, vert, frag),
            ),
            (ShaderBuild::AwaitLinkStatus { program, .. }, GlReply::Status(false)) => (
                ShaderBuild::AwaitLinkLog,
                seq![GlCall::GetProgramInfoLog(program)],
            ),
            (ShaderBuild::AwaitLinkLog, GlReply::Log(text)) => (
                ShaderBuild::Failed(ShaderError::Link(text)),
                Seq::empty(),
            ),
            _ => (self, Seq::empty()),
        }
    }

    /// The state after a run of replies, with all requests made on the way.
    pub open spec fn run(self, replies: Seq<GlReply>) -> (ShaderBuild, Seq<GlCall>)
        decreases replies.len(),
    {
        if replies.len() == 0 {
            (self, Seq::empty())
        } else {
            let (mid, head) = self.next(replies[0]);
            let (end, tail) = mid.run(replies.drop_first());
            (end, head + tail)
        }
    }

    /// Takes one reply and gives the state that follows and the requests
    /// to make next.
    pub fn step(self, reply: GlReply) -> (r: (ShaderBuild, Vec<GlCall>))
        ensures
            (r.0, r.1@) == self.next(reply),
    {
        match self {
            ShaderBuild::AwaitProgram { vert_source, frag_source } => match reply {
                GlReply::Program(Ok(program)) => (
                    ShaderBuild::AwaitVertexShader { program, vert_source, frag_source },
                    vec![GlCall::CreateShader(Stage::Vertex)],
                ),
                GlReply::Program(Err(text)) => (
                    ShaderBuild::Failed(ShaderError::Startup(text)),
                    Vec::new(),
                ),
                _ => (ShaderBuild::AwaitProgram { vert_source, frag_source }, Vec::new()),
            },
            ShaderBuild::AwaitVertexShader { program, vert_source, frag_source } => match reply {
                GlReply::Shader(Ok(vert)) => (
                    ShaderBuild::AwaitVertexStatus { program, vert, frag_source },
                    compile(vert, vert_source),
                ),
                GlReply::Shader(Err(text)) => (
                    ShaderBuild::Failed(ShaderError::Startup(text)),
                    Vec::new(),
                ),
                _ => (
                    ShaderBuild::AwaitVertexShader { program, vert_source, frag_source },
                    Vec::new(),
                ),
            },
            ShaderBuild::AwaitVertexStatus { program, vert, frag_source } => match reply {
                GlReply::Status(true) => (
                    ShaderBuild::AwaitFragmentShader { program, vert, frag_source },
                    vec![GlCall::AttachShader(program, vert), GlCall::CreateShader(Stage::Fragment)],
                ),
                GlReply::Status(false) => (
                    ShaderBuild::AwaitCompileLog,
                    vec![GlCall::GetShaderInfoLog(vert)],
                ),
                _ => (ShaderBuild::AwaitVertexStatus { program, vert, frag_source }, Vec::new()),
            },
            ShaderBuild::AwaitFragmentShader { program, vert, frag_source } => match reply {
                GlReply::Shader(Ok(frag)) => (
                    ShaderBuild::AwaitFragmentStatus { program, vert, frag },
                    compile(frag, frag_source),
                ),
                GlReply::Shader(Err(text)) => (
                    ShaderBuild::Failed(ShaderError::Startup(text)),
                    Vec::new(),
                ),
                _ => (ShaderBuild::AwaitFragmentShader { program, vert, frag_source }, Vec::new()),
            },
            ShaderBuild::AwaitFragmentStatus { program, vert, frag } => match reply {
                GlReply::Status(true) => (
                    ShaderBuild::AwaitLinkStatus { program, vert, frag },
                    vec![
                        GlCall::AttachShader(program, frag),
                        GlCall::LinkProgram(program),
                        GlCall::GetProgramLinkStatus(program),
                    ],
                ),
                GlReply::Status(false) => (
                    ShaderBuild::AwaitCompileLog,
                    vec![GlCall::GetShaderInfoLog(frag)],
                ),
                _ => (ShaderBuild::AwaitFragmentStatus { program, vert, frag }, Vec::new()),
            },
            ShaderBuild::AwaitCompileLog => match reply {
                GlReply::Log(text) => (ShaderBuild::Failed(ShaderError::Compile(text)), Vec::new()),
                _ => (ShaderBuild::AwaitCompileLog, Vec::new()),
            },
            ShaderBuild::AwaitLinkStatus { program, vert, frag } => match reply {
                GlReply::Status(true) => (
                    ShaderBuild::Built(Shader { prog: program }),
                    vec![
                        GlCall::DetachShader(program, vert),
                        GlCall::DeleteShader(vert),
                        GlCall::DetachShader(program, frag),
                        GlCall::DeleteShader(frag),
                    ],
                ),
                GlReply::Status(false) => (
                    ShaderBuild::AwaitLinkLog,
                    vec![GlCall::GetProgramInfoLog(program)],
                ),
                _ => (ShaderBuild::AwaitLinkStatus { program, vert, frag }, Vec::new()),
            },
            ShaderBuild::AwaitLinkLog => match reply {
                GlReply::Log(text) => (ShaderBuild::Failed(ShaderError::Link(text)), Vec::new()),
                _ => (ShaderBuild::AwaitLinkLog, Vec::new()),
            },
            ShaderBuild::Built(shader) => (ShaderBuild::Built(shader), Vec::new()),
            ShaderBuild::Failed(error) => (ShaderBuild::Failed(error), Vec::new()),
        }
    }

    /// Whether the build has ended.
    pub fn is_finished(&self) -> (b: bool)
        ensures
            b == self.finished(),
    {
        match self {
            ShaderBuild::Built(_) => true,
            ShaderBuild::Failed(_) => true,
            _ => false,
        }
    }

    /// The program or the failure that the build ended with; `None` while
    /// it is still under way.
    pub fn into_result(self) -> (r: Option<Result<Shader, ShaderError>>)
        ensures
            r == match self {
                ShaderBuild::Built(shader) => Some(Ok::<Shader, ShaderError>(shader)),
                ShaderBuild::Failed(error) => Some(Err::<Shader, ShaderError>(error)),
                _ => None,
            },
    {
        match self {
            ShaderBuild::Built(shader) => Some(Ok(shader)),
            ShaderBuild::Failed(error) => Some(Err(error)),
            _ => None,
        }
    }
}

fn compile(shader: glow::NativeShader, source: String) -> (calls: Vec<GlCall>)
    ensures
        calls@ == compile_calls(shader, source),
{
    vec![
        GlCall::ShaderSource(shader, source),
        GlCall::CompileShader(shader),
        GlCall::GetShaderCompileStatus(shader),
    ]
}

/// Where a build begins: with both sources at hand the program object is
/// requested; without one of them the build has failed before anything was
/// asked of the graphics layer, the vertex source being looked at first.
pub open spec fn build_start(
    vert_source: Result<String, String>,
    frag_source: Result<String, String>,
) -> (ShaderBuild, Seq<GlCall>) {
    match (vert_source, frag_source) {
        (Err(text), _) => (ShaderBuild::Failed(ShaderError::Startup(text)), Seq::empty()),
        (Ok(_), Err(text)) => (ShaderBuild::Failed(ShaderError::Startup(text)), Seq::empty()),
        (Ok(vert), Ok(frag)) => (
            ShaderBuild::AwaitProgram { vert_source: vert, frag_source: frag },
            seq![GlCall::CreateProgram],
        ),
    }
}

impl Shader {
    /// Begins building a program from the text of the two stages. Each
    /// argument is what reading that stage's source gave: the text, or the
    /// reason why it could not be read.
    ///
    /// Gives the first state of the build and the first requests to make;
    /// [`ShaderBuild::step`] takes it from there.
    pub fn build(vert_source: Result<String, String>, frag_source: Result<String, String>) -> (r: (
        ShaderBuild,
        Vec<GlCall>,
    ))
        ensures
            (r.0, r.1@) == build_start(vert_source, frag_source),
    {
        match vert_source {
            Err(text) => (ShaderBuild::Failed(ShaderError::Startup(text)), Vec::new()),
            Ok(vert) => match frag_source {
                Err(text) => (ShaderBuild::Failed(ShaderError::Startup(text)), Vec::new()),
                Ok(frag) => (
                    ShaderBuild::AwaitProgram { vert_source: vert, frag_source: frag },
                    vec![GlCall::CreateProgram],
                ),
            },
        }
    }

    /// The request that makes this program current for the draw calls
    /// that follow.
    pub fn activate(&self) -> (call: GlCall)
        ensures
            call == GlCall::UseProgram(self.prog),
    {
        GlCall::UseProgram(self.prog)
    }

    /// The request that stores the two components of `val` in the uniform
    /// called `name` of this program.
    pub fn set_vec2(&self, name: String, val: (Ratio, Ratio)) -> (call: GlCall)
        ensures
            call == (GlCall::Uniform2 { program: self.prog, name, value: val }),
    {
        GlCall::Uniform2 { program: self.prog, name, value: val }
    }
}

/// The replies of a build in which every request succeeds.
pub open spec fn success_replies(
    program: glow::NativeProgram,
    vert: glow::NativeShader,
    frag: glow::NativeShader,
) -> Seq<GlReply> {
    seq![
        GlReply::Program(Ok(program)),
        GlReply::Shader(Ok(vert)),
        GlReply::Status(true),
        GlReply::Shader(Ok(frag)),
        GlReply::Status(true),
        GlReply::Status(true),
    ]
}

/// Every request of a build in which all succeed, from the first to the
/// last: the program object is created; each stage, the vertex stage
/// first, is created, given its source, compiled, checked and attached;
/// the program is linked and checked; both stage objects are released.
pub open spec fn success_calls(
    vert_source: String,
    frag_source: String,
    program: glow::NativeProgram,
    vert: glow::NativeShader,
    frag: glow::NativeShader,
) -> Seq<GlCall> {
    seq![
        GlCall::CreateProgram,
        GlCall::CreateShader(Stage::Vertex),
        GlCall::ShaderSource(vert, vert_source),
        GlCall::CompileShader(vert),
        GlCall::GetShaderCompileStatus(vert),
        GlCall::AttachShader(program, vert),
        GlCall::CreateShader(Stage::Fragment),
        GlCall::ShaderSource(frag, frag_source),
        GlCall::CompileShader(frag),
        GlCall::GetShaderCompileStatus(frag),
        GlCall::AttachShader(program, frag),
        GlCall::LinkProgram(program),
        GlCall::GetProgramLinkStatus(program),
        GlCall::DetachShader(program, vert),
        GlCall::DeleteShader(vert),
        GlCall::DetachShader(program, frag),
        GlCall::DeleteShader(frag),
    ]
}

/// A run that starts with `first` goes on from the state after it.
pub proof fn lemma_run_first(state: ShaderBuild, first: GlReply, rest: Seq<GlReply>)
    ensures
        state.run(seq![first] + rest) == (
            state.next(first).0.run(rest).0,
            state.next(first).1 + state.next(first).0.run(rest).1,
        ),
{
    let replies = seq![first] + rest;
    assert(replies[0] == first);
    assert(replies.drop_first() =~= rest);
}

/// A build that has ended stays as it is and asks for nothing more,
/// whatever replies still come.
pub proof fn lemma_finished_absorbs(state: ShaderBuild, replies: Seq<GlReply>)
    requires
        state.finished(),
    ensures
        state.run(replies) == (state, Seq::<GlCall>::empty()),
    decreases replies.len(),
{
    if replies.len() > 0 {
        lemma_finished_absorbs(state, replies.drop_first());
        assert(Seq::<GlCall>::empty() + Seq::<GlCall>::empty() =~= Seq::<GlCall>::empty());
    }
}

/// Without the vertex stage's source the build fails before the graphics
/// layer is asked for anything, and it never asks later either, whatever
/// became of the fragment stage's source and whatever replies arrive.
pub proof fn lemma_missing_vertex_source(
    text: String,
    frag_source: Result<String, String>,
    replies: Seq<GlReply>,
)
    ensures
        build_start(Err(text), frag_source) == (
            ShaderBuild::Failed(ShaderError::Startup(text)),
            Seq::<GlCall>::empty(),
        ),
        build_start(Err(text), frag_source).0.run(replies) == (
            ShaderBuild::Failed(ShaderError::Startup(text)),
            Seq::<GlCall>::empty(),
        ),
{
    lemma_finished_absorbs(ShaderBuild::Failed(ShaderError::Startup(text)), replies);
}

/// With both sources at hand and every request succeeding, the build ends
/// with the program that the graphics layer created, and the requests made
/// on the way are exactly those of [`success_calls`], in that order.
pub proof fn lemma_build_succeeds(
    vert_source: String,
    frag_source: String,
    program: glow::NativeProgram,
    vert: glow::NativeShader,
    frag: glow::NativeShader,
)
    ensures
        ({
            let (start, first) = build_start(Ok(vert_source), Ok(frag_source));
            let (end, later) = start.run(success_replies(program, vert, frag));
            &&& end == ShaderBuild::Built(Shader { prog: program })
            &&& first + later == success_calls(vert_source, frag_source, program, vert, frag)
        }),
{
    let s0 = ShaderBuild::AwaitProgram { vert_source, frag_source };
    let s1 = ShaderBuild::AwaitVertexShader { program, vert_source, frag_source };
    let s2 = ShaderBuild::AwaitVertexStatus { program, vert, frag_source };
    let s3 = ShaderBuild::AwaitFragmentShader { program, vert, frag_source };
    let s4 = ShaderBuild::AwaitFragmentStatus { program, vert, frag };
    let s5 = ShaderBuild::AwaitLinkStatus { program, vert, frag };
    let s6 = ShaderBuild::Built(Shader { prog: program });
    let r = success_replies(program, vert, frag);
    let t0 = r;
    let t1 = t0.drop_first();
    let t2 = t1.drop_first();
    let t3 = t2.drop_first();
    let t4 = t3.drop_first();
    let t5 = t4.drop_first();
    let t6 = t5.drop_first();
    assert(t6 =~= Seq::<GlReply>::empty());
    assert(s6.run(t6) == (s6, Seq::<GlCall>::empty()));
    assert(s5.run(t5).0 == s6 && s5.run(t5).1 =~= release_calls(program, vert, frag)) by {
        assert(t5[0] == GlReply::Status(true));
    }
    assert(s4.run(t4).0 == s6 && s4.run(t4).1 =~= s4.next(t4[0]).1 + s5.run(t5).1) by {
        assert(t4[0] == GlReply::Status(true));
    }
    assert(s3.run(t3).0 == s6 && s3.run(t3).1 =~= s3.next(t3[0]).1 + s4.run(t4).1) by {
        assert(t3[0] == GlReply::Shader(Ok(frag)));
    }
    assert(s2.run(t2).0 == s6 && s2.run(t2).1 =~= s2.next(t2[0]).1 + s3.run(t3).1) by {
        assert(t2[0] == GlReply::Status(true));
    }
    assert(s1.run(t1).0 == s6 && s1.run(t1).1 =~= s1.next(t1[0]).1 + s2.run(t2).1) by {
        assert(t1[0] == GlReply::Shader(Ok(vert)));
    }
    assert(s0.run(t0).0 == s6 && s0.run(t0).1 =~= s0.next(t0[0]).1 + s1.run(t1).1) by {
        assert(t0[0] == GlReply::Program(Ok(program)));
    }
    assert(seq![GlCall::CreateProgram] + s0.run(t0).1 =~= success_calls(
        vert_source,
        frag_source,
        program,
        vert,
        frag,
    ));
}

/// A stage that does not compile ends the build with the compiler's
/// diagnostics: the only request made after the bad status is the one for
/// the log, so nothing is attached or linked any more.
pub proof fn lemma_compile_failure(state: ShaderBuild, text: String)
    requires
        state is AwaitVertexStatus || state is AwaitFragmentStatus,
    ensures
        ({
            let shader = match state {
                ShaderBuild::AwaitVertexStatus { vert, .. } => vert,
                ShaderBuild::AwaitFragmentStatus { frag, .. } => frag,
                _ => arbitrary(),
            };
            state.run(seq![GlReply::Status(false), GlReply::Log(text)]) == (
                ShaderBuild::Failed(ShaderError::Compile(text)),
                seq![GlCall::GetShaderInfoLog(shader)],
            )
        }),
{
    let tail = seq![GlReply::Log(text)];
    assert(seq![GlReply::Status(false), GlReply::Log(text)] =~= seq![GlReply::Status(false)] + tail);
    lemma_run_first(state, GlReply::Status(false), tail);
    assert(tail =~= seq![GlReply::Log(text)] + Seq::<GlReply>::empty());
    lemma_run_first(ShaderBuild::AwaitCompileLog, GlReply::Log(text), Seq::<GlReply>::empty());
    let shader = match state {
        ShaderBuild::AwaitVertexStatus { vert, .. } => vert,
        ShaderBuild::AwaitFragmentStatus { frag, .. } => frag,
        _ => arbitrary(),
    };
    assert(state.run(seq![GlReply::Status(false), GlReply::Log(text)]).1 =~= seq![
        GlCall::GetShaderInfoLog(shader),
    ]);
}

/// A program that does not link ends the build with the linker's
/// diagnostics, and its stage objects are not released.
pub proof fn lemma_link_failure(state: ShaderBuild, text: String)
    requires
        state is AwaitLinkStatus,
    ensures
        state.run(seq![GlReply::Status(false), GlReply::Log(text)]) == (
            ShaderBuild::Failed(ShaderError::Link(text)),
            seq![GlCall::GetProgramInfoLog(state->AwaitLinkStatus_program)],
        ),
{
    let tail = seq![GlReply::Log(text)];
    assert(seq![GlReply::Status(false), GlReply::Log(text)] =~= seq![GlReply::Status(false)] + tail);
    lemma_run_first(state, GlReply::Status(false), tail);
    assert(tail =~= seq![GlReply::Log(text)] + Seq::<GlReply>::empty());
    lemma_run_first(ShaderBuild::AwaitLinkLog, GlReply::Log(text), Seq::<GlReply>::empty());
    assert(state.run(seq![GlReply::Status(false), GlReply::Log(text)]).1 =~= seq![
        GlCall::GetProgramInfoLog(state->AwaitLinkStatus_program),
    ]);
}

/// A build ends well in one way only: the link status came back good. The
/// program it ends with is the one that was linked, and the requests of
/// that step release the two stage objects.
pub proof fn lemma_built_only_after_link(state: ShaderBuild, reply: GlReply)
    requires
        !(state is Built),
        state.next(reply).0 is Built,
    ensures
        state is AwaitLinkStatus,
        reply == GlReply::Status(true),
        state.next(reply).0 == ShaderBuild::Built(Shader { prog: state->AwaitLinkStatus_program }),
        state.next(reply).1 == release_calls(
            state->AwaitLinkStatus_program,
            state->AwaitLinkStatus_vert,
            state->AwaitLinkStatus_frag,
        ),
{
}

/// The program is linked only once both stages have compiled: a step asks
/// for the link only when the fragment stage, the second to be compiled,
/// reports success.
pub proof fn lemma_link_only_after_compile(state: ShaderBuild, reply: GlReply, i: int)
    requires
        0 <= i < state.next(reply).1.len(),
        state.next(reply).1[i] is LinkProgram,
    ensures
        state is AwaitFragmentStatus,
        reply == GlReply::Status(true),
        state.next(reply).1[i] == GlCall::LinkProgram(state->AwaitFragmentStatus_program),
{
}

/// A step that gives the build up asks nothing more of the graphics layer.
pub proof fn lemma_failure_is_silent(state: ShaderBuild, reply: GlReply)
    requires
        state.next(reply).0 is Failed,
    ensures
        state.next(reply).1 == Seq::<GlCall>::empty(),
{
}

} // verus!
