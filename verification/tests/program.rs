use std::num::NonZeroU32;

use browser_shell::gl::{GlCall, GlReply, Stage};
use browser_shell::ratio::Ratio;
use browser_shell::shader::{Shader, ShaderBuild, ShaderError};

fn prog(n: u32) -> glow::NativeProgram {
    glow::NativeProgram(NonZeroU32::new(n).unwrap())
}

fn stage(n: u32) -> glow::NativeShader {
    glow::NativeShader(NonZeroU32::new(n).unwrap())
}

fn text(s: &str) -> String {
    String::from(s)
}

fn started() -> ShaderBuild {
    let (state, calls) = Shader::build(Ok(text("void main() {}")), Ok(text("void main() { }")));
    assert_eq!(calls, vec![GlCall::CreateProgram]);
    state
}

fn run(mut state: ShaderBuild, replies: Vec<GlReply>) -> (ShaderBuild, Vec<GlCall>) {
    let mut all = Vec::new();
    for reply in replies {
        let (next, calls) = state.step(reply);
        state = next;
        all.extend(calls);
    }
    (state, all)
}

#[test]
fn build_asks_for_the_program_first() {
    let (state, calls) = Shader::build(Ok(text("v")), Ok(text("f")));
    assert_eq!(calls, vec![GlCall::CreateProgram]);
    assert_eq!(state, ShaderBuild::AwaitProgram { vert_source: text("v"), frag_source: text("f") });
    assert!(!state.is_finished());
    assert_eq!(state.into_result(), None);
}

#[test]
fn build_without_vertex_source_fails_at_once() {
    let (state, calls) = Shader::build(Err(text("res/shaders/basic.vert: not found")), Ok(text("f")));
    assert_eq!(calls, Vec::<GlCall>::new());
    assert!(state.is_finished());
    assert_eq!(
        state.into_result(),
        Some(Err(ShaderError::Startup(text("res/shaders/basic.vert: not found"))))
    );
}

#[test]
fn build_without_fragment_source_fails_at_once() {
    let (state, calls) = Shader::build(Ok(text("v")), Err(text("unreadable")));
    assert_eq!(calls, Vec::<GlCall>::new());
    assert_eq!(state, ShaderBuild::Failed(ShaderError::Startup(text("unreadable"))));
}

#[test]
fn build_without_any_source_reports_the_vertex_stage() {
    let (state, _) = Shader::build(Err(text("first")), Err(text("second")));
    assert_eq!(state, ShaderBuild::Failed(ShaderError::Startup(text("first"))));
}

#[test]
fn failed_build_never_asks_for_anything() {
    let (state, _) = Shader::build(Err(text("gone")), Ok(text("f")));
    let (state, calls) = run(
        state,
        vec![GlReply::Program(Ok(prog(1))), GlReply::Status(true), GlReply::Log(text("x"))],
    );
    assert_eq!(calls, Vec::<GlCall>::new());
    assert_eq!(state, ShaderBuild::Failed(ShaderError::Startup(text("gone"))));
}

#[test]
fn build_succeeds_step_by_step() {
    let state = started();

    let (state, calls) = state.step(GlReply::Program(Ok(prog(1))));
    assert_eq!(calls, vec![GlCall::CreateShader(Stage::Vertex)]);

    let (state, calls) = state.step(GlReply::Shader(Ok(stage(2))));
    assert_eq!(
        calls,
        vec![
            GlCall::ShaderSource(stage(2), text("void main() {}")),
            GlCall::CompileShader(stage(2)),
            GlCall::GetShaderCompileStatus(stage(2)),
        ]
    );

    let (state, calls) = state.step(GlReply::Status(true));
    assert_eq!(calls, vec![GlCall::AttachShader(prog(1), stage(2)), GlCall::CreateShader(Stage::Fragment)]);

    let (state, calls) = state.step(GlReply::Shader(Ok(stage(3))));
    assert_eq!(
        calls,
        vec![
            GlCall::ShaderSource(stage(3), text("void main() { }")),
            GlCall::CompileShader(stage(3)),
            GlCall::GetShaderCompileStatus(stage(3)),
        ]
    );

    let (state, calls) = state.step(GlReply::Status(true));
    assert_eq!(
        calls,
        vec![
            GlCall::AttachShader(prog(1), stage(3)),
            GlCall::LinkProgram(prog(1)),
            GlCall::GetProgramLinkStatus(prog(1)),
        ]
    );
    assert!(!state.is_finished());

    let (state, calls) = state.step(GlReply::Status(true));
    assert_eq!(
        calls,
        vec![
            GlCall::DetachShader(prog(1), stage(2)),
            GlCall::DeleteShader(stage(2)),
            GlCall::DetachShader(prog(1), stage(3)),
            GlCall::DeleteShader(stage(3)),
        ]
    );
    assert!(state.is_finished());
    assert_eq!(state.into_result(), Some(Ok(Shader { prog: prog(1) })));
}

#[test]
fn build_makes_sixteen_requests_after_the_first() {
    let (state, calls) = run(
        started(),
        vec![
            GlReply::Program(Ok(prog(1))),
            GlReply::Shader(Ok(stage(2))),
            GlReply::Status(true),
            GlReply::Shader(Ok(stage(3))),
            GlReply::Status(true),
            GlReply::Status(true),
        ],
    );
    assert_eq!(state, ShaderBuild::Built(Shader { prog: prog(1) }));
    assert_eq!(calls.len(), 16);
    assert_eq!(calls.iter().filter(|c| matches!(c, GlCall::LinkProgram(_))).count(), 1);
    assert_eq!(calls.iter().filter(|c| matches!(c, GlCall::DeleteShader(_))).count(), 2);
}

#[test]
fn program_creation_failure_is_a_startup_error() {
    let (state, calls) = started().step(GlReply::Program(Err(text("no context"))));
    assert_eq!(calls, Vec::<GlCall>::new());
    assert_eq!(state.into_result(), Some(Err(ShaderError::Startup(text("no context")))));
}

#[test]
fn shader_creation_failure_is_a_startup_error() {
    let (state, calls) = run(started(), vec![GlReply::Program(Ok(prog(1))), GlReply::Shader(Err(text("bad stage")))]);
    assert_eq!(calls, vec![GlCall::CreateShader(Stage::Vertex)]);
    assert_eq!(state, ShaderBuild::Failed(ShaderError::Startup(text("bad stage"))));

    let (state, _) = run(
        started(),
        vec![
            GlReply::Program(Ok(prog(1))),
            GlReply::Shader(Ok(stage(2))),
            GlReply::Status(true),
            GlReply::Shader(Err(text("out of objects"))),
        ],
    );
    assert_eq!(state, ShaderBuild::Failed(ShaderError::Startup(text("out of objects"))));
}

#[test]
fn vertex_compile_failure_carries_the_log() {
    let (state, calls) = run(
        started(),
        vec![GlReply::Program(Ok(prog(1))), GlReply::Shader(Ok(stage(2))), GlReply::Status(false)],
    );
    assert_eq!(state, ShaderBuild::AwaitCompileLog);
    assert_eq!(calls.last(), Some(&GlCall::GetShaderInfoLog(stage(2))));
    assert!(!calls.iter().any(|c| matches!(c, GlCall::AttachShader(_, _) | GlCall::LinkProgram(_))));

    let (state, calls) = state.step(GlReply::Log(text("0:1: syntax error")));
    assert_eq!(calls, Vec::<GlCall>::new());
    assert_eq!(state.into_result(), Some(Err(ShaderError::Compile(text("0:1: syntax error")))));
}

#[test]
fn fragment_compile_failure_carries_the_log() {
    let (state, calls) = run(
        started(),
        vec![
            GlReply::Program(Ok(prog(1))),
            GlReply::Shader(Ok(stage(2))),
            GlReply::Status(true),
            GlReply::Shader(Ok(stage(3))),
            GlReply::Status(false),
            GlReply::Log(text("undeclared identifier")),
        ],
    );
    assert_eq!(state, ShaderBuild::Failed(ShaderError::Compile(text("undeclared identifier"))));
    assert_eq!(calls.last(), Some(&GlCall::GetShaderInfoLog(stage(3))));
    assert!(!calls.iter().any(|c| matches!(c, GlCall::LinkProgram(_))));
    assert!(!calls.iter().any(|c| matches!(c, GlCall::DeleteShader(_))));
}

#[test]
fn link_failure_carries_the_log() {
    let (state, calls) = run(
        started(),
        vec![
            GlReply::Program(Ok(prog(1))),
            GlReply::Shader(Ok(stage(2))),
            GlReply::Status(true),
            GlReply::Shader(Ok(stage(3))),
            GlReply::Status(true),
            GlReply::Status(false),
            GlReply::Log(text("varying mismatch")),
        ],
    );
    assert_eq!(state, ShaderBuild::Failed(ShaderError::Link(text("varying mismatch"))));
    assert_eq!(calls.last(), Some(&GlCall::GetProgramInfoLog(prog(1))));
    assert!(!calls.iter().any(|c| matches!(c, GlCall::DetachShader(_, _) | GlCall::DeleteShader(_))));
}

#[test]
fn unexpected_reply_changes_nothing() {
    let (state, calls) = started().step(GlReply::Status(true));
    assert_eq!(calls, Vec::<GlCall>::new());
    assert_eq!(
        state,
        ShaderBuild::AwaitProgram { vert_source: text("void main() {}"), frag_source: text("void main() { }") }
    );

    let (state, calls) = run(started(), vec![GlReply::Program(Ok(prog(1))), GlReply::Log(text("stray"))]);
    assert_eq!(calls, vec![GlCall::CreateShader(Stage::Vertex)]);
    assert!(matches!(state, ShaderBuild::AwaitVertexShader { .. }));
}

#[test]
fn finished_build_ignores_replies() {
    let (state, calls) = ShaderBuild::Built(Shader { prog: prog(4) }).step(GlReply::Status(false));
    assert_eq!(calls, Vec::<GlCall>::new());
    assert_eq!(state, ShaderBuild::Built(Shader { prog: prog(4) }));

    let (state, calls) = ShaderBuild::Failed(ShaderError::Link(text("l"))).step(GlReply::Log(text("m")));
    assert_eq!(calls, Vec::<GlCall>::new());
    assert_eq!(state, ShaderBuild::Failed(ShaderError::Link(text("l"))));
}

#[test]
fn activate_makes_the_program_current() {
    assert_eq!(Shader { prog: prog(11) }.activate(), GlCall::UseProgram(prog(11)));
}

#[test]
fn set_vec2_names_program_uniform_and_value() {
    let shader = Shader { prog: prog(11) };
    let value = (Ratio { num: 2, den: 800 }, Ratio { num: 2, den: 600 });
    assert_eq!(
        shader.set_vec2(text("dim"), value),
        GlCall::Uniform2 { program: prog(11), name: text("dim"), value }
    );
}
