use render_gl::context::{DriverVerdict, GlContext};
use render_gl::error::Error;
use render_gl::program::Program;
use render_gl::shader::Shader;
use render_gl::stage::ShaderStage;

fn accepted() -> DriverVerdict {
    DriverVerdict { accepted: true, info_log: String::new() }
}

fn rejected(log: &str) -> DriverVerdict {
    DriverVerdict { accepted: false, info_log: String::from(log) }
}

const VERT_SRC: &str = "#version 410 core\nvoid main() { gl_Position = vec4(0.0); }\n";
const FRAG_SRC: &str = "#version 410 core\nout vec4 color;\nvoid main() { color = vec4(1.0); }\n";

#[test]
fn compile_success_leaves_shader_alive() {
    let mut ctx = GlContext::new();
    let s = Shader::from_source(&mut ctx, VERT_SRC, ShaderStage::Vertex, &accepted()).unwrap();
    assert!(ctx.is_shader_live(s.id()));
    assert_eq!(s.stage(), ShaderStage::Vertex);
    s.release(&mut ctx);
    assert!(!ctx.is_shader_live(1));
}

#[test]
fn compile_failure_reports_log_and_releases_object() {
    let mut ctx = GlContext::new();
    let r = Shader::from_source(
        &mut ctx,
        "void main( {",
        ShaderStage::Vertex,
        &rejected("0:1(12): error: syntax error, unexpected '{'"),
    );
    let message = r.err().unwrap();
    assert!(!message.is_empty());
    assert_eq!(message, "0:1(12): error: syntax error, unexpected '{'");
    // the object allocated for the failed attempt was released again
    assert!(!ctx.is_shader_live(1));
}

#[test]
fn vert_and_frag_source_helpers_set_the_stage() {
    let mut ctx = GlContext::new();
    let v = Shader::from_vert_source(&mut ctx, VERT_SRC, &accepted()).unwrap();
    let f = Shader::from_frag_source(&mut ctx, FRAG_SRC, &accepted()).unwrap();
    assert_eq!(v.stage(), ShaderStage::Vertex);
    assert_eq!(f.stage(), ShaderStage::Fragment);
    assert_ne!(v.id(), f.id());
    f.release(&mut ctx);
    v.release(&mut ctx);
}

#[test]
fn unknown_suffix_fails_before_any_context_call() {
    let mut ctx = GlContext::new();
    let r = Shader::from_res(
        &mut ctx,
        &Ok(String::from(VERT_SRC)),
        "shaders/triangle.glsl",
        &accepted(),
    );
    let e = r.err().unwrap();
    assert!(matches!(e, Error::CanNotDetermineShaderTypeForResource { .. }));
    assert_eq!(
        e.message(),
        "Can not determine shader type for resource shaders/triangle.glsl"
    );
    // no object id was ever handed out
    assert!(!ctx.is_shader_live(1));
}

#[test]
fn loader_failure_becomes_resource_load_error() {
    let mut ctx = GlContext::new();
    let r = Shader::from_res(
        &mut ctx,
        &Err(String::from("no such file")),
        "shaders/triangle.vert",
        &accepted(),
    );
    let e = r.err().unwrap();
    assert!(matches!(e, Error::ResourceLoad { .. }));
    assert_eq!(
        e.message(),
        "Failed to load resource shaders/triangle.vert: no such file"
    );
}

#[test]
fn rejected_compilation_becomes_compile_error() {
    let mut ctx = GlContext::new();
    let r = Shader::from_res(
        &mut ctx,
        &Ok(String::from("nonsense")),
        "shaders/triangle.frag",
        &rejected("0:1(1): error: syntax error"),
    );
    let e = r.err().unwrap();
    assert!(matches!(e, Error::CompileError { .. }));
    assert_eq!(
        e.message(),
        "Failed to compile shader shaders/triangle.frag: 0:1(1): error: syntax error"
    );
    assert!(!ctx.is_shader_live(1));
}

#[test]
fn linked_program_can_be_used() {
    let mut ctx = GlContext::new();
    let v = Shader::from_source(&mut ctx, VERT_SRC, ShaderStage::Vertex, &accepted()).unwrap();
    let f = Shader::from_source(&mut ctx, FRAG_SRC, ShaderStage::Fragment, &accepted()).unwrap();
    let shaders = vec![v, f];
    let p = Program::from_shaders(&mut ctx, &shaders, &accepted()).unwrap();
    assert!(ctx.is_program_live(p.id()));
    p.set_used(&mut ctx);
    assert_eq!(ctx.current_program(), p.id());
    p.release(&mut ctx);
    assert_eq!(ctx.current_program(), 0);
}

#[test]
fn failed_link_keeps_shaders_valid() {
    let mut ctx = GlContext::new();
    // two shaders of the same stage: a driver would refuse to link these
    let a = Shader::from_source(&mut ctx, VERT_SRC, ShaderStage::Vertex, &accepted()).unwrap();
    let b = Shader::from_source(&mut ctx, VERT_SRC, ShaderStage::Vertex, &accepted()).unwrap();
    let shaders = vec![a, b];
    let r = Program::from_shaders(&mut ctx, &shaders, &rejected("missing fragment stage"));
    assert_eq!(r.err().unwrap(), "missing fragment stage");
    // the already-compiled shaders are untouched and still independently valid
    for s in &shaders {
        assert!(ctx.is_shader_live(s.id()));
        assert_eq!(s.stage(), ShaderStage::Vertex);
    }
    // and the program object of the failed attempt is gone
    assert!(!ctx.is_program_live(3));
    for s in shaders {
        s.release(&mut ctx);
    }
}

#[test]
fn program_from_res_builds_and_uses_triangle() {
    let mut ctx = GlContext::new();
    let p = Program::from_res(
        &mut ctx,
        "shaders/triangle",
        &Ok(String::from(VERT_SRC)),
        &Ok(String::from(FRAG_SRC)),
        &accepted(),
        &accepted(),
        &accepted(),
    )
    .unwrap();
    assert!(ctx.is_program_live(p.id()));
    p.set_used(&mut ctx);
    assert_eq!(ctx.current_program(), p.id());
    // the two transient shaders were released after linking
    assert!(!ctx.is_shader_live(1));
    assert!(!ctx.is_shader_live(2));
}

#[test]
fn program_from_res_fails_fast_on_vertex_load() {
    let mut ctx = GlContext::new();
    let r = Program::from_res(
        &mut ctx,
        "shaders/triangle",
        &Err(String::from("missing vert")),
        &Err(String::from("missing frag")),
        &accepted(),
        &accepted(),
        &accepted(),
    );
    let e = r.err().unwrap();
    // the first failure wins: the vertex resource is reported
    assert_eq!(
        e.message(),
        "Failed to load resource shaders/triangle.vert: missing vert"
    );
}

#[test]
fn program_from_res_fails_fast_on_vertex_compile() {
    let mut ctx = GlContext::new();
    let r = Program::from_res(
        &mut ctx,
        "shaders/triangle",
        &Ok(String::from("broken")),
        &Ok(String::from(FRAG_SRC)),
        &rejected("vert log"),
        &accepted(),
        &accepted(),
    );
    let e = r.err().unwrap();
    assert_eq!(
        e.message(),
        "Failed to compile shader shaders/triangle.vert: vert log"
    );
    assert!(!ctx.is_shader_live(1));
}

#[test]
fn program_from_res_reports_fragment_compile_failure() {
    let mut ctx = GlContext::new();
    let r = Program::from_res(
        &mut ctx,
        "shaders/triangle",
        &Ok(String::from(VERT_SRC)),
        &Ok(String::from("broken")),
        &accepted(),
        &rejected("frag log"),
        &accepted(),
    );
    let e = r.err().unwrap();
    assert_eq!(
        e.message(),
        "Failed to compile shader shaders/triangle.frag: frag log"
    );
    // the vertex shader compiled for the attempt was released again
    assert!(!ctx.is_shader_live(1));
    assert!(!ctx.is_shader_live(2));
}

#[test]
fn program_from_res_reports_link_failure() {
    let mut ctx = GlContext::new();
    let r = Program::from_res(
        &mut ctx,
        "shaders/triangle",
        &Ok(String::from(VERT_SRC)),
        &Ok(String::from(FRAG_SRC)),
        &accepted(),
        &accepted(),
        &rejected("varyings do not match"),
    );
    let e = r.err().unwrap();
    assert!(matches!(e, Error::LinkError { .. }));
    assert_eq!(
        e.message(),
        "Failed to link program shaders/triangle: varyings do not match"
    );
    // everything created for the attempt was released again
    assert!(!ctx.is_shader_live(1));
    assert!(!ctx.is_shader_live(2));
    assert!(!ctx.is_program_live(3));
}
