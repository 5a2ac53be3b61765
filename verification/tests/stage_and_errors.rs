use render_gl::error::Error;
use render_gl::stage::{stage_for_name, ShaderStage};

#[test]
fn vert_suffix_names_vertex_stage() {
    assert_eq!(stage_for_name("triangle.vert"), Some(ShaderStage::Vertex));
    assert_eq!(stage_for_name("shaders/triangle.vert"), Some(ShaderStage::Vertex));
    assert_eq!(stage_for_name(".vert"), Some(ShaderStage::Vertex));
}

#[test]
fn frag_suffix_names_fragment_stage() {
    assert_eq!(stage_for_name("triangle.frag"), Some(ShaderStage::Fragment));
    assert_eq!(stage_for_name("a.vert.frag"), Some(ShaderStage::Fragment));
}

#[test]
fn other_suffixes_name_no_stage() {
    assert_eq!(stage_for_name("triangle.glsl"), None);
    assert_eq!(stage_for_name("triangle"), None);
    assert_eq!(stage_for_name(""), None);
    assert_eq!(stage_for_name("vert"), None);
    assert_eq!(stage_for_name("frag.vertx"), None);
}

#[test]
fn stage_gl_codes() {
    assert_eq!(ShaderStage::Vertex.gl_code(), 0x8B31);
    assert_eq!(ShaderStage::Fragment.gl_code(), 0x8B30);
}

#[test]
fn resource_load_message() {
    let e = Error::ResourceLoad {
        name: String::from("shaders/triangle.vert"),
        inner: String::from("file not found"),
    };
    assert_eq!(
        e.message(),
        "Failed to load resource shaders/triangle.vert: file not found"
    );
}

#[test]
fn unknown_stage_message() {
    let e = Error::CanNotDetermineShaderTypeForResource { name: String::from("foo.glsl") };
    assert_eq!(e.message(), "Can not determine shader type for resource foo.glsl");
}

#[test]
fn compile_error_message() {
    let e = Error::CompileError {
        name: String::from("foo.vert"),
        message: String::from("0:1(1): error: syntax error"),
    };
    assert_eq!(
        e.message(),
        "Failed to compile shader foo.vert: 0:1(1): error: syntax error"
    );
}

#[test]
fn link_error_message() {
    let e = Error::LinkError {
        name: String::from("shaders/triangle"),
        message: String::from("no fragment stage"),
    };
    assert_eq!(
        e.message(),
        "Failed to link program shaders/triangle: no fragment stage"
    );
}

#[test]
fn image_error_message() {
    let e = Error::ImageError {
        name: String::from("textures/wall.jpg"),
        inner: String::from("bad magic"),
    };
    assert_eq!(e.message(), "Failed to load image textures/wall.jpg");
}
