use pmxview::shader::{shader_stage_from_extension, shader_stage_of_path, CompileParameters, Loader, ShaderStage, Transpiler};

#[test]
fn stages_by_extension() {
    assert_eq!(shader_stage_from_extension("fsh"), Some(ShaderStage::Fragment));
    assert_eq!(shader_stage_from_extension("vsh"), Some(ShaderStage::Vertex));
    assert_eq!(shader_stage_from_extension("gsh"), Some(ShaderStage::Geometry));
    assert_eq!(shader_stage_from_extension("glsl"), None);
    assert_eq!(shader_stage_from_extension("FSH"), None);
}

#[test]
fn stages_by_path() {
    assert_eq!(shader_stage_of_path("shaders/gbuffers.fsh"), Some(ShaderStage::Fragment));
    assert_eq!(shader_stage_of_path("final.vsh"), Some(ShaderStage::Vertex));
    assert_eq!(shader_stage_of_path("a/b.c/shadow.gsh"), Some(ShaderStage::Geometry));
    assert_eq!(shader_stage_of_path("a/b.fsh/noext"), None);
    assert_eq!(shader_stage_of_path("shader.txt"), None);
    assert_eq!(shader_stage_of_path(".fsh"), None);
}

#[test]
fn transpiler_open() {
    assert!(Transpiler::try_open("composite.fsh", "void main(){}".to_string()).is_some());
    assert!(Transpiler::try_open("composite.frag", "void main(){}".to_string()).is_none());
    assert!(Transpiler::try_open("composite", "void main(){}".to_string()).is_none());
    let t = Transpiler::open("composite.vsh", String::new());
    assert_eq!(t.transpile(), "");
}

#[test]
fn compile_parameters_open() {
    assert!(CompileParameters::try_open("x.gsh", String::new()).is_some());
    assert!(CompileParameters::try_open("x", String::new()).is_none());
    assert!(CompileParameters::try_open("x.txt", String::new()).is_none());
    let _ = CompileParameters::open("x.vsh", String::new());
}

#[test]
fn loader_starts_empty() {
    assert_eq!(Loader::open("shaders.zip").shader_count(), 0);
}
