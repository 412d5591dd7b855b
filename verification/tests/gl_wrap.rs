use plot3d::gl_wrap::{
    c_string, uniform_name, Bind, Drop, FramebufferError, GlCall, NulError, Program, ProgramError,
    Shader, ShaderError, Texture, TextureFramebuffer, UniformError, UniformMat, UniformVec,
    NO_LOCATION,
};

#[test]
fn c_string_appends_a_zero_byte() {
    assert_eq!(c_string("mvp"), Ok(vec![b'm', b'v', b'p', 0]));
    assert_eq!(c_string(""), Ok(vec![0]));
    assert_eq!(c_string("é"), Ok(vec![0xc3, 0xa9, 0]));
}

#[test]
fn c_string_reports_the_first_zero_byte() {
    assert_eq!(c_string("a\0b"), Err(NulError { position: 1 }));
    assert_eq!(c_string("\0"), Err(NulError { position: 0 }));
    assert_eq!(c_string("é\0\0"), Err(NulError { position: 2 }));
    assert_eq!(c_string("color\0"), Err(NulError { position: 5 }));
}

#[test]
fn names_with_a_zero_byte_are_errors_of_their_kind() {
    assert_eq!(uniform_name("scale"), Ok(b"scale\0".to_vec()));
    assert_eq!(uniform_name("sc\0ale"), Err(UniformError::NulError(NulError { position: 2 })));
    assert_eq!(Program::attrib_name("a_texCoord"), Ok(b"a_texCoord\0".to_vec()));
    assert_eq!(Program::attrib_name("\0"), Err(ProgramError::Nul(NulError { position: 0 })));
    assert_eq!(Shader::source("void main() {}"), Ok(b"void main() {}\0".to_vec()));
    assert_eq!(Shader::source("void\0"), Err(ShaderError::Nul(NulError { position: 4 })));
}

#[test]
fn a_shader_that_compiled_is_kept() {
    assert_eq!(Shader::new(5, 1, vec![]), Ok(Shader { id: 5 }));
    assert_eq!(Shader::new(5, 1, vec![0xff]), Ok(Shader { id: 5 }));
}

#[test]
fn a_shader_that_did_not_compile_gives_the_log() {
    assert_eq!(
        Shader::new(5, 0, b"0:1: syntax error".to_vec()),
        Err(ShaderError::Compilation("0:1: syntax error".to_string()))
    );
    assert_eq!(Shader::new(5, 2, vec![]), Err(ShaderError::Compilation(String::new())));
    assert_eq!(
        Shader::new(5, 0, vec![0xc3, 0xa9, b'!']),
        Err(ShaderError::Compilation("é!".to_string()))
    );
    assert_eq!(Shader::new(5, 0, vec![b'a', 0xff]), Err(ShaderError::Utf8));
    assert_eq!(Shader::new(5, -1, vec![0xc3]), Err(ShaderError::Utf8));
}

#[test]
fn a_program_that_did_not_link_gives_the_log() {
    assert_eq!(Program::new(8, 1, vec![]), Ok(Program { id: 8 }));
    assert_eq!(
        Program::new(8, 0, b"missing main".to_vec()),
        Err(ProgramError::Linking("missing main".to_string()))
    );
    assert_eq!(Program::new(8, 0, vec![0x80]), Err(ProgramError::Utf8));
}

#[test]
fn shaders_are_deleted_by_name() {
    let mut gpu = Vec::new();
    Shader { id: 12 }.drop(&mut gpu);
    assert_eq!(gpu, vec![GlCall::DeleteShader { shader: 12 }]);
}

#[test]
fn an_incomplete_framebuffer_is_an_error() {
    assert_eq!(
        TextureFramebuffer::new(1, Texture { id: 2 }, false, 1024, 512, 800, 600),
        Err(FramebufferError::CreationError)
    );
    assert_eq!(
        TextureFramebuffer::new(1, Texture { id: 2 }, true, 1024, 512, 800, 600),
        Ok(TextureFramebuffer {
            id: 1,
            texture: Texture { id: 2 },
            width: 1024,
            height: 512,
            window_width: 800,
            window_height: 600
        })
    );
}

#[test]
fn framebuffer_sets_the_viewport_with_the_target() {
    let fb = TextureFramebuffer::new(1, Texture { id: 2 }, true, 1024, 512, 800, 600).unwrap();
    let mut gpu = Vec::new();
    fb.bind(&mut gpu);
    fb.bind_default(&mut gpu);
    fb.drop(&mut gpu);
    assert_eq!(
        gpu,
        vec![
            GlCall::BindFramebuffer { framebuffer: 1 },
            GlCall::Viewport { width: 1024, height: 512 },
            GlCall::BindFramebuffer { framebuffer: 0 },
            GlCall::Viewport { width: 800, height: 600 },
            GlCall::DeleteFramebuffer { framebuffer: 1 },
        ]
    );
}

#[test]
fn a_uniform_writes_the_chosen_value() {
    let program = Program { id: 3 };
    let colors = UniformVec::new(&program, 4, vec![[1; 4], [2; 4]]).unwrap();
    assert_eq!(colors, UniformVec { program: 3, location: 4, values: vec![[1; 4], [2; 4]] });
    let mvp = UniformMat::new(&program, 0, vec![[5; 16]]).unwrap();
    assert_eq!(mvp, UniformMat { program: 3, location: 0, values: vec![[5; 16]] });
    let mut gpu = Vec::new();
    assert_eq!(colors.set(1, &program, &mut gpu), Ok(()));
    assert_eq!(mvp.set(0, &program, &mut gpu), Ok(()));
    assert_eq!(
        gpu,
        vec![
            GlCall::Uniform4fv { location: 4, value: [2; 4] },
            GlCall::UniformMatrix4fv { location: 0, value: [5; 16] },
        ]
    );
}

#[test]
fn a_name_that_the_program_lacks_is_an_error() {
    let program = Program { id: 3 };
    assert_eq!(UniformVec::new(&program, NO_LOCATION, vec![[1; 4]]), Err(UniformError::Unresolved));
    assert_eq!(UniformVec::new(&program, i32::MIN, vec![]), Err(UniformError::Unresolved));
    assert_eq!(UniformMat::new(&program, -1, vec![[1; 16]]), Err(UniformError::Unresolved));
    assert!(UniformMat::new(&program, i32::MAX, vec![]).is_ok());
    assert_eq!(Program::get_attrib_location(0), Ok(0));
    assert_eq!(Program::get_attrib_location(7), Ok(7));
    assert_eq!(Program::get_attrib_location(-1), Err(ProgramError::Unresolved));
    assert_eq!(NO_LOCATION, -1);
}

#[test]
fn a_uniform_without_a_location_in_the_bound_program_is_not_written() {
    let program = Program { id: 3 };
    let other = Program { id: 4 };
    let mut gpu = Vec::new();
    let lost = UniformVec { program: 3, location: -1, values: vec![[1; 4]] };
    assert_eq!(lost.set(0, &program, &mut gpu), Err(UniformError::Unresolved));
    let found = UniformVec::new(&program, 0, vec![[1; 4]]).unwrap();
    assert_eq!(found.set(0, &other, &mut gpu), Err(UniformError::Unresolved));
    let matrix = UniformMat { program: 3, location: -1, values: vec![[1; 16]] };
    assert_eq!(matrix.set(0, &program, &mut gpu), Err(UniformError::Unresolved));
    let matrix = UniformMat::new(&other, 2, vec![[1; 16]]).unwrap();
    assert_eq!(matrix.set(0, &program, &mut gpu), Err(UniformError::Unresolved));
    assert!(gpu.is_empty());
}
