//! Handles of GPU resources and the calls that bind, use and delete them.
//!
//! A handle is the name the graphics API gave to a resource. Nothing here
//! reaches the API: `bind` and `drop` append the calls they stand for to a
//! log, in the order in which they have to be issued.

use vstd::prelude::*;
use vstd::string::StringSliceAdditionalSpecFns;

verus! {

/// How a draw call assembles consecutive vertices into primitives.
#[derive(Clone, Copy, Debug, PartialEq, Eq, Structural)]
pub enum DrawType {
    Lines,
    Triangles,
    TriangleStrip,
}

/// One call of the graphics API, with its arguments.
///
/// The values of 4-vectors and matrices are carried as the bit patterns of
/// 32-bit floats, exactly as they are handed to the API. The value of a
/// 2-vector is a pair of lengths in twelfths of a pixel; the API takes them
/// in pixels.
#[derive(Clone, Copy, Debug, PartialEq, Eq)]
#[allow(inconsistent_fields)]
pub enum GlCall {
    UseProgram { program: u32 },
    BindVertexArray { array: u32 },
    BindTexture { texture: u32 },
    BindBuffer { buffer: u32 },
    BindFramebuffer { framebuffer: u32 },
    Viewport { width: i32, height: i32 },
    Uniform2fv { location: i32, value: (i32, i32) },
    Uniform4fv { location: i32, value: [u32; 4] },
    UniformMatrix4fv { location: i32, value: [u32; 16] },
    DrawArrays { mode: DrawType, first: i32, count: i32 },
    ClearColor { color: [u32; 4] },
    ClearColorBuffer,
    DeleteShader { shader: u32 },
    DeleteProgram { program: u32 },
    DeleteVertexArray { array: u32 },
    DeleteTexture { texture: u32 },
    DeleteBuffer { buffer: u32 },
    DeleteFramebuffer { framebuffer: u32 },
}

/// A string holds a zero byte, at `position`, and cannot be handed to the
/// graphics API.
#[derive(Clone, Copy, Debug, PartialEq, Eq, Structural)]
pub struct NulError {
    pub position: usize,
}

/// Whether `r` is what `c_string` makes of a string with the given bytes:
/// the bytes with a zero byte after them if none of them is zero, and else
/// the position of the first that is.
pub open spec fn c_string_of(bytes: Seq<u8>, r: Result<Vec<u8>, NulError>) -> bool {
    match r {
        Ok(out) => {
            &&& forall|i: int| 0 <= i < bytes.len() ==> bytes[i] != 0
            &&& out@ == bytes.push(0u8)
        },
        Err(e) => {
            &&& e.position < bytes.len()
            &&& bytes[e.position as int] == 0
            &&& forall|i: int| 0 <= i < e.position ==> bytes[i] != 0
        },
    }
}

/// The bytes of `s` with a zero byte after them, as the graphics API takes
/// strings; or where `s` holds a zero byte of its own.
pub fn c_string(s: &str) -> (r: Result<Vec<u8>, NulError>)
    ensures
        c_string_of(s.spec_bytes(), r),
{
    let bytes = s.as_bytes();
    let mut out: Vec<u8> = Vec::new();
    let mut i: usize = 0;
    while i < bytes.len()
        invariant
            i <= bytes@.len(),
            bytes@ == s.spec_bytes(),
            out@ == bytes@.take(i as int),
            forall|k: int| 0 <= k < i ==> bytes@[k] != 0,
        decreases bytes@.len() - i,
    {
        if bytes[i] == 0 {
            return Err(NulError { position: i });
        }
        out.push(bytes[i]);
        assert(out@ =~= bytes@.take(i + 1));
        i += 1;
    }
    proof {
        assert(bytes@.take(i as int) =~= bytes@);
    }
    out.push(0);
    Ok(out)
}

/// Calls `String::from_utf8`.
///
/// Nothing is proved of it. The contract claims what its documentation says:
/// it fails exactly on bytes that are not UTF-8, and otherwise gives the
/// string that the bytes encode.
#[verifier::external_body]
fn string_from_utf8(bytes: Vec<u8>) -> (r: Option<String>)
    ensures
        r is Some <==> vstd::utf8::valid_utf8(bytes@),
        r matches Some(s) ==> s@ == vstd::utf8::decode_utf8(bytes@),
{
    match String::from_utf8(bytes) {
        Ok(s) => Some(s),
        Err(_) => None,
    }
}

/// A resource that can be made current.
pub trait Bind {
    /// The calls that make the resource current.
    spec fn bind_calls(&self) -> Seq<GlCall>;

    fn bind(&self, gpu: &mut Vec<GlCall>)
        ensures
            final(gpu)@ == old(gpu)@ + self.bind_calls(),
    ;
}

/// A resource that has to be released by hand.
pub trait Drop {
    /// The calls that release the resource.
    spec fn drop_calls(&self) -> Seq<GlCall>;

    fn drop(&self, gpu: &mut Vec<GlCall>)
        ensures
            final(gpu)@ == old(gpu)@ + self.drop_calls(),
    ;
}

/// A compiled shader stage.
#[derive(Clone, Copy, Debug, PartialEq, Eq, Structural)]
pub struct Shader {
    pub id: u32,
}

impl Drop for Shader {
    open spec fn drop_calls(&self) -> Seq<GlCall> {
        seq![GlCall::DeleteShader { shader: self.id }]
    }

    fn drop(&self, gpu: &mut Vec<GlCall>) {
        gpu.push(GlCall::DeleteShader { shader: self.id });
    }
}

/// Why a shader could not be made.
#[derive(Debug, PartialEq, Eq)]
pub enum ShaderError {
    /// The compiler rejected the source; this is its log.
    Compilation(String),
    /// The compiler's log is not UTF-8.
    Utf8,
    /// The source holds a zero byte.
    Nul(NulError),
}

impl Shader {
    /// The source of a shader as the graphics API takes it.
    pub fn source(code: &str) -> (r: Result<Vec<u8>, ShaderError>)
        ensures
            match r {
                Ok(bytes) => c_string_of(code.spec_bytes(), Ok(bytes)),
                Err(ShaderError::Nul(e)) => c_string_of(code.spec_bytes(), Err(e)),
                Err(_) => false,
            },
    {
        match c_string(code) {
            Ok(bytes) => Ok(bytes),
            Err(e) => Err(ShaderError::Nul(e)),
        }
    }

    /// The shader named `id` once it was compiled: `success` is its compile
    /// status, which is 1 if it compiled, and `log` what the compiler wrote,
    /// which is read only if it did not.
    pub fn new(id: u32, success: i32, log: Vec<u8>) -> (r: Result<Self, ShaderError>)
        ensures
            success == 1 ==> r == Ok::<Self, ShaderError>(Shader { id }),
            success != 1 && !vstd::utf8::valid_utf8(log@) ==> r == Err::<Self, ShaderError>(
                ShaderError::Utf8,
            ),
            success != 1 && vstd::utf8::valid_utf8(log@) ==> (r matches Err(
                ShaderError::Compilation(message),
            ) && message@ == vstd::utf8::decode_utf8(log@)),
    {
        if success == 1 {
            Ok(Shader { id })
        } else {
            match string_from_utf8(log) {
                Some(message) => Err(ShaderError::Compilation(message)),
                None => Err(ShaderError::Utf8),
            }
        }
    }
}

/// Why a program could not be made.
#[derive(Debug, PartialEq, Eq)]
pub enum ProgramError {
    /// The linker rejected the program; this is its log.
    Linking(String),
    /// The linker's log is not UTF-8.
    Utf8,
    /// The name of an attribute holds a zero byte.
    Nul(NulError),
    /// The program has no attribute of the name that was looked up.
    Unresolved,
}

impl Program {
    /// The name of an attribute as the graphics API takes it.
    pub fn attrib_name(attrib: &str) -> (r: Result<Vec<u8>, ProgramError>)
        ensures
            match r {
                Ok(bytes) => c_string_of(attrib.spec_bytes(), Ok(bytes)),
                Err(ProgramError::Nul(e)) => c_string_of(attrib.spec_bytes(), Err(e)),
                Err(_) => false,
            },
    {
        match c_string(attrib) {
            Ok(bytes) => Ok(bytes),
            Err(e) => Err(ProgramError::Nul(e)),
        }
    }

    /// The location of an attribute. `found` is what the lookup of its name
    /// in the program gave; a program that lacks the name gives none, which is
    /// an error.
    pub fn get_attrib_location(found: i32) -> (r: Result<u32, ProgramError>)
        ensures
            found >= 0 ==> r == Ok::<u32, ProgramError>(found as u32),
            found < 0 ==> r == Err::<u32, ProgramError>(ProgramError::Unresolved),
    {
        if found >= 0 {
            Ok(found as u32)
        } else {
            Err(ProgramError::Unresolved)
        }
    }

    /// The program named `id` once it was linked: `success` is its link
    /// status, which is 1 if it linked, and `log` what the linker wrote,
    /// which is read only if it did not.
    pub fn new(id: u32, success: i32, log: Vec<u8>) -> (r: Result<Self, ProgramError>)
        ensures
            success == 1 ==> r == Ok::<Self, ProgramError>(Program { id }),
            success != 1 && !vstd::utf8::valid_utf8(log@) ==> r == Err::<Self, ProgramError>(
                ProgramError::Utf8,
            ),
            success != 1 && vstd::utf8::valid_utf8(log@) ==> (r matches Err(
                ProgramError::Linking(message),
            ) && message@ == vstd::utf8::decode_utf8(log@)),
    {
        if success == 1 {
            Ok(Program { id })
        } else {
            match string_from_utf8(log) {
                Some(message) => Err(ProgramError::Linking(message)),
                None => Err(ProgramError::Utf8),
            }
        }
    }
}

/// A linked shader program.
#[derive(Clone, Copy, Debug, PartialEq, Eq, Structural)]
pub struct Program {
    pub id: u32,
}

impl Bind for Program {
    open spec fn bind_calls(&self) -> Seq<GlCall> {
        seq![GlCall::UseProgram { program: self.id }]
    }

    fn bind(&self, gpu: &mut Vec<GlCall>) {
        gpu.push(GlCall::UseProgram { program: self.id });
    }
}

impl Drop for Program {
    open spec fn drop_calls(&self) -> Seq<GlCall> {
        seq![GlCall::DeleteProgram { program: self.id }]
    }

    fn drop(&self, gpu: &mut Vec<GlCall>) {
        gpu.push(GlCall::DeleteProgram { program: self.id });
    }
}

/// A buffer of vertex data.
#[derive(Clone, Copy, Debug, PartialEq, Eq, Structural)]
pub struct Buffer {
    pub id: u32,
}

impl Bind for Buffer {
    open spec fn bind_calls(&self) -> Seq<GlCall> {
        seq![GlCall::BindBuffer { buffer: self.id }]
    }

    fn bind(&self, gpu: &mut Vec<GlCall>) {
        gpu.push(GlCall::BindBuffer { buffer: self.id });
    }
}

impl Drop for Buffer {
    open spec fn drop_calls(&self) -> Seq<GlCall> {
        seq![GlCall::DeleteBuffer { buffer: self.id }]
    }

    fn drop(&self, gpu: &mut Vec<GlCall>) {
        gpu.push(GlCall::DeleteBuffer { buffer: self.id });
    }
}

/// A vertex layout. It remembers the buffer that was bound when its
/// attributes were set, so binding the layout selects that buffer too.
#[derive(Clone, Copy, Debug, PartialEq, Eq, Structural)]
pub struct VertexArray {
    pub id: u32,
}

impl Bind for VertexArray {
    open spec fn bind_calls(&self) -> Seq<GlCall> {
        seq![GlCall::BindVertexArray { array: self.id }]
    }

    fn bind(&self, gpu: &mut Vec<GlCall>) {
        gpu.push(GlCall::BindVertexArray { array: self.id });
    }
}

impl Drop for VertexArray {
    open spec fn drop_calls(&self) -> Seq<GlCall> {
        seq![GlCall::DeleteVertexArray { array: self.id }]
    }

    fn drop(&self, gpu: &mut Vec<GlCall>) {
        gpu.push(GlCall::DeleteVertexArray { array: self.id });
    }
}

/// A two-dimensional texture.
#[derive(Clone, Copy, Debug, PartialEq, Eq, Structural)]
pub struct Texture {
    pub id: u32,
}

impl Bind for Texture {
    open spec fn bind_calls(&self) -> Seq<GlCall> {
        seq![GlCall::BindTexture { texture: self.id }]
    }

    fn bind(&self, gpu: &mut Vec<GlCall>) {
        gpu.push(GlCall::BindTexture { texture: self.id });
    }
}

impl Drop for Texture {
    open spec fn drop_calls(&self) -> Seq<GlCall> {
        seq![GlCall::DeleteTexture { texture: self.id }]
    }

    fn drop(&self, gpu: &mut Vec<GlCall>) {
        gpu.push(GlCall::DeleteTexture { texture: self.id });
    }
}

/// The framebuffer could not be completed.
#[derive(Clone, Copy, Debug, PartialEq, Eq, Structural)]
pub enum FramebufferError {
    CreationError,
}

/// An off-screen render target that draws into a texture of its own size.
#[derive(Clone, Copy, Debug, PartialEq, Eq, Structural)]
pub struct TextureFramebuffer {
    pub id: u32,
    pub texture: Texture,
    pub width: i32,
    pub height: i32,
    pub window_width: i32,
    pub window_height: i32,
}

impl TextureFramebuffer {
    /// Wraps a framebuffer that was attached to `texture`. `complete` is what
    /// the completeness check of the framebuffer reported.
    pub fn new(
        id: u32,
        texture: Texture,
        complete: bool,
        width: i32,
        height: i32,
        window_width: i32,
        window_height: i32,
    ) -> (r: Result<Self, FramebufferError>)
        ensures
            complete ==> r == Ok::<Self, FramebufferError>(
                TextureFramebuffer { id, texture, width, height, window_width, window_height },
            ),
            !complete ==> r == Err::<Self, FramebufferError>(FramebufferError::CreationError),
    {
        if complete {
            Ok(TextureFramebuffer { id, texture, width, height, window_width, window_height })
        } else {
            Err(FramebufferError::CreationError)
        }
    }

    /// The calls that return to the window's own framebuffer and viewport.
    pub open spec fn bind_default_calls(&self) -> Seq<GlCall> {
        seq![
            GlCall::BindFramebuffer { framebuffer: 0 },
            GlCall::Viewport { width: self.window_width, height: self.window_height },
        ]
    }

    pub fn bind_default(&self, gpu: &mut Vec<GlCall>)
        ensures
            final(gpu)@ == old(gpu)@ + self.bind_default_calls(),
    {
        gpu.push(GlCall::BindFramebuffer { framebuffer: 0 });
        gpu.push(GlCall::Viewport { width: self.window_width, height: self.window_height });
    }
}

impl Bind for TextureFramebuffer {
    open spec fn bind_calls(&self) -> Seq<GlCall> {
        seq![
            GlCall::BindFramebuffer { framebuffer: self.id },
            GlCall::Viewport { width: self.width, height: self.height },
        ]
    }

    fn bind(&self, gpu: &mut Vec<GlCall>) {
        gpu.push(GlCall::BindFramebuffer { framebuffer: self.id });
        gpu.push(GlCall::Viewport { width: self.width, height: self.height });
    }
}

impl Drop for TextureFramebuffer {
    open spec fn drop_calls(&self) -> Seq<GlCall> {
        seq![GlCall::DeleteFramebuffer { framebuffer: self.id }]
    }

    fn drop(&self, gpu: &mut Vec<GlCall>) {
        gpu.push(GlCall::DeleteFramebuffer { framebuffer: self.id });
    }
}

/// Why a uniform could not be set up or applied.
#[derive(Clone, Copy, Debug, PartialEq, Eq, Structural)]
pub enum UniformError {
    /// The name holds a zero byte and cannot be handed to the graphics API.
    NulError(NulError),
    /// The uniform has no location: its program lacks its name, or is not
    /// the program in use.
    Unresolved,
}

/// The name of a uniform as the graphics API takes it.
pub fn uniform_name(name: &str) -> (r: Result<Vec<u8>, UniformError>)
    ensures
        match r {
            Ok(bytes) => c_string_of(name.spec_bytes(), Ok(bytes)),
            Err(UniformError::NulError(e)) => c_string_of(name.spec_bytes(), Err(e)),
            Err(_) => false,
        },
{
    match c_string(name) {
        Ok(bytes) => Ok(bytes),
        Err(e) => Err(UniformError::NulError(e)),
    }
}

/// The location the graphics API reports for a name that a program lacks.
pub const NO_LOCATION: i32 = -1;

/// A vector-valued shader parameter: one location in one program, and the
/// values that can be written to it.
#[derive(Clone, Debug, PartialEq, Eq)]
pub struct UniformVec {
    pub program: u32,
    pub location: i32,
    pub values: Vec<[u32; 4]>,
}

impl UniformVec {
    /// A uniform of `program`. `location` is what the lookup of its name in
    /// the program gave; a program that lacks the name gives none, which is an
    /// error.
    pub fn new(program: &Program, location: i32, values: Vec<[u32; 4]>) -> (r: Result<
        Self,
        UniformError,
    >)
        ensures
            location >= 0 ==> r == Ok::<Self, UniformError>(
                UniformVec { program: program.id, location, values },
            ),
            location < 0 ==> r == Err::<Self, UniformError>(UniformError::Unresolved),
    {
        if location >= 0 {
            Ok(UniformVec { program: program.id, location, values })
        } else {
            Err(UniformError::Unresolved)
        }
    }

    /// Whether the uniform can be written while `bound` is the program in use.
    pub open spec fn resolved_for(&self, bound: Program) -> bool {
        self.program == bound.id && self.location >= 0
    }

    /// What writing value `i` does while `bound` is the program in use.
    pub open spec fn set_step(&self, i: int, bound: Program) -> Result<GlCall, UniformError> {
        if self.resolved_for(bound) {
            Ok(GlCall::Uniform4fv { location: self.location, value: self.values@[i] })
        } else {
            Err(UniformError::Unresolved)
        }
    }

    /// Writes value `i` to the uniform.
    pub fn set(&self, i: usize, bound: &Program, gpu: &mut Vec<GlCall>) -> (r: Result<
        (),
        UniformError,
    >)
        requires
            i < self.values@.len(),
        ensures
            match self.set_step(i as int, *bound) {
                Ok(call) => r is Ok && final(gpu)@ == old(gpu)@.push(call),
                Err(e) => r == Err::<(), UniformError>(e) && final(gpu)@ == old(gpu)@,
            },
    {
        if self.program == bound.id && self.location >= 0 {
            gpu.push(GlCall::Uniform4fv { location: self.location, value: self.values[i] });
            Ok(())
        } else {
            Err(UniformError::Unresolved)
        }
    }
}

/// A matrix-valued shader parameter: one location in one program, and the
/// values that can be written to it.
#[derive(Clone, Debug, PartialEq, Eq)]
pub struct UniformMat {
    pub program: u32,
    pub location: i32,
    pub values: Vec<[u32; 16]>,
}

impl UniformMat {
    /// A uniform of `program`. `location` is what the lookup of its name in
    /// the program gave; a program that lacks the name gives none, which is an
    /// error.
    pub fn new(program: &Program, location: i32, values: Vec<[u32; 16]>) -> (r: Result<
        Self,
        UniformError,
    >)
        ensures
            location >= 0 ==> r == Ok::<Self, UniformError>(
                UniformMat { program: program.id, location, values },
            ),
            location < 0 ==> r == Err::<Self, UniformError>(UniformError::Unresolved),
    {
        if location >= 0 {
            Ok(UniformMat { program: program.id, location, values })
        } else {
            Err(UniformError::Unresolved)
        }
    }

    /// Whether the uniform can be written while `bound` is the program in use.
    pub open spec fn resolved_for(&self, bound: Program) -> bool {
        self.program == bound.id && self.location >= 0
    }

    /// What writing value `i` does while `bound` is the program in use.
    pub open spec fn set_step(&self, i: int, bound: Program) -> Result<GlCall, UniformError> {
        if self.resolved_for(bound) {
            Ok(GlCall::UniformMatrix4fv { location: self.location, value: self.values@[i] })
        } else {
            Err(UniformError::Unresolved)
        }
    }

    /// Writes value `i` to the uniform.
    pub fn set(&self, i: usize, bound: &Program, gpu: &mut Vec<GlCall>) -> (r: Result<
        (),
        UniformError,
    >)
        requires
            i < self.values@.len(),
        ensures
            match self.set_step(i as int, *bound) {
                Ok(call) => r is Ok && final(gpu)@ == old(gpu)@.push(call),
                Err(e) => r == Err::<(), UniformError>(e) && final(gpu)@ == old(gpu)@,
            },
    {
        if self.program == bound.id && self.location >= 0 {
            gpu.push(GlCall::UniformMatrix4fv { location: self.location, value: self.values[i] });
            Ok(())
        } else {
            Err(UniformError::Unresolved)
        }
    }
}

} // verus!
