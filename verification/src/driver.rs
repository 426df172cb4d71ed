//! The boundary to the graphics driver.
//!
//! Nothing in this crate talks to the driver. Every operation hands the
//! caller a [`DriverCall`] to carry out and takes the driver's answer back as
//! a [`DriverReply`]. The contracts speak of the views of both.

use vstd::prelude::*;

verus! {

/// Stage code of a fragment shader.
pub open spec fn fragment_shader() -> u32 {
    0x8B30
}

/// Stage code of a geometry shader.
pub open spec fn geometry_shader() -> u32 {
    0x8DD9
}

/// Stage code of a vertex shader.
pub open spec fn vertex_shader() -> u32 {
    0x8B31
}

/// Parameter name that asks a shader for its compile status.
pub open spec fn compile_status() -> u32 {
    0x8B81
}

/// Parameter name that asks a program for its link status.
pub open spec fn link_status() -> u32 {
    0x8B82
}

/// Parameter name that asks an object for the length of its diagnostic log.
pub open spec fn info_log_length() -> u32 {
    0x8B84
}

/// The value by which the driver reports success.
pub open spec fn status_true() -> i32 {
    1
}

/// `gl::FRAGMENT_SHADER`, a constant of the bindings. Trusted: its value is
/// the one the OpenGL registry assigns to `GL_FRAGMENT_SHADER`.
#[verifier::external_body]
pub(crate) fn gl_fragment_shader() -> (code: u32)
    ensures
        code == fragment_shader(),
{
    gl::FRAGMENT_SHADER
}

/// `gl::GEOMETRY_SHADER`, a constant of the bindings. Trusted: its value is
/// the one the OpenGL registry assigns to `GL_GEOMETRY_SHADER`.
#[verifier::external_body]
pub(crate) fn gl_geometry_shader() -> (code: u32)
    ensures
        code == geometry_shader(),
{
    gl::GEOMETRY_SHADER
}

/// `gl::VERTEX_SHADER`, a constant of the bindings. Trusted: its value is
/// the one the OpenGL registry assigns to `GL_VERTEX_SHADER`.
#[verifier::external_body]
pub(crate) fn gl_vertex_shader() -> (code: u32)
    ensures
        code == vertex_shader(),
{
    gl::VERTEX_SHADER
}

/// `gl::COMPILE_STATUS`, a constant of the bindings. Trusted: its value is
/// the one the OpenGL registry assigns to `GL_COMPILE_STATUS`.
#[verifier::external_body]
pub(crate) fn gl_compile_status() -> (code: u32)
    ensures
        code == compile_status(),
{
    gl::COMPILE_STATUS
}

/// `gl::LINK_STATUS`, a constant of the bindings. Trusted: its value is the
/// one the OpenGL registry assigns to `GL_LINK_STATUS`.
#[verifier::external_body]
pub(crate) fn gl_link_status() -> (code: u32)
    ensures
        code == link_status(),
{
    gl::LINK_STATUS
}

/// `gl::INFO_LOG_LENGTH`, a constant of the bindings. Trusted: its value is
/// the one the OpenGL registry assigns to `GL_INFO_LOG_LENGTH`.
#[verifier::external_body]
pub(crate) fn gl_info_log_length() -> (code: u32)
    ensures
        code == info_log_length(),
{
    gl::INFO_LOG_LENGTH
}

/// `gl::TRUE`, a constant of the bindings, widened to the integer type in
/// which the driver reports a status. Trusted: the constant is the one the
/// OpenGL registry assigns to `GL_TRUE`.
#[verifier::external_body]
pub(crate) fn gl_true() -> (value: i32)
    ensures
        value == status_true(),
{
    i32::from(gl::TRUE)
}

/// The driver's upload entry points for uniform values, one for each shape.
#[derive(Clone, Copy, Debug, PartialEq, Eq, Structural)]
pub enum UploadEntry {
    Uniform1fv,
    Uniform2fv,
    Uniform3fv,
    Uniform4fv,
    UniformMatrix2fv,
    UniformMatrix3fv,
    UniformMatrix4fv,
    UniformMatrix2x3fv,
    UniformMatrix2x4fv,
    UniformMatrix3x2fv,
    UniformMatrix3x4fv,
    UniformMatrix4x2fv,
    UniformMatrix4x3fv,
}

impl UploadEntry {
    /// Columns of the value that the entry point takes; a vector has one.
    pub open spec fn columns(self) -> nat {
        match self {
            UploadEntry::Uniform1fv => 1,
            UploadEntry::Uniform2fv => 1,
            UploadEntry::Uniform3fv => 1,
            UploadEntry::Uniform4fv => 1,
            UploadEntry::UniformMatrix2fv => 2,
            UploadEntry::UniformMatrix3fv => 3,
            UploadEntry::UniformMatrix4fv => 4,
            UploadEntry::UniformMatrix2x3fv => 2,
            UploadEntry::UniformMatrix2x4fv => 2,
            UploadEntry::UniformMatrix3x2fv => 3,
            UploadEntry::UniformMatrix3x4fv => 3,
            UploadEntry::UniformMatrix4x2fv => 4,
            UploadEntry::UniformMatrix4x3fv => 4,
        }
    }

    /// Rows of the value that the entry point takes.
    pub open spec fn rows(self) -> nat {
        match self {
            UploadEntry::Uniform1fv => 1,
            UploadEntry::Uniform2fv => 2,
            UploadEntry::Uniform3fv => 3,
            UploadEntry::Uniform4fv => 4,
            UploadEntry::UniformMatrix2fv => 2,
            UploadEntry::UniformMatrix3fv => 3,
            UploadEntry::UniformMatrix4fv => 4,
            UploadEntry::UniformMatrix2x3fv => 3,
            UploadEntry::UniformMatrix2x4fv => 4,
            UploadEntry::UniformMatrix3x2fv => 2,
            UploadEntry::UniformMatrix3x4fv => 4,
            UploadEntry::UniformMatrix4x2fv => 2,
            UploadEntry::UniformMatrix4x3fv => 3,
        }
    }

    /// Whether the entry point uploads a matrix, and so takes a transpose flag.
    pub open spec fn is_matrix(self) -> bool {
        self.columns() >= 2
    }

    /// Number of scalars in one value of the entry point's shape.
    pub open spec fn components(self) -> nat {
        self.columns() * self.rows()
    }

    /// Counts the scalars in one value of the entry point's shape.
    pub fn arity(&self) -> (count: usize)
        ensures
            count == self.components(),
            1 <= count <= 16,
    {
        match self {
            UploadEntry::Uniform1fv => 1,
            UploadEntry::Uniform2fv => 2,
            UploadEntry::Uniform3fv => 3,
            UploadEntry::Uniform4fv => 4,
            UploadEntry::UniformMatrix2fv => 4,
            UploadEntry::UniformMatrix3fv => 9,
            UploadEntry::UniformMatrix4fv => 16,
            UploadEntry::UniformMatrix2x3fv => 6,
            UploadEntry::UniformMatrix2x4fv => 8,
            UploadEntry::UniformMatrix3x2fv => 6,
            UploadEntry::UniformMatrix3x4fv => 12,
            UploadEntry::UniformMatrix4x2fv => 8,
            UploadEntry::UniformMatrix4x3fv => 12,
        }
    }

    /// Tells whether the entry point uploads a matrix.
    pub fn takes_matrix(&self) -> (matrix: bool)
        ensures
            matrix == self.is_matrix(),
    {
        match self {
            UploadEntry::Uniform1fv
            | UploadEntry::Uniform2fv
            | UploadEntry::Uniform3fv
            | UploadEntry::Uniform4fv => false,
            _ => true,
        }
    }
}

/// No two entry points take values of the same shape: the shape of a value
/// settles the entry point.
pub proof fn entry_settled_by_shape(a: UploadEntry, b: UploadEntry)
    requires
        a.columns() == b.columns(),
        a.rows() == b.rows(),
    ensures
        a == b,
{
}

/// One request to the driver. The operations of this crate answer with the
/// calls that are to be made; none has happened before its call was carried
/// out.
#[must_use]
#[derive(Debug, PartialEq, Eq)]
pub enum DriverCall {
    /// `glCreateShader`: allocate a shader object of the given stage.
    CreateShader { kind: u32 },
    /// `glShaderSource`: replace the shader's source by this one text.
    ShaderSource { shader: u32, source: Vec<u8> },
    /// `glCompileShader`.
    CompileShader { shader: u32 },
    /// `glGetShaderiv`: read one integer parameter of the shader.
    GetShaderiv { shader: u32, pname: u32 },
    /// `glGetShaderInfoLog` into a zeroed buffer of `capacity` bytes.
    GetShaderInfoLog { shader: u32, capacity: i32 },
    /// `glDeleteShader`.
    DeleteShader { shader: u32 },
    /// `glCreateProgram`: allocate a program object.
    CreateProgram,
    /// `glAttachShader`.
    AttachShader { program: u32, shader: u32 },
    /// `glLinkProgram`.
    LinkProgram { program: u32 },
    /// `glGetProgramiv`: read one integer parameter of the program.
    GetProgramiv { program: u32, pname: u32 },
    /// `glGetProgramInfoLog` into a zeroed buffer of `capacity` bytes.
    GetProgramInfoLog { program: u32, capacity: i32 },
    /// `glDeleteProgram`.
    DeleteProgram { program: u32 },
    /// `glUseProgram`: make the program the active one.
    UseProgram { program: u32 },
    /// `glGetUniformLocation`; the name holds no zero byte.
    GetUniformLocation { program: u32, name: Vec<u8> },
    /// One of the `glUniform*fv` entry points. `values` holds the bit
    /// patterns of the scalars, `count` values of the entry's shape; a vector
    /// entry has no use for `transpose`.
    Upload { entry: UploadEntry, location: i32, count: i32, transpose: bool, values: Vec<u32> },
}

/// What a [`DriverCall`] asks for, as a mathematical value.
pub enum CallView {
    CreateShader { kind: u32 },
    ShaderSource { shader: u32, source: Seq<u8> },
    CompileShader { shader: u32 },
    GetShaderiv { shader: u32, pname: u32 },
    GetShaderInfoLog { shader: u32, capacity: i32 },
    DeleteShader { shader: u32 },
    CreateProgram,
    AttachShader { program: u32, shader: u32 },
    LinkProgram { program: u32 },
    GetProgramiv { program: u32, pname: u32 },
    GetProgramInfoLog { program: u32, capacity: i32 },
    DeleteProgram { program: u32 },
    UseProgram { program: u32 },
    GetUniformLocation { program: u32, name: Seq<u8> },
    Upload { entry: UploadEntry, location: i32, count: i32, transpose: bool, values: Seq<u32> },
}

impl View for DriverCall {
    type V = CallView;

    open spec fn view(&self) -> CallView {
        match *self {
            DriverCall::CreateShader { kind } => CallView::CreateShader { kind },
            DriverCall::ShaderSource { shader, source } => CallView::ShaderSource {
                shader,
                source: source@,
            },
            DriverCall::CompileShader { shader } => CallView::CompileShader { shader },
            DriverCall::GetShaderiv { shader, pname } => CallView::GetShaderiv { shader, pname },
            DriverCall::GetShaderInfoLog { shader, capacity } => CallView::GetShaderInfoLog {
                shader,
                capacity,
            },
            DriverCall::DeleteShader { shader } => CallView::DeleteShader { shader },
            DriverCall::CreateProgram => CallView::CreateProgram,
            DriverCall::AttachShader { program, shader } => CallView::AttachShader {
                program,
                shader,
            },
            DriverCall::LinkProgram { program } => CallView::LinkProgram { program },
            DriverCall::GetProgramiv { program, pname } => CallView::GetProgramiv {
                program,
                pname,
            },
            DriverCall::GetProgramInfoLog { program, capacity } => CallView::GetProgramInfoLog {
                program,
                capacity,
            },
            DriverCall::DeleteProgram { program } => CallView::DeleteProgram { program },
            DriverCall::UseProgram { program } => CallView::UseProgram { program },
            DriverCall::GetUniformLocation { program, name } => CallView::GetUniformLocation {
                program,
                name: name@,
            },
            DriverCall::Upload { entry, location, count, transpose, values } => CallView::Upload {
                entry,
                location,
                count,
                transpose,
                values: values@,
            },
        }
    }
}

/// The driver's answer to one call.
#[derive(Debug, PartialEq, Eq)]
pub enum DriverReply {
    /// The call returns nothing.
    Nothing,
    /// The name of a freshly created object; zero when the driver refused.
    Handle(u32),
    /// An integer parameter or a uniform location.
    Value(i32),
    /// The buffer handed to a log query, as the driver left it.
    Log(Vec<u8>),
}

/// A [`DriverReply`] as a mathematical value.
pub enum ReplyView {
    Nothing,
    Handle(u32),
    Value(i32),
    Log(Seq<u8>),
}

impl View for DriverReply {
    type V = ReplyView;

    open spec fn view(&self) -> ReplyView {
        match *self {
            DriverReply::Nothing => ReplyView::Nothing,
            DriverReply::Handle(handle) => ReplyView::Handle(handle),
            DriverReply::Value(value) => ReplyView::Value(value),
            DriverReply::Log(bytes) => ReplyView::Log(bytes@),
        }
    }
}

impl CallView {
    /// Whether `reply` has the shape in which the driver answers this call.
    pub open spec fn answered_by(self, reply: ReplyView) -> bool {
        match self {
            CallView::CreateShader { .. } | CallView::CreateProgram => reply is Handle,
            CallView::GetShaderiv { .. }
            | CallView::GetProgramiv { .. }
            | CallView::GetUniformLocation { .. } => reply is Value,
            CallView::GetShaderInfoLog { .. } | CallView::GetProgramInfoLog { .. } => reply is Log,
            _ => reply is Nothing,
        }
    }

    /// Whether the call can be made as it stands: the buffer offered for a
    /// log has a size, a name holds no zero byte, so that it ends where its
    /// bytes end, and an upload holds as many scalars as its entry point
    /// reads for the count of values, transposed only where they are
    /// matrices.
    pub open spec fn proper(self) -> bool {
        match self {
            CallView::GetShaderInfoLog { capacity, .. } => capacity >= 0,
            CallView::GetProgramInfoLog { capacity, .. } => capacity >= 0,
            CallView::GetUniformLocation { name, .. } => !name.contains(0u8),
            CallView::Upload { entry, count, transpose, values, .. } => {
                &&& count >= 0
                &&& values.len() == count * entry.components()
                &&& transpose ==> entry.is_matrix()
            },
            _ => true,
        }
    }

    /// Whether the call asks the driver to allocate an object.
    pub open spec fn creates(self) -> bool {
        self is CreateShader || self is CreateProgram
    }

    /// Whether the call hands an object back to the driver.
    pub open spec fn deletes(self) -> bool {
        self is DeleteShader || self is DeleteProgram
    }
}

/// Tells whether one of `bytes` is zero.
pub fn holds_zero(bytes: &Vec<u8>) -> (found: bool)
    ensures
        found == bytes@.contains(0u8),
{
    let mut i: usize = 0;
    while i < bytes.len()
        invariant
            i <= bytes.len(),
            forall|j: int| 0 <= j < i ==> bytes@[j] != 0u8,
        decreases bytes.len() - i,
    {
        if bytes[i] == 0u8 {
            return true;
        }
        i += 1;
    }
    false
}

impl DriverCall {
    /// Tells whether the call can be made as it stands. Every call that an
    /// operation of this crate answers with can.
    pub fn is_proper(&self) -> (proper: bool)
        ensures
            proper == self@.proper(),
    {
        match self {
            DriverCall::GetShaderInfoLog { capacity, .. } => *capacity >= 0,
            DriverCall::GetProgramInfoLog { capacity, .. } => *capacity >= 0,
            DriverCall::GetUniformLocation { name, .. } => !holds_zero(name),
            DriverCall::Upload { entry, count, transpose, values, .. } => {
                if *count < 0 {
                    false
                } else {
                    let each = entry.arity() as u64;
                    let values_asked = *count as u64;
                    assert(values_asked * each <= 0x8_0000_0000) by (nonlinear_arith)
                        requires
                            values_asked <= 0x8000_0000,
                            each <= 16,
                    ;
                    let wanted = values_asked * each;
                    values.len() as u64 == wanted && (!*transpose || entry.takes_matrix())
                }
            },
            _ => true,
        }
    }
}

} // verus!
