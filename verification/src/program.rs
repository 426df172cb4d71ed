//! Program objects: shaders linked into a pipeline, and the uniform values
//! that are set on one.

use crate::diagnostic::{log_capacity, log_text, text_of, BuildError, Verdict};
use crate::driver::status_true;
use crate::driver::{gl_info_log_length, gl_link_status, gl_true, holds_zero};
use crate::driver::{CallView, DriverCall, DriverReply, ReplyView, UploadEntry};
use crate::link::{link_next, link_transcript, link_transcript_grows, link_verdict};
use crate::shader::Shader;
use vstd::pervasive::unreached;
use vstd::prelude::*;
use vstd::string::*;

verus! {

/// The driver's names of the shaders, in their order.
pub open spec fn handles(shaders: Seq<Shader>) -> Seq<u32> {
    Seq::new(shaders.len(), |i: int| shaders[i].handle())
}

/// Why a link built no program, with the shaders that were to be linked.
/// They are as they were given, none of them deleted, and their owner's
/// again to give up.
#[must_use]
#[derive(Debug)]
pub struct LinkFailure {
    /// Why no program was built.
    pub error: BuildError,
    /// The shaders that were given, in their order.
    pub shaders: Vec<Shader>,
}

/// Whether `result` is what a link of `shaders` returns on `verdict`.
pub open spec fn link_result(
    result: Result<Program, LinkFailure>,
    shaders: Seq<Shader>,
    verdict: Verdict,
) -> bool {
    match verdict {
        Verdict::Built { handle } => result matches Ok(program) && program.handle() == handle,
        Verdict::Rejected { log } => {
            &&& result matches Err(failure)
            &&& failure.shaders@ == shaders
            &&& failure.error matches BuildError::Link { log: text }
            &&& text@ == log
        },
        Verdict::Refused => {
            &&& result matches Err(failure)
            &&& failure.shaders@ == shaders
            &&& failure.error is ResourceAcquisition
        },
    }
}

/// A linked program object. It exists only where the driver reported that
/// the link succeeded.
#[must_use]
#[derive(Debug)]
pub struct Program {
    id: u32,
}

/// Where a link stands: which call the driver is working on.
enum LinkPhase {
    Creating,
    Refusing,
    Attaching,
    Linking,
    Checking,
    Releasing,
    Measuring,
    Reading,
    Discarding,
}

/// A link under way.
pub struct ProgramBuild {
    shaders: Vec<Shader>,
    phase: LinkPhase,
    cursor: usize,
    id: u32,
    log: Vec<u8>,
    replies: Ghost<Seq<ReplyView>>,
}

/// What comes after a reply of the driver in a link.
#[must_use]
pub enum ProgramStep {
    /// The link goes on: the call is to be made and its reply handed to the
    /// build.
    Call(ProgramBuild, DriverCall),
    /// The link is over.
    Done(Result<Program, LinkFailure>),
}

impl ProgramBuild {
    #[verifier::type_invariant]
    spec fn coherent(self) -> bool {
        let r = self.replies@;
        let n = self.shaders.len() as int;
        let k = r.len() as int;
        &&& link_transcript(handles(self.shaders@), r)
        &&& match self.phase {
            LinkPhase::Creating => k == 0,
            LinkPhase::Refusing => k == 1 && r[0] == ReplyView::Handle(0),
            LinkPhase::Attaching => self.named() && self.cursor < n && k == self.cursor + 1,
            LinkPhase::Linking => self.named() && k == n + 1,
            LinkPhase::Checking => self.named() && k == n + 2,
            LinkPhase::Releasing => self.named() && r[n + 2] == ReplyView::Value(status_true())
                && self.cursor < n && k == n + 3 + self.cursor,
            LinkPhase::Measuring => self.named() && self.failed() && k == n + 3,
            LinkPhase::Reading => self.named() && self.failed() && k == n + 4,
            LinkPhase::Discarding => self.named() && self.failed() && k == n + 5 && r[n + 4] is Log
                && self.log@ == text_of(r[n + 4]->Log_0),
        }
    }

    spec fn named(self) -> bool {
        self.id != 0 && self.replies@[0] == ReplyView::Handle(self.id)
    }

    spec fn failed(self) -> bool {
        let status = self.replies@[self.shaders.len() + 2];
        status is Value && status->Value_0 != status_true()
    }

    /// The shaders to link, in their order.
    pub closed spec fn shaders(self) -> Seq<Shader> {
        self.shaders@
    }

    /// The driver's names of the shaders to link, in their order.
    pub open spec fn units(self) -> Seq<u32> {
        handles(self.shaders())
    }

    /// What the driver has answered so far.
    pub closed spec fn replies(self) -> Seq<ReplyView> {
        self.replies@
    }

    /// The call whose reply the build waits for.
    pub open spec fn pending(self) -> Option<CallView> {
        link_next(self.units(), self.replies())
    }

    /// Tells whether `reply` has the shape of an answer to the pending call.
    pub fn accepts(&self, reply: &DriverReply) -> (fits: bool)
        ensures
            fits == (self.pending() matches Some(call) && call.answered_by(reply@)),
    {
        proof {
            use_type_invariant(self);
        }
        match self.phase {
            LinkPhase::Creating => matches!(reply, DriverReply::Handle(_)),
            LinkPhase::Checking | LinkPhase::Measuring => matches!(reply, DriverReply::Value(_)),
            LinkPhase::Reading => matches!(reply, DriverReply::Log(_)),
            _ => matches!(reply, DriverReply::Nothing),
        }
    }

    /// Whether `next` is what the link comes to when the driver answers the
    /// pending call with `reply`. The reply is added to the transcript. Where
    /// the link has a call to make after it, `next` holds that call, and the
    /// build that waits for its answer; where it has none, `next` holds the
    /// result that the verdict on the transcript asks for: the program, or
    /// the error with the shaders as they were given.
    pub open spec fn leads_to(self, reply: ReplyView, next: ProgramStep) -> bool {
        let replies = self.replies().push(reply);
        &&& link_transcript(self.units(), replies)
        &&& match next {
            ProgramStep::Call(build, call) => {
                &&& build.shaders() == self.shaders()
                &&& build.replies() == replies
                &&& build.pending() == Some(call@)
                &&& call@.proper()
            },
            ProgramStep::Done(result) => {
                &&& link_next(self.units(), replies) is None
                &&& link_result(result, self.shaders(), link_verdict(self.units(), replies))
            },
        }
    }

    /// Takes the driver's reply to the pending call and decides what comes
    /// next: the next call of the link, or its result.
    pub fn step(self, reply: DriverReply) -> (next: ProgramStep)
        requires
            self.pending() matches Some(call) && call.answered_by(reply@),
        ensures
            self.leads_to(reply@, next),
    {
        match self.phase {
            LinkPhase::Creating | LinkPhase::Refusing => self.create(reply),
            LinkPhase::Attaching | LinkPhase::Linking | LinkPhase::Checking => self.link(reply),
            LinkPhase::Releasing => self.release(reply),
            LinkPhase::Measuring | LinkPhase::Reading | LinkPhase::Discarding => {
                self.get_info_log(reply)
            },
        }
    }

    /// The creation of the program object. With its name the first shader is
    /// attached; without one the zero handle goes back and the link ends,
    /// refused, with the shaders as they were given.
    fn create(self, reply: DriverReply) -> (next: ProgramStep)
        requires
            self.pending() matches Some(call) && call.answered_by(reply@),
            self.phase is Creating || self.phase is Refusing,
        ensures
            self.leads_to(reply@, next),
    {
        proof {
            use_type_invariant(&self);
            link_transcript_grows(handles(self.shaders@), self.replies@, reply@);
        }
        let ghost grown = self.replies@.push(reply@);
        let ProgramBuild { shaders, phase, cursor, id: _, log, replies: _ } = self;
        let replies = Ghost(grown);
        match (phase, reply) {
            (LinkPhase::Creating, DriverReply::Handle(program)) => {
                if program == 0 {
                    ProgramStep::Call(
                        ProgramBuild {
                            shaders,
                            phase: LinkPhase::Refusing,
                            cursor,
                            id: program,
                            log,
                            replies,
                        },
                        DriverCall::DeleteProgram { program },
                    )
                } else {
                    let shader = shaders[0].id();
                    ProgramStep::Call(
                        ProgramBuild {
                            shaders,
                            phase: LinkPhase::Attaching,
                            cursor: 0,
                            id: program,
                            log,
                            replies,
                        },
                        DriverCall::AttachShader { program, shader },
                    )
                }
            },
            (LinkPhase::Refusing, _) => ProgramStep::Done(
                Err(LinkFailure { error: BuildError::ResourceAcquisition, shaders }),
            ),
            _ => unreached(),
        }
    }

    /// The link proper: every shader is attached, the program linked and its
    /// status read. The link succeeded where the status is that of success,
    /// and goes on to delete the shaders; after any other the log is asked
    /// for.
    fn link(self, reply: DriverReply) -> (next: ProgramStep)
        requires
            self.pending() matches Some(call) && call.answered_by(reply@),
            self.phase is Attaching || self.phase is Linking || self.phase is Checking,
        ensures
            self.leads_to(reply@, next),
    {
        proof {
            use_type_invariant(&self);
            link_transcript_grows(handles(self.shaders@), self.replies@, reply@);
        }
        let ghost grown = self.replies@.push(reply@);
        let ProgramBuild { shaders, phase, cursor, id, log, replies: _ } = self;
        let replies = Ghost(grown);
        match (phase, reply) {
            (LinkPhase::Attaching, _) => {
                if cursor + 1 < shaders.len() {
                    let shader = shaders[cursor + 1].id();
                    ProgramStep::Call(
                        ProgramBuild {
                            shaders,
                            phase: LinkPhase::Attaching,
                            cursor: cursor + 1,
                            id,
                            log,
                            replies,
                        },
                        DriverCall::AttachShader { program: id, shader },
                    )
                } else {
                    ProgramStep::Call(
                        ProgramBuild { shaders, phase: LinkPhase::Linking, cursor, id, log, replies },
                        DriverCall::LinkProgram { program: id },
                    )
                }
            },
            (LinkPhase::Linking, _) => ProgramStep::Call(
                ProgramBuild { shaders, phase: LinkPhase::Checking, cursor, id, log, replies },
                DriverCall::GetProgramiv { program: id, pname: gl_link_status() },
            ),
            (LinkPhase::Checking, DriverReply::Value(status)) => {
                if status == gl_true() {
                    let shader = shaders[0].id();
                    ProgramStep::Call(
                        ProgramBuild {
                            shaders,
                            phase: LinkPhase::Releasing,
                            cursor: 0,
                            id,
                            log,
                            replies,
                        },
                        DriverCall::DeleteShader { shader },
                    )
                } else {
                    ProgramStep::Call(
                        ProgramBuild {
                            shaders,
                            phase: LinkPhase::Measuring,
                            cursor,
                            id,
                            log,
                            replies,
                        },
                        DriverCall::GetProgramiv { program: id, pname: gl_info_log_length() },
                    )
                }
            },
            _ => unreached(),
        }
    }

    /// The end of a link that succeeded: the shaders are deleted one after
    /// the other, and after the last the program is given.
    fn release(self, reply: DriverReply) -> (next: ProgramStep)
        requires
            self.pending() matches Some(call) && call.answered_by(reply@),
            self.phase is Releasing,
        ensures
            self.leads_to(reply@, next),
    {
        proof {
            use_type_invariant(&self);
            link_transcript_grows(handles(self.shaders@), self.replies@, reply@);
        }
        let ghost grown = self.replies@.push(reply@);
        let ProgramBuild { shaders, phase: _, cursor, id, log, replies: _ } = self;
        let replies = Ghost(grown);
        if cursor + 1 < shaders.len() {
            let shader = shaders[cursor + 1].id();
            ProgramStep::Call(
                ProgramBuild {
                    shaders,
                    phase: LinkPhase::Releasing,
                    cursor: cursor + 1,
                    id,
                    log,
                    replies,
                },
                DriverCall::DeleteShader { shader },
            )
        } else {
            ProgramStep::Done(Ok(Program { id }))
        }
    }

    /// The reading of the log after a failure: its length is read, then the
    /// log itself into a buffer of that size, and the text is what stands
    /// before the terminator. Then the program is deleted, and the link ends
    /// with the text as its error and the shaders as they were given.
    fn get_info_log(self, reply: DriverReply) -> (next: ProgramStep)
        requires
            self.pending() matches Some(call) && call.answered_by(reply@),
            self.phase is Measuring || self.phase is Reading || self.phase is Discarding,
        ensures
            self.leads_to(reply@, next),
    {
        proof {
            use_type_invariant(&self);
            link_transcript_grows(handles(self.shaders@), self.replies@, reply@);
        }
        let ghost grown = self.replies@.push(reply@);
        let ProgramBuild { shaders, phase, cursor, id, log, replies: _ } = self;
        let replies = Ghost(grown);
        match (phase, reply) {
            (LinkPhase::Measuring, DriverReply::Value(length)) => ProgramStep::Call(
                ProgramBuild { shaders, phase: LinkPhase::Reading, cursor, id, log, replies },
                DriverCall::GetProgramInfoLog { program: id, capacity: log_capacity(length) },
            ),
            (LinkPhase::Reading, DriverReply::Log(buffer)) => ProgramStep::Call(
                ProgramBuild {
                    shaders,
                    phase: LinkPhase::Discarding,
                    cursor,
                    id,
                    log: log_text(buffer),
                    replies,
                },
                DriverCall::DeleteProgram { program: id },
            ),
            (LinkPhase::Discarding, _) => ProgramStep::Done(
                Err(LinkFailure { error: BuildError::Link { log }, shaders }),
            ),
            _ => unreached(),
        }
    }
}

impl Program {
    #[verifier::type_invariant]
    spec fn allocated(self) -> bool {
        self.id != 0
    }

    /// The driver's name for the object.
    pub closed spec fn handle(self) -> u32 {
        self.id
    }

    /// The driver's name for the object; never zero.
    pub fn id(&self) -> (id: u32)
        ensures
            id == self.handle(),
            id != 0,
    {
        proof {
            use_type_invariant(self);
        }
        self.id
    }

    /// Begins the link of `shaders`, of which there is one at least: returns
    /// the build and the first call to make for it. The build takes the
    /// shaders over. Where it ends with a program it has deleted them, each
    /// once and after the driver reported success; where it ends with an
    /// error it has deleted none, and hands them back beside the error.
    pub fn new(shaders: Vec<Shader>) -> (begun: (ProgramBuild, DriverCall))
        requires
            shaders@.len() >= 1,
        ensures
            begun.0.shaders() == shaders@,
            begun.0.replies() == Seq::<ReplyView>::empty(),
            begun.0.pending() == Some(begun.1@),
            begun.1@ == CallView::CreateProgram,
    {
        let build = ProgramBuild {
            shaders,
            phase: LinkPhase::Creating,
            cursor: 0,
            id: 0,
            log: Vec::new(),
            replies: Ghost(Seq::empty()),
        };
        (build, DriverCall::CreateProgram)
    }
}

/// The record of which program the driver has in use. The driver keeps that
/// state for the whole rendering context; here it is a value that the
/// operations on it take and give. A record tells of the driver only where
/// there is one for the rendering context, and every program of that context
/// is put in use and deleted through it.
#[derive(Debug)]
pub struct Context {
    bound: u32,
}

impl Context {
    /// The name of the program in use; zero where there is none.
    pub closed spec fn current(self) -> u32 {
        self.bound
    }

    /// The record after `program` was put in use.
    pub closed spec fn bound_to(self, program: u32) -> Context {
        Context { bound: program }
    }

    /// The record after `program` was deleted: none is in use where it was
    /// the one.
    pub closed spec fn without(self, program: u32) -> Context {
        if self.bound == program {
            Context { bound: 0 }
        } else {
            self
        }
    }

    /// The record of a rendering context in which no program was put in use
    /// yet.
    pub fn new() -> (context: Context)
        ensures
            context.current() == 0,
    {
        Context { bound: 0 }
    }

    /// The name of the program in use; zero where there is none.
    pub fn bound(&self) -> (program: u32)
        ensures
            program == self.current(),
    {
        self.bound
    }
}

/// The program in use is all that a record holds.
pub proof fn context_is_its_program(context: Context, other: Context)
    requires
        context.current() == other.current(),
    ensures
        context == other,
{
}

/// After a program was put in use it is the one in use, and to put it in use
/// once more changes nothing.
pub proof fn bind_is_idempotent(context: Context, program: u32)
    ensures
        context.bound_to(program).current() == program,
        context.bound_to(program).bound_to(program) == context.bound_to(program),
{
}

/// After a program was deleted it is not in use, and a program in use that
/// is another one stays in use.
pub proof fn delete_unbinds(context: Context, program: u32)
    ensures
        program != 0 ==> context.without(program).current() != program,
        context.current() != program ==> context.without(program) == context,
        context.current() == program ==> context.without(program).current() == 0,
{
}

/// The place of a uniform value in one program.
#[derive(Clone, Copy, Debug, PartialEq, Eq, Structural)]
pub struct Uniform {
    /// The location that the driver gave, or -1 where the program has no
    /// uniform of the name asked for.
    pub id: i32,
    /// The name of the program that the location belongs to.
    pub program: u32,
}

impl Uniform {
    /// Whether this is the handle of a uniform that the program does not
    /// have.
    pub open spec fn absent(self) -> bool {
        self.id == -1
    }

    /// Tells whether this is the handle of a uniform that the program does
    /// not have.
    pub fn is_sentinel(&self) -> (absent: bool)
        ensures
            absent == self.absent(),
    {
        self.id == -1
    }
}

/// A uniform value by its shape. The scalars are single-precision floating
/// point numbers, held as their bit patterns; a matrix holds its columns one
/// after the other.
#[derive(Clone, Copy, Debug, PartialEq, Eq)]
pub enum UniformData {
    Float(u32),
    FloatVec2([u32; 2]),
    FloatVec3([u32; 3]),
    FloatVec4([u32; 4]),
    FloatMat2([u32; 4]),
    FloatMat3([u32; 9]),
    FloatMat4([u32; 16]),
    FloatMat2x3([u32; 6]),
    FloatMat2x4([u32; 8]),
    FloatMat3x2([u32; 6]),
    FloatMat3x4([u32; 12]),
    FloatMat4x2([u32; 8]),
    FloatMat4x3([u32; 12]),
}

impl UniformData {
    /// The entry point of the driver that uploads a value of this shape.
    pub open spec fn entry(self) -> UploadEntry {
        match self {
            UniformData::Float(_) => UploadEntry::Uniform1fv,
            UniformData::FloatVec2(_) => UploadEntry::Uniform2fv,
            UniformData::FloatVec3(_) => UploadEntry::Uniform3fv,
            UniformData::FloatVec4(_) => UploadEntry::Uniform4fv,
            UniformData::FloatMat2(_) => UploadEntry::UniformMatrix2fv,
            UniformData::FloatMat3(_) => UploadEntry::UniformMatrix3fv,
            UniformData::FloatMat4(_) => UploadEntry::UniformMatrix4fv,
            UniformData::FloatMat2x3(_) => UploadEntry::UniformMatrix2x3fv,
            UniformData::FloatMat2x4(_) => UploadEntry::UniformMatrix2x4fv,
            UniformData::FloatMat3x2(_) => UploadEntry::UniformMatrix3x2fv,
            UniformData::FloatMat3x4(_) => UploadEntry::UniformMatrix3x4fv,
            UniformData::FloatMat4x2(_) => UploadEntry::UniformMatrix4x2fv,
            UniformData::FloatMat4x3(_) => UploadEntry::UniformMatrix4x3fv,
        }
    }

    /// The scalars of the value, in the order in which it holds them.
    pub open spec fn values(self) -> Seq<u32> {
        match self {
            UniformData::Float(value) => seq![value],
            UniformData::FloatVec2(values) => values@,
            UniformData::FloatVec3(values) => values@,
            UniformData::FloatVec4(values) => values@,
            UniformData::FloatMat2(values) => values@,
            UniformData::FloatMat3(values) => values@,
            UniformData::FloatMat4(values) => values@,
            UniformData::FloatMat2x3(values) => values@,
            UniformData::FloatMat2x4(values) => values@,
            UniformData::FloatMat3x2(values) => values@,
            UniformData::FloatMat3x4(values) => values@,
            UniformData::FloatMat4x2(values) => values@,
            UniformData::FloatMat4x3(values) => values@,
        }
    }

    /// Names the entry point of the driver that uploads a value of this
    /// shape.
    pub fn upload_entry(&self) -> (entry: UploadEntry)
        ensures
            entry == self.entry(),
    {
        match self {
            UniformData::Float(_) => UploadEntry::Uniform1fv,
            UniformData::FloatVec2(_) => UploadEntry::Uniform2fv,
            UniformData::FloatVec3(_) => UploadEntry::Uniform3fv,
            UniformData::FloatVec4(_) => UploadEntry::Uniform4fv,
            UniformData::FloatMat2(_) => UploadEntry::UniformMatrix2fv,
            UniformData::FloatMat3(_) => UploadEntry::UniformMatrix3fv,
            UniformData::FloatMat4(_) => UploadEntry::UniformMatrix4fv,
            UniformData::FloatMat2x3(_) => UploadEntry::UniformMatrix2x3fv,
            UniformData::FloatMat2x4(_) => UploadEntry::UniformMatrix2x4fv,
            UniformData::FloatMat3x2(_) => UploadEntry::UniformMatrix3x2fv,
            UniformData::FloatMat3x4(_) => UploadEntry::UniformMatrix3x4fv,
            UniformData::FloatMat4x2(_) => UploadEntry::UniformMatrix4x2fv,
            UniformData::FloatMat4x3(_) => UploadEntry::UniformMatrix4x3fv,
        }
    }

    /// Lists the scalars of the value, in the order in which it holds them.
    pub fn scalars(&self) -> (scalars: Vec<u32>)
        ensures
            scalars@ == self.values(),
    {
        match self {
            UniformData::Float(value) => {
                let mut scalars: Vec<u32> = Vec::new();
                scalars.push(*value);
                assert(scalars@ =~= seq![*value]);
                scalars
            },
            UniformData::FloatVec2(values) => list(values),
            UniformData::FloatVec3(values) => list(values),
            UniformData::FloatVec4(values) => list(values),
            UniformData::FloatMat2(values) => list(values),
            UniformData::FloatMat3(values) => list(values),
            UniformData::FloatMat4(values) => list(values),
            UniformData::FloatMat2x3(values) => list(values),
            UniformData::FloatMat2x4(values) => list(values),
            UniformData::FloatMat3x2(values) => list(values),
            UniformData::FloatMat3x4(values) => list(values),
            UniformData::FloatMat4x2(values) => list(values),
            UniformData::FloatMat4x3(values) => list(values),
        }
    }
}

/// Lists the elements of an array.
fn list<const N: usize>(values: &[u32; N]) -> (scalars: Vec<u32>)
    ensures
        scalars@ == values@,
{
    let mut scalars: Vec<u32> = Vec::new();
    let mut i: usize = 0;
    while i < N
        invariant
            i <= N,
            values@.len() == N,
            scalars@ == values@.take(i as int),
        decreases N - i,
    {
        scalars.push(values[i]);
        i += 1;
        assert(values@.take(i as int) =~= values@.take(i - 1).push(values@[i - 1]));
    }
    assert(values@.take(N as int) =~= values@);
    scalars
}

/// A value holds as many scalars as its entry point takes: the shape that
/// its tag names is the shape of what it holds.
pub proof fn data_fills_entry(data: UniformData)
    ensures
        data.values().len() == data.entry().components(),
{
}

/// The call that uploads `data` to `location`: one value, handed to the
/// entry point of its shape as it is, not transposed.
pub open spec fn upload(location: i32, data: UniformData) -> CallView {
    CallView::Upload {
        entry: data.entry(),
        location,
        count: 1,
        transpose: false,
        values: data.values(),
    }
}

/// An upload holds what its entry point reads: it can be made as it stands.
pub proof fn upload_is_proper(location: i32, data: UniformData)
    ensures
        upload(location, data).proper(),
{
    data_fills_entry(data);
    assert(1 * data.entry().components() == data.entry().components());
}

/// What it takes to learn the place of a uniform in a program.
#[must_use]
#[derive(Debug)]
pub enum Lookup {
    /// The driver has to be asked. The location it answers with becomes a
    /// handle by [`Program::uniform_at`].
    Ask(DriverCall),
    /// No program has a uniform of the name, so the handle is the sentinel.
    Absent(Uniform),
}

impl Program {
    /// Puts the program in use: returns the call that does so, and records
    /// in `context` that it was made.
    pub fn bind(&self, context: &mut Context) -> (call: DriverCall)
        ensures
            call@ == (CallView::UseProgram { program: self.handle() }),
            *final(context) == old(context).bound_to(self.handle()),
            final(context).current() == self.handle(),
    {
        context.bound = self.id;
        DriverCall::UseProgram { program: self.id }
    }

    /// Asks for the place of the uniform `name`. A name that holds a zero
    /// byte is the name of no uniform: its handle is the sentinel, and the
    /// driver is not asked. For any other name the driver is.
    pub fn get_uniform_location(&self, name: &str) -> (lookup: Lookup)
        ensures
            match lookup {
                Lookup::Absent(uniform) => {
                    &&& name.spec_bytes().contains(0u8)
                    &&& uniform == (Uniform { id: -1i32, program: self.handle() })
                },
                Lookup::Ask(call) => {
                    &&& !name.spec_bytes().contains(0u8)
                    &&& call@ == (CallView::GetUniformLocation {
                        program: self.handle(),
                        name: name.spec_bytes(),
                    })
                },
            },
    {
        let bytes = name.as_bytes_vec();
        if holds_zero(&bytes) {
            Lookup::Absent(Uniform { id: -1, program: self.id })
        } else {
            Lookup::Ask(DriverCall::GetUniformLocation { program: self.id, name: bytes })
        }
    }

    /// Makes the handle of a uniform from the location that the driver gave
    /// for it in this program.
    pub fn uniform_at(&self, location: i32) -> (uniform: Uniform)
        ensures
            uniform == (Uniform { id: location, program: self.handle() }),
    {
        Uniform { id: location, program: self.id }
    }

    /// Sets a uniform of the program, which is the one in use, to `data`:
    /// returns the call that uploads the value. Through the sentinel nothing
    /// is set and no call is made, for the program has no such uniform.
    pub fn set_uniform(&self, context: &Context, uniform: Uniform, data: UniformData) -> (call:
        Option<DriverCall>)
        requires
            context.current() == self.handle(),
            uniform.program == self.handle(),
        ensures
            uniform.absent() ==> call is None,
            !uniform.absent() ==> (call matches Some(made) && made@ == upload(uniform.id, data)),
    {
        if uniform.is_sentinel() {
            None
        } else {
            Some(
                DriverCall::Upload {
                    entry: data.upload_entry(),
                    location: uniform.id,
                    count: 1,
                    transpose: false,
                    values: data.scalars(),
                },
            )
        }
    }

    /// Gives the program up: returns the call that hands it back to the
    /// driver, and records in `context` that it is no longer in use.
    pub fn delete(self, context: &mut Context) -> (call: DriverCall)
        ensures
            call@ == (CallView::DeleteProgram { program: self.handle() }),
            *final(context) == old(context).without(self.handle()),
    {
        if context.bound == self.id {
            context.bound = 0;
        }
        DriverCall::DeleteProgram { program: self.id }
    }
}

} // verus!
