//! Shader objects: one stage of the pipeline each.

use crate::compile::{compile_next, compile_transcript, compile_transcript_grows, compile_verdict};
use crate::diagnostic::{log_capacity, log_text, text_of, BuildError, Verdict};
use crate::driver::status_true;
use crate::driver::{fragment_shader, geometry_shader, vertex_shader};
use crate::driver::{gl_compile_status, gl_info_log_length, gl_true};
use crate::driver::{gl_fragment_shader, gl_geometry_shader, gl_vertex_shader};
use crate::driver::{CallView, DriverCall, DriverReply, ReplyView};
use vstd::pervasive::unreached;
use vstd::prelude::*;
use vstd::string::*;

verus! {

/// The stage of the pipeline that a shader runs in.
#[derive(Clone, Copy, Debug, PartialEq, Eq, Structural)]
pub enum ShaderType {
    Fragment,
    Geometry,
    Vertex,
}

impl ShaderType {
    /// The code by which the driver knows the stage.
    pub open spec fn code(self) -> u32 {
        match self {
            ShaderType::Fragment => fragment_shader(),
            ShaderType::Geometry => geometry_shader(),
            ShaderType::Vertex => vertex_shader(),
        }
    }
}

impl From<ShaderType> for u32 {
    fn from(kind: ShaderType) -> (code: u32) {
        match kind {
            ShaderType::Fragment => gl_fragment_shader(),
            ShaderType::Geometry => gl_geometry_shader(),
            ShaderType::Vertex => gl_vertex_shader(),
        }
    }
}

impl vstd::std_specs::convert::FromSpecImpl<ShaderType> for u32 {
    open spec fn obeys_from_spec() -> bool {
        true
    }

    open spec fn from_spec(kind: ShaderType) -> u32 {
        kind.code()
    }
}

/// Whether `result` is what a compile for `kind` returns on `verdict`.
pub open spec fn compile_result(
    result: Result<Shader, BuildError>,
    kind: ShaderType,
    verdict: Verdict,
) -> bool {
    match verdict {
        Verdict::Built { handle } => result matches Ok(shader) && shader.handle() == handle
            && shader.stage() == kind,
        Verdict::Rejected { log } => result matches Err(BuildError::Compile { stage, log: text })
            && stage == kind && text@ == log,
        Verdict::Refused => result matches Err(BuildError::ResourceAcquisition),
    }
}

/// A compiled shader object. It exists only where the driver reported that
/// the compile succeeded.
#[must_use]
#[derive(Debug)]
pub struct Shader {
    id: u32,
    kind: ShaderType,
}

impl Shader {
    #[verifier::type_invariant]
    spec fn allocated(self) -> bool {
        self.id != 0
    }

    /// The driver's name for the object.
    pub closed spec fn handle(self) -> u32 {
        self.id
    }

    /// The stage that the shader was compiled for.
    pub closed spec fn stage(self) -> ShaderType {
        self.kind
    }

    /// The driver's name for the object; never zero.
    pub fn id(&self) -> (id: u32)
        ensures
            id == self.handle(),
            id != 0,
    {
        proof {
            use_type_invariant(self);
        }
        self.id
    }

    /// The stage that the shader was compiled for.
    pub fn kind(&self) -> (kind: ShaderType)
        ensures
            kind == self.stage(),
    {
        self.kind
    }

    /// Begins the compile of `source` for the stage `kind`: returns the build
    /// and the first call to make for it.
    pub fn new(source: &str, kind: ShaderType) -> (begun: (ShaderBuild, DriverCall))
        ensures
            begun.0.kind() == kind,
            begun.0.source() == source.spec_bytes(),
            begun.0.replies() == Seq::<ReplyView>::empty(),
            begun.0.pending() == Some(begun.1@),
            begun.1@ == (CallView::CreateShader { kind: kind.code() }),
    {
        let text = source.as_bytes_vec();
        let build = ShaderBuild {
            kind,
            text,
            phase: ShaderPhase::Creating,
            id: 0,
            log: Vec::new(),
            source: Ghost(source.spec_bytes()),
            replies: Ghost(Seq::empty()),
        };
        (build, DriverCall::CreateShader { kind: u32::from(kind) })
    }

    /// Gives the object up: returns the call that hands it back to the
    /// driver.
    pub fn delete(self) -> (call: DriverCall)
        ensures
            call@ == (CallView::DeleteShader { shader: self.handle() }),
    {
        DriverCall::DeleteShader { shader: self.id }
    }
}

/// Where a compile stands: which call the driver is working on.
enum ShaderPhase {
    Creating,
    Refusing,
    Sourcing,
    Compiling,
    Checking,
    Measuring,
    Reading,
    Discarding,
}

/// A compile under way.
pub struct ShaderBuild {
    kind: ShaderType,
    text: Vec<u8>,
    phase: ShaderPhase,
    id: u32,
    log: Vec<u8>,
    source: Ghost<Seq<u8>>,
    replies: Ghost<Seq<ReplyView>>,
}

/// What comes after a reply of the driver in a compile.
#[must_use]
pub enum ShaderStep {
    /// The compile goes on: the call is to be made and its reply handed to
    /// the build.
    Call(ShaderBuild, DriverCall),
    /// The compile is over.
    Done(Result<Shader, BuildError>),
}

impl ShaderBuild {
    #[verifier::type_invariant]
    spec fn coherent(self) -> bool {
        let r = self.replies@;
        &&& compile_transcript(self.kind, self.source@, r)
        &&& match self.phase {
            ShaderPhase::Creating => r.len() == 0 && self.text@ == self.source@,
            ShaderPhase::Refusing => r.len() == 1 && r[0] == ReplyView::Handle(0),
            ShaderPhase::Sourcing => r.len() == 1 && self.named(),
            ShaderPhase::Compiling => r.len() == 2 && self.named(),
            ShaderPhase::Checking => r.len() == 3 && self.named(),
            ShaderPhase::Measuring => r.len() == 4 && self.named() && self.failed(),
            ShaderPhase::Reading => r.len() == 5 && self.named() && self.failed(),
            ShaderPhase::Discarding => r.len() == 6 && self.named() && self.failed() && r[5] is Log
                && self.log@ == text_of(r[5]->Log_0),
        }
    }

    spec fn named(self) -> bool {
        self.id != 0 && self.replies@[0] == ReplyView::Handle(self.id)
    }

    spec fn failed(self) -> bool {
        self.replies@[3] is Value && self.replies@[3]->Value_0 != status_true()
    }

    /// The stage that the source is compiled for.
    pub closed spec fn kind(self) -> ShaderType {
        self.kind
    }

    /// The source text, in bytes.
    pub closed spec fn source(self) -> Seq<u8> {
        self.source@
    }

    /// What the driver has answered so far.
    pub closed spec fn replies(self) -> Seq<ReplyView> {
        self.replies@
    }

    /// The call whose reply the build waits for.
    pub open spec fn pending(self) -> Option<CallView> {
        compile_next(self.kind(), self.source(), self.replies())
    }

    /// Tells whether `reply` has the shape of an answer to the pending call.
    pub fn accepts(&self, reply: &DriverReply) -> (fits: bool)
        ensures
            fits == (self.pending() matches Some(call) && call.answered_by(reply@)),
    {
        proof {
            use_type_invariant(self);
        }
        match self.phase {
            ShaderPhase::Creating => matches!(reply, DriverReply::Handle(_)),
            ShaderPhase::Checking | ShaderPhase::Measuring => matches!(
                reply,
                DriverReply::Value(_)
            ),
            ShaderPhase::Reading => matches!(reply, DriverReply::Log(_)),
            _ => matches!(reply, DriverReply::Nothing),
        }
    }

    /// Whether `next` is what the compile comes to when the driver answers
    /// the pending call with `reply`. The reply is added to the transcript.
    /// Where the compile has a call to make after it, `next` holds that call,
    /// and the build that waits for its answer; where it has none, `next`
    /// holds the result that the verdict on the transcript asks for.
    pub open spec fn leads_to(self, reply: ReplyView, next: ShaderStep) -> bool {
        let replies = self.replies().push(reply);
        &&& compile_transcript(self.kind(), self.source(), replies)
        &&& match next {
            ShaderStep::Call(build, call) => {
                &&& build.kind() == self.kind()
                &&& build.source() == self.source()
                &&& build.replies() == replies
                &&& build.pending() == Some(call@)
                &&& call@.proper()
            },
            ShaderStep::Done(result) => {
                &&& compile_next(self.kind(), self.source(), replies) is None
                &&& compile_result(result, self.kind(), compile_verdict(replies))
            },
        }
    }

    /// Takes the driver's reply to the pending call and decides what comes
    /// next: the next call of the compile, or its result.
    pub fn step(self, reply: DriverReply) -> (next: ShaderStep)
        requires
            self.pending() matches Some(call) && call.answered_by(reply@),
        ensures
            self.leads_to(reply@, next),
    {
        match self.phase {
            ShaderPhase::Creating | ShaderPhase::Refusing => self.create(reply),
            ShaderPhase::Sourcing | ShaderPhase::Compiling | ShaderPhase::Checking => self.compile(
                reply,
            ),
            ShaderPhase::Measuring | ShaderPhase::Reading | ShaderPhase::Discarding => {
                self.get_info_log(reply)
            },
        }
    }

    /// The creation of the shader object. With its name the source is
    /// handed over; without one the zero handle goes back and the compile
    /// ends, refused.
    fn create(self, reply: DriverReply) -> (next: ShaderStep)
        requires
            self.pending() matches Some(call) && call.answered_by(reply@),
            self.phase is Creating || self.phase is Refusing,
        ensures
            self.leads_to(reply@, next),
    {
        proof {
            use_type_invariant(&self);
            compile_transcript_grows(self.kind, self.source@, self.replies@, reply@);
        }
        let ghost grown = self.replies@.push(reply@);
        let ShaderBuild { kind, text, phase, id: _, log, source, replies: _ } = self;
        let replies = Ghost(grown);
        match (phase, reply) {
            (ShaderPhase::Creating, DriverReply::Handle(shader)) => {
                if shader == 0 {
                    ShaderStep::Call(
                        ShaderBuild {
                            kind,
                            text: Vec::new(),
                            phase: ShaderPhase::Refusing,
                            id: shader,
                            log,
                            source,
                            replies,
                        },
                        DriverCall::DeleteShader { shader },
                    )
                } else {
                    ShaderStep::Call(
                        ShaderBuild {
                            kind,
                            text: Vec::new(),
                            phase: ShaderPhase::Sourcing,
                            id: shader,
                            log,
                            source,
                            replies,
                        },
                        DriverCall::ShaderSource { shader, source: text },
                    )
                }
            },
            (ShaderPhase::Refusing, _) => ShaderStep::Done(Err(BuildError::ResourceAcquisition)),
            _ => unreached(),
        }
    }

    /// The compile proper: the source is set, the shader compiled and its
    /// status read. The compile succeeded where the status is that of
    /// success, and ends there; after any other the log is asked for.
    fn compile(self, reply: DriverReply) -> (next: ShaderStep)
        requires
            self.pending() matches Some(call) && call.answered_by(reply@),
            self.phase is Sourcing || self.phase is Compiling || self.phase is Checking,
        ensures
            self.leads_to(reply@, next),
    {
        proof {
            use_type_invariant(&self);
            compile_transcript_grows(self.kind, self.source@, self.replies@, reply@);
        }
        let ghost grown = self.replies@.push(reply@);
        let ShaderBuild { kind, text, phase, id, log, source, replies: _ } = self;
        let replies = Ghost(grown);
        match (phase, reply) {
            (ShaderPhase::Sourcing, _) => ShaderStep::Call(
                ShaderBuild { kind, text, phase: ShaderPhase::Compiling, id, log, source, replies },
                DriverCall::CompileShader { shader: id },
            ),
            (ShaderPhase::Compiling, _) => ShaderStep::Call(
                ShaderBuild { kind, text, phase: ShaderPhase::Checking, id, log, source, replies },
                DriverCall::GetShaderiv { shader: id, pname: gl_compile_status() },
            ),
            (ShaderPhase::Checking, DriverReply::Value(status)) => {
                if status == gl_true() {
                    ShaderStep::Done(Ok(Shader { id, kind }))
                } else {
                    ShaderStep::Call(
                        ShaderBuild {
                            kind,
                            text,
                            phase: ShaderPhase::Measuring,
                            id,
                            log,
                            source,
                            replies,
                        },
                        DriverCall::GetShaderiv { shader: id, pname: gl_info_log_length() },
                    )
                }
            },
            _ => unreached(),
        }
    }

    /// The reading of the log after a failure: its length is read, then the
    /// log itself into a buffer of that size, and the text is what stands
    /// before the terminator. Then the shader is deleted, and the compile
    /// ends with the text as its error.
    fn get_info_log(self, reply: DriverReply) -> (next: ShaderStep)
        requires
            self.pending() matches Some(call) && call.answered_by(reply@),
            self.phase is Measuring || self.phase is Reading || self.phase is Discarding,
        ensures
            self.leads_to(reply@, next),
    {
        proof {
            use_type_invariant(&self);
            compile_transcript_grows(self.kind, self.source@, self.replies@, reply@);
        }
        let ghost grown = self.replies@.push(reply@);
        let ShaderBuild { kind, text, phase, id, log, source, replies: _ } = self;
        let replies = Ghost(grown);
        match (phase, reply) {
            (ShaderPhase::Measuring, DriverReply::Value(length)) => ShaderStep::Call(
                ShaderBuild { kind, text, phase: ShaderPhase::Reading, id, log, source, replies },
                DriverCall::GetShaderInfoLog { shader: id, capacity: log_capacity(length) },
            ),
            (ShaderPhase::Reading, DriverReply::Log(buffer)) => ShaderStep::Call(
                ShaderBuild {
                    kind,
                    text,
                    phase: ShaderPhase::Discarding,
                    id,
                    log: log_text(buffer),
                    source,
                    replies,
                },
                DriverCall::DeleteShader { shader: id },
            ),
            (ShaderPhase::Discarding, _) => ShaderStep::Done(
                Err(BuildError::Compile { stage: kind, log }),
            ),
            _ => unreached(),
        }
    }
}

} // verus!
