//! The course of a compile: which calls it makes, in which order, and what
//! comes of it, as a function of what the driver answers.

use crate::diagnostic::{capacity_for, text_of, Verdict};
use crate::driver::{compile_status, info_log_length, status_true};
use crate::driver::{CallView, ReplyView};
use crate::ledger::{count_prefixes, count_push, creations, deletions};
use crate::shader::ShaderType;
use vstd::prelude::*;

verus! {

/// The call that a compile of `source` for the stage `kind` makes once the
/// driver has given `replies`, or `None` once the attempt is over.
///
/// A compile creates the shader object. Where the driver refuses, the zero
/// handle goes back to it and the attempt ends. Otherwise the source is
/// handed over and compiled and the status read. On success the attempt
/// ends; on failure the length of the log is read, then the log, and the
/// shader object is deleted.
pub open spec fn compile_next(kind: ShaderType, source: Seq<u8>, replies: Seq<ReplyView>) -> Option<
    CallView,
> {
    let n = replies.len();
    if n == 0 {
        Some(CallView::CreateShader { kind: kind.code() })
    } else {
        let shader = replies[0]->Handle_0;
        if shader == 0 {
            if n == 1 {
                Some(CallView::DeleteShader { shader })
            } else {
                None
            }
        } else if n == 1 {
            Some(CallView::ShaderSource { shader, source })
        } else if n == 2 {
            Some(CallView::CompileShader { shader })
        } else if n == 3 {
            Some(CallView::GetShaderiv { shader, pname: compile_status() })
        } else if replies[3]->Value_0 == status_true() {
            None
        } else if n == 4 {
            Some(CallView::GetShaderiv { shader, pname: info_log_length() })
        } else if n == 5 {
            Some(
                CallView::GetShaderInfoLog { shader, capacity: capacity_for(replies[4]->Value_0) },
            )
        } else if n == 6 {
            Some(CallView::DeleteShader { shader })
        } else {
            None
        }
    }
}

/// Whether `replies` can be what the driver said in the course of a compile:
/// each reply has the shape of an answer to the call made just before it.
pub open spec fn compile_transcript(
    kind: ShaderType,
    source: Seq<u8>,
    replies: Seq<ReplyView>,
) -> bool {
    forall|i: int|
        0 <= i < replies.len() ==> (#[trigger] compile_next(kind, source, replies.take(i))
            matches Some(call) && call.answered_by(replies[i]))
}

/// How a compile ended whose transcript is `replies`: refused where the
/// driver gave no handle, built where it reported the status of success,
/// and rejected with the text of the log otherwise.
pub open spec fn compile_verdict(replies: Seq<ReplyView>) -> Verdict {
    if replies[0]->Handle_0 == 0 {
        Verdict::Refused
    } else if replies[3]->Value_0 == status_true() {
        Verdict::Built { handle: replies[0]->Handle_0 }
    } else {
        Verdict::Rejected { log: text_of(replies[5]->Log_0) }
    }
}

/// A transcript stays one when the reply to the pending call is added.
pub proof fn compile_transcript_grows(
    kind: ShaderType,
    source: Seq<u8>,
    replies: Seq<ReplyView>,
    reply: ReplyView,
)
    requires
        compile_transcript(kind, source, replies),
        compile_next(kind, source, replies) matches Some(call) && call.answered_by(reply),
    ensures
        compile_transcript(kind, source, replies.push(reply)),
{
    let longer = replies.push(reply);
    assert forall|i: int| 0 <= i < longer.len() implies (#[trigger] compile_next(
        kind,
        source,
        longer.take(i),
    ) matches Some(call) && call.answered_by(longer[i])) by {
        if i < replies.len() {
            assert(longer.take(i) =~= replies.take(i));
        } else {
            assert(longer.take(i) =~= replies);
        }
    }
}

/// Every call of a compile can be made as it stands.
pub proof fn compile_calls_are_proper(kind: ShaderType, source: Seq<u8>, replies: Seq<ReplyView>)
    ensures
        compile_next(kind, source, replies) matches Some(call) ==> call.proper(),
{
}

/// A compile is over after seven calls at the latest.
pub proof fn compile_ends(kind: ShaderType, source: Seq<u8>, replies: Seq<ReplyView>)
    requires
        compile_transcript(kind, source, replies),
    ensures
        replies.len() <= 7,
        replies.len() == 7 ==> compile_next(kind, source, replies) is None,
{
    if replies.len() > 7 {
        assert(compile_next(kind, source, replies.take(7)) is Some);
    }
}

/// The calls that the replies of a transcript answer, in the order in which
/// they were made. Once the attempt is over these are all its calls.
pub open spec fn compile_calls(kind: ShaderType, source: Seq<u8>, replies: Seq<ReplyView>) -> Seq<
    CallView,
> {
    Seq::new(replies.len(), |i: int| compile_next(kind, source, replies.take(i)).unwrap())
}

/// A compile runs in one of three ways, and its verdict tells which. Where
/// the driver refuses, the zero handle is handed back and nothing else is
/// asked. Where the driver reports success, the shader is created, given its
/// source, compiled and checked, and stays. Otherwise the log is measured
/// and read after the check, and the shader is deleted.
pub proof fn compile_runs(kind: ShaderType, source: Seq<u8>, replies: Seq<ReplyView>)
    requires
        compile_transcript(kind, source, replies),
        compile_next(kind, source, replies) is None,
    ensures
        match compile_verdict(replies) {
            Verdict::Refused => {
                &&& replies.len() == 2
                &&& compile_calls(kind, source, replies) == seq![
                    CallView::CreateShader { kind: kind.code() },
                    CallView::DeleteShader { shader: 0 },
                ]
            },
            Verdict::Built { handle } => {
                &&& handle != 0
                &&& replies.len() == 4
                &&& compile_calls(kind, source, replies) == seq![
                    CallView::CreateShader { kind: kind.code() },
                    CallView::ShaderSource { shader: handle, source },
                    CallView::CompileShader { shader: handle },
                    CallView::GetShaderiv { shader: handle, pname: compile_status() },
                ]
            },
            Verdict::Rejected { log } => {
                let shader = replies[0]->Handle_0;
                &&& shader != 0
                &&& replies.len() == 7
                &&& replies[5] is Log
                &&& compile_calls(kind, source, replies) == seq![
                    CallView::CreateShader { kind: kind.code() },
                    CallView::ShaderSource { shader, source },
                    CallView::CompileShader { shader },
                    CallView::GetShaderiv { shader, pname: compile_status() },
                    CallView::GetShaderiv { shader, pname: info_log_length() },
                    CallView::GetShaderInfoLog {
                        shader,
                        capacity: capacity_for(replies[4]->Value_0),
                    },
                    CallView::DeleteShader { shader },
                ]
            },
        },
{
    let calls = compile_calls(kind, source, replies);
    assert forall|i: int| 0 <= i < replies.len() implies replies.take(i).len() == i && (i > 0
        ==> replies.take(i)[0] == replies[0]) && (i > 3 ==> replies.take(i)[3] == replies[3]) && (i
        > 4 ==> replies.take(i)[4] == replies[4]) by {}
    assert(compile_next(kind, source, replies.take(0)) is Some);
    match compile_verdict(replies) {
        Verdict::Refused => {
            assert(compile_next(kind, source, replies.take(1)) is Some);
            assert(calls =~= seq![
                CallView::CreateShader { kind: kind.code() },
                CallView::DeleteShader { shader: 0 },
            ]);
        },
        Verdict::Built { handle } => {
            assert(compile_next(kind, source, replies.take(1)) is Some);
            assert(compile_next(kind, source, replies.take(2)) is Some);
            assert(compile_next(kind, source, replies.take(3)) is Some);
            assert(calls =~= seq![
                CallView::CreateShader { kind: kind.code() },
                CallView::ShaderSource { shader: handle, source },
                CallView::CompileShader { shader: handle },
                CallView::GetShaderiv { shader: handle, pname: compile_status() },
            ]);
        },
        Verdict::Rejected { log } => {
            let shader = replies[0]->Handle_0;
            assert(compile_next(kind, source, replies.take(1)) is Some);
            assert(compile_next(kind, source, replies.take(2)) is Some);
            assert(compile_next(kind, source, replies.take(3)) is Some);
            assert(compile_next(kind, source, replies.take(4)) is Some);
            assert(compile_next(kind, source, replies.take(5)) is Some);
            assert(compile_next(kind, source, replies.take(6)) is Some);
            if replies.len() > 7 {
                assert(compile_next(kind, source, replies.take(7)) is Some);
            }
            assert(calls =~= seq![
                CallView::CreateShader { kind: kind.code() },
                CallView::ShaderSource { shader, source },
                CallView::CompileShader { shader },
                CallView::GetShaderiv { shader, pname: compile_status() },
                CallView::GetShaderiv { shader, pname: info_log_length() },
                CallView::GetShaderInfoLog { shader, capacity: capacity_for(replies[4]->Value_0) },
                CallView::DeleteShader { shader },
            ]);
        },
    }
}

/// A compile gives back what it took unless it hands the shader to its
/// caller: among its calls there are as many that create an object as there
/// are that delete one, plus one where a shader was built.
pub proof fn compile_accounts(kind: ShaderType, source: Seq<u8>, replies: Seq<ReplyView>)
    requires
        compile_transcript(kind, source, replies),
        compile_next(kind, source, replies) is None,
    ensures
        creations(compile_calls(kind, source, replies)) == deletions(
            compile_calls(kind, source, replies),
        ) + if compile_verdict(replies) is Built {
            1nat
        } else {
            0nat
        },
{
    compile_runs(kind, source, replies);
    let calls = compile_calls(kind, source, replies);
    count_prefixes(calls, calls.len() as int);
    assert(calls.take(calls.len() as int) =~= calls);
}

/// A shader that was built and later given up has cost the driver nothing:
/// over the calls of its compile and the call of its deletion, as many
/// create an object as delete one.
pub proof fn compile_then_delete_accounts(
    kind: ShaderType,
    source: Seq<u8>,
    replies: Seq<ReplyView>,
)
    requires
        compile_transcript(kind, source, replies),
        compile_next(kind, source, replies) is None,
        compile_verdict(replies) is Built,
    ensures
        ({
            let life = compile_calls(kind, source, replies).push(
                CallView::DeleteShader { shader: compile_verdict(replies)->handle },
            );
            creations(life) == deletions(life)
        }),
{
    compile_accounts(kind, source, replies);
    count_push(
        compile_calls(kind, source, replies),
        CallView::DeleteShader { shader: compile_verdict(replies)->handle },
    );
}

} // verus!
