//! The course of a link: which calls it makes, in which order, and what
//! comes of it, as a function of what the driver answers.

use crate::diagnostic::{capacity_for, text_of, Verdict};
use crate::driver::{info_log_length, link_status, status_true};
use crate::driver::{CallView, ReplyView};
use crate::ledger::{count_concat, count_push, count_uniform, creations, deletions};
use vstd::prelude::*;

verus! {

/// The call that a link of the shaders `units` makes once the driver has
/// given `replies`, or `None` once the attempt is over.
///
/// A link creates the program object. Where the driver refuses, the zero
/// handle goes back to it and the attempt ends. Otherwise every shader is
/// attached in turn, the program is linked and the status read. On success
/// the shaders are deleted in turn, for a linked program has no more use for
/// them, and the attempt ends. On failure the length of the log is read,
/// then the log, and the program object is deleted; the shaders are not
/// touched, and stay with whoever gave them.
pub open spec fn link_next(units: Seq<u32>, replies: Seq<ReplyView>) -> Option<CallView> {
    let n = units.len() as int;
    let k = replies.len() as int;
    if k == 0 {
        Some(CallView::CreateProgram)
    } else {
        let program = replies[0]->Handle_0;
        if program == 0 {
            if k == 1 {
                Some(CallView::DeleteProgram { program })
            } else {
                None
            }
        } else if k <= n {
            Some(CallView::AttachShader { program, shader: units[k - 1] })
        } else if k == n + 1 {
            Some(CallView::LinkProgram { program })
        } else if k == n + 2 {
            Some(CallView::GetProgramiv { program, pname: link_status() })
        } else if replies[n + 2]->Value_0 == status_true() {
            if k < 2 * n + 3 {
                Some(CallView::DeleteShader { shader: units[k - n - 3] })
            } else {
                None
            }
        } else if k == n + 3 {
            Some(CallView::GetProgramiv { program, pname: info_log_length() })
        } else if k == n + 4 {
            Some(
                CallView::GetProgramInfoLog {
                    program,
                    capacity: capacity_for(replies[n + 3]->Value_0),
                },
            )
        } else if k == n + 5 {
            Some(CallView::DeleteProgram { program })
        } else {
            None
        }
    }
}

/// Whether `replies` can be what the driver said in the course of a link of
/// `units`: there is a shader to link, and each reply has the shape of an
/// answer to the call made just before it.
pub open spec fn link_transcript(units: Seq<u32>, replies: Seq<ReplyView>) -> bool {
    &&& units.len() >= 1
    &&& forall|i: int|
        0 <= i < replies.len() ==> (#[trigger] link_next(units, replies.take(i)) matches Some(call)
            && call.answered_by(replies[i]))
}

/// How a link of `units` ended whose transcript is `replies`: refused where
/// the driver gave no handle, built where it reported the status of success,
/// and rejected with the text of the log otherwise.
pub open spec fn link_verdict(units: Seq<u32>, replies: Seq<ReplyView>) -> Verdict {
    let n = units.len() as int;
    if replies[0]->Handle_0 == 0 {
        Verdict::Refused
    } else if replies[n + 2]->Value_0 == status_true() {
        Verdict::Built { handle: replies[0]->Handle_0 }
    } else {
        Verdict::Rejected { log: text_of(replies[n + 4]->Log_0) }
    }
}

/// A transcript stays one when the reply to the pending call is added.
pub proof fn link_transcript_grows(units: Seq<u32>, replies: Seq<ReplyView>, reply: ReplyView)
    requires
        link_transcript(units, replies),
        link_next(units, replies) matches Some(call) && call.answered_by(reply),
    ensures
        link_transcript(units, replies.push(reply)),
{
    let longer = replies.push(reply);
    assert forall|i: int| 0 <= i < longer.len() implies (#[trigger] link_next(
        units,
        longer.take(i),
    ) matches Some(call) && call.answered_by(longer[i])) by {
        if i < replies.len() {
            assert(longer.take(i) =~= replies.take(i));
        } else {
            assert(longer.take(i) =~= replies);
        }
    }
}

/// Every call of a link can be made as it stands.
pub proof fn link_calls_are_proper(units: Seq<u32>, replies: Seq<ReplyView>)
    ensures
        link_next(units, replies) matches Some(call) ==> call.proper(),
{
}

/// A link of so many shaders is over after twice as many calls and three
/// more where it succeeds, and after as many calls and six more at the
/// latest where it does not.
pub proof fn link_ends(units: Seq<u32>, replies: Seq<ReplyView>)
    requires
        link_transcript(units, replies),
    ensures
        replies.len() <= 2 * units.len() + 3 || replies.len() <= units.len() + 6,
        replies.len() <= 2 * units.len() + 5,
{
    let n = units.len() as int;
    let k = replies.len() as int;
    assert forall|i: int| 0 <= i <= k implies (#[trigger] replies.take(i)).len() == i && (i > 0
        ==> replies.take(i)[0] == replies[0]) && (i > n + 2 ==> replies.take(i)[n + 2]
        == replies[n + 2]) by {}
    if k > 2 * n + 3 {
        assert(link_next(units, replies.take(2 * n + 3)) is Some);
    }
    if k > n + 6 {
        assert(link_next(units, replies.take(n + 6)) is Some);
    }
}

/// The calls that attach each of `units` to `program`, in their order.
pub open spec fn attachments(program: u32, units: Seq<u32>) -> Seq<CallView> {
    Seq::new(units.len(), |i: int| CallView::AttachShader { program, shader: units[i] })
}

/// The calls that delete each of `units`, in their order.
pub open spec fn releases(units: Seq<u32>) -> Seq<CallView> {
    Seq::new(units.len(), |i: int| CallView::DeleteShader { shader: units[i] })
}

/// The calls that the replies of a transcript answer, in the order in which
/// they were made. Once the attempt is over these are all its calls.
pub open spec fn link_calls(units: Seq<u32>, replies: Seq<ReplyView>) -> Seq<CallView> {
    Seq::new(replies.len(), |i: int| link_next(units, replies.take(i)).unwrap())
}

/// A link runs in one of three ways, and its verdict tells which. Where the
/// driver refuses, the zero handle is handed back and nothing else is asked.
/// Where it reports success, the program is created, the shaders are
/// attached, the program is linked and checked, and then every shader is
/// deleted, once and in order; the program stays. Otherwise the log is
/// measured and read after the check and the program is deleted, and no
/// shader is.
pub proof fn link_runs(units: Seq<u32>, replies: Seq<ReplyView>)
    requires
        link_transcript(units, replies),
        link_next(units, replies) is None,
    ensures
        match link_verdict(units, replies) {
            Verdict::Refused => {
                &&& replies.len() == 2
                &&& link_calls(units, replies) == seq![
                    CallView::CreateProgram,
                    CallView::DeleteProgram { program: 0 },
                ]
            },
            Verdict::Built { handle } => {
                &&& handle != 0
                &&& replies.len() == 2 * units.len() + 3
                &&& link_calls(units, replies) == seq![CallView::CreateProgram] + attachments(
                    handle,
                    units,
                ) + seq![
                    CallView::LinkProgram { program: handle },
                    CallView::GetProgramiv { program: handle, pname: link_status() },
                ] + releases(units)
            },
            Verdict::Rejected { log } => {
                let program = replies[0]->Handle_0;
                let n = units.len() as int;
                &&& program != 0
                &&& replies.len() == n + 6
                &&& replies[n + 4] is Log
                &&& link_calls(units, replies) == seq![CallView::CreateProgram] + attachments(
                    program,
                    units,
                ) + seq![
                    CallView::LinkProgram { program },
                    CallView::GetProgramiv { program, pname: link_status() },
                    CallView::GetProgramiv { program, pname: info_log_length() },
                    CallView::GetProgramInfoLog {
                        program,
                        capacity: capacity_for(replies[n + 3]->Value_0),
                    },
                    CallView::DeleteProgram { program },
                ]
            },
        },
{
    let calls = link_calls(units, replies);
    let n = units.len() as int;
    let k = replies.len() as int;
    let program = replies[0]->Handle_0;
    assert forall|i: int| 0 <= i <= k implies (#[trigger] replies.take(i)).len() == i && (i > 0
        ==> replies.take(i)[0] == replies[0]) && (i > n + 2 ==> replies.take(i)[n + 2]
        == replies[n + 2]) && (i > n + 3 ==> replies.take(i)[n + 3] == replies[n + 3]) by {}
    assert(link_next(units, replies.take(0)) is Some);
    match link_verdict(units, replies) {
        Verdict::Refused => {
            if k > 2 {
                assert(link_next(units, replies.take(2)) is Some);
            }
            assert(calls =~= seq![
                CallView::CreateProgram,
                CallView::DeleteProgram { program: 0 },
            ]);
        },
        Verdict::Built { handle } => {
            if k > 2 * n + 3 {
                assert(link_next(units, replies.take(2 * n + 3)) is Some);
            }
            assert(calls =~= seq![CallView::CreateProgram] + attachments(handle, units) + seq![
                CallView::LinkProgram { program: handle },
                CallView::GetProgramiv { program: handle, pname: link_status() },
            ] + releases(units));
        },
        Verdict::Rejected { log } => {
            if k > n + 6 {
                assert(link_next(units, replies.take(n + 6)) is Some);
            }
            assert(link_next(units, replies.take(n + 4)) is Some);
            assert(calls =~= seq![CallView::CreateProgram] + attachments(program, units) + seq![
                CallView::LinkProgram { program },
                CallView::GetProgramiv { program, pname: link_status() },
                CallView::GetProgramiv { program, pname: info_log_length() },
                CallView::GetProgramInfoLog {
                    program,
                    capacity: capacity_for(replies[n + 3]->Value_0),
                },
                CallView::DeleteProgram { program },
            ]);
        },
    }
}

/// A link that builds a program deletes the shaders that went into it and
/// hands the program to its caller; a link that builds none deletes the
/// program object it created and no shader. So among the calls of a link
/// that built a program, those that create an object and the shaders are
/// together as many as those that delete an object and one more; among the
/// calls of any other, as many create an object as delete one.
pub proof fn link_accounts(units: Seq<u32>, replies: Seq<ReplyView>)
    requires
        link_transcript(units, replies),
        link_next(units, replies) is None,
    ensures
        link_verdict(units, replies) is Built ==> creations(link_calls(units, replies))
            + units.len() == deletions(link_calls(units, replies)) + 1,
        !(link_verdict(units, replies) is Built) ==> creations(link_calls(units, replies))
            == deletions(link_calls(units, replies)),
        !(link_verdict(units, replies) is Built) ==> forall|i: int|
            0 <= i < replies.len() ==> !(#[trigger] link_calls(units, replies)[i] is DeleteShader),
{
    link_runs(units, replies);
    let n = units.len() as int;
    let program = replies[0]->Handle_0;
    let create = seq![CallView::CreateProgram];
    let attach = attachments(program, units);
    let release = releases(units);
    count_uniform(attach);
    count_uniform(release);
    count_push(Seq::empty(), CallView::CreateProgram);
    assert(create =~= Seq::empty().push(CallView::CreateProgram));
    match link_verdict(units, replies) {
        Verdict::Refused => {
            let head = seq![CallView::CreateProgram, CallView::DeleteProgram { program: 0 }];
            count_push(create, CallView::DeleteProgram { program: 0 });
            assert(head =~= create.push(CallView::DeleteProgram { program: 0 }));
        },
        Verdict::Built { handle } => {
            let check = seq![
                CallView::LinkProgram { program },
                CallView::GetProgramiv { program, pname: link_status() },
            ];
            count_uniform(check);
            count_concat(create, attach);
            count_concat(create + attach, check);
            count_concat(create + attach + check, release);
        },
        Verdict::Rejected { log } => {
            let fail = seq![
                CallView::LinkProgram { program },
                CallView::GetProgramiv { program, pname: link_status() },
                CallView::GetProgramiv { program, pname: info_log_length() },
                CallView::GetProgramInfoLog {
                    program,
                    capacity: capacity_for(replies[n + 3]->Value_0),
                },
            ];
            count_uniform(fail);
            count_push(fail, CallView::DeleteProgram { program });
            let tail = fail.push(CallView::DeleteProgram { program });
            assert(tail =~= seq![
                CallView::LinkProgram { program },
                CallView::GetProgramiv { program, pname: link_status() },
                CallView::GetProgramiv { program, pname: info_log_length() },
                CallView::GetProgramInfoLog {
                    program,
                    capacity: capacity_for(replies[n + 3]->Value_0),
                },
                CallView::DeleteProgram { program },
            ]);
            count_concat(create, attach);
            count_concat(create + attach, tail);
        },
    }
}

/// A program that was built and later given up has cost the driver nothing,
/// and the shaders that went into it are gone with it: over the calls of its
/// link and the call of its deletion, those that delete an object are as
/// many as those that create one and the shaders together.
pub proof fn link_then_delete_accounts(units: Seq<u32>, replies: Seq<ReplyView>)
    requires
        link_transcript(units, replies),
        link_next(units, replies) is None,
        link_verdict(units, replies) is Built,
    ensures
        ({
            let life = link_calls(units, replies).push(
                CallView::DeleteProgram { program: link_verdict(units, replies)->handle },
            );
            creations(life) + units.len() == deletions(life)
        }),
{
    link_accounts(units, replies);
    count_push(
        link_calls(units, replies),
        CallView::DeleteProgram { program: link_verdict(units, replies)->handle },
    );
}

/// After a link that built no program the shaders are still their owner's
/// to give up, and once each is, nothing is left with the driver: over the
/// calls of the link and the deletion of every shader, those that delete an
/// object are as many as those that create one and the shaders together.
pub proof fn link_then_release_accounts(units: Seq<u32>, replies: Seq<ReplyView>)
    requires
        link_transcript(units, replies),
        link_next(units, replies) is None,
        !(link_verdict(units, replies) is Built),
    ensures
        ({
            let life = link_calls(units, replies) + releases(units);
            creations(life) + units.len() == deletions(life)
        }),
{
    link_accounts(units, replies);
    count_uniform(releases(units));
    count_concat(link_calls(units, replies), releases(units));
}

} // verus!
