//! Problem reports: what the mediator answers where it cannot do as asked.

use vstd::prelude::*;
use crate::ident::fresh_message_id;
use crate::ident::is_uuid_v4_text;
use crate::messages::AriesMessage;
use crate::messages::Decorators;
use crate::messages::DecoratorsModel;
use crate::messages::MsgParts;
use crate::messages::ProblemCode;
use crate::messages::ProblemReportContent;

verus! {

/// Whether `reply` is a problem report with `code`, under a fresh id, that
/// names `thread` as its thread where there is one and carries no decorator
/// where there is none.
pub open spec fn reports_problem(
    reply: AriesMessage,
    code: ProblemCode,
    thread: Option<Seq<char>>,
) -> bool {
    reply matches AriesMessage::ReportProblem(report) && {
        &&& is_uuid_v4_text(report.id@)
        &&& report.content.code == code
        &&& report.decorators.deep_view() == match thread {
            Some(thid) => DecoratorsModel::threaded(thid),
            None => DecoratorsModel::bare(),
        }
    }
}

/// The problem report with `code`, in answer to the message with id `thid`
/// where one is given.
pub fn problem_report(code: ProblemCode, thid: Option<&String>) -> (reply: AriesMessage)
    ensures
        reports_problem(reply, code, thid.deep_view()),
{
    let decorators = match thid {
        Some(thid) => Decorators::threaded(thid.clone()),
        None => Decorators::bare(),
    };
    AriesMessage::ReportProblem(
        MsgParts { id: fresh_message_id(), content: ProblemReportContent { code }, decorators },
    )
}

} // verus!
