//! The DIDComm messages that the mediator reads and writes, as plain data.
//!
//! Every type has a mathematical model, reached with `deep_view()`, in which
//! strings are sequences of characters and vectors are sequences. Contracts
//! elsewhere in the crate speak of these models.

use vstd::prelude::*;
use crate::messages::coordinate_mediation::CoordinateMediation;
use crate::messages::coordinate_mediation::CoordinateMediationModel;
use crate::messages::pickup::Pickup;
use crate::messages::pickup::PickupModel;

pub mod coordinate_mediation;
pub mod pickup;

verus! {

/// The `~thread` decorator. Only the thread id is carried.
pub struct Thread {
    pub thid: String,
}

pub struct ThreadModel {
    pub thid: Seq<char>,
}

impl DeepView for Thread {
    type V = ThreadModel;

    open spec fn deep_view(&self) -> ThreadModel {
        ThreadModel { thid: self.thid@ }
    }
}

/// The value of `return_route` in the `~transport` decorator.
#[derive(Clone, Copy, Debug)]
pub enum ReturnRoute {
    Off,
    All,
    Thread,
}

impl DeepView for ReturnRoute {
    type V = ReturnRoute;

    open spec fn deep_view(&self) -> ReturnRoute {
        *self
    }
}

/// The `~transport` decorator.
pub struct Transport {
    pub return_route: ReturnRoute,
}

impl DeepView for Transport {
    type V = Transport;

    open spec fn deep_view(&self) -> Transport {
        *self
    }
}

/// The decorators a message may carry.
pub struct Decorators {
    pub thread: Option<Thread>,
    pub transport: Option<Transport>,
}

pub struct DecoratorsModel {
    pub thread: Option<ThreadModel>,
    pub transport: Option<Transport>,
}

impl DeepView for Decorators {
    type V = DecoratorsModel;

    open spec fn deep_view(&self) -> DecoratorsModel {
        DecoratorsModel {
            thread: self.thread.deep_view(),
            transport: self.transport.deep_view(),
        }
    }
}

impl DecoratorsModel {
    /// No decorator at all.
    pub open spec fn bare() -> DecoratorsModel {
        DecoratorsModel { thread: None, transport: None }
    }

    /// The thread decorator alone, naming `thid`.
    pub open spec fn threaded(thid: Seq<char>) -> DecoratorsModel {
        DecoratorsModel { thread: Some(ThreadModel { thid }), transport: None }
    }

    /// The thread decorator naming `thid`, and return-route `all`.
    pub open spec fn threaded_return_all(thid: Seq<char>) -> DecoratorsModel {
        DecoratorsModel {
            thread: Some(ThreadModel { thid }),
            transport: Some(Transport { return_route: ReturnRoute::All }),
        }
    }
}

impl Decorators {
    pub fn bare() -> (d: Decorators)
        ensures
            d.deep_view() == DecoratorsModel::bare(),
    {
        Decorators { thread: None, transport: None }
    }

    pub fn threaded(thid: String) -> (d: Decorators)
        ensures
            d.deep_view() == DecoratorsModel::threaded(thid@),
    {
        Decorators { thread: Some(Thread { thid }), transport: None }
    }

    pub fn threaded_return_all(thid: String) -> (d: Decorators)
        ensures
            d.deep_view() == DecoratorsModel::threaded_return_all(thid@),
    {
        Decorators {
            thread: Some(Thread { thid }),
            transport: Some(Transport { return_route: ReturnRoute::All }),
        }
    }
}

/// A message: its `@id`, the content of its family, and its decorators.
pub struct MsgParts<C> {
    pub id: String,
    pub content: C,
    pub decorators: Decorators,
}

pub struct MsgPartsModel<C> {
    pub id: Seq<char>,
    pub content: C,
    pub decorators: DecoratorsModel,
}

impl<C: DeepView> DeepView for MsgParts<C> {
    type V = MsgPartsModel<C::V>;

    open spec fn deep_view(&self) -> MsgPartsModel<C::V> {
        MsgPartsModel {
            id: self.id@,
            content: self.content.deep_view(),
            decorators: self.decorators.deep_view(),
        }
    }
}

/// A message for another agent, to be kept until its recipient asks for it.
pub struct ForwardContent {
    /// The recipient key the payload is addressed to.
    pub to: String,
    /// The payload, opaque to the mediator.
    pub msg: Vec<u8>,
}

pub struct ForwardContentModel {
    pub to: Seq<char>,
    pub msg: Seq<u8>,
}

impl DeepView for ForwardContent {
    type V = ForwardContentModel;

    open spec fn deep_view(&self) -> ForwardContentModel {
        ForwardContentModel { to: self.to@, msg: self.msg@ }
    }
}

pub type Forward = MsgParts<ForwardContent>;

/// Why the mediator answers with a problem report.
#[derive(Clone, Copy, Debug)]
pub enum ProblemCode {
    /// The sender has no account and did not ask for one.
    UnknownAccount,
    /// The message is of a kind the mediator does not know.
    UnknownMessage,
    /// The message is known, but the mediator does not act on it.
    UnsupportedMessage,
    /// The store failed where the reply has no place to say so.
    PersistenceFailure,
}

pub struct ProblemReportContent {
    pub code: ProblemCode,
}

impl DeepView for ProblemReportContent {
    type V = ProblemReportContent;

    open spec fn deep_view(&self) -> ProblemReportContent {
        *self
    }
}

pub type ProblemReport = MsgParts<ProblemReportContent>;

/// A decoded message, by family.
pub enum AriesMessage {
    Routing(Forward),
    CoordinateMediation(CoordinateMediation),
    Pickup(Pickup),
    ReportProblem(ProblemReport),
    /// A message of a family the mediator does not speak.
    Unknown,
}

pub enum AriesMessageModel {
    Routing(MsgPartsModel<ForwardContentModel>),
    CoordinateMediation(CoordinateMediationModel),
    Pickup(PickupModel),
    ReportProblem(MsgPartsModel<ProblemReportContent>),
    Unknown,
}

impl DeepView for AriesMessage {
    type V = AriesMessageModel;

    open spec fn deep_view(&self) -> AriesMessageModel {
        match self {
            AriesMessage::Routing(m) => AriesMessageModel::Routing(m.deep_view()),
            AriesMessage::CoordinateMediation(m) => AriesMessageModel::CoordinateMediation(
                m.deep_view(),
            ),
            AriesMessage::Pickup(m) => AriesMessageModel::Pickup(m.deep_view()),
            AriesMessage::ReportProblem(m) => AriesMessageModel::ReportProblem(m.deep_view()),
            AriesMessage::Unknown => AriesMessageModel::Unknown,
        }
    }
}

impl AriesMessage {
    /// The thread that the message names, if it names one.
    pub open spec fn thread(&self) -> Option<Seq<char>> {
        let decorators = match self {
            AriesMessage::Routing(m) => m.decorators.deep_view(),
            AriesMessage::CoordinateMediation(m) => m.decorators(),
            AriesMessage::Pickup(m) => m.decorators(),
            AriesMessage::ReportProblem(m) => m.decorators.deep_view(),
            AriesMessage::Unknown => DecoratorsModel::bare(),
        };
        match decorators.thread {
            Some(thread) => Some(thread.thid),
            None => None,
        }
    }
}

} // verus!
