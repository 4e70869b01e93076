//! The way of one inbound message: from the decoded message and the sender
//! that the envelope named, to the reply that goes back to that sender.

use vstd::prelude::*;
use crate::keys::normalize_recipient_key;
use crate::keys::normalized_key;
use crate::mediation::coordination::answers_coordination;
use crate::mediation::coordination::answers_mediate_request;
use crate::mediation::coordination::handle_coord_authenticated;
use crate::mediation::coordination::handle_mediate_request;
use crate::mediation::pickup::answers_pickup;
use crate::mediation::pickup::handle_pickup_authenticated;
use crate::mediation::report::problem_report;
use crate::mediation::report::reports_problem;
use crate::messages::AriesMessage;
use crate::messages::Forward;
use crate::messages::ProblemCode;
use crate::messages::coordinate_mediation::CoordinateMediation;
use crate::messages::coordinate_mediation::MediateGrantContent;
use crate::messages::coordinate_mediation::MediateGrantContentModel;
use crate::persistence::MediatorPersistence;
use crate::persistence::StoreModel;

verus! {

/// What the mediator tells of itself: the key it signs with, and where and
/// through which keys messages for its clients are to be sent.
pub struct MediatorService {
    pub signing_key: String,
    pub endpoint: String,
    pub routing_keys: Vec<String>,
}

pub struct MediatorServiceModel {
    pub signing_key: Seq<char>,
    pub endpoint: Seq<char>,
    pub routing_keys: Seq<Seq<char>>,
}

impl DeepView for MediatorService {
    type V = MediatorServiceModel;

    open spec fn deep_view(&self) -> MediatorServiceModel {
        MediatorServiceModel {
            signing_key: self.signing_key@,
            endpoint: self.endpoint@,
            routing_keys: self.routing_keys.deep_view(),
        }
    }
}

impl MediatorServiceModel {
    /// What a grant carries.
    pub open spec fn grant_content(self) -> MediateGrantContentModel {
        MediateGrantContentModel { endpoint: self.endpoint, routing_keys: self.routing_keys }
    }
}

/// A copy of a list of strings.
pub fn copy_strings(texts: &Vec<String>) -> (copy: Vec<String>)
    ensures
        copy.deep_view() == texts.deep_view(),
{
    let mut copy: Vec<String> = Vec::new();
    let count: usize = texts.len();
    let mut i: usize = 0;
    while i < count
        invariant
            i <= count,
            count == texts.len(),
            copy.len() == i,
            forall|j: int| 0 <= j < i ==> copy@[j]@ == texts@[j]@,
        decreases count - i,
    {
        copy.push(texts[i].clone());
        i = i + 1;
    }
    assert(copy.deep_view() =~= texts.deep_view());
    copy
}

impl MediatorService {
    /// What a grant carries: the endpoint and the routing keys.
    pub fn grant_content(&self) -> (content: MediateGrantContent)
        ensures
            content.deep_view() == self.deep_view().grant_content(),
    {
        MediateGrantContent {
            endpoint: self.endpoint.clone(),
            routing_keys: copy_strings(&self.routing_keys),
        }
    }
}

/// Whether `reply` answers the forward `forward`, which found the store in
/// state `before` and left it in state `after`.
///
/// Where the payload was taken in there is no reply: somebody holds the
/// recipient key, taken in its normalized form, and the payload has joined
/// the end of the queue under an id that no pending message carried. Else
/// the reply is the report that the store failed, and the store is as before.
/// A reliable store fails only where nobody holds the key.
pub open spec fn answers_forward(
    reply: Option<AriesMessage>,
    forward: Forward,
    before: StoreModel,
    after: StoreModel,
    reliable: bool,
) -> bool {
    &&& reliable && before.binds(normalized_key(forward.content.to@)) ==> reply is None
    &&& match reply {
        None => {
            &&& before.binds(normalized_key(forward.content.to@))
            &&& after.queue.len() > 0
            &&& !before.holds_message(after.queue.last().message_id)
            &&& after == before.with_message(
                normalized_key(forward.content.to@),
                after.queue.last().message_id,
                forward.content.msg@,
            )
        },
        Some(report) => {
            &&& after == before
            &&& reports_problem(report, ProblemCode::PersistenceFailure, Some(forward.id@))
        },
    }
}

/// Takes in a forwarded message for the client that holds its recipient key.
pub fn handle_forward<T: MediatorPersistence>(storage: &mut T, forward: &Forward) -> (reply:
    Option<AriesMessage>)
    requires
        old(storage).wf(),
    ensures
        final(storage).wf(),
        reply is Some ==> final(storage).reliable() == old(storage).reliable(),
        answers_forward(
            reply,
            *forward,
            old(storage).model(),
            final(storage).model(),
            old(storage).reliable(),
        ),
{
    let recipient_key = normalize_recipient_key(forward.content.to.as_str());
    match storage.enqueue_message(recipient_key.as_str(), forward.content.msg.as_slice()) {
        Ok(_) => None,
        Err(_) => Some(problem_report(ProblemCode::PersistenceFailure, Some(&forward.id))),
    }
}

/// Whether `reply` turns away the sender of message `thid`, leaving the store
/// as it was: with the report that the sender has no account, which is so,
/// or, from a store that is not reliable, with the report that it failed.
pub open spec fn turns_away(
    reply: AriesMessage,
    before: StoreModel,
    after: StoreModel,
    sender: Seq<char>,
    thid: Seq<char>,
    reliable: bool,
) -> bool {
    &&& after == before
    &&& {
        ||| !before.knows(sender) && reports_problem(
            reply,
            ProblemCode::UnknownAccount,
            Some(thid),
        )
        ||| !reliable && reports_problem(reply, ProblemCode::PersistenceFailure, Some(thid))
    }
}

/// Whether `reply` is what goes back to `sender` for `message`, which found
/// the store in state `before` and left it in state `after`.
///
/// A forward is taken in from anybody. A request for mediation is answered
/// for anybody, with the sender's DID document and what the mediator tells
/// of itself. Any other coordinate-mediation message and any pickup message
/// is answered for a sender with an account, and turned away otherwise. What
/// is left is answered by a problem report, and the store is left alone.
pub open spec fn answers_inbound(
    reply: Option<AriesMessage>,
    message: AriesMessage,
    before: StoreModel,
    after: StoreModel,
    sender: Seq<char>,
    did_doc: Seq<char>,
    service: MediatorServiceModel,
    reliable: bool,
) -> bool {
    match message {
        AriesMessage::Routing(forward) => answers_forward(
            reply,
            forward,
            before,
            after,
            reliable,
        ),
        AriesMessage::CoordinateMediation(CoordinateMediation::MediateRequest(_)) => {
            reply matches Some(AriesMessage::CoordinateMediation(answer))
                && answers_mediate_request(
                answer,
                before,
                after,
                sender,
                service.signing_key,
                did_doc,
                service.grant_content(),
                reliable,
            )
        },
        AriesMessage::CoordinateMediation(coordination) => {
            reply matches Some(answer) && {
                ||| before.knows(sender) && answers_coordination(
                    answer,
                    coordination,
                    before,
                    after,
                    sender,
                    reliable,
                )
                ||| turns_away(answer, before, after, sender, coordination.id(), reliable)
            }
        },
        AriesMessage::Pickup(pickup) => {
            reply matches Some(answer) && {
                ||| before.knows(sender) && answers_pickup(
                    answer,
                    pickup,
                    before,
                    after,
                    sender,
                    reliable,
                )
                ||| turns_away(answer, before, after, sender, pickup.id(), reliable)
            }
        },
        AriesMessage::ReportProblem(report) => {
            &&& after == before
            &&& reply matches Some(answer) && reports_problem(
                answer,
                ProblemCode::UnsupportedMessage,
                Some(report.id@),
            )
        },
        AriesMessage::Unknown => {
            &&& after == before
            &&& reply matches Some(answer) && reports_problem(
                answer,
                ProblemCode::UnknownMessage,
                None,
            )
        },
    }
}

/// Turns away the sender of message `thid`, given what the store said when
/// asked whether the sender has an account.
pub fn turned_away(
    known: Result<bool, crate::persistence::PersistenceError>,
    thid: &String,
) -> (reply: Option<AriesMessage>)
    ensures
        match known {
            Ok(true) => reply is None,
            Ok(false) => reply matches Some(report) && reports_problem(
                report,
                ProblemCode::UnknownAccount,
                Some(thid@),
            ),
            Err(_) => reply matches Some(report) && reports_problem(
                report,
                ProblemCode::PersistenceFailure,
                Some(thid@),
            ),
        },
{
    match known {
        Ok(true) => None,
        Ok(false) => Some(problem_report(ProblemCode::UnknownAccount, Some(thid))),
        Err(_) => Some(problem_report(ProblemCode::PersistenceFailure, Some(thid))),
    }
}

/// Handles one decoded inbound message from the sender that the envelope
/// named, and gives the message to send back, if any.
pub fn handle_aries<T: MediatorPersistence>(
    storage: &mut T,
    service: &MediatorService,
    sender_verkey: &str,
    sender_did_doc: &str,
    message: AriesMessage,
) -> (reply: Option<AriesMessage>)
    requires
        old(storage).wf(),
    ensures
        final(storage).wf(),
        !(message is Routing) ==> final(storage).reliable() == old(storage).reliable(),
        answers_inbound(
            reply,
            message,
            old(storage).model(),
            final(storage).model(),
            sender_verkey@,
            sender_did_doc@,
            service.deep_view(),
            old(storage).reliable(),
        ),
{
    match message {
        AriesMessage::Routing(forward) => handle_forward(storage, &forward),
        AriesMessage::CoordinateMediation(CoordinateMediation::MediateRequest(_)) => Some(
            AriesMessage::CoordinateMediation(
                handle_mediate_request(
                    storage,
                    sender_verkey,
                    sender_did_doc,
                    service.signing_key.as_str(),
                    service.grant_content(),
                ),
            ),
        ),
        AriesMessage::CoordinateMediation(coordination) => {
            let known = storage.account_exists(sender_verkey);
            match turned_away(known, coordination.message_id()) {
                Some(report) => Some(report),
                None => Some(handle_coord_authenticated(storage, coordination, sender_verkey)),
            }
        },
        AriesMessage::Pickup(pickup) => {
            let known = storage.account_exists(sender_verkey);
            match turned_away(known, pickup.message_id()) {
                Some(report) => Some(report),
                None => Some(handle_pickup_authenticated(storage, pickup, sender_verkey)),
            }
        },
        AriesMessage::ReportProblem(report) => Some(
            problem_report(ProblemCode::UnsupportedMessage, Some(&report.id)),
        ),
        AriesMessage::Unknown => Some(problem_report(ProblemCode::UnknownMessage, None)),
    }
}

} // verus!
