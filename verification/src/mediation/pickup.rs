//! The pickup protocol: how many messages wait, and their delivery.

use vstd::prelude::*;
use crate::encoding::base64url_encode;
use crate::encoding::base64url_text;
use crate::ident::fresh_message_id;
use crate::ident::is_uuid_v4_text;
use crate::keys::normalize_recipient_key;
use crate::keys::normalized_key;
use crate::mediation::report::problem_report;
use crate::mediation::report::reports_problem;
use crate::messages::AriesMessage;
use crate::messages::Decorators;
use crate::messages::DecoratorsModel;
use crate::messages::MsgParts;
use crate::messages::ProblemCode;
use crate::messages::pickup::Attachment;
use crate::messages::pickup::AttachmentData;
use crate::messages::pickup::AttachmentDataModel;
use crate::messages::pickup::AttachmentModel;
use crate::messages::pickup::AttachmentType;
use crate::messages::pickup::AttachmentTypeModel;
use crate::messages::pickup::DeliveryContent;
use crate::messages::pickup::DeliveryRequest;
use crate::messages::pickup::MessagesReceived;
use crate::messages::pickup::Pickup;
use crate::messages::pickup::StatusContent;
use crate::messages::pickup::StatusRequest;
use crate::persistence::MediatorPersistence;
use crate::persistence::StoreModel;
use crate::persistence::handed_out;
use crate::persistence::retrieved;

verus! {

/// The recipient key of a request as the store is asked for it.
pub open spec fn normalized_filter(recipient_key: Option<Seq<char>>) -> Option<Seq<char>> {
    match recipient_key {
        Some(key) => Some(normalized_key(key)),
        None => None,
    }
}

/// Whether `reply` is the problem report that tells the sender of message
/// `thid` that the store failed.
pub open spec fn reports_failure(reply: AriesMessage, thid: Seq<char>) -> bool {
    reports_problem(reply, ProblemCode::PersistenceFailure, Some(thid))
}

/// Whether `reply` is the status that answers message `thid`: it counts the
/// pending messages of `auth` in `store`, those of one key where
/// `recipient_key` names it, repeats that key as it came, names `thid` as its
/// thread and asks for return-route `all`.
pub open spec fn reports_status(
    reply: AriesMessage,
    store: StoreModel,
    auth: Seq<char>,
    recipient_key: Option<Seq<char>>,
    thid: Seq<char>,
) -> bool {
    reply matches AriesMessage::Pickup(Pickup::Status(status)) && {
        &&& is_uuid_v4_text(status.id@)
        &&& status.content.message_count == store.pending(
            auth,
            normalized_filter(recipient_key),
        ).len()
        &&& status.content.recipient_key.deep_view() == recipient_key
        &&& status.decorators.deep_view() == DecoratorsModel::threaded_return_all(thid)
    }
}

/// Whether `reply` answers a request for the status of account `auth`, met
/// with the store in state `store`: it is that status, or, from a store that
/// is not reliable, the report that the store failed.
pub open spec fn answers_status_request(
    reply: AriesMessage,
    store: StoreModel,
    auth: Seq<char>,
    recipient_key: Option<Seq<char>>,
    thid: Seq<char>,
    reliable: bool,
) -> bool {
    ||| reports_status(reply, store, auth, recipient_key, thid)
    ||| !reliable && reports_failure(reply, thid)
}

/// The attachments that carry `messages`: each under its message id, its
/// payload as base64url text, in the same order.
pub open spec fn attachments_of(messages: Seq<(Seq<char>, Seq<u8>)>) -> Seq<AttachmentModel> {
    messages.map_values(
        |message: (Seq<char>, Seq<u8>)|
            AttachmentModel {
                id: Some(message.0),
                data: AttachmentDataModel {
                    content: AttachmentTypeModel::Base64(base64url_text(message.1)),
                },
            },
    )
}

/// Whether `reply` is the delivery that answers message `thid` with
/// `messages`, repeating the recipient key as it came.
pub open spec fn delivers(
    reply: AriesMessage,
    messages: Seq<(Seq<char>, Seq<u8>)>,
    recipient_key: Option<Seq<char>>,
    thid: Seq<char>,
) -> bool {
    reply matches AriesMessage::Pickup(Pickup::Delivery(delivery)) && {
        &&& is_uuid_v4_text(delivery.id@)
        &&& delivery.content.attach.deep_view() == attachments_of(messages)
        &&& delivery.content.recipient_key.deep_view() == recipient_key
        &&& delivery.decorators.deep_view() == DecoratorsModel::threaded_return_all(thid)
    }
}

/// The recipient key of a request, normalized, as the store is to be asked.
pub fn store_filter(recipient_key: &Option<String>) -> (filter: Option<String>)
    ensures
        filter.deep_view() == normalized_filter(recipient_key.deep_view()),
{
    match recipient_key {
        Some(key) => Some(normalize_recipient_key(key.as_str())),
        None => None,
    }
}

/// Lends out the text of an optional string.
pub fn lend(text: &Option<String>) -> (lent: Option<&str>)
    ensures
        lent.deep_view() == text.deep_view(),
{
    match text {
        Some(owned) => Some(owned.as_str()),
        None => None,
    }
}

/// A copy of an optional string.
pub fn copy_of(text: &Option<String>) -> (copy: Option<String>)
    ensures
        copy.deep_view() == text.deep_view(),
{
    match text {
        Some(owned) => Some(owned.clone()),
        None => None,
    }
}

/// The problem report that tells the sender of message `thid` that the store
/// failed.
pub fn failure_report(thid: &String) -> (reply: AriesMessage)
    ensures
        reports_failure(reply, thid@),
{
    problem_report(ProblemCode::PersistenceFailure, Some(thid))
}

/// The status that tells of `message_count` waiting messages in answer to
/// message `thid`, repeating `recipient_key`.
pub fn status_message(
    message_count: u64,
    recipient_key: Option<String>,
    thid: &String,
    id: String,
) -> (reply: AriesMessage)
    ensures
        reply matches AriesMessage::Pickup(Pickup::Status(status)) && {
            &&& status.id == id
            &&& status.content.message_count == message_count
            &&& status.content.recipient_key == recipient_key
            &&& status.decorators.deep_view() == DecoratorsModel::threaded_return_all(thid@)
        },
{
    AriesMessage::Pickup(
        Pickup::Status(
            MsgParts {
                id,
                content: StatusContent { recipient_key, message_count },
                decorators: Decorators::threaded_return_all(thid.clone()),
            },
        ),
    )
}

/// Tells account `auth_pubkey` how many messages wait for it, in answer to
/// message `thid`; how many wait for one recipient key where `recipient_key`
/// names it. Where the store fails, the reply is a problem report.
pub fn report_status<T: MediatorPersistence>(
    storage: &T,
    auth_pubkey: &str,
    recipient_key: &Option<String>,
    thid: &String,
) -> (reply: AriesMessage)
    requires
        storage.wf(),
    ensures
        answers_status_request(
            reply,
            storage.model(),
            auth_pubkey@,
            recipient_key.deep_view(),
            thid@,
            storage.reliable(),
        ),
{
    let filter = store_filter(recipient_key);
    match storage.retrieve_pending_message_count(auth_pubkey, lend(&filter)) {
        Ok(message_count) => status_message(
            message_count,
            copy_of(recipient_key),
            thid,
            fresh_message_id(),
        ),
        Err(_) => failure_report(thid),
    }
}

/// Answers a status request.
pub fn handle_pickup_status_req<T: MediatorPersistence>(
    status_request: &StatusRequest,
    storage: &T,
    auth_pubkey: &str,
) -> (reply: AriesMessage)
    requires
        storage.wf(),
    ensures
        answers_status_request(
            reply,
            storage.model(),
            auth_pubkey@,
            status_request.content.recipient_key.deep_view(),
            status_request.id@,
            storage.reliable(),
        ),
{
    report_status(storage, auth_pubkey, &status_request.content.recipient_key, &status_request.id)
}

/// The status of all that waits for the account, whatever the recipient key,
/// in answer to message `thid`.
pub fn handle_pickup_default_status<T: MediatorPersistence>(
    storage: &T,
    auth_pubkey: &str,
    thid: &String,
) -> (reply: AriesMessage)
    requires
        storage.wf(),
    ensures
        answers_status_request(reply, storage.model(), auth_pubkey@, None, thid@, storage.reliable()),
{
    report_status(storage, auth_pubkey, &None, thid)
}

/// The attachment that carries, under `message_id`, a payload that is encoded
/// as base64url text already.
pub fn attachment(message_id: String, encoded: String) -> (attachment: Attachment)
    ensures
        attachment.deep_view() == (AttachmentModel {
            id: Some(message_id@),
            data: AttachmentDataModel { content: AttachmentTypeModel::Base64(encoded@) },
        }),
{
    Attachment {
        id: Some(message_id),
        data: AttachmentData { content: AttachmentType::Base64(encoded) },
    }
}

/// Attaches each message under its id, its payload as base64url text.
pub fn attachments(messages: &Vec<(String, Vec<u8>)>) -> (attach: Vec<Attachment>)
    ensures
        attach.deep_view() == attachments_of(retrieved(messages@)),
{
    let mut attach: Vec<Attachment> = Vec::new();
    let count: usize = messages.len();
    let mut i: usize = 0;
    while i < count
        invariant
            i <= count,
            count == messages.len(),
            attach.len() == i,
            forall|j: int|
                0 <= j < i ==> (#[trigger] attach@[j]).deep_view() == attachments_of(
                    retrieved(messages@),
                )[j],
        decreases count - i,
    {
        let text = base64url_encode(messages[i].1.as_slice());
        attach.push(attachment(messages[i].0.clone(), text));
        i = i + 1;
    }
    assert(attach.deep_view() =~= attachments_of(retrieved(messages@)));
    attach
}

/// Answers a delivery request.
///
/// The store is asked for the oldest pending messages of the account, at most
/// `limit` of them, of one recipient key where the request names it. Where
/// there are some, the reply is the delivery that attaches them, oldest first.
/// Where there are none, the reply is the status of all that waits for the
/// account. Nothing is removed.
pub fn handle_pickup_delivery_req<T: MediatorPersistence>(
    delivery_request: &DeliveryRequest,
    storage: &T,
    auth_pubkey: &str,
) -> (reply: AriesMessage)
    requires
        storage.wf(),
    ensures
        answers_delivery_request(
            reply,
            *delivery_request,
            storage.model(),
            auth_pubkey@,
            storage.reliable(),
        ),
{
    let filter = store_filter(&delivery_request.content.recipient_key);
    match storage.retrieve_pending_messages(
        auth_pubkey,
        Some(delivery_request.content.limit),
        lend(&filter),
    ) {
        Ok(messages) => {
            if messages.len() > 0 {
                AriesMessage::Pickup(
                    Pickup::Delivery(
                        MsgParts {
                            id: fresh_message_id(),
                            content: DeliveryContent {
                                recipient_key: copy_of(&delivery_request.content.recipient_key),
                                attach: attachments(&messages),
                            },
                            decorators: Decorators::threaded_return_all(
                                delivery_request.id.clone(),
                            ),
                        },
                    ),
                )
            } else {
                handle_pickup_default_status(storage, auth_pubkey, &delivery_request.id)
            }
        },
        Err(_) => failure_report(&delivery_request.id),
    }
}

/// Whether `reply` answers the delivery request `request` of account `auth`,
/// met with the store in state `store`. Where messages are due, it is the
/// delivery of the oldest of them, at most as many as the request's limit;
/// where none is due, it is the status of all that waits for the account.
/// From a store that is not reliable it may be the report that the store
/// failed instead.
pub open spec fn answers_delivery_request(
    reply: AriesMessage,
    request: DeliveryRequest,
    store: StoreModel,
    auth: Seq<char>,
    reliable: bool,
) -> bool {
    let due = handed_out(
        store.pending(auth, normalized_filter(request.content.recipient_key.deep_view())),
        Some(request.content.limit),
    );
    ||| due.len() > 0 && delivers(
        reply,
        due,
        request.content.recipient_key.deep_view(),
        request.id@,
    )
    ||| due.len() == 0 && reports_status(reply, store, auth, None, request.id@)
    ||| !reliable && reports_failure(reply, request.id@)
}

/// Answers an acknowledgement of received messages.
///
/// The store is asked to remove the pending messages of the account that the
/// acknowledgement lists. The reply is the status of all that waits for the
/// account afterwards, or a problem report where the store fails.
pub fn handle_pickup_messages_received<T: MediatorPersistence>(
    messages_received: &MessagesReceived,
    storage: &mut T,
    auth_pubkey: &str,
) -> (reply: AriesMessage)
    requires
        old(storage).wf(),
    ensures
        final(storage).wf(),
        final(storage).reliable() == old(storage).reliable(),
        answers_pickup(
            reply,
            Pickup::MessagesReceived(*messages_received),
            old(storage).model(),
            final(storage).model(),
            auth_pubkey@,
            old(storage).reliable(),
        ),
{
    match storage.remove_messages(auth_pubkey, &messages_received.content.message_id_list) {
        Ok(_) => handle_pickup_default_status(&*storage, auth_pubkey, &messages_received.id),
        Err(_) => failure_report(&messages_received.id),
    }
}

/// Whether `reply` answers the pickup message `message` of account `auth`,
/// which found the store in state `before` and left it in state `after`.
///
/// Only an acknowledgement changes the store, by removing what it lists. The
/// reply is the answer of the message's kind. From a store that is not
/// reliable it may be the report that the store failed instead; after such
/// a report to an acknowledgement the listed messages may be gone or not.
pub open spec fn answers_pickup(
    reply: AriesMessage,
    message: Pickup,
    before: StoreModel,
    after: StoreModel,
    auth: Seq<char>,
    reliable: bool,
) -> bool {
    match message {
        Pickup::StatusRequest(request) => {
            &&& after == before
            &&& answers_status_request(
                reply,
                before,
                auth,
                request.content.recipient_key.deep_view(),
                request.id@,
                reliable,
            )
        },
        Pickup::DeliveryRequest(request) => {
            &&& after == before
            &&& answers_delivery_request(reply, request, before, auth, reliable)
        },
        Pickup::MessagesReceived(received) => {
            let cleared = before.without_messages(
                auth,
                received.content.message_id_list.deep_view().to_set(),
            );
            ||| after == cleared && reports_status(reply, after, auth, None, received.id@)
            ||| !reliable && (after == cleared || after == before) && reports_failure(
                reply,
                received.id@,
            )
        },
        _ => {
            &&& after == before
            &&& answers_status_request(reply, before, auth, None, message.id(), reliable)
        },
    }
}

/// Answers a pickup message from a client that has an account.
///
/// A status request, a delivery request and an acknowledgement get their
/// answers. Any other pickup message is one that a client has no reason to
/// send; it is answered by the status of all that waits for the account.
pub fn handle_pickup_authenticated<T: MediatorPersistence>(
    storage: &mut T,
    pickup_message: Pickup,
    auth_pubkey: &str,
) -> (reply: AriesMessage)
    requires
        old(storage).wf(),
    ensures
        final(storage).wf(),
        final(storage).reliable() == old(storage).reliable(),
        answers_pickup(
            reply,
            pickup_message,
            old(storage).model(),
            final(storage).model(),
            auth_pubkey@,
            old(storage).reliable(),
        ),
{
    match &pickup_message {
        Pickup::StatusRequest(status_request) => handle_pickup_status_req(
            status_request,
            &*storage,
            auth_pubkey,
        ),
        Pickup::DeliveryRequest(delivery_request) => handle_pickup_delivery_req(
            delivery_request,
            &*storage,
            auth_pubkey,
        ),
        Pickup::MessagesReceived(messages_received) => handle_pickup_messages_received(
            messages_received,
            storage,
            auth_pubkey,
        ),
        Pickup::Status(status) => handle_pickup_default_status(&*storage, auth_pubkey, &status.id),
        Pickup::Delivery(delivery) => handle_pickup_default_status(
            &*storage,
            auth_pubkey,
            &delivery.id,
        ),
        Pickup::LiveDeliveryChange(change) => handle_pickup_default_status(
            &*storage,
            auth_pubkey,
            &change.id,
        ),
    }
}

/// Every answer to a pickup message names that message as its thread: the
/// status, the delivery, and the report that the store failed alike.
pub proof fn lemma_pickup_reply_names_its_request(
    reply: AriesMessage,
    message: Pickup,
    before: StoreModel,
    after: StoreModel,
    auth: Seq<char>,
    reliable: bool,
)
    requires
        answers_pickup(reply, message, before, after, auth, reliable),
    ensures
        reply.thread() == Some(message.id()),
{
}

} // verus!
