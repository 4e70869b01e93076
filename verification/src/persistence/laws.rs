//! What holds of the stored state however the store's operations follow one
//! another: the state stays consistent, and messages wait in the order in
//! which they came.

use vstd::prelude::*;
use crate::persistence::PendingModel;
use crate::persistence::StoreModel;
use crate::persistence::concerning;
use crate::persistence::outlasting;

verus! {

/// Filtering by one predicate and then by another keeps what filtering in
/// the other order keeps.
pub proof fn lemma_filters_commute<A>(s: Seq<A>, p: spec_fn(A) -> bool, q: spec_fn(A) -> bool)
    ensures
        s.filter(p).filter(q) == s.filter(q).filter(p),
    decreases s.len(),
{
    if s.len() == 0 {
        reveal(Seq::filter);
        assert(s.filter(p) =~= s);
        assert(s.filter(q) =~= s);
    } else {
        let rest = s.drop_last();
        let last = s.last();
        assert(s =~= rest.push(last));
        lemma_filters_commute(rest, p, q);
        rest.lemma_filter_push(last, p);
        rest.lemma_filter_push(last, q);
        rest.filter(p).lemma_filter_push(last, q);
        rest.filter(q).lemma_filter_push(last, p);
    }
}

/// What is left of a queue after filtering was in the queue, and no id
/// occurs twice in it if none did before.
pub proof fn lemma_filter_keeps_ids_apart(queue: Seq<PendingModel>, p: spec_fn(PendingModel) -> bool)
    requires
        forall|i: int, j: int|
            0 <= i < j < queue.len() ==> (#[trigger] queue[i]).message_id != (
            #[trigger] queue[j]).message_id,
    ensures
        forall|i: int| 0 <= i < queue.filter(p).len() ==> queue.contains(#[trigger] queue.filter(p)[i]),
        forall|i: int, j: int|
            0 <= i < j < queue.filter(p).len() ==> (#[trigger] queue.filter(p)[i]).message_id != (
            #[trigger] queue.filter(p)[j]).message_id,
    decreases queue.len(),
{
    let kept = queue.filter(p);
    if queue.len() == 0 {
        reveal(Seq::filter);
        assert(kept =~= queue);
    } else {
        let rest = queue.drop_last();
        let last = queue.last();
        assert(queue =~= rest.push(last));
        rest.lemma_filter_push(last, p);
        lemma_filter_keeps_ids_apart(rest, p);
        let kept_rest = rest.filter(p);
        assert forall|i: int| 0 <= i < kept.len() implies queue.contains(#[trigger] kept[i]) by {
            if i < kept_rest.len() {
                assert(kept[i] == kept_rest[i]);
                assert(rest.contains(kept_rest[i]));
                let k = choose|k: int| 0 <= k < rest.len() && rest[k] == kept_rest[i];
                assert(queue[k] == kept[i]);
            } else {
                assert(kept[i] == last);
                assert(queue[queue.len() - 1] == last);
            }
        }
        assert forall|i: int, j: int| 0 <= i < j < kept.len() implies (#[trigger] kept[i]).message_id
            != (#[trigger] kept[j]).message_id by {
            if j < kept_rest.len() {
                assert(kept[i] == kept_rest[i]);
                assert(kept[j] == kept_rest[j]);
            } else {
                assert(kept[j] == last);
                assert(kept[i] == kept_rest[i]);
                assert(rest.contains(kept_rest[i]));
                let k = choose|k: int| 0 <= k < rest.len() && rest[k] == kept_rest[i];
                assert(queue[k].message_id != queue[queue.len() - 1].message_id);
            }
        }
    }
}

/// No operation of the store leads out of the consistent states: not the
/// creation of an account, nor the registration of a recipient key to an
/// account that exists, nor its removal, nor the arrival of a message for a
/// registered key under an id that is not in use, nor an acknowledgement.
pub proof fn lemma_consistency_is_kept(
    store: StoreModel,
    auth: Seq<char>,
    signing_key: Seq<char>,
    did_doc: Seq<char>,
    key: Seq<char>,
    message_id: Seq<char>,
    payload: Seq<u8>,
    ids: Set<Seq<char>>,
)
    requires
        store.consistent(),
    ensures
        StoreModel::empty().consistent(),
        store.with_account(auth, signing_key, did_doc).consistent(),
        store.knows(auth) ==> store.with_recipient(auth, key).consistent(),
        store.without_recipient(key).consistent(),
        store.binds(key) && !store.holds_message(message_id) ==> store.with_message(
            key,
            message_id,
            payload,
        ).consistent(),
        store.without_messages(auth, ids).consistent(),
{
    assert(store.with_account(auth, signing_key, did_doc).consistent()) by {
        let next = store.with_account(auth, signing_key, did_doc);
        assert forall|k: Seq<char>| #[trigger] next.binds(k) implies next.knows(
            next.recipients[k],
        ) by {
            assert(store.binds(k));
        }
    }
    if store.knows(auth) {
        let next = store.with_recipient(auth, key);
        assert forall|k: Seq<char>| #[trigger] next.binds(k) implies next.knows(
            next.recipients[k],
        ) by {
            if k != key {
                assert(store.binds(k));
            }
        }
    }
    assert(store.without_recipient(key).consistent()) by {
        let next = store.without_recipient(key);
        assert forall|k: Seq<char>| #[trigger] next.binds(k) implies next.knows(
            next.recipients[k],
        ) by {
            assert(store.binds(k));
        }
    }
    if store.binds(key) && !store.holds_message(message_id) {
        let next = store.with_message(key, message_id, payload);
        assert forall|k: Seq<char>| #[trigger] next.binds(k) implies next.knows(
            next.recipients[k],
        ) by {
            assert(store.binds(k));
        }
        assert(store.knows(store.recipients[key]));
        assert forall|i: int| 0 <= i < next.queue.len() implies next.knows(
            (#[trigger] next.queue[i]).owner,
        ) by {
            if i < store.queue.len() {
                assert(next.queue[i] == store.queue[i]);
            }
        }
        assert forall|i: int, j: int| 0 <= i < j < next.queue.len() implies (
        #[trigger] next.queue[i]).message_id != (#[trigger] next.queue[j]).message_id by {
            assert(next.queue[i] == store.queue[i]);
            if j < store.queue.len() {
                assert(next.queue[j] == store.queue[j]);
            } else {
                assert(store.queue[i].message_id != message_id);
            }
        }
    }
    assert(store.without_messages(auth, ids).consistent()) by {
        let next = store.without_messages(auth, ids);
        lemma_filter_keeps_ids_apart(store.queue, outlasting(auth, ids));
        assert forall|k: Seq<char>| #[trigger] next.binds(k) implies next.knows(
            next.recipients[k],
        ) by {
            assert(store.binds(k));
        }
        assert forall|i: int| 0 <= i < next.queue.len() implies next.knows(
            (#[trigger] next.queue[i]).owner,
        ) by {
            assert(store.queue.contains(next.queue[i]));
            let k = choose|k: int| 0 <= k < store.queue.len() && store.queue[k] == next.queue[i];
            assert(store.knows(store.queue[k].owner));
        }
    }
}

/// What may happen to the queue: a message arrives for a recipient key, or an
/// account acknowledges messages.
pub enum QueueEvent {
    Arrival { recipient_key: Seq<char>, message_id: Seq<char>, payload: Seq<u8> },
    Acknowledgement { auth: Seq<char>, ids: Set<Seq<char>> },
}

/// The state after `events`, in their order. A message for a key that nobody
/// holds is not taken in.
pub open spec fn after_events(store: StoreModel, events: Seq<QueueEvent>) -> StoreModel
    decreases events.len(),
{
    if events.len() == 0 {
        store
    } else {
        let earlier = after_events(store, events.drop_last());
        match events.last() {
            QueueEvent::Arrival { recipient_key, message_id, payload } => if earlier.binds(
                recipient_key,
            ) {
                earlier.with_message(recipient_key, message_id, payload)
            } else {
                earlier
            },
            QueueEvent::Acknowledgement { auth, ids } => earlier.without_messages(auth, ids),
        }
    }
}

/// What waits for recipient key `key` of account `auth` after `events`, where
/// `waiting` waited before: each message that arrived for the key has joined
/// the end, and each acknowledgement has taken out what it named and left the
/// rest in place.
pub open spec fn waiting_after(
    waiting: Seq<PendingModel>,
    events: Seq<QueueEvent>,
    auth: Seq<char>,
    key: Seq<char>,
) -> Seq<PendingModel>
    decreases events.len(),
{
    if events.len() == 0 {
        waiting
    } else {
        let earlier = waiting_after(waiting, events.drop_last(), auth, key);
        match events.last() {
            QueueEvent::Arrival { recipient_key, message_id, payload } => if recipient_key
                == key {
                earlier.push(PendingModel { message_id, owner: auth, recipient_key, payload })
            } else {
                earlier
            },
            QueueEvent::Acknowledgement { auth: by, ids } => earlier.filter(outlasting(by, ids)),
        }
    }
}

/// Messages are delivered in the order in which they came.
///
/// However arrivals and acknowledgements follow one another, what waits for a
/// recipient key of an account is what arrived for that key, in the order of
/// arrival, less what was acknowledged. A retrieval hands out the start of
/// that list.
pub proof fn lemma_delivery_in_arrival_order(
    store: StoreModel,
    events: Seq<QueueEvent>,
    auth: Seq<char>,
    key: Seq<char>,
)
    requires
        store.owns(auth, key),
    ensures
        after_events(store, events).recipients == store.recipients,
        after_events(store, events).pending(auth, Some(key)) == waiting_after(
            store.pending(auth, Some(key)),
            events,
            auth,
            key,
        ),
    decreases events.len(),
{
    if events.len() > 0 {
        lemma_delivery_in_arrival_order(store, events.drop_last(), auth, key);
        let earlier = after_events(store, events.drop_last());
        let wanted = concerning(auth, Some(key));
        match events.last() {
            QueueEvent::Arrival { recipient_key, message_id, payload } => {
                if earlier.binds(recipient_key) {
                    let message = PendingModel {
                        message_id,
                        owner: earlier.recipients[recipient_key],
                        recipient_key,
                        payload,
                    };
                    earlier.queue.lemma_filter_push(message, wanted);
                }
            },
            QueueEvent::Acknowledgement { auth: by, ids } => {
                lemma_filters_commute(earlier.queue, outlasting(by, ids), wanted);
            },
        }
    }
}

} // verus!
