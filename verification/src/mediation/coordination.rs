//! The coordinate-mediation protocol: accounts and their recipient keys.

use vstd::prelude::*;
use crate::ident::fresh_message_id;
use crate::ident::is_uuid_v4_text;
use crate::keys::normalize_recipient_key;
use crate::keys::normalized_key;
use crate::mediation::report::problem_report;
use crate::mediation::report::reports_problem;
use crate::messages::AriesMessage;
use crate::messages::Decorators;
use crate::messages::DecoratorsModel;
use crate::messages::MsgParts;
use crate::messages::ProblemCode;
use crate::messages::coordinate_mediation::CoordinateMediation;
use crate::messages::coordinate_mediation::KeylistContent;
use crate::messages::coordinate_mediation::KeylistItem;
use crate::messages::coordinate_mediation::KeylistItemModel;
use crate::messages::coordinate_mediation::KeylistQueryContent;
use crate::messages::coordinate_mediation::KeylistUpdate;
use crate::messages::coordinate_mediation::KeylistUpdateItem;
use crate::messages::coordinate_mediation::KeylistUpdateItemAction;
use crate::messages::coordinate_mediation::KeylistUpdateItemModel;
use crate::messages::coordinate_mediation::KeylistUpdateItemResult;
use crate::messages::coordinate_mediation::KeylistUpdateResponseContent;
use crate::messages::coordinate_mediation::KeylistUpdateResponseItem;
use crate::messages::coordinate_mediation::KeylistUpdateResponseItemModel;
use crate::messages::coordinate_mediation::MediateDenyContent;
use crate::messages::coordinate_mediation::MediateGrantContent;
use crate::messages::coordinate_mediation::MediateGrantContentModel;
use crate::persistence::MediatorPersistence;
use crate::persistence::PersistenceError;
use crate::persistence::StoreModel;

verus! {

/// Whether the store, in state `store`, admits what `item` asks on behalf of
/// account `auth`. The key is taken in its normalized form.
pub open spec fn update_admitted(
    store: StoreModel,
    auth: Seq<char>,
    item: KeylistUpdateItemModel,
) -> bool {
    match item.action {
        KeylistUpdateItemAction::Add => store.admits_recipient(
            auth,
            normalized_key(item.recipient_key),
        ),
        KeylistUpdateItemAction::Remove => store.owns(auth, normalized_key(item.recipient_key)),
    }
}

/// The state that `item` leaves behind: changed as the item asks where the
/// store accepted it, and as before where it did not.
pub open spec fn update_applied(
    store: StoreModel,
    auth: Seq<char>,
    item: KeylistUpdateItemModel,
    accepted: bool,
) -> StoreModel {
    if accepted {
        match item.action {
            KeylistUpdateItemAction::Add => store.with_recipient(
                auth,
                normalized_key(item.recipient_key),
            ),
            KeylistUpdateItemAction::Remove => store.without_recipient(
                normalized_key(item.recipient_key),
            ),
        }
    } else {
        store
    }
}

/// The state after the items of a keylist update, taken in order, where
/// `results` says how each fared. A failed item changes nothing and does not
/// keep the later ones from being tried.
pub open spec fn updates_applied(
    store: StoreModel,
    auth: Seq<char>,
    items: Seq<KeylistUpdateItemModel>,
    results: Seq<KeylistUpdateResponseItemModel>,
) -> StoreModel
    decreases items.len(),
{
    if items.len() == 0 {
        store
    } else {
        update_applied(
            updates_applied(store, auth, items.drop_last(), results.drop_last()),
            auth,
            items.last(),
            results.last().result is Success,
        )
    }
}

/// Whether `result` answers `item`, met in state `store`: it repeats the key
/// as it came and the action, it says `Success` or `ServerError`, and it says
/// `Success` only where the store admitted the item; with a reliable store,
/// wherever it did.
pub open spec fn update_answered(
    store: StoreModel,
    auth: Seq<char>,
    item: KeylistUpdateItemModel,
    result: KeylistUpdateResponseItemModel,
    reliable: bool,
) -> bool {
    &&& result.recipient_key == item.recipient_key
    &&& result.action == item.action
    &&& result.result is Success || result.result is ServerError
    &&& result.result is Success ==> update_admitted(store, auth, item)
    &&& reliable && update_admitted(store, auth, item) ==> result.result is Success
}

/// Whether `results` answers `items` one for one and in order, each item met
/// in the state that the items before it left behind.
pub open spec fn updates_answered(
    store: StoreModel,
    auth: Seq<char>,
    items: Seq<KeylistUpdateItemModel>,
    results: Seq<KeylistUpdateResponseItemModel>,
    reliable: bool,
) -> bool
    decreases items.len(),
{
    &&& items.len() == results.len()
    &&& items.len() > 0 ==> {
        &&& updates_answered(store, auth, items.drop_last(), results.drop_last(), reliable)
        &&& update_answered(
            updates_applied(store, auth, items.drop_last(), results.drop_last()),
            auth,
            items.last(),
            results.last(),
            reliable,
        )
    }
}

/// What is reported of an item, given how the store answered.
pub fn keylist_update_item_result(outcome: &Result<(), PersistenceError>) -> (result:
    KeylistUpdateItemResult)
    ensures
        outcome is Ok ==> result is Success,
        outcome is Err ==> result is ServerError,
{
    match outcome {
        Ok(_) => KeylistUpdateItemResult::Success,
        Err(_) => KeylistUpdateItemResult::ServerError,
    }
}

/// Carries out one item of a keylist update and says how it fared.
pub fn apply_keylist_update_item<T: MediatorPersistence>(
    storage: &mut T,
    update_item: &KeylistUpdateItem,
    auth_pubkey: &str,
) -> (updated: KeylistUpdateResponseItem)
    requires
        old(storage).wf(),
    ensures
        final(storage).wf(),
        final(storage).reliable() == old(storage).reliable(),
        update_answered(
            old(storage).model(),
            auth_pubkey@,
            update_item.deep_view(),
            updated.deep_view(),
            old(storage).reliable(),
        ),
        final(storage).model() == update_applied(
            old(storage).model(),
            auth_pubkey@,
            update_item.deep_view(),
            updated.result is Success,
        ),
{
    let key = normalize_recipient_key(update_item.recipient_key.as_str());
    let outcome = match update_item.action {
        KeylistUpdateItemAction::Add => storage.add_recipient(auth_pubkey, key.as_str()),
        KeylistUpdateItemAction::Remove => storage.remove_recipient(auth_pubkey, key.as_str()),
    };
    KeylistUpdateResponseItem {
        recipient_key: update_item.recipient_key.clone(),
        action: update_item.action,
        result: keylist_update_item_result(&outcome),
    }
}

/// Whether `reply` answers the keylist update `update` of account `auth`,
/// which found the store in state `before` and left it in state `after`: it is
/// a keylist update response under a fresh id that names the update's id as
/// its thread, its entries answer the update's items, and `after` is what the
/// accepted items make of `before`.
pub open spec fn answers_keylist_update(
    reply: CoordinateMediation,
    update: KeylistUpdate,
    before: StoreModel,
    after: StoreModel,
    auth: Seq<char>,
    reliable: bool,
) -> bool {
    reply matches CoordinateMediation::KeylistUpdateResponse(response) && {
        &&& is_uuid_v4_text(response.id@)
        &&& response.decorators.deep_view() == DecoratorsModel::threaded(update.id@)
        &&& updates_answered(
            before,
            auth,
            update.content.updates.deep_view(),
            response.content.updated.deep_view(),
            reliable,
        )
        &&& after == updates_applied(
            before,
            auth,
            update.content.updates.deep_view(),
            response.content.updated.deep_view(),
        )
    }
}

/// Answers a keylist update.
///
/// The items are carried out in the order given, each key in its normalized
/// form. The reply lists, in the same order, each key as it came, its action
/// and its result, and names the request's id as its thread.
pub fn handle_keylist_update<T: MediatorPersistence>(
    storage: &mut T,
    keylist_update_data: KeylistUpdate,
    auth_pubkey: &str,
) -> (reply: CoordinateMediation)
    requires
        old(storage).wf(),
    ensures
        final(storage).wf(),
        final(storage).reliable() == old(storage).reliable(),
        answers_keylist_update(
            reply,
            keylist_update_data,
            old(storage).model(),
            final(storage).model(),
            auth_pubkey@,
            old(storage).reliable(),
        ),
{
    let ghost start = storage.model();
    let ghost reliable = storage.reliable();
    let ghost items = keylist_update_data.content.updates.deep_view();
    let count: usize = keylist_update_data.content.updates.len();
    let mut updated: Vec<KeylistUpdateResponseItem> = Vec::new();
    let mut i: usize = 0;
    while i < count
        invariant
            storage.wf(),
            storage.reliable() == reliable,
            i <= count,
            count == keylist_update_data.content.updates.len(),
            items == keylist_update_data.content.updates.deep_view(),
            updated.len() == i,
            updates_answered(
                start,
                auth_pubkey@,
                items.take(i as int),
                updated.deep_view(),
                reliable,
            ),
            storage.model() == updates_applied(
                start,
                auth_pubkey@,
                items.take(i as int),
                updated.deep_view(),
            ),
        decreases count - i,
    {
        let ghost results = updated.deep_view();
        let item = apply_keylist_update_item(
            storage,
            &keylist_update_data.content.updates[i],
            auth_pubkey,
        );
        updated.push(item);
        proof {
            assert(items.take(i + 1).drop_last() =~= items.take(i as int));
            assert(updated.deep_view().drop_last() =~= results);
        }
        i = i + 1;
    }
    proof {
        assert(items.take(count as int) =~= items);
    }
    CoordinateMediation::KeylistUpdateResponse(
        MsgParts {
            id: fresh_message_id(),
            content: KeylistUpdateResponseContent { updated },
            decorators: Decorators::threaded(keylist_update_data.id),
        },
    )
}

/// Whether `reply` answers a request for mediation from `auth`, which found
/// the store in state `before` and left it in state `after`. A grant carries
/// `content`, and says that the store admitted the account and now holds it.
/// A denial is empty, and the store is as before. Either comes under a fresh
/// id and without decorators. A reliable store is denied only the account
/// that it does not admit.
pub open spec fn answers_mediate_request(
    reply: CoordinateMediation,
    before: StoreModel,
    after: StoreModel,
    auth: Seq<char>,
    signing_key: Seq<char>,
    did_doc: Seq<char>,
    content: MediateGrantContentModel,
    reliable: bool,
) -> bool {
    &&& reliable && before.admits_account(auth, signing_key, did_doc) ==> reply is MediateGrant
    &&& match reply {
        CoordinateMediation::MediateGrant(grant) => {
            &&& is_uuid_v4_text(grant.id@)
            &&& grant.content.deep_view() == content
            &&& grant.decorators.deep_view() == DecoratorsModel::bare()
            &&& before.admits_account(auth, signing_key, did_doc)
            &&& after == before.with_account(auth, signing_key, did_doc)
        },
        CoordinateMediation::MediateDeny(deny) => {
            &&& is_uuid_v4_text(deny.id@)
            &&& deny.decorators.deep_view() == DecoratorsModel::bare()
            &&& after == before
        },
        _ => false,
    }
}

/// The reply to a request for mediation, given how the store answered the
/// creation of the account: the grant with `grant_content` where the account
/// is there, an empty denial where it is not.
pub fn mediate_reply(
    outcome: &Result<(), PersistenceError>,
    grant_content: MediateGrantContent,
    id: String,
) -> (reply: CoordinateMediation)
    ensures
        match outcome {
            Ok(_) => reply matches CoordinateMediation::MediateGrant(grant) && {
                &&& grant.id == id
                &&& grant.content == grant_content
                &&& grant.decorators.deep_view() == DecoratorsModel::bare()
            },
            Err(_) => reply matches CoordinateMediation::MediateDeny(deny) && {
                &&& deny.id == id
                &&& deny.decorators.deep_view() == DecoratorsModel::bare()
            },
        },
{
    match outcome {
        Ok(_) => CoordinateMediation::MediateGrant(
            MsgParts { id, content: grant_content, decorators: Decorators::bare() },
        ),
        Err(_) => CoordinateMediation::MediateDeny(
            MsgParts { id, content: MediateDenyContent {  }, decorators: Decorators::bare() },
        ),
    }
}

/// Answers a request for mediation from `auth_pubkey`.
///
/// The store is asked to create the account with the mediator's signing key
/// and the client's DID document. Where it does, the reply is the grant that
/// carries `grant_content`; where it does not, an empty denial, and the store
/// is as before. The store refuses a key that names an account with other
/// values, so a second request under another signing key or document is
/// denied.
pub fn handle_mediate_request<T: MediatorPersistence>(
    storage: &mut T,
    auth_pubkey: &str,
    did_doc: &str,
    our_signing_key: &str,
    grant_content: MediateGrantContent,
) -> (reply: CoordinateMediation)
    requires
        old(storage).wf(),
    ensures
        final(storage).wf(),
        final(storage).reliable() == old(storage).reliable(),
        answers_mediate_request(
            reply,
            old(storage).model(),
            final(storage).model(),
            auth_pubkey@,
            our_signing_key@,
            did_doc@,
            grant_content.deep_view(),
            old(storage).reliable(),
        ),
{
    let outcome = storage.create_account(auth_pubkey, our_signing_key, did_doc);
    mediate_reply(&outcome, grant_content, fresh_message_id())
}

/// The keys of a keylist, in the order of `keys`.
pub open spec fn listed_keys(keys: Seq<KeylistItemModel>) -> Seq<Seq<char>> {
    keys.map_values(|item: KeylistItemModel| item.recipient_key)
}

/// Wraps each recipient key as an entry of a keylist, keeping the order.
pub fn keylist_items(recipient_keys: Vec<String>) -> (items: Vec<KeylistItem>)
    ensures
        listed_keys(items.deep_view()) == recipient_keys.deep_view(),
{
    let mut items: Vec<KeylistItem> = Vec::new();
    let count: usize = recipient_keys.len();
    let mut i: usize = 0;
    while i < count
        invariant
            i <= count,
            count == recipient_keys.len(),
            items.len() == i,
            forall|j: int| 0 <= j < i ==> (#[trigger] items@[j]).recipient_key@ == recipient_keys@[j]@,
        decreases count - i,
    {
        items.push(KeylistItem { recipient_key: recipient_keys[i].clone() });
        i = i + 1;
    }
    assert(listed_keys(items.deep_view()) =~= recipient_keys.deep_view());
    items
}

/// The message sent where a variant is not acted on: a problem report that
/// says so.
pub fn handle_unimplemented() -> (reply: AriesMessage)
    ensures
        reports_problem(reply, ProblemCode::UnsupportedMessage, None),
{
    problem_report(ProblemCode::UnsupportedMessage, None)
}

/// Whether `reply` is the keylist of `keys`: under a fresh id, without
/// paging and without decorators, each key once and in some order.
pub open spec fn lists_keys(reply: AriesMessage, keys: Set<Seq<char>>) -> bool {
    reply matches AriesMessage::CoordinateMediation(CoordinateMediation::Keylist(keylist)) && {
        &&& is_uuid_v4_text(keylist.id@)
        &&& listed_keys(keylist.content.keys.deep_view()).no_duplicates()
        &&& listed_keys(keylist.content.keys.deep_view()).to_set() == keys
        &&& keylist.content.pagination is None
        &&& keylist.decorators.deep_view() == DecoratorsModel::bare()
    }
}

/// Whether `reply` answers a keylist query of account `auth`, met with the
/// store in state `store`: it is the keylist of the account's recipient keys,
/// or, from a store that is not reliable, the report that the store failed.
pub open spec fn answers_keylist_query(
    reply: AriesMessage,
    store: StoreModel,
    auth: Seq<char>,
    reliable: bool,
) -> bool {
    ||| lists_keys(reply, store.recipient_keys(auth))
    ||| !reliable && reports_problem(reply, ProblemCode::PersistenceFailure, None)
}

/// The keylist of `recipient_keys`, in their order, under `id`.
pub fn keylist_message(recipient_keys: Vec<String>, id: String) -> (reply: AriesMessage)
    ensures
        reply matches AriesMessage::CoordinateMediation(CoordinateMediation::Keylist(keylist)) && {
            &&& keylist.id == id
            &&& listed_keys(keylist.content.keys.deep_view()) == recipient_keys.deep_view()
            &&& keylist.content.pagination is None
            &&& keylist.decorators.deep_view() == DecoratorsModel::bare()
        },
{
    AriesMessage::CoordinateMediation(
        CoordinateMediation::Keylist(
            MsgParts {
                id,
                content: KeylistContent { keys: keylist_items(recipient_keys), pagination: None },
                decorators: Decorators::bare(),
            },
        ),
    )
}

/// Answers a keylist query: all recipient keys of the account, each once.
///
/// What the query says of paging is not looked at, and the keylist reports
/// none. The reply carries no thread. Where the store fails, the reply is a
/// problem report.
pub fn handle_keylist_query<T: MediatorPersistence>(
    storage: &T,
    _keylist_query_data: KeylistQueryContent,
    auth_pubkey: &str,
) -> (reply: AriesMessage)
    requires
        storage.wf(),
    ensures
        answers_keylist_query(reply, storage.model(), auth_pubkey@, storage.reliable()),
{
    match storage.list_recipient_keys(auth_pubkey) {
        Ok(recipient_keys) => keylist_message(recipient_keys, fresh_message_id()),
        Err(_) => problem_report(ProblemCode::PersistenceFailure, None),
    }
}

/// Whether `reply` answers the coordinate-mediation message `message` of a
/// client with an account, which found the store in state `before` and left
/// it in state `after`.
pub open spec fn answers_coordination(
    reply: AriesMessage,
    message: CoordinateMediation,
    before: StoreModel,
    after: StoreModel,
    auth: Seq<char>,
    reliable: bool,
) -> bool {
    match message {
        CoordinateMediation::KeylistUpdate(update) => reply matches AriesMessage::CoordinateMediation(
            response,
        ) && answers_keylist_update(response, update, before, after, auth, reliable),
        CoordinateMediation::KeylistQuery(_) => {
            &&& after == before
            &&& answers_keylist_query(reply, before, auth, reliable)
        },
        _ => {
            &&& after == before
            &&& reports_problem(reply, ProblemCode::UnsupportedMessage, None)
        },
    }
}

/// Answers a coordinate-mediation message from a client that has an account.
///
/// A keylist update and a keylist query get their answers. A request for
/// mediation does not belong here, the account being there already, and the
/// messages that only a mediator sends are not acted on: each is answered by
/// a problem report, and the store is left alone.
pub fn handle_coord_authenticated<T: MediatorPersistence>(
    storage: &mut T,
    message: CoordinateMediation,
    auth_pubkey: &str,
) -> (reply: AriesMessage)
    requires
        old(storage).wf(),
    ensures
        final(storage).wf(),
        final(storage).reliable() == old(storage).reliable(),
        answers_coordination(
            reply,
            message,
            old(storage).model(),
            final(storage).model(),
            auth_pubkey@,
            old(storage).reliable(),
        ),
{
    match message {
        CoordinateMediation::KeylistUpdate(keylist_update) => AriesMessage::CoordinateMediation(
            handle_keylist_update(storage, keylist_update, auth_pubkey),
        ),
        CoordinateMediation::KeylistQuery(keylist_query) => handle_keylist_query(
            &*storage,
            keylist_query.content,
            auth_pubkey,
        ),
        _ => handle_unimplemented(),
    }
}

/// The recipient keys of an account after the items of keylist updates, where
/// `keys` are those it held before: each accepted `Add` has put its key in,
/// each accepted `Remove` has taken its key out, and an item that failed has
/// changed nothing. Keys are taken in their normalized form.
pub open spec fn keys_after(
    keys: Set<Seq<char>>,
    items: Seq<KeylistUpdateItemModel>,
    results: Seq<KeylistUpdateResponseItemModel>,
) -> Set<Seq<char>>
    decreases items.len(),
{
    if items.len() == 0 {
        keys
    } else {
        let earlier = keys_after(keys, items.drop_last(), results.drop_last());
        if results.last().result is Success {
            match items.last().action {
                KeylistUpdateItemAction::Add => earlier.insert(
                    normalized_key(items.last().recipient_key),
                ),
                KeylistUpdateItemAction::Remove => earlier.remove(
                    normalized_key(items.last().recipient_key),
                ),
            }
        } else {
            earlier
        }
    }
}

/// The keys that a keylist query lists are the fold of the account's keylist
/// updates.
///
/// Whatever items the account's updates held and however each fared, the
/// recipient keys that the store holds for the account afterwards, which are
/// what a keylist query lists, are what the accepted items make of the keys it
/// held before, in order; of no keys, for an account that held none.
pub proof fn lemma_keylist_is_fold_of_updates(
    store: StoreModel,
    auth: Seq<char>,
    items: Seq<KeylistUpdateItemModel>,
    results: Seq<KeylistUpdateResponseItemModel>,
    reliable: bool,
)
    requires
        updates_answered(store, auth, items, results, reliable),
    ensures
        updates_applied(store, auth, items, results).recipient_keys(auth) == keys_after(
            store.recipient_keys(auth),
            items,
            results,
        ),
    decreases items.len(),
{
    if items.len() > 0 {
        lemma_keylist_is_fold_of_updates(
            store,
            auth,
            items.drop_last(),
            results.drop_last(),
            reliable,
        );
        let earlier = updates_applied(store, auth, items.drop_last(), results.drop_last());
        let key = normalized_key(items.last().recipient_key);
        if results.last().result is Success {
            match items.last().action {
                KeylistUpdateItemAction::Add => {
                    assert(earlier.with_recipient(auth, key).recipient_keys(auth)
                        =~= earlier.recipient_keys(auth).insert(key));
                },
                KeylistUpdateItemAction::Remove => {
                    assert(earlier.without_recipient(key).recipient_keys(auth)
                        =~= earlier.recipient_keys(auth).remove(key));
                },
            }
        }
    }
}

/// The keylist updates of one account leave the recipient keys of every
/// other account as they were, and touch neither accounts nor messages.
pub proof fn lemma_updates_leave_the_rest(
    store: StoreModel,
    auth: Seq<char>,
    other: Seq<char>,
    items: Seq<KeylistUpdateItemModel>,
    results: Seq<KeylistUpdateResponseItemModel>,
    reliable: bool,
)
    requires
        updates_answered(store, auth, items, results, reliable),
        other != auth,
    ensures
        updates_applied(store, auth, items, results).recipient_keys(other) == store.recipient_keys(
            other,
        ),
        updates_applied(store, auth, items, results).accounts == store.accounts,
        updates_applied(store, auth, items, results).queue == store.queue,
    decreases items.len(),
{
    if items.len() > 0 {
        lemma_updates_leave_the_rest(
            store,
            auth,
            other,
            items.drop_last(),
            results.drop_last(),
            reliable,
        );
        let earlier = updates_applied(store, auth, items.drop_last(), results.drop_last());
        let key = normalized_key(items.last().recipient_key);
        if results.last().result is Success {
            match items.last().action {
                KeylistUpdateItemAction::Add => {
                    assert(earlier.with_recipient(auth, key).recipient_keys(other)
                        =~= earlier.recipient_keys(other));
                },
                KeylistUpdateItemAction::Remove => {
                    assert(earlier.without_recipient(key).recipient_keys(other)
                        =~= earlier.recipient_keys(other));
                },
            }
        }
    }
}

/// Keylist updates that follow one another act as one update that holds the
/// items of all of them in order.
pub proof fn lemma_updates_in_turn(
    store: StoreModel,
    auth: Seq<char>,
    first_items: Seq<KeylistUpdateItemModel>,
    first_results: Seq<KeylistUpdateResponseItemModel>,
    next_items: Seq<KeylistUpdateItemModel>,
    next_results: Seq<KeylistUpdateResponseItemModel>,
    reliable: bool,
)
    requires
        first_items.len() == first_results.len(),
        next_items.len() == next_results.len(),
    ensures
        updates_applied(store, auth, first_items + next_items, first_results + next_results)
            == updates_applied(
            updates_applied(store, auth, first_items, first_results),
            auth,
            next_items,
            next_results,
        ),
        updates_answered(
            store,
            auth,
            first_items + next_items,
            first_results + next_results,
            reliable,
        ) <==> updates_answered(store, auth, first_items, first_results, reliable)
            && updates_answered(
            updates_applied(store, auth, first_items, first_results),
            auth,
            next_items,
            next_results,
            reliable,
        ),
    decreases next_items.len(),
{
    if next_items.len() == 0 {
        assert(first_items + next_items =~= first_items);
        assert(first_results + next_results =~= first_results);
    } else {
        lemma_updates_in_turn(
            store,
            auth,
            first_items,
            first_results,
            next_items.drop_last(),
            next_results.drop_last(),
            reliable,
        );
        assert((first_items + next_items).drop_last() =~= first_items + next_items.drop_last());
        assert((first_results + next_results).drop_last() =~= first_results
            + next_results.drop_last());
        assert((first_items + next_items).last() == next_items.last());
        assert((first_results + next_results).last() == next_results.last());
    }
}

/// A client asks for mediation twice, under the same DID document.
///
/// Where the first request was granted, the second leaves the store as it
/// was, with the one account that the first created. It is denied where the
/// mediator offers another signing key than the account holds. Where the
/// signing key is the same, the store admits the request again, and a
/// reliable store grants it.
pub proof fn lemma_second_request_adds_no_account(
    first: CoordinateMediation,
    second: CoordinateMediation,
    start: StoreModel,
    between: StoreModel,
    end: StoreModel,
    auth: Seq<char>,
    did_doc: Seq<char>,
    first_key: Seq<char>,
    second_key: Seq<char>,
    content: MediateGrantContentModel,
    reliable: bool,
)
    requires
        answers_mediate_request(first, start, between, auth, first_key, did_doc, content, reliable),
        answers_mediate_request(second, between, end, auth, second_key, did_doc, content, reliable),
        first is MediateGrant,
    ensures
        between.knows(auth),
        end == between,
        second_key != first_key ==> second is MediateDeny,
        second_key == first_key && reliable ==> second is MediateGrant,
{
    if second is MediateGrant {
        assert(between.accounts.insert(
            auth,
            crate::persistence::AccountModel { signing_key: second_key, did_doc },
        ) =~= between.accounts);
    }
}

/// A reliable store grants mediation to a client that has no account, and
/// holds exactly one account more afterwards.
pub proof fn lemma_first_request_is_granted(
    reply: CoordinateMediation,
    start: StoreModel,
    end: StoreModel,
    auth: Seq<char>,
    did_doc: Seq<char>,
    signing_key: Seq<char>,
    content: MediateGrantContentModel,
)
    requires
        answers_mediate_request(reply, start, end, auth, signing_key, did_doc, content, true),
        !start.knows(auth),
    ensures
        reply is MediateGrant,
        end.accounts.dom() == start.accounts.dom().insert(auth),
        end.recipients == start.recipients,
        end.queue == start.queue,
{
}

/// The answer to a keylist update names the update as its thread.
pub proof fn lemma_update_response_names_its_request(
    reply: CoordinateMediation,
    update: KeylistUpdate,
    before: StoreModel,
    after: StoreModel,
    auth: Seq<char>,
    reliable: bool,
)
    requires
        answers_keylist_update(reply, update, before, after, auth, reliable),
    ensures
        AriesMessage::CoordinateMediation(reply).thread() == Some(update.id@),
{
}

} // verus!
