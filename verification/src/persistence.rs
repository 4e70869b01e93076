//! Persistence: what the mediator asks of its store, stated over a
//! mathematical model of the stored state.
//!
//! The model maps each account to its record, each registered recipient key to
//! the account that owns it, and keeps the pending messages of all accounts in
//! one queue, oldest first.

use vstd::prelude::*;

pub mod laws;
pub mod memory;
pub mod table;

verus! {

/// What is kept of an account besides the key that names it.
pub struct AccountModel {
    pub signing_key: Seq<char>,
    pub did_doc: Seq<char>,
}

/// A message that waits to be picked up.
pub struct PendingModel {
    pub message_id: Seq<char>,
    /// The account that owned the recipient key when the message came in.
    pub owner: Seq<char>,
    pub recipient_key: Seq<char>,
    pub payload: Seq<u8>,
}

/// The stored state.
pub struct StoreModel {
    /// Accounts, by the key the client authenticated with.
    pub accounts: Map<Seq<char>, AccountModel>,
    /// The owning account of each registered recipient key.
    pub recipients: Map<Seq<char>, Seq<char>>,
    /// Pending messages of all accounts, oldest first.
    pub queue: Seq<PendingModel>,
}

/// Whether `message` is one that account `auth` gets when it asks for the
/// messages of `filter` (of all its recipient keys, where `filter` is `None`).
pub open spec fn concerns(message: PendingModel, auth: Seq<char>, filter: Option<Seq<char>>) -> bool {
    message.owner == auth && match filter {
        Some(key) => message.recipient_key == key,
        None => true,
    }
}

/// `concerns` as a predicate on messages.
pub open spec fn concerning(auth: Seq<char>, filter: Option<Seq<char>>) -> spec_fn(
    PendingModel,
) -> bool {
    |message: PendingModel| concerns(message, auth, filter)
}

/// Whether `message` stays when account `auth` acknowledges the ids in `ids`.
pub open spec fn outlasts(message: PendingModel, auth: Seq<char>, ids: Set<Seq<char>>) -> bool {
    !(message.owner == auth && ids.contains(message.message_id))
}

/// `outlasts` as a predicate on messages.
pub open spec fn outlasting(auth: Seq<char>, ids: Set<Seq<char>>) -> spec_fn(PendingModel) -> bool {
    |message: PendingModel| outlasts(message, auth, ids)
}

/// What a retrieval hands out of `pending`: the first `limit` messages (all of
/// them where `limit` is `None`), each as its id and its payload.
pub open spec fn handed_out(pending: Seq<PendingModel>, limit: Option<u32>) -> Seq<
    (Seq<char>, Seq<u8>),
> {
    let count = match limit {
        Some(most) => if most < pending.len() {
            most as int
        } else {
            pending.len() as int
        },
        None => pending.len() as int,
    };
    pending.take(count).map_values(|message: PendingModel| (message.message_id, message.payload))
}

/// The messages of a retrieval as plain values: each its id and its payload.
pub open spec fn retrieved(messages: Seq<(String, Vec<u8>)>) -> Seq<(Seq<char>, Seq<u8>)> {
    messages.map_values(|message: (String, Vec<u8>)| (message.0@, message.1@))
}

impl StoreModel {
    /// The state with no account at all.
    pub open spec fn empty() -> StoreModel {
        StoreModel { accounts: Map::empty(), recipients: Map::empty(), queue: Seq::empty() }
    }

    /// Whether `auth` names an account.
    pub open spec fn knows(self, auth: Seq<char>) -> bool {
        self.accounts.dom().contains(auth)
    }

    /// Whether an account may be created: the key is new, or it names an
    /// account that holds these very values already.
    pub open spec fn admits_account(
        self,
        auth: Seq<char>,
        signing_key: Seq<char>,
        did_doc: Seq<char>,
    ) -> bool {
        !self.knows(auth) || self.accounts[auth] == (AccountModel { signing_key, did_doc })
    }

    /// The state once the account is there.
    pub open spec fn with_account(
        self,
        auth: Seq<char>,
        signing_key: Seq<char>,
        did_doc: Seq<char>,
    ) -> StoreModel {
        StoreModel {
            accounts: self.accounts.insert(auth, AccountModel { signing_key, did_doc }),
            ..self
        }
    }

    /// Whether `key` is registered, to whatever account.
    pub open spec fn binds(self, key: Seq<char>) -> bool {
        self.recipients.dom().contains(key)
    }

    /// Whether `auth` may register `key`: the account exists and nobody holds
    /// the key.
    pub open spec fn admits_recipient(self, auth: Seq<char>, key: Seq<char>) -> bool {
        self.knows(auth) && !self.binds(key)
    }

    /// The state once `auth` has registered `key`.
    pub open spec fn with_recipient(self, auth: Seq<char>, key: Seq<char>) -> StoreModel {
        StoreModel { recipients: self.recipients.insert(key, auth), ..self }
    }

    /// Whether `key` is registered to `auth`.
    pub open spec fn owns(self, auth: Seq<char>, key: Seq<char>) -> bool {
        self.binds(key) && self.recipients[key] == auth
    }

    /// The state once `key` is no longer registered.
    pub open spec fn without_recipient(self, key: Seq<char>) -> StoreModel {
        StoreModel { recipients: self.recipients.remove(key), ..self }
    }

    /// The recipient keys registered to `auth`.
    pub open spec fn recipient_keys(self, auth: Seq<char>) -> Set<Seq<char>> {
        Set::new(|key: Seq<char>| self.owns(auth, key))
    }

    /// The pending messages of `auth`, oldest first; those of one recipient
    /// key where `filter` names it.
    pub open spec fn pending(self, auth: Seq<char>, filter: Option<Seq<char>>) -> Seq<
        PendingModel,
    > {
        self.queue.filter(concerning(auth, filter))
    }

    /// Whether some pending message carries `message_id`.
    pub open spec fn holds_message(self, message_id: Seq<char>) -> bool {
        exists|i: int| 0 <= i < self.queue.len() && #[trigger] self.queue[i].message_id == message_id
    }

    /// The state once a message for `key` has joined the end of the queue. Its
    /// owner is the account that holds `key` now.
    pub open spec fn with_message(
        self,
        key: Seq<char>,
        message_id: Seq<char>,
        payload: Seq<u8>,
    ) -> StoreModel {
        StoreModel {
            queue: self.queue.push(
                PendingModel { message_id, owner: self.recipients[key], recipient_key: key, payload },
            ),
            ..self
        }
    }

    /// The state once `auth` has acknowledged the messages named in `ids`.
    pub open spec fn without_messages(self, auth: Seq<char>, ids: Set<Seq<char>>) -> StoreModel {
        StoreModel { queue: self.queue.filter(outlasting(auth, ids)), ..self }
    }

    /// What holds of every state that the store's operations lead to from the
    /// empty one: each recipient key and each pending message belongs to an
    /// account, and no two pending messages share an id.
    pub open spec fn consistent(self) -> bool {
        &&& forall|key: Seq<char>| #[trigger]
            self.binds(key) ==> self.knows(self.recipients[key])
        &&& forall|i: int|
            0 <= i < self.queue.len() ==> self.knows((#[trigger] self.queue[i]).owner)
        &&& forall|i: int, j: int|
            0 <= i < j < self.queue.len() ==> (#[trigger] self.queue[i]).message_id != (
            #[trigger] self.queue[j]).message_id
    }
}

/// How a changing operation may end. Where it reports success, the change
/// was admitted and the state is `target`. Where it reports failure, the state
/// is as before. It fails wherever the change is not admitted, and a
/// reliable store fails nowhere else.
pub open spec fn settled(
    succeeded: bool,
    admitted: bool,
    reliable: bool,
    before: StoreModel,
    after: StoreModel,
    target: StoreModel,
) -> bool {
    &&& succeeded ==> admitted && after == target
    &&& !succeeded ==> after == before
    &&& reliable && admitted ==> succeeded
}

/// The one failure the store reports. It is not classified further.
#[derive(Debug)]
pub struct PersistenceError {}

/// The store behind the mediator.
///
/// An operation may fail for reasons of its own: a database may be out of
/// reach. So what is promised of every store is what a success means, that a
/// failure leaves the state alone, and that what the model does not admit
/// fails. A store may say of itself that it is reliable. Then its next
/// operation fails only where the model does not admit it.
pub trait MediatorPersistence: Sized {
    /// The stored state.
    spec fn model(&self) -> StoreModel;

    /// What the implementation needs to hold of itself between calls.
    spec fn wf(&self) -> bool;

    /// Whether the next operation fails only where the model does not admit
    /// it. Taking in a message may end this; no other operation changes it.
    spec fn reliable(&self) -> bool;

    /// Tells whether `auth_pubkey` names an account.
    fn account_exists(&self, auth_pubkey: &str) -> (res: Result<bool, PersistenceError>)
        requires
            self.wf(),
        ensures
            res matches Ok(known) ==> known == self.model().knows(auth_pubkey@),
            self.reliable() ==> res is Ok,
    ;

    /// Creates the account of `auth_pubkey`. Succeeds again, changing nothing,
    /// where the account exists with these values; fails where it exists with
    /// others.
    fn create_account(&mut self, auth_pubkey: &str, our_signing_key: &str, did_doc: &str) -> (res:
        Result<(), PersistenceError>)
        requires
            old(self).wf(),
        ensures
            final(self).wf(),
            final(self).reliable() == old(self).reliable(),
            settled(
                res is Ok,
                old(self).model().admits_account(auth_pubkey@, our_signing_key@, did_doc@),
                old(self).reliable(),
                old(self).model(),
                final(self).model(),
                old(self).model().with_account(auth_pubkey@, our_signing_key@, did_doc@),
            ),
    ;

    /// Registers `recipient_key` to the account. Fails where the account is
    /// unknown or the key is registered already, to this account or another.
    fn add_recipient(&mut self, auth_pubkey: &str, recipient_key: &str) -> (res: Result<
        (),
        PersistenceError,
    >)
        requires
            old(self).wf(),
        ensures
            final(self).wf(),
            final(self).reliable() == old(self).reliable(),
            settled(
                res is Ok,
                old(self).model().admits_recipient(auth_pubkey@, recipient_key@),
                old(self).reliable(),
                old(self).model(),
                final(self).model(),
                old(self).model().with_recipient(auth_pubkey@, recipient_key@),
            ),
    ;

    /// Takes `recipient_key` from the account. Fails where the key is not
    /// registered to it.
    fn remove_recipient(&mut self, auth_pubkey: &str, recipient_key: &str) -> (res: Result<
        (),
        PersistenceError,
    >)
        requires
            old(self).wf(),
        ensures
            final(self).wf(),
            final(self).reliable() == old(self).reliable(),
            settled(
                res is Ok,
                old(self).model().owns(auth_pubkey@, recipient_key@),
                old(self).reliable(),
                old(self).model(),
                final(self).model(),
                old(self).model().without_recipient(recipient_key@),
            ),
    ;

    /// The recipient keys of the account, each once, in no promised order.
    fn list_recipient_keys(&self, auth_pubkey: &str) -> (res: Result<
        Vec<String>,
        PersistenceError,
    >)
        requires
            self.wf(),
        ensures
            res matches Ok(keys) ==> keys.deep_view().no_duplicates() && keys.deep_view().to_set()
                == self.model().recipient_keys(auth_pubkey@),
            self.reliable() ==> res is Ok,
    ;

    /// How many messages wait for the account; for one recipient key where
    /// `recipient_key` names it.
    fn retrieve_pending_message_count(&self, auth_pubkey: &str, recipient_key: Option<&str>) -> (res:
        Result<u64, PersistenceError>)
        requires
            self.wf(),
        ensures
            res matches Ok(count) ==> count == self.model().pending(
                auth_pubkey@,
                recipient_key.deep_view(),
            ).len(),
            self.reliable() ==> res is Ok,
    ;

    /// The oldest pending messages of the account, at most `limit` of them,
    /// oldest first, each as its id and its payload. Nothing is removed.
    fn retrieve_pending_messages(
        &self,
        auth_pubkey: &str,
        limit: Option<u32>,
        recipient_key: Option<&str>,
    ) -> (res: Result<Vec<(String, Vec<u8>)>, PersistenceError>)
        requires
            self.wf(),
        ensures
            res matches Ok(messages) ==> retrieved(messages@) == handed_out(
                self.model().pending(auth_pubkey@, recipient_key.deep_view()),
                limit,
            ),
            self.reliable() ==> res is Ok,
    ;

    /// Queues a message for the account that holds `recipient_key`, under an
    /// id that no pending message carries. Fails where nobody holds the key.
    fn enqueue_message(&mut self, recipient_key: &str, message: &[u8]) -> (res: Result<
        (),
        PersistenceError,
    >)
        requires
            old(self).wf(),
        ensures
            final(self).wf(),
            res is Err ==> final(self).reliable() == old(self).reliable(),
            res is Ok ==> final(self).model().queue.len() > 0 && !old(self).model().holds_message(
                final(self).model().queue.last().message_id,
            ),
            settled(
                res is Ok,
                old(self).model().binds(recipient_key@),
                old(self).reliable(),
                old(self).model(),
                final(self).model(),
                old(self).model().with_message(
                    recipient_key@,
                    final(self).model().queue.last().message_id,
                    message@,
                ),
            ),
    ;

    /// Removes the pending messages of the account whose ids are listed. An
    /// id that names none of them is passed over.
    fn remove_messages(&mut self, auth_pubkey: &str, message_ids: &Vec<String>) -> (res: Result<
        (),
        PersistenceError,
    >)
        requires
            old(self).wf(),
        ensures
            final(self).wf(),
            final(self).reliable() == old(self).reliable(),
            settled(
                res is Ok,
                true,
                old(self).reliable(),
                old(self).model(),
                final(self).model(),
                old(self).model().without_messages(auth_pubkey@, message_ids.deep_view().to_set()),
            ),
    ;
}

} // verus!
