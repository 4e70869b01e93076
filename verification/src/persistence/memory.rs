//! A store that keeps everything in memory.
//!
//! It does what the model of the store says and fails only where the model does not
//! admit an operation, but for one machine limit: message ids are the decimal
//! texts of a 64-bit counter, and a message is refused once that has run out.

use vstd::prelude::*;
use vstd::slice::slice_to_vec;
use vstd::string::StringExecFns;
use crate::persistence::AccountModel;
use crate::persistence::MediatorPersistence;
use crate::persistence::PendingModel;
use crate::persistence::PersistenceError;
use crate::persistence::StoreModel;
use crate::persistence::concerning;
use crate::persistence::concerns;
use crate::persistence::outlasting;
use crate::persistence::retrieved;
use crate::persistence::table::distinct_keys;
use crate::persistence::table::has_key;
use crate::persistence::table::index_of_key;
use crate::persistence::table::lemma_table_at;
use crate::persistence::table::lemma_table_push;
use crate::persistence::table::lemma_table_remove;
use crate::persistence::table::table;
use crate::text::decimal;
use crate::text::decimal_text;
use crate::text::lemma_decimal_text_distinct;
use crate::text::same_text;

verus! {

struct AccountRecord {
    auth_pubkey: String,
    signing_key: String,
    did_doc: String,
}

struct RecipientRecord {
    recipient_key: String,
    auth_pubkey: String,
}

struct PendingRecord {
    /// The number whose decimal text is the message id.
    serial: u64,
    message_id: String,
    auth_pubkey: String,
    recipient_key: String,
    payload: Vec<u8>,
}

/// The store in memory: accounts and recipient keys in the order they came,
/// pending messages oldest first.
pub struct MemoryPersistence {
    accounts: Vec<AccountRecord>,
    recipients: Vec<RecipientRecord>,
    queue: Vec<PendingRecord>,
    /// How many message ids have been given out.
    issued: u64,
}

spec fn account_entries(accounts: Seq<AccountRecord>) -> Seq<(Seq<char>, AccountModel)> {
    accounts.map_values(
        |record: AccountRecord|
            (
                record.auth_pubkey@,
                AccountModel { signing_key: record.signing_key@, did_doc: record.did_doc@ },
            ),
    )
}

spec fn recipient_entries(recipients: Seq<RecipientRecord>) -> Seq<(Seq<char>, Seq<char>)> {
    recipients.map_values(|record: RecipientRecord| (record.recipient_key@, record.auth_pubkey@))
}

spec fn pending_model(record: PendingRecord) -> PendingModel {
    PendingModel {
        message_id: record.message_id@,
        owner: record.auth_pubkey@,
        recipient_key: record.recipient_key@,
        payload: record.payload@,
    }
}

spec fn pending_models(queue: Seq<PendingRecord>) -> Seq<PendingModel> {
    queue.map_values(|record: PendingRecord| pending_model(record))
}

/// Each message id is the decimal text of its serial number, and the serial
/// numbers rise along the queue and stay below `issued`.
spec fn serials_in_order(queue: Seq<PendingRecord>, issued: u64) -> bool {
    &&& forall|i: int|
        0 <= i < queue.len() ==> (#[trigger] queue[i]).serial < issued && queue[i].message_id@
            == decimal_text(queue[i].serial as nat)
    &&& forall|i: int, j: int|
        0 <= i < j < queue.len() ==> (#[trigger] queue[i]).serial < (#[trigger] queue[j]).serial
}

/// A copy of `bytes`.
fn copy_bytes(bytes: &Vec<u8>) -> (copy: Vec<u8>)
    ensures
        copy@ == bytes@,
{
    let copy = bytes.clone();
    assert(copy@ =~= bytes@);
    copy
}

/// Tells whether `ids` lists `id`.
fn lists(ids: &Vec<String>, id: &str) -> (listed: bool)
    ensures
        listed == ids.deep_view().to_set().contains(id@),
{
    let count: usize = ids.len();
    let mut i: usize = 0;
    while i < count
        invariant
            i <= count,
            count == ids.len(),
            forall|j: int| 0 <= j < i ==> ids@[j]@ != id@,
        decreases count - i,
    {
        if same_text(ids[i].as_str(), id) {
            assert(ids.deep_view()[i as int] == id@);
            return true;
        }
        i = i + 1;
    }
    assert(!ids.deep_view().contains(id@)) by {
        if ids.deep_view().contains(id@) {
            let j = choose|j: int| 0 <= j < ids.deep_view().len() && ids.deep_view()[j] == id@;
            assert(ids@[j]@ == id@);
        }
    }
    false
}

impl MemoryPersistence {
    /// A store with no account.
    pub fn new() -> (store: Self)
        ensures
            store.wf(),
            store.reliable(),
            store.model() == StoreModel::empty(),
            store.issued() == 0,
    {
        let store = MemoryPersistence {
            accounts: Vec::new(),
            recipients: Vec::new(),
            queue: Vec::new(),
            issued: 0,
        };
        assert(store.model().accounts =~= Map::empty());
        assert(store.model().recipients =~= Map::empty());
        assert(store.model().queue =~= Seq::empty());
        store
    }

    /// How many message ids the store has given out. It can give out one
    /// more while this is below `u64::MAX`.
    pub closed spec fn issued(&self) -> nat {
        self.issued as nat
    }

    /// Where the account of `auth_pubkey` stands.
    fn find_account(&self, auth_pubkey: &str) -> (found: Option<usize>)
        ensures
            match found {
                Some(i) => i < self.accounts.len() && self.accounts@[i as int].auth_pubkey@
                    == auth_pubkey@,
                None => !has_key(account_entries(self.accounts@), auth_pubkey@),
            },
    {
        let count: usize = self.accounts.len();
        let mut i: usize = 0;
        while i < count
            invariant
                i <= count,
                count == self.accounts.len(),
                forall|j: int| 0 <= j < i ==> self.accounts@[j].auth_pubkey@ != auth_pubkey@,
            decreases count - i,
        {
            if same_text(self.accounts[i].auth_pubkey.as_str(), auth_pubkey) {
                return Some(i);
            }
            i = i + 1;
        }
        assert(!has_key(account_entries(self.accounts@), auth_pubkey@)) by {
            let entries = account_entries(self.accounts@);
            if has_key(entries, auth_pubkey@) {
                let j = index_of_key(entries, auth_pubkey@);
                assert(self.accounts@[j].auth_pubkey@ == auth_pubkey@);
            }
        }
        None
    }

    /// Where the entry of `recipient_key` stands.
    fn find_recipient(&self, recipient_key: &str) -> (found: Option<usize>)
        ensures
            match found {
                Some(i) => i < self.recipients.len() && self.recipients@[i as int].recipient_key@
                    == recipient_key@,
                None => !has_key(recipient_entries(self.recipients@), recipient_key@),
            },
    {
        let count: usize = self.recipients.len();
        let mut i: usize = 0;
        while i < count
            invariant
                i <= count,
                count == self.recipients.len(),
                forall|j: int|
                    0 <= j < i ==> self.recipients@[j].recipient_key@ != recipient_key@,
            decreases count - i,
        {
            if same_text(self.recipients[i].recipient_key.as_str(), recipient_key) {
                return Some(i);
            }
            i = i + 1;
        }
        assert(!has_key(recipient_entries(self.recipients@), recipient_key@)) by {
            let entries = recipient_entries(self.recipients@);
            if has_key(entries, recipient_key@) {
                let j = index_of_key(entries, recipient_key@);
                assert(self.recipients@[j].recipient_key@ == recipient_key@);
            }
        }
        None
    }

    /// Tells whether the pending message at `i` is one that `auth_pubkey`
    /// gets under `recipient_key`.
    fn wanted(&self, i: usize, auth_pubkey: &str, recipient_key: Option<&str>) -> (wanted: bool)
        requires
            i < self.queue.len(),
        ensures
            wanted == concerns(
                pending_models(self.queue@)[i as int],
                auth_pubkey@,
                recipient_key.deep_view(),
            ),
    {
        if !same_text(self.queue[i].auth_pubkey.as_str(), auth_pubkey) {
            return false;
        }
        match recipient_key {
            Some(key) => same_text(self.queue[i].recipient_key.as_str(), key),
            None => true,
        }
    }
}

impl MediatorPersistence for MemoryPersistence {
    closed spec fn model(&self) -> StoreModel {
        StoreModel {
            accounts: table(account_entries(self.accounts@)),
            recipients: table(recipient_entries(self.recipients@)),
            queue: pending_models(self.queue@),
        }
    }

    /// The store is reliable while a message id is left to give out.
    open spec fn reliable(&self) -> bool {
        self.issued() < u64::MAX
    }

    closed spec fn wf(&self) -> bool {
        &&& distinct_keys(account_entries(self.accounts@))
        &&& distinct_keys(recipient_entries(self.recipients@))
        &&& serials_in_order(self.queue@, self.issued)
    }

    fn account_exists(&self, auth_pubkey: &str) -> (res: Result<bool, PersistenceError>)
        ensures
            res is Ok,
    {
        match self.find_account(auth_pubkey) {
            Some(i) => {
                proof {
                    lemma_table_at(account_entries(self.accounts@), i as int);
                }
                Ok(true)
            },
            None => Ok(false),
        }
    }

    fn create_account(&mut self, auth_pubkey: &str, our_signing_key: &str, did_doc: &str) -> (res:
        Result<(), PersistenceError>)
        ensures
            res is Ok <==> old(self).model().admits_account(
                auth_pubkey@,
                our_signing_key@,
                did_doc@,
            ),
            final(self).issued() == old(self).issued(),
    {
        let ghost entries = account_entries(self.accounts@);
        match self.find_account(auth_pubkey) {
            Some(i) => {
                proof {
                    lemma_table_at(entries, i as int);
                }
                if same_text(self.accounts[i].signing_key.as_str(), our_signing_key) && same_text(
                    self.accounts[i].did_doc.as_str(),
                    did_doc,
                ) {
                    assert(self.model().accounts.insert(
                        auth_pubkey@,
                        AccountModel { signing_key: our_signing_key@, did_doc: did_doc@ },
                    ) =~= self.model().accounts);
                    Ok(())
                } else {
                    Err(PersistenceError {  })
                }
            },
            None => {
                self.accounts.push(
                    AccountRecord {
                        auth_pubkey: String::from_str(auth_pubkey),
                        signing_key: String::from_str(our_signing_key),
                        did_doc: String::from_str(did_doc),
                    },
                );
                proof {
                    let value = AccountModel { signing_key: our_signing_key@, did_doc: did_doc@ };
                    lemma_table_push(entries, auth_pubkey@, value);
                    assert(account_entries(self.accounts@) =~= entries.push((auth_pubkey@, value)));
                }
                Ok(())
            },
        }
    }

    fn add_recipient(&mut self, auth_pubkey: &str, recipient_key: &str) -> (res: Result<
        (),
        PersistenceError,
    >)
        ensures
            res is Ok <==> old(self).model().admits_recipient(auth_pubkey@, recipient_key@),
            final(self).issued() == old(self).issued(),
    {
        let ghost entries = recipient_entries(self.recipients@);
        match self.find_account(auth_pubkey) {
            Some(i) => {
                proof {
                    lemma_table_at(account_entries(self.accounts@), i as int);
                }
            },
            None => {
                return Err(PersistenceError {  });
            },
        }
        match self.find_recipient(recipient_key) {
            Some(i) => {
                proof {
                    lemma_table_at(entries, i as int);
                }
                Err(PersistenceError {  })
            },
            None => {
                self.recipients.push(
                    RecipientRecord {
                        recipient_key: String::from_str(recipient_key),
                        auth_pubkey: String::from_str(auth_pubkey),
                    },
                );
                proof {
                    lemma_table_push(entries, recipient_key@, auth_pubkey@);
                    assert(recipient_entries(self.recipients@) =~= entries.push(
                        (recipient_key@, auth_pubkey@),
                    ));
                }
                Ok(())
            },
        }
    }

    fn remove_recipient(&mut self, auth_pubkey: &str, recipient_key: &str) -> (res: Result<
        (),
        PersistenceError,
    >)
        ensures
            res is Ok <==> old(self).model().owns(auth_pubkey@, recipient_key@),
            final(self).issued() == old(self).issued(),
    {
        let ghost entries = recipient_entries(self.recipients@);
        match self.find_recipient(recipient_key) {
            Some(i) => {
                proof {
                    lemma_table_at(entries, i as int);
                }
                if same_text(self.recipients[i].auth_pubkey.as_str(), auth_pubkey) {
                    self.recipients.remove(i);
                    proof {
                        lemma_table_remove(entries, i as int);
                        assert(recipient_entries(self.recipients@) =~= entries.remove(i as int));
                    }
                    Ok(())
                } else {
                    Err(PersistenceError {  })
                }
            },
            None => Err(PersistenceError {  }),
        }
    }

    /// The keys come in the order in which they were registered.
    fn list_recipient_keys(&self, auth_pubkey: &str) -> (res: Result<
        Vec<String>,
        PersistenceError,
    >)
        ensures
            res is Ok,
    {
        let ghost entries = recipient_entries(self.recipients@);
        let mut keys: Vec<String> = Vec::new();
        let ghost mut origin: Seq<int> = Seq::empty();
        let count: usize = self.recipients.len();
        let mut i: usize = 0;
        while i < count
            invariant
                i <= count,
                count == self.recipients.len(),
                entries == recipient_entries(self.recipients@),
                origin.len() == keys.len(),
                forall|j: int|
                    0 <= j < keys.len() ==> 0 <= #[trigger] origin[j] < i && keys@[j]@
                        == entries[origin[j]].0 && entries[origin[j]].1 == auth_pubkey@,
                forall|a: int, b: int|
                    0 <= a < b < keys.len() ==> #[trigger] origin[a] < #[trigger] origin[b],
                forall|r: int|
                    0 <= r < i && (#[trigger] entries[r]).1 == auth_pubkey@ ==> exists|j: int|
                        0 <= j < keys.len() && #[trigger] origin[j] == r,
            decreases count - i,
        {
            if same_text(self.recipients[i].auth_pubkey.as_str(), auth_pubkey) {
                let ghost before = origin;
                keys.push(self.recipients[i].recipient_key.clone());
                proof {
                    origin = origin.push(i as int);
                    assert forall|r: int|
                        0 <= r < i + 1 && (#[trigger] entries[r]).1
                            == auth_pubkey@ implies exists|j: int|
                        0 <= j < keys.len() && #[trigger] origin[j] == r by {
                        if r < i {
                            let j = choose|j: int| 0 <= j < before.len() && #[trigger] before[j] == r;
                            assert(origin[j] == r);
                        } else {
                            assert(origin[before.len() as int] == r);
                        }
                    }
                }
            }
            i = i + 1;
        }
        proof {
            let listed = keys.deep_view();
            assert forall|a: int, b: int|
                0 <= a < listed.len() && 0 <= b < listed.len() && a != b implies listed[a]
                != listed[b] by {
                if a < b {
                    assert(origin[a] < origin[b]);
                    assert(entries[origin[a]].0 != entries[origin[b]].0);
                } else {
                    assert(origin[b] < origin[a]);
                    assert(entries[origin[b]].0 != entries[origin[a]].0);
                }
            }
            assert forall|key: Seq<char>|
                listed.to_set().contains(key) <==> self.model().recipient_keys(
                    auth_pubkey@,
                ).contains(key) by {
                if listed.contains(key) {
                    let j = choose|j: int| 0 <= j < listed.len() && listed[j] == key;
                    assert(keys@[j]@ == key);
                    lemma_table_at(entries, origin[j]);
                }
                if self.model().owns(auth_pubkey@, key) {
                    let r = index_of_key(entries, key);
                    lemma_table_at(entries, r);
                    let j = choose|j: int| 0 <= j < keys.len() && #[trigger] origin[j] == r;
                    assert(listed[j] == key);
                }
            }
            assert(listed.to_set() =~= self.model().recipient_keys(auth_pubkey@));
        }
        Ok(keys)
    }

    fn retrieve_pending_message_count(&self, auth_pubkey: &str, recipient_key: Option<&str>) -> (res:
        Result<u64, PersistenceError>)
        ensures
            res is Ok,
    {
        let ghost models = pending_models(self.queue@);
        let ghost wanted = concerning(auth_pubkey@, recipient_key.deep_view());
        let total: usize = self.queue.len();
        let mut count: usize = 0;
        let mut i: usize = 0;
        proof {
            assert(models.take(0) =~= Seq::empty());
            assert(models.take(0).filter(wanted) =~= Seq::empty()) by {
                reveal(Seq::filter);
            }
        }
        while i < total
            invariant
                i <= total,
                total == self.queue.len(),
                models == pending_models(self.queue@),
                wanted == concerning(auth_pubkey@, recipient_key.deep_view()),
                count <= i,
                count == models.take(i as int).filter(wanted).len(),
            decreases total - i,
        {
            proof {
                assert(models.take(i + 1) =~= models.take(i as int).push(models[i as int]));
                models.take(i as int).lemma_filter_push(models[i as int], wanted);
            }
            if self.wanted(i, auth_pubkey, recipient_key) {
                count = count + 1;
            }
            i = i + 1;
        }
        proof {
            assert(models.take(total as int) =~= models);
        }
        Ok(count as u64)
    }

    fn retrieve_pending_messages(
        &self,
        auth_pubkey: &str,
        limit: Option<u32>,
        recipient_key: Option<&str>,
    ) -> (res: Result<Vec<(String, Vec<u8>)>, PersistenceError>)
        ensures
            res is Ok,
    {
        let ghost models = pending_models(self.queue@);
        let ghost wanted = concerning(auth_pubkey@, recipient_key.deep_view());
        let ghost pair = |message: PendingModel| (message.message_id, message.payload);
        let total: usize = self.queue.len();
        let most: usize = match limit {
            Some(most) => most as usize,
            None => total,
        };
        let mut messages: Vec<(String, Vec<u8>)> = Vec::new();
        let mut i: usize = 0;
        proof {
            assert(models.take(0) =~= Seq::empty());
            assert(models.take(0).filter(wanted) =~= Seq::empty()) by {
                reveal(Seq::filter);
            }
            assert(retrieved(messages@) =~= models.take(0).filter(wanted).map_values(pair));
        }
        while i < total && messages.len() < most
            invariant
                i <= total,
                total == self.queue.len(),
                models == pending_models(self.queue@),
                wanted == concerning(auth_pubkey@, recipient_key.deep_view()),
                pair == |message: PendingModel| (message.message_id, message.payload),
                messages.len() <= i,
                messages.len() <= most,
                retrieved(messages@) == models.take(i as int).filter(wanted).map_values(pair),
            decreases total - i,
        {
            let ghost before = messages@;
            proof {
                assert(models.take(i + 1) =~= models.take(i as int).push(models[i as int]));
                models.take(i as int).lemma_filter_push(models[i as int], wanted);
            }
            if self.wanted(i, auth_pubkey, recipient_key) {
                messages.push((self.queue[i].message_id.clone(), copy_bytes(&self.queue[i].payload)));
                proof {
                    assert(retrieved(messages@) =~= retrieved(before).push(pair(models[i as int])));
                    assert(models.take(i + 1).filter(wanted).map_values(pair) =~= models.take(
                        i as int,
                    ).filter(wanted).map_values(pair).push(pair(models[i as int])));
                }
            }
            i = i + 1;
        }
        proof {
            let seen = models.take(i as int).filter(wanted);
            let all = models.filter(wanted);
            assert(models =~= models.take(i as int) + models.skip(i as int));
            Seq::filter_distributes_over_add(models.take(i as int), models.skip(i as int), wanted);
            assert(all == seen + models.skip(i as int).filter(wanted));
            assert(seen.len() == messages.len());
            if i == total {
                assert(models.skip(i as int) =~= Seq::empty());
                assert(models.skip(i as int).filter(wanted) =~= Seq::empty()) by {
                    reveal(Seq::filter);
                }
                assert(all =~= seen);
                assert(all.take(all.len() as int) =~= all);
            } else {
                assert(limit is Some);
                assert(seen.len() == most);
                assert(all.take(most as int) =~= seen);
            }
            assert(self.model().pending(auth_pubkey@, recipient_key.deep_view()) == all);
        }
        Ok(messages)
    }

    /// The id of the new message is the decimal text of how many ids were
    /// given out before it.
    fn enqueue_message(&mut self, recipient_key: &str, message: &[u8]) -> (res: Result<
        (),
        PersistenceError,
    >)
        ensures
            res is Ok <==> old(self).model().binds(recipient_key@) && old(self).issued()
                < u64::MAX,
            res is Ok ==> final(self).issued() == old(self).issued() + 1,
            res is Ok ==> final(self).model().queue.last().message_id == decimal_text(
                old(self).issued(),
            ),
            res is Err ==> final(self).issued() == old(self).issued(),
    {
        let ghost entries = recipient_entries(self.recipients@);
        let ghost models = pending_models(self.queue@);
        match self.find_recipient(recipient_key) {
            Some(i) => {
                proof {
                    lemma_table_at(entries, i as int);
                }
                if self.issued == u64::MAX {
                    return Err(PersistenceError {  });
                }
                let record = PendingRecord {
                    serial: self.issued,
                    message_id: decimal(self.issued),
                    auth_pubkey: self.recipients[i].auth_pubkey.clone(),
                    recipient_key: String::from_str(recipient_key),
                    payload: slice_to_vec(message),
                };
                let ghost added = pending_model(record);
                proof {
                    assert forall|j: int| 0 <= j < models.len() implies (#[trigger] models[j]).message_id
                        != added.message_id by {
                        lemma_decimal_text_distinct(
                            self.queue@[j].serial as nat,
                            self.issued as nat,
                        );
                    }
                }
                self.queue.push(record);
                self.issued = self.issued + 1;
                proof {
                    assert(pending_models(self.queue@) =~= models.push(added));
                }
                Ok(())
            },
            None => Err(PersistenceError {  }),
        }
    }

    fn remove_messages(&mut self, auth_pubkey: &str, message_ids: &Vec<String>) -> (res: Result<
        (),
        PersistenceError,
    >)
        ensures
            res is Ok,
            final(self).issued() == old(self).issued(),
    {
        let ghost start = pending_models(self.queue@);
        let ghost staying = outlasting(auth_pubkey@, message_ids.deep_view().to_set());
        let ghost mut seen: int = 0;
        let mut i: usize = 0;
        proof {
            assert(start.take(0) =~= Seq::empty());
            assert(start.take(0).filter(staying) =~= Seq::empty()) by {
                reveal(Seq::filter);
            }
            assert(pending_models(self.queue@).take(0) =~= start.take(0).filter(staying));
            assert(pending_models(self.queue@).skip(0) =~= start.skip(0));
        }
        while i < self.queue.len()
            invariant
                self.accounts == old(self).accounts,
                self.recipients == old(self).recipients,
                self.issued == old(self).issued,
                serials_in_order(self.queue@, self.issued),
                staying == outlasting(auth_pubkey@, message_ids.deep_view().to_set()),
                0 <= i <= self.queue.len(),
                0 <= seen <= start.len(),
                self.queue.len() - i == start.len() - seen,
                pending_models(self.queue@).take(i as int) == start.take(seen).filter(staying),
                pending_models(self.queue@).skip(i as int) == start.skip(seen),
            decreases self.queue.len() - i,
        {
            let ghost models = pending_models(self.queue@);
            let ghost queue = self.queue@;
            proof {
                assert(models[i as int] == models.skip(i as int)[0]);
                assert(start[seen] == start.skip(seen)[0]);
                assert(start.take(seen + 1) =~= start.take(seen).push(start[seen]));
                start.take(seen).lemma_filter_push(start[seen], staying);
            }
            let acknowledged = same_text(self.queue[i].auth_pubkey.as_str(), auth_pubkey) && lists(
                message_ids,
                self.queue[i].message_id.as_str(),
            );
            if acknowledged {
                self.queue.remove(i);
                proof {
                    assert(self.queue@ == queue.remove(i as int));
                    assert(pending_models(self.queue@) =~= models.remove(i as int));
                    assert(models.remove(i as int).take(i as int) =~= models.take(i as int));
                    assert(models.remove(i as int).skip(i as int) =~= models.skip(i as int).skip(1));
                    assert(start.skip(seen + 1) =~= start.skip(seen).skip(1));
                    assert forall|a: int, b: int| 0 <= a < b < self.queue@.len() implies (
                    #[trigger] self.queue@[a]).serial < (#[trigger] self.queue@[b]).serial by {
                        let from_a = if a < i {
                            a
                        } else {
                            a + 1
                        };
                        let from_b = if b < i {
                            b
                        } else {
                            b + 1
                        };
                        assert(self.queue@[a] == queue[from_a]);
                        assert(self.queue@[b] == queue[from_b]);
                        assert(queue[from_a].serial < queue[from_b].serial);
                    }
                    assert forall|a: int| 0 <= a < self.queue@.len() implies (
                    #[trigger] self.queue@[a]).serial < self.issued && self.queue@[a].message_id@
                        == decimal_text(self.queue@[a].serial as nat) by {
                        let from_a = if a < i {
                            a
                        } else {
                            a + 1
                        };
                        assert(self.queue@[a] == queue[from_a]);
                        assert(queue[from_a].serial < self.issued);
                    }
                    seen = seen + 1;
                }
            } else {
                proof {
                    assert(models.take(i + 1) =~= models.take(i as int).push(models[i as int]));
                    assert(models.skip(i + 1) =~= models.skip(i as int).skip(1));
                    assert(start.skip(seen + 1) =~= start.skip(seen).skip(1));
                    seen = seen + 1;
                }
                i = i + 1;
            }
        }
        proof {
            assert(pending_models(self.queue@).take(i as int) =~= pending_models(self.queue@));
            assert(start.take(seen) =~= start);
        }
        Ok(())
    }
}

} // verus!
