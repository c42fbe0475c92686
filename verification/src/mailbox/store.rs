//! The executable mailbox store, held to its model.

use crate::digest::did_hash;
use crate::errors::StoreError;
use crate::mailbox::model::{
    addressed_to, header_of, in_folder, lemma_id_is_unique, lemma_without_preserves_valid, Folder,
    HeaderModel, MessageModel, PublicationModel, Removal, StoreLimits, StoreModel,
};
use crate::text::{byte_length, clone_opt, opt_str, opt_text};
use vstd::prelude::*;

verus! {

/// A message as the store keeps it for its recipient.
#[derive(Debug)]
pub struct StoredMessage {
    /// The id that the store gave the message.
    pub message_id: u64,
    pub recipient_did: String,
    /// The hash of the recipient's DID: the key of the mailbox.
    pub recipient_hash: String,
    pub sender_did: Option<String>,
    /// The hash of the sender's DID, where the sender is known.
    pub sender_hash: Option<String>,
    /// The packed envelope, never opened by the store.
    pub packed: String,
    /// The length of the packed envelope in bytes.
    pub byte_length: usize,
    /// The second at which the message was stored.
    pub enqueue_time: u64,
    /// The second from which the message counts as absent.
    pub expiry_time: u64,
}

impl View for StoredMessage {
    type V = MessageModel;

    open spec fn view(&self) -> MessageModel {
        MessageModel {
            message_id: self.message_id,
            recipient_did: self.recipient_did@,
            recipient_hash: self.recipient_hash@,
            sender_did: opt_text(self.sender_did),
            sender_hash: opt_text(self.sender_hash),
            packed: self.packed@,
            byte_length: self.byte_length as nat,
            enqueue_time: self.enqueue_time,
            expiry_time: self.expiry_time,
        }
    }
}

/// What a listing shows of a stored message.
#[derive(Debug)]
pub struct MessageHeader {
    pub message_id: u64,
    pub enqueue_time: u64,
    pub expiry_time: u64,
    pub from_did: Option<String>,
    pub byte_length: usize,
}

impl View for MessageHeader {
    type V = HeaderModel;

    open spec fn view(&self) -> HeaderModel {
        HeaderModel {
            message_id: self.message_id,
            enqueue_time: self.enqueue_time,
            expiry_time: self.expiry_time,
            from_did: opt_text(self.from_did),
            byte_length: self.byte_length as nat,
        }
    }
}

/// A message announced on the live-stream bus when it was stored.
#[derive(Debug)]
pub struct Publication {
    /// The hash of the recipient's DID: the topic.
    pub did_hash: String,
    pub message_id: u64,
    pub packed: String,
}

impl View for Publication {
    type V = PublicationModel;

    open spec fn view(&self) -> PublicationModel {
        PublicationModel {
            did_hash: self.did_hash@,
            message_id: self.message_id,
            packed: self.packed@,
        }
    }
}

/// The models of stored messages, in order.
pub open spec fn models(v: Seq<StoredMessage>) -> Seq<MessageModel> {
    v.map_values(|m: StoredMessage| m@)
}

/// The models of headers, in order.
pub open spec fn header_models(v: Seq<MessageHeader>) -> Seq<HeaderModel> {
    v.map_values(|h: MessageHeader| h@)
}

/// The models of publications, in order.
pub open spec fn publication_models(v: Seq<Publication>) -> Seq<PublicationModel> {
    v.map_values(|p: Publication| p@)
}

/// What to take out of the store in one pass.
enum Remover {
    Expired { now: u64 },
    ExpiredIn { folder: Folder, hash: String, now: u64 },
    Message { hash: String, id: u64 },
}

impl Remover {
    /// What this pass takes out, in the model.
    spec fn model(&self) -> Removal {
        match self {
            Remover::Expired { now } => Removal::Expired { now: *now },
            Remover::ExpiredIn { folder, hash, now } => Removal::ExpiredIn {
                folder: *folder,
                hash: hash@,
                now: *now,
            },
            Remover::Message { hash, id } => Removal::Message { hash: hash@, id: *id },
        }
    }
}

/// Whether `m` lies in the given folder of the DID with hash `hash`.
fn lies_in(m: &StoredMessage, folder: Folder, hash: &String) -> (inside: bool)
    ensures
        inside == in_folder(folder, hash@)(m@),
{
    match folder {
        Folder::Inbox => m.recipient_hash == *hash,
        Folder::Outbox => match &m.sender_hash {
            Some(s) => *s == *hash,
            None => false,
        },
    }
}

impl Remover {
    /// Whether this pass takes `m` out.
    fn takes(&self, m: &StoredMessage) -> (taken: bool)
        ensures
            taken == self.model().takes(m@),
    {
        match self {
            Remover::Expired { now } => m.expiry_time <= *now,
            Remover::ExpiredIn { folder, hash, now } => lies_in(m, *folder, hash) && m.expiry_time
                <= *now,
            Remover::Message { hash, id } => m.recipient_hash == *hash && m.message_id == *id,
        }
    }
}

/// Takes out of `messages` what `r` names and keeps the rest in order.
fn remove_from(messages: &mut Vec<StoredMessage>, r: &Remover) -> (removed: usize)
    ensures
        models(final(messages)@) == models(old(messages)@).filter(r.model().leaves()),
        removed == old(messages)@.len() - final(messages)@.len(),
{
    let total: usize = messages.len();
    let ghost before = models(messages@);
    let ghost keep = r.model().leaves();
    let ghost mut done: int = 0;
    let mut removed: usize = 0;
    let mut i: usize = 0;
    proof {
        reveal(Seq::filter);
        assert(before.take(0).filter(keep) =~= Seq::<MessageModel>::empty());
        assert(models(messages@).take(0) =~= Seq::<MessageModel>::empty());
        assert(models(messages@).skip(0) =~= before.skip(0));
    }
    while i < messages.len()
        invariant
            keep == r.model().leaves(),
            before.len() == old(messages)@.len(),
            before.len() == total,
            0 <= i <= messages.len(),
            0 <= done <= before.len(),
            done == i + removed,
            messages.len() + removed == before.len(),
            models(messages@).take(i as int) == before.take(done).filter(keep),
            models(messages@).skip(i as int) == before.skip(done),
        decreases messages.len() - i,
    {
        let ghost current = models(messages@);
        assert(current[i as int] == current.skip(i as int)[0]);
        assert(before.skip(done)[0] == before[done]);
        assert(before.take(done + 1) =~= before.take(done).push(before[done]));
        proof {
            before.take(done).lemma_filter_push(before[done], keep);
        }
        if r.takes(&messages[i]) {
            messages.remove(i);
            removed += 1;
            proof {
                let after = models(messages@);
                assert(after =~= current.remove(i as int));
                assert(after.take(i as int) =~= current.take(i as int));
                assert(after.skip(i as int) =~= current.skip(i as int).skip(1));
                assert(before.skip(done).skip(1) =~= before.skip(done + 1));
                done = done + 1;
            }
        } else {
            proof {
                assert(current.take(i + 1) =~= current.take(i as int).push(current[i as int]));
                assert(current.skip(i + 1) =~= current.skip(i as int).skip(1));
                assert(before.skip(done).skip(1) =~= before.skip(done + 1));
                done = done + 1;
            }
            i += 1;
        }
    }
    proof {
        assert(models(messages@).take(i as int) =~= models(messages@));
        assert(before.take(done) =~= before);
    }
    removed
}

/// The mailbox store.
pub struct MailboxStore {
    limits: StoreLimits,
    messages: Vec<StoredMessage>,
    next_id: u64,
    published: Vec<Publication>,
}

impl View for MailboxStore {
    type V = StoreModel;

    closed spec fn view(&self) -> StoreModel {
        StoreModel {
            limits: self.limits,
            messages: models(self.messages@),
            next_id: self.next_id,
            published: publication_models(self.published@),
        }
    }
}

impl MailboxStore {
    /// Whether the store is in a state that its operations keep: its model
    /// meets the store's invariant.
    pub open spec fn wf(&self) -> bool {
        self@.valid()
    }

    /// An empty store that keeps `limits`.
    pub fn new(limits: StoreLimits) -> (store: MailboxStore)
        ensures
            store.wf(),
            store@ == StoreModel::empty(limits),
    {
        let store = MailboxStore {
            limits,
            messages: Vec::new(),
            next_id: 0,
            published: Vec::new(),
        };
        proof {
            assert(models(store.messages@) =~= Seq::<MessageModel>::empty());
            assert(publication_models(store.published@) =~= Seq::<PublicationModel>::empty());
            assert forall|h: Seq<char>| #[trigger] store@.queue(h).len() == 0 by {
                store@.messages.lemma_filter_len(addressed_to(h));
            }
        }
        store
    }

    /// The bounds that the store keeps.
    pub fn limits(&self) -> (limits: StoreLimits)
        ensures
            limits == self@.limits,
    {
        self.limits
    }

    /// Drops from the store what `r` names.
    fn remove(&mut self, r: &Remover) -> (removed: usize)
        requires
            old(self).wf(),
        ensures
            final(self).wf(),
            final(self)@ == old(self)@.without(r.model()),
            removed == old(self)@.messages.len() - final(self)@.messages.len(),
    {
        proof {
            lemma_without_preserves_valid(self@, r.model());
        }
        remove_from(&mut self.messages, r)
    }

    /// How many messages wait in the mailbox of the DID with hash `hash`.
    pub fn queue_length(&self, hash: &String) -> (n: usize)
        ensures
            n == self@.queue(hash@).len(),
    {
        let ghost all = models(self.messages@);
        let ghost mine = addressed_to(hash@);
        let mut n: usize = 0;
        let mut i: usize = 0;
        proof {
            reveal(Seq::filter);
            assert(all.take(0).filter(mine) =~= Seq::<MessageModel>::empty());
        }
        while i < self.messages.len()
            invariant
                0 <= i <= self.messages.len(),
                all == models(self.messages@),
                mine == addressed_to(hash@),
                n == all.take(i as int).filter(mine).len(),
                n <= i,
            decreases self.messages.len() - i,
        {
            proof {
                assert(all.take(i + 1) =~= all.take(i as int).push(all[i as int]));
                all.take(i as int).lemma_filter_push(all[i as int], mine);
            }
            if self.messages[i].recipient_hash == *hash {
                n += 1;
            }
            i += 1;
        }
        assert(all.take(i as int) =~= all);
        n
    }

    /// Stores `packed` for `to_did` at the second `now`.
    ///
    /// A message longer than `max_message_size` bytes is refused as `OverSized`
    /// and nothing changes. Otherwise the recipient's mailbox is first relieved
    /// of what has expired; if it then still holds `max_queued_messages`, the
    /// message is refused as `OverCapacity`. Else the message joins the end of
    /// the mailbox under a fresh id, expires `message_expiry_minutes` later, and
    /// is announced on the bus. `InternalError` is returned only where the next
    /// id or the expiry time cannot be represented. `session_id` names the
    /// request for correlation and does not bear on the outcome.
    pub fn store_message(
        &mut self,
        session_id: &str,
        packed: &str,
        to_did: &str,
        from_did: Option<&str>,
        now: u64,
    ) -> (result: Result<u64, StoreError>)
        requires
            old(self).wf(),
        ensures
            final(self).wf(),
            result == old(self)@.store_result(packed@, to_did@, now),
            final(self)@ == old(self)@.after_store(packed@, to_did@, opt_str(from_did), now),
    {
        let size = byte_length(packed);
        if size > self.limits.max_message_size as usize {
            return Err(StoreError::OverSized);
        }
        let hash = did_hash(to_did);
        let purge = Remover::ExpiredIn { folder: Folder::Inbox, hash: hash.clone(), now };
        self.remove(&purge);
        if self.queue_length(&hash) >= self.limits.max_queued_messages as usize {
            return Err(StoreError::OverCapacity);
        }
        let lifetime: u64 = 60 * (self.limits.message_expiry_minutes as u64);
        if self.next_id == u64::MAX || now > u64::MAX - lifetime {
            return Err(StoreError::InternalError);
        }
        let id = self.next_id;
        let (sender_did, sender_hash) = match from_did {
            Some(d) => (Some(d.to_owned()), Some(did_hash(d))),
            None => (None, None),
        };
        let message = StoredMessage {
            message_id: id,
            recipient_did: to_did.to_owned(),
            recipient_hash: hash.clone(),
            sender_did,
            sender_hash,
            packed: packed.to_owned(),
            byte_length: size,
            enqueue_time: now,
            expiry_time: now + lifetime,
        };
        let ghost relieved = self@;
        let ghost added = message@;
        assert(added == old(self)@.new_message(packed@, to_did@, opt_str(from_did), now));
        self.messages.push(message);
        self.published.push(Publication { did_hash: hash, message_id: id, packed: packed.to_owned() });
        self.next_id = id + 1;
        proof {
            assert(models(self.messages@) =~= relieved.messages.push(added));
            assert(publication_models(self.published@) =~= relieved.published.push(
                PublicationModel { did_hash: added.recipient_hash, message_id: id, packed: packed@ },
            ));
            assert forall|h: Seq<char>| #[trigger]
                self@.queue(h).len() <= self@.limits.max_queued_messages by {
                relieved.messages.lemma_filter_push(added, addressed_to(h));
                assert(relieved.queue(h).len() <= relieved.limits.max_queued_messages);
            }
        }
        Ok(id)
    }

    /// Where the message `id` of the mailbox of `hash` stands.
    fn position_of(&self, hash: &String, id: u64) -> (at: Option<usize>)
        ensures
            match at {
                Some(i) => self@.is_at(i as int, hash@, id),
                None => !self@.holds(hash@, id),
            },
    {
        let mut i: usize = 0;
        while i < self.messages.len()
            invariant
                0 <= i <= self.messages.len(),
                forall|j: int| 0 <= j < i ==> !self@.is_at(j, hash@, id),
            decreases self.messages.len() - i,
        {
            if self.messages[i].message_id == id && self.messages[i].recipient_hash == *hash {
                return Some(i);
            }
            i += 1;
        }
        None
    }

    /// The packed message `message_id` of the mailbox of the DID with hash
    /// `did_hash`, at the second `now`.
    ///
    /// The mailbox is first relieved of what has expired. The message is
    /// returned if the mailbox then holds it; a message that is absent, has
    /// expired or lies in another mailbox is `NotFound`.
    pub fn get_message(&mut self, did_hash: &str, message_id: u64, now: u64) -> (result: Result<
        String,
        StoreError,
    >)
        requires
            old(self).wf(),
        ensures
            final(self).wf(),
            final(self)@ == old(self)@.purged(Folder::Inbox, did_hash@, now),
            text_result(result) == old(self)@.get_result(did_hash@, message_id, now),
    {
        let hash = did_hash.to_owned();
        let purge = Remover::ExpiredIn { folder: Folder::Inbox, hash: hash.clone(), now };
        self.remove(&purge);
        match self.position_of(&hash, message_id) {
            Some(i) => {
                proof {
                    let k = choose|k: int| self@.is_at(k, hash@, message_id);
                    lemma_id_is_unique(self@, i as int, k);
                }
                Ok(self.messages[i].packed.clone())
            },
            None => Err(StoreError::NotFound),
        }
    }

    /// The headers of the oldest messages in a folder of the DID with hash
    /// `did_hash`, oldest first, at the second `now`.
    ///
    /// The folder is first relieved of what has expired. At most `limit`
    /// headers are returned, and never more than `max_listed_messages`.
    pub fn list_messages(&mut self, did_hash: &str, folder: Folder, limit: usize, now: u64) -> (headers:
        Vec<MessageHeader>)
        requires
            old(self).wf(),
        ensures
            final(self).wf(),
            final(self)@ == old(self)@.purged(folder, did_hash@, now),
            header_models(headers@) == old(self)@.list_result(folder, did_hash@, limit, now),
    {
        let hash = did_hash.to_owned();
        let purge = Remover::ExpiredIn { folder, hash: hash.clone(), now };
        self.remove(&purge);
        let cap: usize = if limit <= self.limits.max_listed_messages as usize {
            limit
        } else {
            self.limits.max_listed_messages as usize
        };
        let ghost all = models(self.messages@);
        let ghost mine = in_folder(folder, hash@);
        let mut headers: Vec<MessageHeader> = Vec::new();
        let mut i: usize = 0;
        proof {
            reveal(Seq::filter);
            assert(all.take(0).filter(mine) =~= Seq::<MessageModel>::empty());
            assert(header_models(headers@) =~= all.take(0).filter(mine).map_values(
                |m: MessageModel| header_of(m),
            ));
        }
        while i < self.messages.len() && headers.len() < cap
            invariant
                0 <= i <= self.messages.len(),
                all == models(self.messages@),
                mine == in_folder(folder, hash@),
                headers.len() <= cap,
                headers.len() <= i,
                header_models(headers@) == all.take(i as int).filter(mine).map_values(
                    |m: MessageModel| header_of(m),
                ),
            decreases self.messages.len() - i,
        {
            proof {
                assert(all.take(i + 1) =~= all.take(i as int).push(all[i as int]));
                all.take(i as int).lemma_filter_push(all[i as int], mine);
            }
            if lies_in(&self.messages[i], folder, &hash) {
                let ghost seen = header_models(headers@);
                let m = &self.messages[i];
                headers.push(
                    MessageHeader {
                        message_id: m.message_id,
                        enqueue_time: m.enqueue_time,
                        expiry_time: m.expiry_time,
                        from_did: clone_opt(&m.sender_did),
                        byte_length: m.byte_length,
                    },
                );
                proof {
                    assert(header_models(headers@) =~= seen.push(header_of(all[i as int])));
                    assert(all.take(i + 1).filter(mine).map_values(|m: MessageModel| header_of(m))
                        =~= seen.push(header_of(all[i as int])));
                }
            }
            i += 1;
        }
        proof {
            let found = all.take(i as int).filter(mine);
            let whole = all.filter(mine);
            assert(all =~= all.take(i as int) + all.skip(i as int));
            Seq::filter_distributes_over_add(all.take(i as int), all.skip(i as int), mine);
            assert(whole == found + all.skip(i as int).filter(mine));
            if i == self.messages.len() {
                assert(all.skip(i as int) =~= Seq::<MessageModel>::empty());
                assert(all.skip(i as int).filter(mine) =~= Seq::<MessageModel>::empty());
                assert(whole =~= found);
                assert(whole.take(whole.len() as int) =~= whole);
            } else {
                assert(found.len() == cap);
                assert(whole.take(cap as int) =~= found);
            }
        }
        headers
    }

    /// Deletes the message `message_id` for the caller whose DID hash is
    /// `did_hash`, at the second `now`.
    ///
    /// The caller's mailbox is first relieved of what has expired. The message
    /// is deleted exactly if that mailbox then holds it: a message of another
    /// mailbox is `NotFound`, as an absent one is, and stays where it is.
    /// `session_id` names the request for correlation and does not bear on the
    /// outcome.
    pub fn delete_message(&mut self, session_id: &str, did_hash: &str, message_id: u64, now: u64) -> (result:
        Result<(), StoreError>)
        requires
            old(self).wf(),
        ensures
            final(self).wf(),
            result == old(self)@.delete_result(did_hash@, message_id, now),
            final(self)@ == old(self)@.after_delete(did_hash@, message_id, now),
    {
        let hash = did_hash.to_owned();
        let purge = Remover::ExpiredIn { folder: Folder::Inbox, hash: hash.clone(), now };
        self.remove(&purge);
        let found = self.position_of(&hash, message_id);
        let taking = Remover::Message { hash, id: message_id };
        self.remove(&taking);
        match found {
            Some(_) => Ok(()),
            None => Err(StoreError::NotFound),
        }
    }

    /// Drops every message that has expired at the second `now` and says how
    /// many there were.
    pub fn sweep_expired(&mut self, now: u64) -> (removed: usize)
        requires
            old(self).wf(),
        ensures
            final(self).wf(),
            final(self)@ == old(self)@.swept(now),
            removed == old(self)@.messages.len() - final(self)@.messages.len(),
    {
        let sweep = Remover::Expired { now };
        self.remove(&sweep)
    }

    /// How many messages the store holds, over all mailboxes.
    pub fn message_count(&self) -> (n: usize)
        ensures
            n == self@.messages.len(),
    {
        self.messages.len()
    }

    /// Hands out what was announced on the bus since the last call, oldest
    /// first, and forgets it.
    pub fn take_publications(&mut self) -> (out: Vec<Publication>)
        requires
            old(self).wf(),
        ensures
            final(self).wf(),
            publication_models(out@) == old(self)@.published,
            final(self)@ == (StoreModel { published: Seq::empty(), ..old(self)@ }),
    {
        let mut out: Vec<Publication> = Vec::new();
        core::mem::swap(&mut out, &mut self.published);
        proof {
            assert(publication_models(self.published@) =~= Seq::<PublicationModel>::empty());
            assert forall|h: Seq<char>| #[trigger]
                self@.queue(h).len() <= self@.limits.max_queued_messages by {
                assert(self@.queue(h) == old(self)@.queue(h));
            }
        }
        out
    }
}

/// The text of a packed message in a result.
pub open spec fn text_result(r: Result<String, StoreError>) -> Result<Seq<char>, StoreError> {
    match r {
        Ok(s) => Ok(s@),
        Err(e) => Err(e),
    }
}

} // verus!
