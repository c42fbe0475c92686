//! The mathematical model of the mailbox store: what it holds and what each
//! operation makes of it.

use crate::digest::spec_did_hash;
use crate::errors::StoreError;
use crate::text::byte_len;
use vstd::prelude::*;

verus! {

/// The bounds that the store keeps.
#[derive(Clone, Copy, Debug, PartialEq, Eq, Structural)]
pub struct StoreLimits {
    /// The most bytes a packed message may have.
    pub max_message_size: u32,
    /// The most messages one recipient's queue may hold.
    pub max_queued_messages: u32,
    /// The minutes after which a stored message expires.
    pub message_expiry_minutes: u32,
    /// The most headers one listing returns.
    pub max_listed_messages: u32,
    /// The most messages one request may delete.
    pub max_deleted_messages: u32,
}

/// Which of a DID's two listings is meant.
#[derive(Clone, Copy, Debug, PartialEq, Eq, Structural)]
pub enum Folder {
    /// The messages addressed to the DID.
    Inbox,
    /// The messages that the DID sent.
    Outbox,
}

/// A stored message.
pub struct MessageModel {
    pub message_id: u64,
    pub recipient_did: Seq<char>,
    pub recipient_hash: Seq<char>,
    pub sender_did: Option<Seq<char>>,
    pub sender_hash: Option<Seq<char>>,
    pub packed: Seq<char>,
    pub byte_length: nat,
    pub enqueue_time: u64,
    pub expiry_time: u64,
}

/// What a listing shows of a stored message.
pub struct HeaderModel {
    pub message_id: u64,
    pub enqueue_time: u64,
    pub expiry_time: u64,
    pub from_did: Option<Seq<char>>,
    pub byte_length: nat,
}

/// A message announced on the live-stream bus when it was stored.
pub struct PublicationModel {
    pub did_hash: Seq<char>,
    pub message_id: u64,
    pub packed: Seq<char>,
}

/// The hash of an optional DID.
pub open spec fn opt_hash(did: Option<Seq<char>>) -> Option<Seq<char>> {
    match did {
        Some(d) => Some(spec_did_hash(d)),
        None => None,
    }
}

/// The seconds that a message stored under `limits` lives.
pub open spec fn lifetime_seconds(limits: StoreLimits) -> int {
    60 * limits.message_expiry_minutes
}

/// The header of `m`.
pub open spec fn header_of(m: MessageModel) -> HeaderModel {
    HeaderModel {
        message_id: m.message_id,
        enqueue_time: m.enqueue_time,
        expiry_time: m.expiry_time,
        from_did: m.sender_did,
        byte_length: m.byte_length,
    }
}

/// The messages addressed to the DID with hash `h`.
pub open spec fn addressed_to(h: Seq<char>) -> spec_fn(MessageModel) -> bool {
    |m: MessageModel| m.recipient_hash == h
}

/// The messages in the given folder of the DID with hash `h`.
pub open spec fn in_folder(folder: Folder, h: Seq<char>) -> spec_fn(MessageModel) -> bool {
    |m: MessageModel|
        match folder {
            Folder::Inbox => m.recipient_hash == h,
            Folder::Outbox => m.sender_hash == Some(h),
        }
}

/// What is taken out of the store in one step.
pub enum Removal {
    /// Every message that has expired at `now`.
    Expired { now: u64 },
    /// The messages in a folder of `hash` that have expired at `now`.
    ExpiredIn { folder: Folder, hash: Seq<char>, now: u64 },
    /// The message `id`, if it is addressed to `hash`.
    Message { hash: Seq<char>, id: u64 },
}

impl Removal {
    /// Whether this removal takes `m` out.
    pub open spec fn takes(self, m: MessageModel) -> bool {
        match self {
            Removal::Expired { now } => m.expiry_time <= now,
            Removal::ExpiredIn { folder, hash, now } => in_folder(folder, hash)(m) && m.expiry_time
                <= now,
            Removal::Message { hash, id } => m.recipient_hash == hash && m.message_id == id,
        }
    }

    /// The messages that this removal leaves.
    pub open spec fn leaves(self) -> spec_fn(MessageModel) -> bool {
        |m: MessageModel| !self.takes(m)
    }
}

/// Whether `m` is as the store makes its messages under `limits`.
pub open spec fn message_valid(limits: StoreLimits, m: MessageModel) -> bool {
    &&& m.byte_length == byte_len(m.packed)
    &&& m.byte_length <= limits.max_message_size
    &&& m.expiry_time == m.enqueue_time + lifetime_seconds(limits)
    &&& m.recipient_hash == spec_did_hash(m.recipient_did)
    &&& m.sender_hash == opt_hash(m.sender_did)
}

/// The store: its bounds, every stored message in the order of arrival, the
/// id that the next message gets, and what was announced on the bus.
pub struct StoreModel {
    pub limits: StoreLimits,
    pub messages: Seq<MessageModel>,
    pub next_id: u64,
    pub published: Seq<PublicationModel>,
}

impl StoreModel {
    /// The empty store.
    pub open spec fn empty(limits: StoreLimits) -> StoreModel {
        StoreModel { limits, messages: Seq::empty(), next_id: 0, published: Seq::empty() }
    }

    /// The mailbox of the DID with hash `h`: its messages, oldest first.
    pub open spec fn queue(self, h: Seq<char>) -> Seq<MessageModel> {
        self.messages.filter(addressed_to(h))
    }

    /// A folder of the DID with hash `h`, oldest message first.
    pub open spec fn folder(self, folder: Folder, h: Seq<char>) -> Seq<MessageModel> {
        self.messages.filter(in_folder(folder, h))
    }

    /// Whether the DID with hash `h` has a mailbox: it has one exactly while a
    /// message is queued for it.
    pub open spec fn has_mailbox(self, h: Seq<char>) -> bool {
        self.queue(h).len() > 0
    }

    /// The invariant of the store.
    pub open spec fn valid(self) -> bool {
        &&& forall|i: int|
            0 <= i < self.messages.len() ==> (#[trigger] self.messages[i]).message_id
                < self.next_id
        &&& forall|i: int, j: int|
            0 <= i < j < self.messages.len() ==> (#[trigger] self.messages[i]).message_id < (
            #[trigger] self.messages[j]).message_id
        &&& forall|i: int|
            0 <= i < self.messages.len() ==> message_valid(self.limits, #[trigger] self.messages[i])
        &&& forall|h: Seq<char>| #[trigger]
            self.queue(h).len() <= self.limits.max_queued_messages
    }

    /// The store without what `r` takes out.
    pub open spec fn without(self, r: Removal) -> StoreModel {
        StoreModel { messages: self.messages.filter(r.leaves()), ..self }
    }

    /// The store after the expired messages in a folder of `h` were dropped.
    pub open spec fn purged(self, folder: Folder, h: Seq<char>, now: u64) -> StoreModel {
        self.without(Removal::ExpiredIn { folder, hash: h, now })
    }

    /// The store after every expired message was dropped.
    pub open spec fn swept(self, now: u64) -> StoreModel {
        self.without(Removal::Expired { now })
    }

    /// Whether the message at index `i` is the message `id` in the mailbox of `h`.
    pub open spec fn is_at(self, i: int, h: Seq<char>, id: u64) -> bool {
        &&& 0 <= i < self.messages.len()
        &&& self.messages[i].message_id == id
        &&& self.messages[i].recipient_hash == h
    }

    /// Whether the mailbox of `h` holds the message `id`.
    pub open spec fn holds(self, h: Seq<char>, id: u64) -> bool {
        exists|i: int| self.is_at(i, h, id)
    }

    /// The message `id` in the mailbox of `h`, where it holds one.
    pub open spec fn held(self, h: Seq<char>, id: u64) -> MessageModel {
        self.messages[choose|i: int| self.is_at(i, h, id)]
    }

    /// The message that `store_message` makes.
    pub open spec fn new_message(
        self,
        packed: Seq<char>,
        to_did: Seq<char>,
        from_did: Option<Seq<char>>,
        now: u64,
    ) -> MessageModel {
        MessageModel {
            message_id: self.next_id,
            recipient_did: to_did,
            recipient_hash: spec_did_hash(to_did),
            sender_did: from_did,
            sender_hash: opt_hash(from_did),
            packed,
            byte_length: byte_len(packed),
            enqueue_time: now,
            expiry_time: (now + lifetime_seconds(self.limits)) as u64,
        }
    }

    /// What `store_message` returns: the size is checked first, then the
    /// recipient's queue is relieved of what has expired and its length is
    /// checked, then the id and the expiry time must be representable.
    pub open spec fn store_result(
        self,
        packed: Seq<char>,
        to_did: Seq<char>,
        now: u64,
    ) -> Result<u64, StoreError> {
        let h = spec_did_hash(to_did);
        if byte_len(packed) > self.limits.max_message_size {
            Err(StoreError::OverSized)
        } else if self.purged(Folder::Inbox, h, now).queue(h).len()
            >= self.limits.max_queued_messages {
            Err(StoreError::OverCapacity)
        } else if self.next_id == u64::MAX || now + lifetime_seconds(self.limits) > u64::MAX {
            Err(StoreError::InternalError)
        } else {
            Ok(self.next_id)
        }
    }

    /// The store after `store_message`.
    pub open spec fn after_store(
        self,
        packed: Seq<char>,
        to_did: Seq<char>,
        from_did: Option<Seq<char>>,
        now: u64,
    ) -> StoreModel {
        let h = spec_did_hash(to_did);
        let relieved = self.purged(Folder::Inbox, h, now);
        match self.store_result(packed, to_did, now) {
            Err(StoreError::OverSized) => self,
            Err(_) => relieved,
            Ok(id) => StoreModel {
                messages: relieved.messages.push(self.new_message(packed, to_did, from_did, now)),
                next_id: (id + 1) as u64,
                published: relieved.published.push(
                    PublicationModel { did_hash: h, message_id: id, packed },
                ),
                ..relieved
            },
        }
    }

    /// What `get_message` returns: the packed message `id` of the mailbox of
    /// `h`, unless it is absent or has expired.
    pub open spec fn get_result(self, h: Seq<char>, id: u64, now: u64) -> Result<
        Seq<char>,
        StoreError,
    > {
        let relieved = self.purged(Folder::Inbox, h, now);
        if relieved.holds(h, id) {
            Ok(relieved.held(h, id).packed)
        } else {
            Err(StoreError::NotFound)
        }
    }

    /// How many headers a listing with the given limit returns of `available`.
    pub open spec fn listed_count(self, limit: usize, available: nat) -> nat {
        let cap = if limit <= self.limits.max_listed_messages {
            limit as nat
        } else {
            self.limits.max_listed_messages as nat
        };
        if available <= cap {
            available
        } else {
            cap
        }
    }

    /// What `list_messages` returns: the headers of the oldest unexpired
    /// messages of the folder, oldest first.
    pub open spec fn list_result(self, folder: Folder, h: Seq<char>, limit: usize, now: u64) -> Seq<
        HeaderModel,
    > {
        let all = self.purged(folder, h, now).folder(folder, h);
        all.take(self.listed_count(limit, all.len()) as int).map_values(
            |m: MessageModel| header_of(m),
        )
    }

    /// What `delete_message` returns for the caller whose DID hash is `h`.
    pub open spec fn delete_result(self, h: Seq<char>, id: u64, now: u64) -> Result<
        (),
        StoreError,
    > {
        if self.purged(Folder::Inbox, h, now).holds(h, id) {
            Ok(())
        } else {
            Err(StoreError::NotFound)
        }
    }

    /// The store after `delete_message`.
    pub open spec fn after_delete(self, h: Seq<char>, id: u64, now: u64) -> StoreModel {
        self.purged(Folder::Inbox, h, now).without(Removal::Message { hash: h, id })
    }
}

} // verus!

verus! {

/// Taking messages out of a valid store leaves a valid store, and no
/// mailbox grows by it.
pub proof fn lemma_without_preserves_valid(s: StoreModel, r: Removal)
    requires
        s.valid(),
    ensures
        s.without(r).valid(),
        forall|h: Seq<char>| #[trigger] s.without(r).queue(h).len() <= s.queue(h).len(),
{
    let t = s.without(r);
    let older = |a: MessageModel, b: MessageModel| a.message_id < b.message_id;
    crate::seq_facts::lemma_filter_preserves_order(s.messages, r.leaves(), older);
    assert forall|i: int| 0 <= i < t.messages.len() implies (#[trigger] t.messages[i]).message_id
        < t.next_id && message_valid(t.limits, t.messages[i]) by {
        assert(s.messages.contains(t.messages[i]));
        let k = choose|k: int| 0 <= k < s.messages.len() && s.messages[k] == t.messages[i];
        assert(message_valid(s.limits, s.messages[k]));
    }
    assert forall|i: int, j: int| 0 <= i < j < t.messages.len() implies (
    #[trigger] t.messages[i]).message_id < (#[trigger] t.messages[j]).message_id by {
        assert(older(t.messages[i], t.messages[j]));
    }
    assert forall|h: Seq<char>| #[trigger] t.queue(h).len() <= s.queue(h).len() by {
        crate::seq_facts::lemma_filter_commutes(s.messages, r.leaves(), addressed_to(h));
        s.messages.filter(addressed_to(h)).lemma_filter_len(r.leaves());
    }
    assert forall|h: Seq<char>| #[trigger] t.queue(h).len() <= t.limits.max_queued_messages by {
        assert(t.queue(h).len() <= s.queue(h).len());
    }
}

/// In a valid store a message id stands at one index only.
pub proof fn lemma_id_is_unique(s: StoreModel, i: int, j: int)
    requires
        s.valid(),
        0 <= i < s.messages.len(),
        0 <= j < s.messages.len(),
        s.messages[i].message_id == s.messages[j].message_id,
    ensures
        i == j,
{
    if i < j {
        assert(s.messages[i].message_id < s.messages[j].message_id);
    } else if j < i {
        assert(s.messages[j].message_id < s.messages[i].message_id);
    }
}

} // verus!

verus! {

/// What is left after a removal was not taken by it and stood in the store.
pub proof fn lemma_left_was_there(s: StoreModel, r: Removal, k: int)
    requires
        0 <= k < s.without(r).messages.len(),
    ensures
        !r.takes(s.without(r).messages[k]),
        s.messages.contains(s.without(r).messages[k]),
{
    s.messages.lemma_filter_pred(r.leaves(), k);
    let m = s.without(r).messages[k];
    assert(s.messages.filter(r.leaves()).contains(m));
    s.messages.lemma_filter_contains_rev(r.leaves(), m);
}

/// What a removal does not take is still there afterwards.
pub proof fn lemma_untaken_is_left(s: StoreModel, r: Removal, j: int)
    requires
        0 <= j < s.messages.len(),
        !r.takes(s.messages[j]),
    ensures
        s.without(r).messages.contains(s.messages[j]),
{
    s.messages.lemma_filter_contains(r.leaves(), j);
}

/// In a valid store the message with a given id is one message.
pub proof fn lemma_same_id_same_message(s: StoreModel, a: MessageModel, b: MessageModel)
    requires
        s.valid(),
        s.messages.contains(a),
        s.messages.contains(b),
        a.message_id == b.message_id,
    ensures
        a == b,
{
    let i = choose|i: int| 0 <= i < s.messages.len() && s.messages[i] == a;
    let j = choose|j: int| 0 <= j < s.messages.len() && s.messages[j] == b;
    lemma_id_is_unique(s, i, j);
}

} // verus!
