//! What holds of the mailbox store in every state and across its operations.

use crate::errors::StoreError;
use crate::mailbox::model::{
    in_folder, lemma_left_was_there, lemma_same_id_same_message, lemma_untaken_is_left,
    lemma_without_preserves_valid, Folder, MessageModel, Removal, StoreModel,
};
use crate::mailbox::store::MailboxStore;
use crate::seq_facts::lemma_filter_keeps_all;
use vstd::prelude::*;

verus! {

/// No mailbox ever holds more than `max_queued_messages` messages: the bound
/// is part of the invariant that every operation of the store keeps.
pub proof fn law_mailbox_is_bounded(store: &MailboxStore, h: Seq<char>)
    requires
        store.wf(),
    ensures
        store@.queue(h).len() <= store@.limits.max_queued_messages,
{
}

/// No stored message is longer than `max_message_size` bytes, and the length
/// recorded for it is the length of its packed bytes.
pub proof fn law_message_size_is_bounded(store: &MailboxStore, i: int)
    requires
        store.wf(),
        0 <= i < store@.messages.len(),
    ensures
        store@.messages[i].byte_length <= store@.limits.max_message_size,
        store@.messages[i].byte_length == crate::text::byte_len(store@.messages[i].packed),
{
}

/// Every stored message expires `message_expiry_minutes` after it was stored,
/// which is later than it was stored unless that span is zero.
pub proof fn law_expiry_follows_enqueue(store: &MailboxStore, i: int)
    requires
        store.wf(),
        0 <= i < store@.messages.len(),
    ensures
        store@.messages[i].expiry_time == store@.messages[i].enqueue_time + 60
            * store@.limits.message_expiry_minutes,
        store@.limits.message_expiry_minutes > 0 ==> store@.messages[i].enqueue_time
            < store@.messages[i].expiry_time,
{
}

/// The messages of a mailbox stand in the order in which they were stored:
/// ids are given in rising order, and a mailbox keeps the order of the store.
pub proof fn law_mailbox_is_fifo(s: StoreModel, h: Seq<char>, i: int, j: int)
    requires
        s.valid(),
        0 <= i < j < s.queue(h).len(),
    ensures
        s.queue(h)[i].message_id < s.queue(h)[j].message_id,
{
    let older = |a: MessageModel, b: MessageModel| a.message_id < b.message_id;
    crate::seq_facts::lemma_filter_preserves_order(
        s.messages,
        crate::mailbox::model::addressed_to(h),
        older,
    );
    assert(older(s.queue(h)[i], s.queue(h)[j]));
}

/// A message whose expiry time has come is out of reach: at any second `now`
/// from its expiry time on, `get_message` does not find it in any mailbox, no
/// listing shows it, and a sweep removes it.
pub proof fn law_expired_is_unreachable(
    s: StoreModel,
    i: int,
    now: u64,
    h: Seq<char>,
    folder: Folder,
    limit: usize,
)
    requires
        s.valid(),
        0 <= i < s.messages.len(),
        s.messages[i].expiry_time <= now,
    ensures
        s.get_result(h, s.messages[i].message_id, now) == Err::<Seq<char>, StoreError>(
            StoreError::NotFound,
        ),
        forall|k: int|
            0 <= k < s.list_result(folder, h, limit, now).len() ==> (#[trigger] s.list_result(
                folder,
                h,
                limit,
                now,
            )[k]).message_id != s.messages[i].message_id,
        forall|k: int|
            0 <= k < s.swept(now).messages.len() ==> (#[trigger] s.swept(
                now,
            ).messages[k]).message_id != s.messages[i].message_id,
{
    let m = s.messages[i];
    assert(s.messages.contains(m));
    // get_message
    let inbox = Removal::ExpiredIn { folder: Folder::Inbox, hash: h, now };
    let relieved = s.purged(Folder::Inbox, h, now);
    if relieved.holds(h, m.message_id) {
        let k = choose|k: int| relieved.is_at(k, h, m.message_id);
        lemma_left_was_there(s, inbox, k);
        lemma_same_id_same_message(s, relieved.messages[k], m);
        assert(in_folder(Folder::Inbox, h)(m));
        assert(false);
    }
    // list_messages
    let purge = Removal::ExpiredIn { folder, hash: h, now };
    let cleared = s.purged(folder, h, now);
    let all = cleared.folder(folder, h);
    let listed = s.list_result(folder, h, limit, now);
    assert forall|k: int| 0 <= k < listed.len() implies (#[trigger] listed[k]).message_id
        != m.message_id by {
        let shown = all[k];
        assert(listed[k].message_id == shown.message_id);
        cleared.messages.lemma_filter_pred(in_folder(folder, h), k);
        assert(cleared.messages.filter(in_folder(folder, h)).contains(shown));
        cleared.messages.lemma_filter_contains_rev(in_folder(folder, h), shown);
        let j = choose|j: int| 0 <= j < cleared.messages.len() && cleared.messages[j] == shown;
        lemma_left_was_there(s, purge, j);
        if shown.message_id == m.message_id {
            lemma_same_id_same_message(s, shown, m);
            assert(false);
        }
    }
    // sweep
    let sweep = Removal::Expired { now };
    assert forall|k: int| 0 <= k < s.swept(now).messages.len() implies (#[trigger] s.swept(
        now,
    ).messages[k]).message_id != m.message_id by {
        lemma_left_was_there(s, sweep, k);
        if s.swept(now).messages[k].message_id == m.message_id {
            lemma_same_id_same_message(s, s.swept(now).messages[k], m);
            assert(false);
        }
    }
}

/// `delete_message` succeeds only for the owner of the mailbox: where it
/// returns `Ok`, the message lay in the mailbox keyed by the caller's own DID
/// hash. A message of another mailbox is `NotFound` to the caller and is
/// still stored afterwards.
pub proof fn law_delete_needs_owner(s: StoreModel, caller: Seq<char>, i: int, now: u64)
    requires
        s.valid(),
        0 <= i < s.messages.len(),
    ensures
        s.delete_result(caller, s.messages[i].message_id, now) is Ok ==> s.messages[i].recipient_hash
            == caller,
        s.messages[i].recipient_hash != caller ==> {
            &&& s.delete_result(caller, s.messages[i].message_id, now) == Err::<(), StoreError>(
                StoreError::NotFound,
            )
            &&& s.after_delete(caller, s.messages[i].message_id, now).messages.contains(
                s.messages[i],
            )
        },
{
    let m = s.messages[i];
    assert(s.messages.contains(m));
    let purge = Removal::ExpiredIn { folder: Folder::Inbox, hash: caller, now };
    let relieved = s.purged(Folder::Inbox, caller, now);
    if relieved.holds(caller, m.message_id) {
        let k = choose|k: int| relieved.is_at(k, caller, m.message_id);
        lemma_left_was_there(s, purge, k);
        lemma_same_id_same_message(s, relieved.messages[k], m);
    }
    if m.recipient_hash != caller {
        lemma_untaken_is_left(s, purge, i);
        let taking = Removal::Message { hash: caller, id: m.message_id };
        let j = choose|j: int| 0 <= j < relieved.messages.len() && relieved.messages[j] == m;
        lemma_untaken_is_left(relieved, taking, j);
    }
}

/// Deleting is idempotent: after `delete_message` a second call for the same
/// message returns `NotFound`, at whatever second it is made, and changes
/// nothing of the store but what has expired in the caller's mailbox by then;
/// made at the same second it leaves the store as it is.
pub proof fn law_delete_is_idempotent(s: StoreModel, h: Seq<char>, id: u64, now: u64, later: u64)
    requires
        s.valid(),
    ensures
        s.after_delete(h, id, now).delete_result(h, id, later) == Err::<(), StoreError>(
            StoreError::NotFound,
        ),
        s.after_delete(h, id, now).after_delete(h, id, later) == s.after_delete(h, id, now).purged(
            Folder::Inbox,
            h,
            later,
        ),
        s.after_delete(h, id, now).after_delete(h, id, now) == s.after_delete(h, id, now),
{
    let purge = Removal::ExpiredIn { folder: Folder::Inbox, hash: h, now };
    let taking = Removal::Message { hash: h, id };
    let once = s.after_delete(h, id, now);
    lemma_without_preserves_valid(s, purge);
    lemma_without_preserves_valid(s.without(purge), taking);
    lemma_gone_stays_gone(once, h, id, later);
    lemma_gone_stays_gone(once, h, id, now);
    // At the same second nothing of the caller's mailbox is left to expire.
    assert forall|k: int| 0 <= k < once.messages.len() implies purge.leaves()(
        #[trigger] once.messages[k],
    ) by {
        lemma_left_was_there(s.without(purge), taking, k);
        let m = once.messages[k];
        let j = choose|j: int|
            0 <= j < s.without(purge).messages.len() && s.without(purge).messages[j] == m;
        lemma_left_was_there(s, purge, j);
    }
    lemma_filter_keeps_all(once.messages, purge.leaves());
    assert(once.purged(Folder::Inbox, h, now) == once);
}

/// Where the mailbox of `h` does not hold the message `id`, deleting it
/// returns `NotFound` and does no more than relieve the mailbox of what has
/// expired.
pub proof fn lemma_gone_stays_gone(s: StoreModel, h: Seq<char>, id: u64, now: u64)
    requires
        !s.holds(h, id),
    ensures
        s.delete_result(h, id, now) == Err::<(), StoreError>(StoreError::NotFound),
        s.after_delete(h, id, now) == s.purged(Folder::Inbox, h, now),
{
    let purge = Removal::ExpiredIn { folder: Folder::Inbox, hash: h, now };
    let taking = Removal::Message { hash: h, id };
    let relieved = s.purged(Folder::Inbox, h, now);
    assert forall|k: int| 0 <= k < relieved.messages.len() implies taking.leaves()(
        #[trigger] relieved.messages[k],
    ) by {
        lemma_left_was_there(s, purge, k);
        let m = relieved.messages[k];
        let j = choose|j: int| 0 <= j < s.messages.len() && s.messages[j] == m;
        assert(!s.is_at(j, h, id));
    }
    if relieved.holds(h, id) {
        let k = choose|k: int| relieved.is_at(k, h, id);
        assert(taking.leaves()(relieved.messages[k]));
        assert(false);
    }
    lemma_filter_keeps_all(relieved.messages, taking.leaves());
}

/// After `delete_message` the mailbox of the caller does not hold the message.
pub proof fn law_deleted_is_gone(s: StoreModel, h: Seq<char>, id: u64, now: u64)
    ensures
        !s.after_delete(h, id, now).holds(h, id),
{
    let taking = Removal::Message { hash: h, id };
    let relieved = s.purged(Folder::Inbox, h, now);
    let after = s.after_delete(h, id, now);
    if after.holds(h, id) {
        let k = choose|k: int| after.is_at(k, h, id);
        lemma_left_was_there(relieved, taking, k);
        assert(false);
    }
}

/// A stored message can be fetched again, byte for byte, by its recipient
/// until it expires.
pub proof fn law_stored_is_fetched(
    s: StoreModel,
    packed: Seq<char>,
    to_did: Seq<char>,
    from_did: Option<Seq<char>>,
    now: u64,
    later: u64,
)
    requires
        s.valid(),
        s.store_result(packed, to_did, now) is Ok,
        later < now + 60 * s.limits.message_expiry_minutes,
    ensures
        s.after_store(packed, to_did, from_did, now).get_result(
            crate::digest::spec_did_hash(to_did),
            s.store_result(packed, to_did, now)->Ok_0,
            later,
        ) == Ok::<Seq<char>, StoreError>(packed),
{
    let h = crate::digest::spec_did_hash(to_did);
    let id = s.next_id;
    let after = s.after_store(packed, to_did, from_did, now);
    let m = s.new_message(packed, to_did, from_did, now);
    let relieved = s.purged(Folder::Inbox, h, now);
    lemma_without_preserves_valid(s, Removal::ExpiredIn { folder: Folder::Inbox, hash: h, now });
    let last = after.messages.len() - 1;
    assert(after.messages[last] == m);
    // The store after the message joined is valid.
    assert forall|a: int, b: int| 0 <= a < b < after.messages.len() implies (
    #[trigger] after.messages[a]).message_id < (#[trigger] after.messages[b]).message_id by {
        if b == last {
            assert(after.messages[a] == relieved.messages[a]);
        } else {
            assert(after.messages[a] == relieved.messages[a]);
            assert(after.messages[b] == relieved.messages[b]);
        }
    }
    let purge = Removal::ExpiredIn { folder: Folder::Inbox, hash: h, now: later };
    let read = after.purged(Folder::Inbox, h, later);
    after.messages.lemma_filter_contains(purge.leaves(), last);
    let k = choose|k: int| 0 <= k < read.messages.len() && read.messages[k] == m;
    assert(read.is_at(k, h, id));
    let found = choose|j: int| read.is_at(j, h, id);
    // Ids are unique among what is left, as they were before.
    lemma_left_was_there(after, purge, found);
    let other = read.messages[found];
    let x = choose|x: int| 0 <= x < after.messages.len() && after.messages[x] == other;
    if x != last {
        if x < last {
            assert(after.messages[x].message_id < after.messages[last].message_id);
        }
    }
}

/// Storing keeps the store valid, whatever the outcome: ids are never given
/// twice, since the next id only grows, and a message that is stored gets
/// the id that was next.
pub proof fn law_store_keeps_valid(
    s: StoreModel,
    packed: Seq<char>,
    to_did: Seq<char>,
    from_did: Option<Seq<char>>,
    now: u64,
)
    requires
        s.valid(),
    ensures
        s.after_store(packed, to_did, from_did, now).valid(),
        s.after_store(packed, to_did, from_did, now).limits == s.limits,
        s.after_store(packed, to_did, from_did, now).next_id >= s.next_id,
        s.store_result(packed, to_did, now) matches Ok(id) ==> id == s.next_id && s.after_store(
            packed,
            to_did,
            from_did,
            now,
        ).next_id == id + 1,
{
    let h = crate::digest::spec_did_hash(to_did);
    let purge = Removal::ExpiredIn { folder: Folder::Inbox, hash: h, now };
    lemma_without_preserves_valid(s, purge);
    let relieved = s.purged(Folder::Inbox, h, now);
    let after = s.after_store(packed, to_did, from_did, now);
    if s.store_result(packed, to_did, now) is Ok {
        let m = s.new_message(packed, to_did, from_did, now);
        let last = relieved.messages.len() as int;
        assert(after.messages == relieved.messages.push(m));
        assert forall|i: int| 0 <= i < after.messages.len() implies (
        #[trigger] after.messages[i]).message_id < after.next_id && crate::mailbox::model::message_valid(
            after.limits,
            after.messages[i],
        ) by {
            if i < last {
                assert(after.messages[i] == relieved.messages[i]);
            }
        }
        assert forall|i: int, j: int| 0 <= i < j < after.messages.len() implies (
        #[trigger] after.messages[i]).message_id < (#[trigger] after.messages[j]).message_id by {
            assert(after.messages[i] == relieved.messages[i]);
            if j < last {
                assert(after.messages[j] == relieved.messages[j]);
            }
        }
        assert forall|k: Seq<char>| #[trigger]
            after.queue(k).len() <= after.limits.max_queued_messages by {
            relieved.messages.lemma_filter_push(m, crate::mailbox::model::addressed_to(k));
            assert(relieved.queue(k).len() <= relieved.limits.max_queued_messages);
        }
    }
}

/// A mailbox comes with its first message and goes with its last: the empty
/// store has no mailbox, and a message that is stored stands at the end of
/// its recipient's mailbox, behind what was stored for the recipient before.
pub proof fn law_mailbox_lives_with_its_messages(
    s: StoreModel,
    packed: Seq<char>,
    to_did: Seq<char>,
    from_did: Option<Seq<char>>,
    now: u64,
    h: Seq<char>,
)
    requires
        s.store_result(packed, to_did, now) is Ok,
    ensures
        !StoreModel::empty(s.limits).has_mailbox(h),
        s.after_store(packed, to_did, from_did, now).has_mailbox(
            crate::digest::spec_did_hash(to_did),
        ),
        s.after_store(packed, to_did, from_did, now).queue(crate::digest::spec_did_hash(to_did))
            == s.purged(Folder::Inbox, crate::digest::spec_did_hash(to_did), now).queue(
            crate::digest::spec_did_hash(to_did),
        ).push(s.new_message(packed, to_did, from_did, now)),
{
    StoreModel::empty(s.limits).messages.lemma_filter_len(crate::mailbox::model::addressed_to(h));
    let recipient = crate::digest::spec_did_hash(to_did);
    let relieved = s.purged(Folder::Inbox, recipient, now);
    let m = s.new_message(packed, to_did, from_did, now);
    relieved.messages.lemma_filter_push(m, crate::mailbox::model::addressed_to(recipient));
}

} // verus!
