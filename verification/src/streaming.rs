//! The live-stream bus: which DIDs have a live subscriber, on which mediator
//! instance, and what waits to be pushed to each.

use crate::errors::StoreError;
use crate::text::{clone_texts, texts};
use vstd::prelude::*;

verus! {

/// A live subscription of one DID.
pub struct SubscriptionModel {
    /// The id of the subscriber's stream.
    pub stream_uuid: Seq<char>,
    /// The mediator instance that holds the subscriber's connection.
    pub instance_id: Seq<char>,
    /// The packed messages that wait to be pushed, oldest first.
    pub pending: Seq<Seq<char>>,
}

/// The bus as one mediator instance sees it.
pub struct StreamsModel {
    /// This instance.
    pub instance_id: Seq<char>,
    /// The most messages that may wait for one subscriber.
    pub capacity: usize,
    /// The live subscription of each DID hash that has one.
    pub directory: Map<Seq<char>, SubscriptionModel>,
}

impl StreamsModel {
    /// The bus of `instance_id` without subscribers.
    pub open spec fn empty(instance_id: Seq<char>, capacity: usize) -> StreamsModel {
        StreamsModel { instance_id, capacity, directory: Map::empty() }
    }

    /// Whether no subscriber has more waiting than the bus allows.
    pub open spec fn valid(self) -> bool {
        forall|h: Seq<char>|
            self.directory.dom().contains(h) ==> (#[trigger] self.directory[h]).pending.len()
                <= self.capacity
    }

    /// Whether the DID with hash `h` can be reached live: it has a
    /// subscription on this instance, or on any instance where `force` is set.
    pub open spec fn reachable(self, h: Seq<char>, force: bool) -> bool {
        self.directory.dom().contains(h) && (force || self.directory[h].instance_id
            == self.instance_id)
    }

    /// What `streaming_is_client_live` returns.
    pub open spec fn live_result(self, h: Seq<char>, force: bool) -> Option<Seq<char>> {
        if self.reachable(h, force) {
            Some(self.directory[h].stream_uuid)
        } else {
            None
        }
    }

    /// What `streaming_publish_message` returns.
    pub open spec fn publish_result(self, h: Seq<char>, uuid: Seq<char>, force: bool) -> Result<
        (),
        StoreError,
    > {
        if !(self.reachable(h, force) && self.directory[h].stream_uuid == uuid) {
            Err(StoreError::NotFound)
        } else if self.directory[h].pending.len() >= self.capacity {
            Err(StoreError::OverCapacity)
        } else {
            Ok(())
        }
    }

    /// The bus after `streaming_publish_message`.
    pub open spec fn after_publish(
        self,
        h: Seq<char>,
        uuid: Seq<char>,
        packed: Seq<char>,
        force: bool,
    ) -> StreamsModel {
        if self.publish_result(h, uuid, force) is Ok {
            let sub = self.directory[h];
            StreamsModel {
                directory: self.directory.insert(
                    h,
                    SubscriptionModel { pending: sub.pending.push(packed), ..sub },
                ),
                ..self
            }
        } else {
            self
        }
    }

    /// The bus after a live delivery of `packed` to the DID with hash `h` was
    /// tried: the message waits for the subscriber if one can be reached and
    /// has room, and nothing changes otherwise.
    pub open spec fn after_live(self, h: Seq<char>, packed: Seq<char>, force: bool) -> StreamsModel {
        match self.live_result(h, force) {
            Some(uuid) => self.after_publish(h, uuid, packed, force),
            None => self,
        }
    }

    /// The bus after the DID with hash `h` subscribed.
    pub open spec fn after_subscribe(
        self,
        h: Seq<char>,
        uuid: Seq<char>,
        instance: Seq<char>,
    ) -> StreamsModel {
        StreamsModel {
            directory: self.directory.insert(
                h,
                SubscriptionModel { stream_uuid: uuid, instance_id: instance, pending: Seq::empty() },
            ),
            ..self
        }
    }

    /// Whether the DID with hash `h` is subscribed with the stream `uuid`.
    pub open spec fn subscribed_as(self, h: Seq<char>, uuid: Seq<char>) -> bool {
        self.directory.dom().contains(h) && self.directory[h].stream_uuid == uuid
    }

    /// The bus after the stream `uuid` of the DID with hash `h` went away.
    pub open spec fn after_unsubscribe(self, h: Seq<char>, uuid: Seq<char>) -> StreamsModel {
        if self.subscribed_as(h, uuid) {
            StreamsModel { directory: self.directory.remove(h), ..self }
        } else {
            self
        }
    }

    /// What waits for the stream `uuid` of the DID with hash `h`.
    pub open spec fn pending_of(self, h: Seq<char>, uuid: Seq<char>) -> Seq<Seq<char>> {
        if self.subscribed_as(h, uuid) {
            self.directory[h].pending
        } else {
            Seq::empty()
        }
    }

    /// The bus after what waited for the stream `uuid` was handed out.
    pub open spec fn after_take(self, h: Seq<char>, uuid: Seq<char>) -> StreamsModel {
        if self.subscribed_as(h, uuid) {
            StreamsModel {
                directory: self.directory.insert(
                    h,
                    SubscriptionModel { pending: Seq::empty(), ..self.directory[h] },
                ),
                ..self
            }
        } else {
            self
        }
    }
}

/// One record of the directory, with what waits for its subscriber.
struct Subscription {
    did_hash: String,
    stream_uuid: String,
    instance_id: String,
    pending: Vec<String>,
}

impl Subscription {
    spec fn model(&self) -> SubscriptionModel {
        SubscriptionModel {
            stream_uuid: self.stream_uuid@,
            instance_id: self.instance_id@,
            pending: texts(self.pending@),
        }
    }
}

/// Whether the record at index `i` is that of the DID with hash `h`.
spec fn listed(records: Seq<Subscription>, i: int, h: Seq<char>) -> bool {
    0 <= i < records.len() && records[i].did_hash@ == h
}

/// Whether no DID hash has two records.
spec fn distinct(records: Seq<Subscription>) -> bool {
    forall|i: int, j: int|
        0 <= i < j < records.len() ==> (#[trigger] records[i]).did_hash@ != (
        #[trigger] records[j]).did_hash@
}

/// The directory that the records make up.
spec fn directory_of(records: Seq<Subscription>) -> Map<Seq<char>, SubscriptionModel> {
    Map::new(
        |h: Seq<char>| exists|i: int| listed(records, i, h),
        |h: Seq<char>| records[choose|i: int| listed(records, i, h)].model(),
    )
}

/// With distinct records, the record of a DID hash is its directory entry.
proof fn lemma_listed_is_entry(records: Seq<Subscription>, i: int, h: Seq<char>)
    requires
        distinct(records),
        listed(records, i, h),
    ensures
        directory_of(records).dom().contains(h),
        directory_of(records)[h] == records[i].model(),
{
    let j = choose|j: int| listed(records, j, h);
    if i < j {
        assert(records[i].did_hash@ != records[j].did_hash@);
    } else if j < i {
        assert(records[j].did_hash@ != records[i].did_hash@);
    }
}

/// The live-stream bus of one mediator instance.
pub struct LiveStreams {
    instance_id: String,
    capacity: usize,
    records: Vec<Subscription>,
}

impl View for LiveStreams {
    type V = StreamsModel;

    closed spec fn view(&self) -> StreamsModel {
        StreamsModel {
            instance_id: self.instance_id@,
            capacity: self.capacity,
            directory: directory_of(self.records@),
        }
    }
}

impl LiveStreams {
    /// Whether the bus is in a state that its operations keep.
    pub closed spec fn wf(&self) -> bool {
        &&& distinct(self.records@)
        &&& forall|i: int|
            0 <= i < self.records@.len() ==> (#[trigger] self.records@[i]).pending@.len()
                <= self.capacity
    }

    /// In every state that the operations keep, no subscriber has more
    /// waiting than the bus allows.
    pub proof fn law_pending_is_bounded(&self)
        requires
            self.wf(),
        ensures
            self@.valid(),
    {
        assert forall|h: Seq<char>| self@.directory.dom().contains(h) implies (
        #[trigger] self@.directory[h]).pending.len() <= self@.capacity by {
            let i = choose|i: int| listed(self.records@, i, h);
            lemma_listed_is_entry(self.records@, i, h);
        }
    }

    /// The bus of the instance `instance_id`, without subscribers, where at
    /// most `capacity` messages may wait for each.
    pub fn new(instance_id: &str, capacity: usize) -> (bus: LiveStreams)
        ensures
            bus.wf(),
            bus@ == StreamsModel::empty(instance_id@, capacity),
    {
        let bus = LiveStreams {
            instance_id: instance_id.to_owned(),
            capacity,
            records: Vec::new(),
        };
        assert(bus@.directory =~= Map::empty());
        bus
    }

    /// Where the record of the DID with hash `hash` stands.
    fn find(&self, hash: &String) -> (at: Option<usize>)
        ensures
            match at {
                Some(i) => listed(self.records@, i as int, hash@),
                None => forall|j: int| !listed(self.records@, j, hash@),
            },
    {
        let mut i: usize = 0;
        while i < self.records.len()
            invariant
                0 <= i <= self.records.len(),
                forall|j: int| 0 <= j < i ==> !listed(self.records@, j, hash@),
            decreases self.records.len() - i,
        {
            if self.records[i].did_hash == *hash {
                return Some(i);
            }
            i += 1;
        }
        None
    }

    /// Records that the DID with hash `did_hash` has a live subscriber with
    /// the stream `stream_uuid` on the instance `instance_id`. An earlier
    /// subscription of that DID is replaced, and what waited for it is dropped.
    pub fn subscribe(&mut self, did_hash: &str, stream_uuid: &str, instance_id: &str)
        requires
            old(self).wf(),
        ensures
            final(self).wf(),
            final(self)@ == old(self)@.after_subscribe(did_hash@, stream_uuid@, instance_id@),
    {
        let hash = did_hash.to_owned();
        let found = self.find(&hash);
        let record = Subscription {
            did_hash: hash,
            stream_uuid: stream_uuid.to_owned(),
            instance_id: instance_id.to_owned(),
            pending: Vec::new(),
        };
        let ghost fresh = record.model();
        assert(fresh.pending =~= Seq::<Seq<char>>::empty());
        let ghost at: int;
        match found {
            Some(i) => {
                self.records.set(i, record);
                proof {
                    at = i as int;
                }
            },
            None => {
                self.records.push(record);
                proof {
                    at = self.records@.len() - 1;
                }
            },
        }
        proof {
            let before = old(self).records@;
            let after = self.records@;
            assert(distinct(after)) by {
                assert forall|i: int, j: int| 0 <= i < j < after.len() implies (
                #[trigger] after[i]).did_hash@ != (#[trigger] after[j]).did_hash@ by {
                    if i == at {
                        assert(!listed(before, j, did_hash@) || found is Some);
                        if found is Some {
                            assert(before[at].did_hash@ != before[j].did_hash@);
                        }
                    } else if j == at {
                        assert(!listed(before, i, did_hash@) || found is Some);
                        if found is Some {
                            assert(before[i].did_hash@ != before[at].did_hash@);
                        }
                    } else {
                        assert(before[i].did_hash@ != before[j].did_hash@);
                    }
                }
            }
            let expected = old(self)@.directory.insert(did_hash@, fresh);
            assert forall|k: Seq<char>| expected.dom().contains(k) <==> directory_of(
                after,
            ).dom().contains(k) by {
                if k == did_hash@ {
                    assert(listed(after, at, k));
                } else {
                    if exists|i: int| listed(before, i, k) {
                        let i = choose|i: int| listed(before, i, k);
                        assert(listed(after, i, k));
                    }
                    if exists|i: int| listed(after, i, k) {
                        let i = choose|i: int| listed(after, i, k);
                        assert(listed(before, i, k));
                    }
                }
            }
            assert forall|k: Seq<char>| expected.dom().contains(k) implies #[trigger] expected[k]
                == directory_of(after)[k] by {
                if k == did_hash@ {
                    lemma_listed_is_entry(after, at, k);
                } else {
                    let i = choose|i: int| listed(before, i, k);
                    lemma_listed_is_entry(before, i, k);
                    assert(listed(after, i, k));
                    lemma_listed_is_entry(after, i, k);
                }
            }
            assert(self@.directory =~= expected);
        }
    }

    /// Forgets the subscription of the DID with hash `did_hash` if its stream
    /// is `stream_uuid`, and says whether it did.
    pub fn unsubscribe(&mut self, did_hash: &str, stream_uuid: &str) -> (gone: bool)
        requires
            old(self).wf(),
        ensures
            final(self).wf(),
            gone == old(self)@.subscribed_as(did_hash@, stream_uuid@),
            final(self)@ == old(self)@.after_unsubscribe(did_hash@, stream_uuid@),
    {
        let hash = did_hash.to_owned();
        let uuid = stream_uuid.to_owned();
        match self.find(&hash) {
            Some(i) => {
                proof {
                    lemma_listed_is_entry(self.records@, i as int, hash@);
                }
                if self.records[i].stream_uuid == uuid {
                    self.records.remove(i);
                    proof {
                        let before = old(self).records@;
                        let after = self.records@;
                        let at = i as int;
                        assert forall|a: int, b: int| 0 <= a < b < after.len() implies (
                        #[trigger] after[a]).did_hash@ != (#[trigger] after[b]).did_hash@ by {
                            let a0 = if a < at { a } else { a + 1 };
                            let b0 = if b < at { b } else { b + 1 };
                            assert(after[a] == before[a0] && after[b] == before[b0]);
                            assert(before[a0].did_hash@ != before[b0].did_hash@);
                        }
                        assert forall|a: int| 0 <= a < after.len() implies (
                        #[trigger] after[a]).pending@.len() <= self.capacity by {
                            let a0 = if a < at { a } else { a + 1 };
                            assert(after[a] == before[a0]);
                        }
                        let expected = old(self)@.directory.remove(hash@);
                        assert forall|k: Seq<char>| expected.dom().contains(k) <==> directory_of(
                            after,
                        ).dom().contains(k) by {
                            if exists|j: int| listed(after, j, k) {
                                let j = choose|j: int| listed(after, j, k);
                                let j0 = if j < at { j } else { j + 1 };
                                assert(after[j] == before[j0]);
                                assert(listed(before, j0, k));
                                if k == hash@ {
                                    if j0 < at {
                                        assert(before[j0].did_hash@ != before[at].did_hash@);
                                    } else {
                                        assert(before[at].did_hash@ != before[j0].did_hash@);
                                    }
                                }
                            }
                            if k != hash@ && exists|j: int| listed(before, j, k) {
                                let j = choose|j: int| listed(before, j, k);
                                let j1 = if j < at { j } else { j - 1 };
                                assert(after[j1] == before[j]);
                                assert(listed(after, j1, k));
                            }
                        }
                        assert forall|k: Seq<char>| expected.dom().contains(k) implies #[trigger] expected[k]
                            == directory_of(after)[k] by {
                            let j = choose|j: int| listed(before, j, k);
                            lemma_listed_is_entry(before, j, k);
                            let j1 = if j < at { j } else { j - 1 };
                            assert(after[j1] == before[j]);
                            assert(listed(after, j1, k));
                            lemma_listed_is_entry(after, j1, k);
                        }
                        assert(self@.directory =~= expected);
                    }
                    true
                } else {
                    false
                }
            },
            None => false,
        }
    }

    /// The stream of the live subscriber of the DID with hash `did_hash`, if
    /// it has one on this instance, or on any instance where `force` is set.
    pub fn streaming_is_client_live(&self, did_hash: &str, force: bool) -> (stream_uuid: Option<
        String,
    >)
        requires
            self.wf(),
        ensures
            crate::text::opt_text(stream_uuid) == self@.live_result(did_hash@, force),
    {
        let hash = did_hash.to_owned();
        match self.find(&hash) {
            Some(i) => {
                proof {
                    lemma_listed_is_entry(self.records@, i as int, hash@);
                }
                if force || self.records[i].instance_id == self.instance_id {
                    Some(self.records[i].stream_uuid.clone())
                } else {
                    None
                }
            },
            None => None,
        }
    }

    /// Puts a new record in the place of the one at index `i`, which is for
    /// the same DID hash.
    fn replace(&mut self, i: usize, record: Subscription)
        requires
            old(self).wf(),
            i < old(self).records@.len(),
            record.did_hash@ == old(self).records@[i as int].did_hash@,
            record.pending@.len() <= old(self).capacity,
        ensures
            final(self).wf(),
            final(self)@ == (StreamsModel {
                directory: old(self)@.directory.insert(record.did_hash@, record.model()),
                ..old(self)@
            }),
    {
        let ghost h = record.did_hash@;
        let ghost fresh = record.model();
        self.records.set(i, record);
        proof {
            let before = old(self).records@;
            let after = self.records@;
            let at = i as int;
            assert forall|a: int, b: int| 0 <= a < b < after.len() implies (
            #[trigger] after[a]).did_hash@ != (#[trigger] after[b]).did_hash@ by {
                assert(before[a].did_hash@ != before[b].did_hash@);
            }
            let expected = old(self)@.directory.insert(h, fresh);
            assert forall|k: Seq<char>| expected.dom().contains(k) <==> directory_of(
                after,
            ).dom().contains(k) by {
                if k == h {
                    assert(listed(after, at, k));
                    assert(listed(before, at, k));
                } else {
                    if exists|j: int| listed(before, j, k) {
                        let j = choose|j: int| listed(before, j, k);
                        assert(listed(after, j, k));
                    }
                    if exists|j: int| listed(after, j, k) {
                        let j = choose|j: int| listed(after, j, k);
                        assert(listed(before, j, k));
                    }
                }
            }
            assert forall|k: Seq<char>| expected.dom().contains(k) implies #[trigger] expected[k]
                == directory_of(after)[k] by {
                if k == h {
                    lemma_listed_is_entry(after, at, k);
                } else {
                    let j = choose|j: int| listed(before, j, k);
                    lemma_listed_is_entry(before, j, k);
                    assert(listed(after, j, k));
                    lemma_listed_is_entry(after, j, k);
                }
            }
            assert(self@.directory =~= expected);
        }
    }

    /// Lets `packed` wait for the stream `stream_uuid` of the DID with hash
    /// `did_hash`.
    ///
    /// `NotFound` where that DID has no such stream within reach (on this
    /// instance, or on any where `force` is set); `OverCapacity` where as many
    /// messages wait for it as the bus allows. Nothing changes then.
    pub fn streaming_publish_message(
        &mut self,
        did_hash: &str,
        stream_uuid: &str,
        packed: &str,
        force: bool,
    ) -> (result: Result<(), StoreError>)
        requires
            old(self).wf(),
        ensures
            final(self).wf(),
            result == old(self)@.publish_result(did_hash@, stream_uuid@, force),
            final(self)@ == old(self)@.after_publish(did_hash@, stream_uuid@, packed@, force),
    {
        let hash = did_hash.to_owned();
        let uuid = stream_uuid.to_owned();
        match self.find(&hash) {
            Some(i) => {
                proof {
                    lemma_listed_is_entry(self.records@, i as int, hash@);
                }
                let within = force || self.records[i].instance_id == self.instance_id;
                if !(within && self.records[i].stream_uuid == uuid) {
                    return Err(StoreError::NotFound);
                }
                if self.records[i].pending.len() >= self.capacity {
                    return Err(StoreError::OverCapacity);
                }
                let ghost waiting = texts(self.records@[i as int].pending@);
                let mut pending = clone_texts(&self.records[i].pending);
                pending.push(packed.to_owned());
                assert(texts(pending@) =~= waiting.push(packed@));
                let record = Subscription {
                    did_hash: hash,
                    stream_uuid: uuid,
                    instance_id: self.records[i].instance_id.clone(),
                    pending,
                };
                self.replace(i, record);
                Ok(())
            },
            None => Err(StoreError::NotFound),
        }
    }

    /// Tries a live delivery of `packed` to the DID with hash `did_hash`. A
    /// delivery that cannot be made is given up and changes nothing.
    pub fn try_live_stream(&mut self, did_hash: &str, packed: &str, force: bool)
        requires
            old(self).wf(),
        ensures
            final(self).wf(),
            final(self)@ == old(self)@.after_live(did_hash@, packed@, force),
    {
        match self.streaming_is_client_live(did_hash, force) {
            Some(stream_uuid) => {
                let _ = self.streaming_publish_message(
                    did_hash,
                    stream_uuid.as_str(),
                    packed,
                    force,
                );
            },
            None => {},
        }
    }

    /// Hands out what waits for the stream `stream_uuid` of the DID with hash
    /// `did_hash`, oldest first, and lets nothing of it wait any longer.
    pub fn take_pending(&mut self, did_hash: &str, stream_uuid: &str) -> (out: Vec<String>)
        requires
            old(self).wf(),
        ensures
            final(self).wf(),
            texts(out@) == old(self)@.pending_of(did_hash@, stream_uuid@),
            final(self)@ == old(self)@.after_take(did_hash@, stream_uuid@),
    {
        let hash = did_hash.to_owned();
        let uuid = stream_uuid.to_owned();
        match self.find(&hash) {
            Some(i) => {
                proof {
                    lemma_listed_is_entry(self.records@, i as int, hash@);
                }
                if self.records[i].stream_uuid == uuid {
                    let out = clone_texts(&self.records[i].pending);
                    let record = Subscription {
                        did_hash: hash,
                        stream_uuid: uuid,
                        instance_id: self.records[i].instance_id.clone(),
                        pending: Vec::new(),
                    };
                    assert(record.model().pending =~= Seq::<Seq<char>>::empty());
                    self.replace(i, record);
                    out
                } else {
                    let out: Vec<String> = Vec::new();
                    assert(texts(out@) =~= Seq::<Seq<char>>::empty());
                    out
                }
            },
            None => {
                let out: Vec<String> = Vec::new();
                assert(texts(out@) =~= Seq::<Seq<char>>::empty());
                out
            },
        }
    }
}

} // verus!
