//! The secret store: the mediator's private keys, served by key id.

use crate::text::{slice_chars, texts};
use vstd::prelude::*;

verus! {

/// A private key of the mediator.
pub struct Secret {
    /// The key id: a DID, `#`, and a fragment.
    pub id: String,
    /// The kind of key.
    pub type_: String,
    /// The private key material.
    pub private_key: String,
    /// The public key material.
    pub public_key: String,
}

/// The key ids of a list of secrets, in order.
pub open spec fn key_ids(secrets: Seq<Secret>) -> Seq<Seq<char>> {
    secrets.map_values(|s: Secret| s.id@)
}

/// The DID of a key id: what stands before the first `#`, or all of it where
/// it holds none.
pub open spec fn spec_did_of(key_id: Seq<char>) -> Seq<char> {
    if exists|i: int| marks_fragment(key_id, i) {
        key_id.subrange(0, choose|i: int| marks_fragment(key_id, i))
    } else {
        key_id
    }
}

/// Whether the first `#` of `key_id` stands at `i`.
pub open spec fn marks_fragment(key_id: Seq<char>, i: int) -> bool {
    &&& 0 <= i < key_id.len()
    &&& key_id[i] == '#'
    &&& forall|j: int| 0 <= j < i ==> key_id[j] != '#'
}

/// The DID of the key id `key_id`.
pub fn did_of(key_id: &str) -> (did: String)
    ensures
        did@ == spec_did_of(key_id@),
{
    let n = key_id.unicode_len();
    let mut i: usize = 0;
    while i < n
        invariant
            0 <= i <= n,
            n == key_id@.len(),
            forall|j: int| 0 <= j < i ==> key_id@[j] != '#',
        decreases n - i,
    {
        if key_id.get_char(i) == '#' {
            assert(marks_fragment(key_id@, i as int));
            let ghost chosen = choose|k: int| marks_fragment(key_id@, k);
            assert(chosen == i);
            return slice_chars(key_id, 0, i);
        }
        i += 1;
    }
    assert(forall|k: int| !marks_fragment(key_id@, k));
    key_id.to_owned()
}

/// The DIDs of a list of key ids, each once, in the order in which they
/// first appear.
pub open spec fn distinct_dids(ids: Seq<Seq<char>>) -> Seq<Seq<char>>
    decreases ids.len(),
{
    if ids.len() == 0 {
        Seq::empty()
    } else {
        let before = distinct_dids(ids.drop_last());
        let did = spec_did_of(ids.last());
        if before.contains(did) {
            before
        } else {
            before.push(did)
        }
    }
}

/// The DIDs of a list of key ids are a set: none appears twice, and the DID
/// of every key id is among them.
pub proof fn law_dids_are_distinct(ids: Seq<Seq<char>>)
    ensures
        distinct_dids(ids).no_duplicates(),
        forall|i: int| 0 <= i < ids.len() ==> distinct_dids(ids).contains(spec_did_of(#[trigger] ids[i])),
        forall|k: int|
            0 <= k < distinct_dids(ids).len() ==> exists|i: int|
                0 <= i < ids.len() && spec_did_of(ids[i]) == #[trigger] distinct_dids(ids)[k],
    decreases ids.len(),
{
    if ids.len() > 0 {
        let init = ids.drop_last();
        law_dids_are_distinct(init);
        let before = distinct_dids(init);
        let did = spec_did_of(ids.last());
        let all = distinct_dids(ids);
        assert forall|i: int| 0 <= i < ids.len() implies all.contains(
            spec_did_of(#[trigger] ids[i]),
        ) by {
            if i < init.len() {
                assert(init[i] == ids[i]);
                assert(before.contains(spec_did_of(init[i])));
                let k = choose|k: int| 0 <= k < before.len() && before[k] == spec_did_of(ids[i]);
                assert(all[k] == before[k]);
            } else {
                if before.contains(did) {
                } else {
                    assert(all[all.len() - 1] == did);
                }
            }
        }
        assert forall|k: int| 0 <= k < all.len() implies exists|i: int|
            0 <= i < ids.len() && spec_did_of(ids[i]) == #[trigger] all[k] by {
            if k < before.len() {
                assert(all[k] == before[k]);
                let i = choose|i: int| 0 <= i < init.len() && spec_did_of(init[i]) == before[k];
                assert(ids[i] == init[i]);
            } else {
                assert(spec_did_of(ids[ids.len() - 1]) == all[k]);
            }
        }
    }
}

/// The secret store. It is filled once and never changed.
pub struct SecretStore {
    secrets: Vec<Secret>,
}

impl SecretStore {
    /// The secrets of the store, in the order in which they were loaded.
    pub closed spec fn contents(&self) -> Seq<Secret> {
        self.secrets@
    }

    /// The store of the given secrets.
    pub fn new(secrets: Vec<Secret>) -> (store: SecretStore)
        ensures
            store.contents() == secrets@,
    {
        SecretStore { secrets }
    }

    /// How many secrets the store holds.
    pub fn len(&self) -> (n: usize)
        ensures
            n == self.contents().len(),
    {
        self.secrets.len()
    }

    /// The secret of the key id `key_id`: the first that was loaded under
    /// that id, or nothing where there is none.
    pub fn get(&self, key_id: &str) -> (found: Option<&Secret>)
        ensures
            match found {
                Some(secret) => exists|i: int|
                    {
                        &&& 0 <= i < self.contents().len()
                        &&& *secret == #[trigger] self.contents()[i]
                        &&& secret.id@ == key_id@
                        &&& forall|j: int| 0 <= j < i ==> self.contents()[j].id@ != key_id@
                    },
                None => forall|i: int|
                    0 <= i < self.contents().len() ==> (#[trigger] self.contents()[i]).id@
                        != key_id@,
            },
    {
        let wanted = key_id.to_owned();
        let mut i: usize = 0;
        while i < self.secrets.len()
            invariant
                0 <= i <= self.secrets.len(),
                wanted@ == key_id@,
                forall|j: int| 0 <= j < i ==> (#[trigger] self.secrets@[j]).id@ != key_id@,
            decreases self.secrets.len() - i,
        {
            if self.secrets[i].id == wanted {
                assert(self.contents()[i as int] == self.secrets@[i as int]);
                return Some(&self.secrets[i]);
            }
            i += 1;
        }
        None
    }

    /// The DIDs that the store holds keys of, each once, in the order in
    /// which they first appear.
    pub fn list_dids(&self) -> (dids: Vec<String>)
        ensures
            texts(dids@) == distinct_dids(key_ids(self.contents())),
    {
        let ghost ids = key_ids(self.secrets@);
        let mut dids: Vec<String> = Vec::new();
        let mut i: usize = 0;
        proof {
            assert(ids.take(0) =~= Seq::<Seq<char>>::empty());
            assert(texts(dids@) =~= Seq::<Seq<char>>::empty());
        }
        while i < self.secrets.len()
            invariant
                0 <= i <= self.secrets.len(),
                ids == key_ids(self.secrets@),
                texts(dids@) == distinct_dids(ids.take(i as int)),
            decreases self.secrets.len() - i,
        {
            let did = did_of(self.secrets[i].id.as_str());
            let ghost seen = texts(dids@);
            proof {
                assert(ids.take(i + 1).drop_last() =~= ids.take(i as int));
                assert(ids.take(i + 1).last() == ids[i as int]);
            }
            let mut known = false;
            let mut k: usize = 0;
            while k < dids.len() && !known
                invariant
                    0 <= k <= dids.len(),
                    seen == texts(dids@),
                    known ==> seen.contains(did@),
                    !known ==> forall|j: int| 0 <= j < k ==> seen[j] != did@,
                decreases dids.len() - k + if known { 0int } else { 1int },
            {
                if dids[k] == did {
                    assert(seen[k as int] == did@);
                    known = true;
                } else {
                    k += 1;
                }
            }
            if !known {
                dids.push(did);
                assert(texts(dids@) =~= seen.push(did@));
            }
            i += 1;
        }
        assert(ids.take(i as int) =~= ids);
        dids
    }
}

} // verus!
