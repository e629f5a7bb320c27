use vstd::prelude::*;
use std::collections::HashMap;
use crate::codec::random_id;
use crate::disclosure::{decode_key, key_bytes, open_secret, opened, text_of, Secret};
use crate::error::SecretError;
use crate::state::{classify, classify_spec, consume_gate, SecretState};

verus! {

broadcast use vstd::std_specs::hash::group_hash_axioms;

/// A stored secret: the producer's encoded ciphertext and nonce, the
/// creation time and optional expiry in seconds, and the consumed flag.
pub struct SecretRecord {
    pub ciphertext: String,
    pub iv: String,
    pub created_at: u64,
    pub expiry: Option<u64>,
    pub consumed: bool,
}

/// The mathematical content of a [`SecretRecord`].
pub struct RecordView {
    pub ciphertext: Seq<char>,
    pub iv: Seq<char>,
    pub created_at: u64,
    pub expiry: Option<u64>,
    pub consumed: bool,
}

impl View for SecretRecord {
    type V = RecordView;

    open spec fn view(&self) -> RecordView {
        RecordView {
            ciphertext: self.ciphertext@,
            iv: self.iv@,
            created_at: self.created_at,
            expiry: self.expiry,
            consumed: self.consumed,
        }
    }
}

/// The record that creation stores.
pub open spec fn fresh_record(ct: Seq<char>, iv: Seq<char>, expiry: Option<u64>, now: u64) -> RecordView {
    RecordView { ciphertext: ct, iv, created_at: now, expiry, consumed: false }
}

/// The logical state of `id` at `now`: `Invalid` where no record exists.
pub open spec fn state_of(recs: Map<u128, RecordView>, id: u128, now: u64) -> SecretState {
    if recs.contains_key(id) {
        let r = recs[id];
        classify_spec(id, r.consumed, r.created_at, r.expiry, now)
    } else {
        SecretState::Invalid
    }
}

/// What the locking fetch returns: the stored encodings of an existing,
/// unconsumed record.
pub open spec fn fetchable(recs: Map<u128, RecordView>, id: u128) -> Option<(Seq<char>, Seq<char>)> {
    if recs.contains_key(id) && !recs[id].consumed {
        Some((recs[id].ciphertext, recs[id].iv))
    } else {
        None
    }
}

/// The records after `id` is marked consumed.
pub open spec fn mark_consumed(recs: Map<u128, RecordView>, id: u128) -> Map<u128, RecordView> {
    if recs.contains_key(id) {
        recs.insert(id, RecordView { consumed: true, ..recs[id] })
    } else {
        recs
    }
}

/// The outcome of a consume request: the key is checked first, then the
/// expiry, then the locking fetch, the stored encodings and the decryption.
pub open spec fn consume_outcome(recs: Map<u128, RecordView>, id: u128, key: Seq<char>, now: u64) -> Result<
    Seq<char>,
    SecretError,
> {
    match key_bytes(key) {
        None => Err(SecretError::InvalidKey),
        Some(k) => if state_of(recs, id, now) == SecretState::Expired {
            Err(SecretError::Expired)
        } else {
            opened(k, fetchable(recs, id))
        },
    }
}

/// The records after a consume request: changed only by a disclosure.
pub open spec fn after_consume(recs: Map<u128, RecordView>, id: u128, key: Seq<char>, now: u64) -> Map<
    u128,
    RecordView,
> {
    if consume_outcome(recs, id, key, now) is Ok {
        mark_consumed(recs, id)
    } else {
        recs
    }
}

/// An in-memory secret store. `&mut self` gives each mutating operation
/// exclusive access, which stands for the row lock of a shared store.
pub struct SecretController {
    records: HashMap<u128, SecretRecord>,
}

impl View for SecretController {
    type V = Map<u128, RecordView>;

    closed spec fn view(&self) -> Map<u128, RecordView> {
        self.records@.map_values(|r: SecretRecord| r@)
    }
}

impl SecretController {
    /// An empty store.
    pub fn new() -> (r: Self)
        ensures
            r@ == Map::<u128, RecordView>::empty(),
    {
        let r = SecretController { records: HashMap::new() };
        assert(r@ =~= Map::<u128, RecordView>::empty());
        r
    }

    /// The number of stored records, consumed ones included.
    pub fn len(&self) -> (r: usize)
        ensures
            r == self@.len(),
    {
        assert(self@.dom() =~= self.records@.dom());
        self.records.len()
    }

    /// Stores a new unconsumed record under `id`, created at `now`. An `id`
    /// already in use is a collision: `StorageError`, nothing changed.
    pub fn insert_record(&mut self, id: u128, secret: &str, iv: &str, expiry: Option<u64>, now: u64) -> (r:
        Result<u128, SecretError>)
        ensures
            old(self)@.contains_key(id) ==> r == Err::<u128, SecretError>(SecretError::StorageError)
                && final(self)@ == old(self)@,
            !old(self)@.contains_key(id) ==> r == Ok::<u128, SecretError>(id) && final(self)@
                == old(self)@.insert(id, fresh_record(secret@, iv@, expiry, now)),
    {
        if self.records.contains_key(&id) {
            return Err(SecretError::StorageError);
        }
        let rec = SecretRecord {
            ciphertext: secret.to_string(),
            iv: iv.to_string(),
            created_at: now,
            expiry,
            consumed: false,
        };
        self.records.insert(id, rec);
        assert(self@ =~= old(self)@.insert(id, fresh_record(secret@, iv@, expiry, now)));
        Ok(id)
    }

    /// Creates a record under a fresh random identifier and returns it.
    pub fn add(&mut self, secret: &str, iv: &str, expiry: Option<u64>, now: u64) -> (r: Result<
        u128,
        SecretError,
    >)
        ensures
            match r {
                Ok(id) => !old(self)@.contains_key(id) && final(self)@ == old(self)@.insert(
                    id,
                    fresh_record(secret@, iv@, expiry, now),
                ),
                Err(e) => e == SecretError::StorageError && final(self)@ == old(self)@ && exists|k: u128|
                    old(self)@.contains_key(k),
            },
    {
        let id = random_id();
        self.insert_record(id, secret, iv, expiry, now)
    }

    /// The logical state of `id` at `now`; reads without changing anything.
    pub fn check_state(&self, id: u128, now: u64) -> (r: SecretState)
        ensures
            r == state_of(self@, id, now),
    {
        match self.records.get(&id) {
            None => SecretState::Invalid,
            Some(rec) => classify(id, rec.consumed, rec.created_at, rec.expiry, now),
        }
    }

    /// The stored encodings of `id`, where it exists and is unconsumed.
    pub fn get_secret_for_update(&self, id: u128) -> (r: Option<Secret>)
        ensures
            match r {
                Some(s) => s.secret is Some && s.iv is Some && fetchable(self@, id) == Some(s@),
                None => fetchable(self@, id) is None,
            },
    {
        match self.records.get(&id) {
            None => None,
            Some(rec) => {
                if rec.consumed {
                    None
                } else {
                    Some(Secret { secret: Some(rec.ciphertext.clone()), iv: Some(rec.iv.clone()) })
                }
            },
        }
    }

    /// Marks `id` consumed; a missing `id` leaves the store unchanged.
    pub fn consume_secret(&mut self, id: u128)
        ensures
            final(self)@ == mark_consumed(old(self)@, id),
    {
        match self.records.remove(&id) {
            None => {
                assert(self.records@ == old(self).records@);
            },
            Some(rec) => {
                let updated = SecretRecord { consumed: true, ..rec };
                self.records.insert(id, updated);
                assert(self@ =~= mark_consumed(old(self)@, id));
            },
        }
    }

    /// Discloses the secret `id` once: checks the key, then the expiry, then
    /// fetches, decodes and decrypts, and marks the record consumed only
    /// where all of that succeeded.
    pub fn consume(&mut self, id: u128, key: &str, now: u64) -> (r: Result<String, SecretError>)
        ensures
            text_of(r) == consume_outcome(old(self)@, id, key@, now),
            final(self)@ == after_consume(old(self)@, id, key@, now),
    {
        let k = match decode_key(key) {
            Ok(k) => k,
            Err(e) => return Err(e),
        };
        match consume_gate(self.check_state(id, now)) {
            Ok(()) => {},
            Err(e) => return Err(e),
        }
        let found = self.get_secret_for_update(id);
        let plain = match open_secret(k.as_slice(), &found) {
            Ok(p) => p,
            Err(e) => return Err(e),
        };
        self.consume_secret(id);
        Ok(plain)
    }
}

} // verus!
