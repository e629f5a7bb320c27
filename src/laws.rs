use vstd::prelude::*;
use vstd::utf8::{encode_utf8, encode_utf8_decode_utf8, encode_utf8_valid_utf8};
use crate::codec::{aes256gcm_open, lossy_decode, url_b64_decode};
use crate::disclosure::{key_bytes, seals, stored_parts};
use crate::error::SecretError;
use crate::state::{is_expired, SecretState};
use crate::store::{
    after_consume, consume_outcome, fetchable, fresh_record, mark_consumed, state_of, RecordView,
};

verus! {

/// An identifier that was never created is `Invalid`, and consuming it
/// with a well-formed key is `NotFound` and changes nothing.
pub proof fn lemma_unknown_id(recs: Map<u128, RecordView>, id: u128, key: Seq<char>, now: u64)
    requires
        !recs.contains_key(id),
        key_bytes(key) is Some,
    ensures
        state_of(recs, id, now) == SecretState::Invalid,
        consume_outcome(recs, id, key, now) == Err::<Seq<char>, SecretError>(SecretError::NotFound),
        after_consume(recs, id, key, now) == recs,
{
}

/// An unconsumed record without expiry is `Secret` at every time.
pub proof fn lemma_no_expiry_alive(recs: Map<u128, RecordView>, id: u128, now: u64)
    requires
        recs.contains_key(id),
        !recs[id].consumed,
        recs[id].expiry is None,
    ensures
        state_of(recs, id, now) == SecretState::Secret(id),
{
}

/// An unconsumed record with an expiry of `e` seconds is `Secret` while
/// less than `e` seconds have passed since creation and `Expired` once more
/// than `e` have. At exactly `e` seconds it is still `Secret`: expiry is
/// strictly after the deadline.
pub proof fn lemma_expiry_window(recs: Map<u128, RecordView>, id: u128, now: u64)
    requires
        recs.contains_key(id),
        !recs[id].consumed,
        recs[id].expiry is Some,
        now - recs[id].created_at != recs[id].expiry.unwrap(),
    ensures
        now - recs[id].created_at < recs[id].expiry.unwrap() ==> state_of(recs, id, now)
            == SecretState::Secret(id),
        now - recs[id].created_at > recs[id].expiry.unwrap() ==> state_of(recs, id, now)
            == SecretState::Expired,
{
}

/// After a successful consume, the record reads `Consumed` at every time,
/// and every later consume fails (`NotFound` for a well-formed key) and
/// changes nothing.
pub proof fn lemma_consumed_is_final(
    recs: Map<u128, RecordView>,
    id: u128,
    key: Seq<char>,
    now: u64,
    later_key: Seq<char>,
    later: u64,
)
    requires
        consume_outcome(recs, id, key, now) is Ok,
    ensures
        state_of(after_consume(recs, id, key, now), id, later) == SecretState::Consumed,
        consume_outcome(after_consume(recs, id, key, now), id, later_key, later) is Err,
        key_bytes(later_key) is Some ==> consume_outcome(
            after_consume(recs, id, key, now),
            id,
            later_key,
            later,
        ) == Err::<Seq<char>, SecretError>(SecretError::NotFound),
        after_consume(after_consume(recs, id, key, now), id, later_key, later) == after_consume(
            recs,
            id,
            key,
            now,
        ),
{
    assert(fetchable(recs, id) is Some);
}

/// A consume whose key fails authentication changes nothing, and a later
/// consume with the right key before expiry still discloses the secret.
pub proof fn lemma_wrong_key_keeps_secret(
    recs: Map<u128, RecordView>,
    id: u128,
    wrong: Seq<char>,
    now: u64,
    right: Seq<char>,
    later: u64,
)
    requires
        consume_outcome(recs, id, wrong, now) == Err::<Seq<char>, SecretError>(
            SecretError::DecryptionFailed,
        ),
        key_bytes(right) is Some,
        aes256gcm_open(
            key_bytes(right).unwrap(),
            stored_parts(recs[id].ciphertext, recs[id].iv).unwrap().0,
            stored_parts(recs[id].ciphertext, recs[id].iv).unwrap().1,
        ) is Some,
        state_of(recs, id, later) == SecretState::Secret(id),
    ensures
        after_consume(recs, id, wrong, now) == recs,
        consume_outcome(after_consume(recs, id, wrong, now), id, right, later) is Ok,
{
    assert(fetchable(recs, id) is Some);
    assert(stored_parts(recs[id].ciphertext, recs[id].iv) is Some);
}

/// A key string whose decoding is not 32 bytes long is `InvalidKey`, and
/// the store is left as it was.
pub proof fn lemma_bad_key_length(recs: Map<u128, RecordView>, id: u128, key: Seq<char>, now: u64)
    requires
        url_b64_decode(key) is Some,
        url_b64_decode(key).unwrap().len() != 32,
    ensures
        consume_outcome(recs, id, key, now) == Err::<Seq<char>, SecretError>(SecretError::InvalidKey),
        after_consume(recs, id, key, now) == recs,
{
}

/// Encrypting a text, storing it under a new identifier and consuming it
/// with the same key before expiry gives back exactly that text.
pub proof fn lemma_round_trip(
    recs: Map<u128, RecordView>,
    id: u128,
    text: Seq<char>,
    key: Seq<u8>,
    nonce: Seq<u8>,
    ct: Seq<char>,
    iv: Seq<char>,
    key_text: Seq<char>,
    expiry: Option<u64>,
    created: u64,
    now: u64,
)
    requires
        !recs.contains_key(id),
        key_bytes(key_text) == Some(key),
        seals(ct, iv, key, nonce, encode_utf8(text)),
        !is_expired(created, expiry, now),
    ensures
        consume_outcome(
            recs.insert(id, fresh_record(ct, iv, expiry, created)),
            id,
            key_text,
            now,
        ) == Ok::<Seq<char>, SecretError>(text),
{
    encode_utf8_valid_utf8(text);
    encode_utf8_decode_utf8(text);
    assert(lossy_decode(encode_utf8(text)) == text);
}

/// Consume attempts on one identifier, applied in order: the records
/// afterwards and the number of attempts that disclosed the secret.
pub open spec fn run_attempts(
    recs: Map<u128, RecordView>,
    id: u128,
    attempts: Seq<(Seq<char>, u64)>,
) -> (Map<u128, RecordView>, nat)
    decreases attempts.len(),
{
    if attempts.len() == 0 {
        (recs, 0)
    } else {
        let (key, now) = attempts[0];
        let rest = run_attempts(after_consume(recs, id, key, now), id, attempts.drop_first());
        (rest.0, rest.1 + if consume_outcome(recs, id, key, now) is Ok {
            1nat
        } else {
            0nat
        })
    }
}

/// Once a record is consumed, no further attempt discloses it.
pub proof fn lemma_consumed_attempts(
    recs: Map<u128, RecordView>,
    id: u128,
    attempts: Seq<(Seq<char>, u64)>,
)
    requires
        recs.contains_key(id),
        recs[id].consumed,
    ensures
        run_attempts(recs, id, attempts).1 == 0,
    decreases attempts.len(),
{
    if attempts.len() > 0 {
        let (key, now) = attempts[0];
        assert(consume_outcome(recs, id, key, now) is Err);
        lemma_consumed_attempts(recs, id, attempts.drop_first());
    }
}

/// However many consume attempts on one identifier are serialised by the
/// store's exclusive access, in whatever order, at most one succeeds.
pub proof fn lemma_at_most_one_disclosure(
    recs: Map<u128, RecordView>,
    id: u128,
    attempts: Seq<(Seq<char>, u64)>,
)
    ensures
        run_attempts(recs, id, attempts).1 <= 1,
    decreases attempts.len(),
{
    if attempts.len() > 0 {
        let (key, now) = attempts[0];
        if consume_outcome(recs, id, key, now) is Ok {
            assert(fetchable(recs, id) is Some);
            lemma_consumed_attempts(mark_consumed(recs, id), id, attempts.drop_first());
        } else {
            lemma_at_most_one_disclosure(recs, id, attempts.drop_first());
        }
    }
}

} // verus!
