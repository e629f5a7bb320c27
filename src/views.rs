use vstd::prelude::*;
use vstd::string::StringExecFns;
use crate::codec::{id_text, parse_id_text, uuid_parse, uuid_text};
use crate::disclosure::key_bytes;
use crate::error::SecretError;
use crate::state::{expiry_from_input, SecretState};
use crate::store::{after_consume, consume_outcome, fresh_record, state_of, SecretController};

verus! {

/// The landing page.
pub struct IndexTemplate {}

/// The privacy notice.
pub struct PrivacyTemplate {}

/// The page describing the service.
pub struct AboutTemplate {}

/// The page explaining how secrets are protected.
pub struct HowItWorksTemplate {}

/// The page shown after a secret was stored: the retrieval path.
pub struct ResultTemplate {
    pub url: String,
}

/// The status page of a link, with the key to pass on to consumption.
pub struct GotoTemplate {
    pub state: SecretState,
    pub key: String,
}

/// The page that shows a disclosed secret.
pub struct ConsumeTemplate {
    pub secret: String,
}

/// The retrieval path of a secret.
pub open spec fn goto_path(id: u128) -> Seq<char> {
    seq!['g', 'o', 't', 'o', '/'] + uuid_text(id)
}

/// Reads an identifier from its text form, as it appears in a path.
pub fn parse_id(s: &str) -> (r: Option<u128>)
    ensures
        r == uuid_parse(s@),
{
    parse_id_text(s)
}

/// The result page for a newly stored secret.
pub fn result_page(id: u128) -> (r: ResultTemplate)
    ensures
        r.url@ == goto_path(id),
{
    let t = id_text(id);
    let url = String::from_str("goto/").concat(t.as_str());
    proof {
        reveal_strlit("goto/");
        assert(url@ =~= goto_path(id));
    }
    ResultTemplate { url }
}

/// Stores a submitted secret (an expiry of zero seconds means none) and
/// returns its result page.
pub fn generate(
    store: &mut SecretController,
    ciphertext: &str,
    iv: &str,
    expiry_seconds: u64,
    now: u64,
) -> (r: Result<ResultTemplate, SecretError>)
    ensures
        match r {
            Ok(page) => exists|id: u128|
                #![trigger goto_path(id)]
                !old(store)@.contains_key(id) && final(store)@ == old(store)@.insert(
                    id,
                    fresh_record(
                        ciphertext@,
                        iv@,
                        if expiry_seconds == 0 {
                            None
                        } else {
                            Some(expiry_seconds)
                        },
                        now,
                    ),
                ) && page.url@ == goto_path(id),
            Err(e) => e == SecretError::StorageError && final(store)@ == old(store)@ && exists|k: u128|
                old(store)@.contains_key(k),
        },
{
    let expiry = expiry_from_input(expiry_seconds);
    match store.add(ciphertext, iv, expiry, now) {
        Ok(id) => {
            let page = result_page(id);
            assert(page.url@ == goto_path(id));
            Ok(page)
        },
        Err(e) => Err(e),
    }
}

/// The status page of `id` at `now`: a key that does not decode to 32
/// bytes shows `Invalid` without reading the store.
pub fn goto_page(store: &SecretController, id: u128, key: String, now: u64) -> (r: GotoTemplate)
    ensures
        r.key@ == key@,
        key_bytes(key@) is None ==> r.state == SecretState::Invalid,
        key_bytes(key@) is Some ==> r.state == state_of(store@, id, now),
{
    let ok = match crate::disclosure::decode_key(key.as_str()) {
        Ok(_) => true,
        Err(_) => false,
    };
    if !ok {
        return GotoTemplate { state: SecretState::Invalid, key };
    }
    let state = store.check_state(id, now);
    GotoTemplate { state, key }
}

/// Consumes `id` with `key` at `now` and returns the page that shows it.
pub fn consume_page(store: &mut SecretController, id: u128, key: &str, now: u64) -> (r: Result<
    ConsumeTemplate,
    SecretError,
>)
    ensures
        match r {
            Ok(page) => consume_outcome(old(store)@, id, key@, now) == Ok::<Seq<char>, SecretError>(
                page.secret@,
            ),
            Err(e) => consume_outcome(old(store)@, id, key@, now) == Err::<Seq<char>, SecretError>(
                e,
            ),
        },
        final(store)@ == after_consume(old(store)@, id, key@, now),
{
    match store.consume(id, key, now) {
        Ok(secret) => Ok(ConsumeTemplate { secret }),
        Err(e) => Err(e),
    }
}

} // verus!
