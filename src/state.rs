use vstd::prelude::*;

verus! {

/// The logical state of a stored secret, computed at read time.
#[derive(Debug, Clone, Copy, PartialEq, Eq, Structural)]
pub enum SecretState {
    /// The secret exists, is unconsumed and within its expiry window.
    Secret(u128),
    Consumed,
    Expired,
    Invalid,
}

/// A record with an expiry of `e` seconds is expired once the clock is
/// strictly past `created_at + e`.
pub open spec fn is_expired(created_at: u64, expiry: Option<u64>, now: u64) -> bool {
    match expiry {
        Some(e) => now > created_at + e,
        None => false,
    }
}

/// The classification of an existing record; `Consumed` takes precedence
/// over `Expired`.
pub open spec fn classify_spec(
    id: u128,
    consumed: bool,
    created_at: u64,
    expiry: Option<u64>,
    now: u64,
) -> SecretState {
    if consumed {
        SecretState::Consumed
    } else if is_expired(created_at, expiry, now) {
        SecretState::Expired
    } else {
        SecretState::Secret(id)
    }
}

/// Decides whether the expiry window has passed at `now`.
pub fn expired_at(created_at: u64, expiry: Option<u64>, now: u64) -> (r: bool)
    ensures
        r == is_expired(created_at, expiry, now),
{
    match expiry {
        Some(e) => now > created_at && now - created_at > e,
        None => false,
    }
}

/// Classifies an existing record at time `now`.
pub fn classify(id: u128, consumed: bool, created_at: u64, expiry: Option<u64>, now: u64) -> (r:
    SecretState)
    ensures
        r == classify_spec(id, consumed, created_at, expiry, now),
{
    if consumed {
        SecretState::Consumed
    } else if expired_at(created_at, expiry, now) {
        SecretState::Expired
    } else {
        SecretState::Secret(id)
    }
}

/// The stored expiry for a submitted expiry in seconds: zero means the
/// secret never expires by time.
pub fn expiry_from_input(seconds: u64) -> (r: Option<u64>)
    ensures
        seconds == 0 ==> r is None,
        seconds != 0 ==> r == Some(seconds),
{
    if seconds == 0 {
        None
    } else {
        Some(seconds)
    }
}

/// The check made on the logical state before a consume takes the lock:
/// an expired secret is refused; a consumed or unknown one is left to the
/// locking fetch, which reports it as not found.
pub fn consume_gate(state: SecretState) -> (r: Result<(), crate::error::SecretError>)
    ensures
        state == SecretState::Expired ==> r == Err::<(), crate::error::SecretError>(
            crate::error::SecretError::Expired,
        ),
        state != SecretState::Expired ==> r is Ok,
{
    if state == SecretState::Expired {
        Err(crate::error::SecretError::Expired)
    } else {
        Ok(())
    }
}

} // verus!
