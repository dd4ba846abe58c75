//! The rules of account lockout: which keys count failures and hold locks, when a failure
//! locks, and what a lock check answers. The key store and circuit breaker sit around them.

use crate::text::decimal_text;
use vstd::prelude::*;
use vstd::string::*;

verus! {

/// How long failures are counted, in seconds, from the first one.
pub const FAILURE_WINDOW_SECONDS: u64 = 600;

/// Why a lockout operation did not go through.
#[derive(Debug, Clone)]
pub enum LockoutError {
    Redis(String),
    Locked(u64),
    CircuitOpen,
}

impl LockoutError {
    pub open spec fn text(&self) -> Seq<char> {
        match self {
            LockoutError::Redis(m) => "Redis error: "@ + m@,
            LockoutError::Locked(_) => "Account is locked. Try again later."@,
            LockoutError::CircuitOpen => "Service temporarily unavailable (Circuit Breaker)"@,
        }
    }

    pub fn message(&self) -> (m: String)
        ensures
            m@ == self.text(),
    {
        match self {
            LockoutError::Redis(m) => String::from_str("Redis error: ").concat(m.as_str()),
            LockoutError::Locked(_) => String::from_str("Account is locked. Try again later."),
            LockoutError::CircuitOpen => String::from_str(
                "Service temporarily unavailable (Circuit Breaker)",
            ),
        }
    }
}

/// Whether a lockout operation may go on: refused with `CircuitOpen` when the circuit breaker
/// does not let the call through, before the key store is touched.
pub fn breaker_gate(permitted: bool) -> (r: Result<(), LockoutError>)
    ensures
        permitted ==> r is Ok,
        !permitted ==> r matches Err(LockoutError::CircuitOpen),
{
    if permitted {
        Ok(())
    } else {
        Err(LockoutError::CircuitOpen)
    }
}

/// The lock on an identity everywhere.
pub fn global_lock_key(identity: &str) -> (k: String)
    ensures
        k@ == "lockout:"@ + identity@,
{
    String::from_str("lockout:").concat(identity)
}

/// The lock on an identity from one address.
pub fn ip_lock_key(identity: &str, ip: &str) -> (k: String)
    ensures
        k@ == "lockout:"@ + identity@ + ":"@ + ip@,
{
    String::from_str("lockout:").concat(identity).concat(":").concat(ip)
}

/// The failure counter of an identity, from one address when `ip` is given.
pub fn failure_counter_key(identity: &str, ip: Option<&str>) -> (k: String)
    ensures
        match ip {
            Some(a) => k@ == "login_failures:"@ + identity@ + ":"@ + a@,
            None => k@ == "login_failures:"@ + identity@,
        },
{
    match ip {
        Some(a) => String::from_str("login_failures:").concat(identity).concat(":").concat(a),
        None => String::from_str("login_failures:").concat(identity),
    }
}

/// The counter and the lock a failure is recorded against: scoped to the address when one
/// is given, to the identity otherwise.
pub fn failure_keys(identity: &str, ip: Option<&str>) -> (keys: (String, String))
    ensures
        match ip {
            Some(a) => keys.0@ == "login_failures:"@ + identity@ + ":"@ + a@ && keys.1@
                == "lockout:"@ + identity@ + ":"@ + a@,
            None => keys.0@ == "login_failures:"@ + identity@ && keys.1@ == "lockout:"@
                + identity@,
        },
{
    match ip {
        Some(a) => (failure_counter_key(identity, Some(a)), ip_lock_key(identity, a)),
        None => (failure_counter_key(identity, None), global_lock_key(identity)),
    }
}

/// The counters a success clears: the identity's, and the address's when one is given.
pub fn reset_keys(identity: &str, ip: Option<&str>) -> (keys: Vec<String>)
    ensures
        keys@.len() == if ip is Some { 2int } else { 1int },
        keys@[0]@ == "login_failures:"@ + identity@,
        ip matches Some(a) ==> keys@[1]@ == "login_failures:"@ + identity@ + ":"@ + a@,
{
    let mut keys: Vec<String> = Vec::new();
    keys.push(failure_counter_key(identity, None));
    if let Some(a) = ip {
        keys.push(failure_counter_key(identity, Some(a)));
    }
    keys
}

/// The answer of a lock check, from the remaining time of the identity's lock and, when an
/// address is given, of that address's lock: the identity's lock is looked at first, and a
/// non-positive time means no lock.
pub fn lock_status(global_ttl: i64, ip_ttl: Option<i64>) -> (r: Result<(), LockoutError>)
    ensures
        global_ttl > 0 ==> (r matches Err(LockoutError::Locked(t)) && t == global_ttl),
        global_ttl <= 0 && ip_ttl is Some && ip_ttl->0 > 0 ==> (r matches Err(
            LockoutError::Locked(t2),
        ) && t2 == ip_ttl->0),
        global_ttl <= 0 && !(ip_ttl is Some && ip_ttl->0 > 0) ==> r is Ok,
{
    if global_ttl > 0 {
        return Err(LockoutError::Locked(global_ttl as u64));
    }
    if let Some(t) = ip_ttl {
        if t > 0 {
            return Err(LockoutError::Locked(t as u64));
        }
    }
    Ok(())
}

/// What a recorded failure leads to.
#[derive(Debug, Clone, Copy)]
pub struct FailureResponse {
    /// The counter was just created: it expires after the failure window.
    pub start_window: bool,
    /// The threshold is exceeded: lock, and clear the counter.
    pub lock: bool,
}

/// The response to the `attempts`-th failure in the window.
pub fn failure_response(attempts: u64, threshold: u64) -> (r: FailureResponse)
    ensures
        r.start_window == (attempts == 1),
        r.lock == (attempts > threshold),
{
    FailureResponse { start_window: attempts == 1, lock: attempts > threshold }
}

} // verus!
