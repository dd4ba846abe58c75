//! The arithmetic of a token bucket. Tokens are counted in thousandths, time in milliseconds;
//! a bucket refills at `refill` tokens per second, given in ten-thousandths of a token. The
//! key store that keeps each bucket's state sits around this.

use vstd::prelude::*;

verus! {

/// A bucket as stored: its tokens, in thousandths, and the instant (ms) they were counted at.
#[derive(Debug, Clone, Copy, PartialEq, Eq, Structural)]
pub struct BucketState {
    pub milli_tokens: u64,
    pub counted_at_ms: u64,
}

/// Whether a request may pass, and if not, after how many milliseconds the bucket holds
/// enough again (`None` when it never refills).
#[derive(Debug, Clone, Copy, PartialEq, Eq, Structural)]
pub enum BucketDecision {
    Allowed,
    Exceeded { retry_after_ms: Option<u64> },
}

/// What a bucket of `limit` tokens holds, in thousandths, when full.
pub open spec fn bucket_capacity(limit: u32) -> int {
    limit as int * 1000
}

/// The tokens a bucket holds at `now_ms`: a missing bucket is full; otherwise what it held
/// plus what it gained since, never more than full. A clock that went back adds nothing.
pub open spec fn bucket_tokens(state: Option<BucketState>, now_ms: u64, limit: u32, refill: u32) -> int {
    match state {
        None => bucket_capacity(limit),
        Some(s) => {
            let gained = if now_ms > s.counted_at_ms {
                (now_ms - s.counted_at_ms) as int * refill as int / 10000
            } else {
                0
            };
            if s.milli_tokens + gained < bucket_capacity(limit) {
                s.milli_tokens + gained
            } else {
                bucket_capacity(limit)
            }
        },
    }
}

/// The wait, in milliseconds, until `deficit` thousandths of a token have been refilled.
pub open spec fn refill_wait(deficit: int, refill: u32) -> Option<u64> {
    if refill == 0 {
        None
    } else {
        Some(((deficit * 10000 + refill - 1) / refill as int) as u64)
    }
}

/// A bucket never holds more than its capacity, and refilling never takes tokens away from a
/// bucket that was within its capacity.
pub proof fn lemma_bucket_bounded(state: Option<BucketState>, now_ms: u64, limit: u32, refill: u32)
    ensures
        bucket_tokens(state, now_ms, limit, refill) <= bucket_capacity(limit),
        state matches Some(s) ==> (s.milli_tokens <= bucket_capacity(limit) ==> bucket_tokens(
            state,
            now_ms,
            limit,
            refill,
        ) >= s.milli_tokens),
{
    if let Some(s) = state {
        if now_ms > s.counted_at_ms {
            let elapsed = (now_ms - s.counted_at_ms) as int;
            assert(elapsed * refill as int >= 0) by (nonlinear_arith)
                requires
                    elapsed >= 0,
                    refill >= 0,
            ;
        }
    }
}

/// Takes `cost` tokens from the bucket if it holds them at `now_ms`. Gives back the bucket's
/// new state, counted at `now_ms`, and the decision.
pub fn take_tokens(state: Option<BucketState>, now_ms: u64, limit: u32, refill: u32, cost: u32) -> (r: (
    BucketState,
    BucketDecision,
))
    ensures
        ({
            let held = bucket_tokens(state, now_ms, limit, refill);
            let need = cost as int * 1000;
            &&& r.0.counted_at_ms == now_ms
            &&& held >= need ==> r.0.milli_tokens == held - need && r.1 == BucketDecision::Allowed
            &&& held < need ==> r.0.milli_tokens == held && r.1 == (BucketDecision::Exceeded {
                retry_after_ms: refill_wait(need - held, refill),
            })
        }),
{
    let capacity: u64 = limit as u64 * 1000;
    let held: u64 = match state {
        None => capacity,
        Some(s) => {
            let gained: u128 = if now_ms > s.counted_at_ms {
                let elapsed: u128 = (now_ms - s.counted_at_ms) as u128;
                assert(elapsed * (refill as u128) <= 0xffff_ffff_ffff_ffffu128 * 0xffff_ffffu128)
                    by (nonlinear_arith)
                    requires
                        elapsed <= 0xffff_ffff_ffff_ffffu128,
                        refill <= 0xffff_ffffu32,
                ;
                elapsed * (refill as u128) / 10000
            } else {
                0
            };
            let total: u128 = s.milli_tokens as u128 + gained;
            if total < capacity as u128 {
                total as u64
            } else {
                capacity
            }
        },
    };
    let need: u64 = cost as u64 * 1000;
    if held >= need {
        (BucketState { milli_tokens: held - need, counted_at_ms: now_ms }, BucketDecision::Allowed)
    } else {
        let retry = if refill == 0 {
            None
        } else {
            let deficit: u64 = need - held;
            Some((deficit * 10000 + (refill as u64) - 1) / (refill as u64))
        };
        (
            BucketState { milli_tokens: held, counted_at_ms: now_ms },
            BucketDecision::Exceeded { retry_after_ms: retry },
        )
    }
}

} // verus!
