//! The retry policy of the message client: retry with exponential backoff on
//! rate limiting only, up to a fixed ceiling of attempts; any other failure
//! is permanent and surfaces at once.
//!
//! The policy is a pure decision: given the attempt number and the kind of
//! reply the transport got, it says whether to use the reply, wait and retry,
//! or give up with which error.  The loop that performs the waiting and the
//! network calls stands outside the library and follows these decisions.

use vstd::prelude::*;
use vstd::arithmetic::div_mod::lemma_mod_bound;
use crate::errors::CommitMessageError;

verus! {

/// Backoff starts at this many milliseconds.
pub const BASE_DELAY_MS: u64 = 500;

/// At most this many attempts are made for one summary.
pub const MAX_ATTEMPTS: u32 = 6;

/// Two to the power `n`.
pub open spec fn pow2(n: nat) -> nat
    decreases n,
{
    if n == 0 {
        1
    } else {
        2 * pow2((n - 1) as nat)
    }
}

/// Doubling never reaches zero.
pub proof fn lemma_pow2_pos(n: nat)
    ensures
        pow2(n) >= 1,
    decreases n,
{
    if n > 0 {
        lemma_pow2_pos((n - 1) as nat);
    }
}

/// The powers of two below the attempt ceiling, written out.
pub proof fn lemma_pow2_small()
    ensures
        pow2(0) == 1,
        pow2(1) == 2,
        pow2(2) == 4,
        pow2(3) == 8,
        pow2(4) == 16,
        pow2(5) == 32,
{
    assert(pow2(0) == 1);
    assert(pow2(1) == 2);
    assert(pow2(2) == 4);
    assert(pow2(3) == 8);
    assert(pow2(4) == 16);
    assert(pow2(5) == 32);
}

/// `pow2` grows monotonically.
pub proof fn lemma_pow2_monotone(a: nat, b: nat)
    requires
        a <= b,
    ensures
        pow2(a) <= pow2(b),
    decreases b,
{
    if a < b {
        lemma_pow2_monotone(a, (b - 1) as nat);
        lemma_pow2_pos((b - 1) as nat);
    }
}

/// The delay before retrying after attempt number `attempt` (counting from
/// zero): the base delay doubled once per prior attempt, plus a jitter of
/// less than that same amount.
pub open spec fn backoff_delay_spec(attempt: nat, jitter: nat) -> nat {
    let base = (BASE_DELAY_MS as nat) * pow2(attempt);
    base + jitter % base
}

/// Delays grow strictly from one attempt to the next, whatever the jitters:
/// a jittered delay stays below twice its base, and the next base doubles.
pub proof fn lemma_backoff_monotone(attempt: nat, jitter1: nat, jitter2: nat)
    ensures
        backoff_delay_spec(attempt, jitter1) < backoff_delay_spec(attempt + 1, jitter2),
{
    lemma_pow2_pos(attempt);
    let m1 = ((BASE_DELAY_MS as nat) * pow2(attempt)) as int;
    let m2 = ((BASE_DELAY_MS as nat) * pow2(attempt + 1)) as int;
    assert(pow2(attempt + 1) == 2 * pow2(attempt));
    lemma_mod_bound(jitter1 as int, m1);
    lemma_mod_bound(jitter2 as int, m2);
}

/// Compute the backoff delay in milliseconds for the given attempt, with the
/// given jitter source.
pub fn backoff_delay_ms(attempt: u32, jitter: u64) -> (d: u64)
    requires
        attempt < MAX_ATTEMPTS,
    ensures
        d as nat == backoff_delay_spec(attempt as nat, jitter as nat),
{
    let mut base: u64 = BASE_DELAY_MS;
    let mut i: u32 = 0;
    proof {
        lemma_pow2_small();
    }
    while i < attempt
        invariant
            i <= attempt,
            attempt < MAX_ATTEMPTS,
            base as nat == (BASE_DELAY_MS as nat) * pow2(i as nat),
            base <= 16000,
        decreases attempt - i,
    {
        proof {
            lemma_pow2_small();
            lemma_pow2_monotone((i + 1) as nat, 5);
        }
        base = base * 2;
        i = i + 1;
    }
    proof {
        lemma_pow2_pos(attempt as nat);
        lemma_mod_bound(jitter as int, base as int);
    }
    base + jitter % base
}

/// What the transport got back from one attempt, as the retry policy sees
/// it.  `Delivered` covers every reply that reached us, whatever it holds;
/// the other kinds classify the transport's failure.
#[derive(Clone, Copy, Debug, PartialEq, Eq, Structural)]
pub enum ReplyKind {
    /// A reply arrived; its tool calls go to the extraction step.
    Delivered,
    /// The service signalled rate limiting or throttling.
    RateLimited,
    /// The service rejected the credential.
    AuthFailed,
    /// Any other transport failure; not worth retrying.
    TransportFailed,
}

/// What to do after one attempt.
#[derive(Debug, PartialEq, Eq)]
pub enum RetryDecision {
    /// Use the delivered reply.
    Proceed,
    /// Wait this many milliseconds, then try again.
    RetryAfter(u64),
    /// Stop with this error.
    GiveUp(CommitMessageError),
}

/// Decide what to do after attempt number `attempt` (counting from zero) got
/// the given kind of reply.  Only rate limiting is retried, and only while
/// the attempt ceiling is not reached.
pub fn decide_retry(attempt: u32, jitter: u64, reply: ReplyKind) -> (d: RetryDecision)
    requires
        attempt < MAX_ATTEMPTS,
    ensures
        reply is Delivered ==> d == RetryDecision::Proceed,
        reply is RateLimited && attempt + 1 < MAX_ATTEMPTS ==> (d matches RetryDecision::RetryAfter(
            ms,
        ) && ms as nat == backoff_delay_spec(attempt as nat, jitter as nat)),
        reply is RateLimited && attempt + 1 == MAX_ATTEMPTS ==> d == RetryDecision::GiveUp(
            CommitMessageError::RateLimitExceeded,
        ),
        reply is AuthFailed ==> d == RetryDecision::GiveUp(CommitMessageError::AuthFailure),
        reply is TransportFailed ==> d == RetryDecision::GiveUp(CommitMessageError::ServiceFailure),
        d matches RetryDecision::RetryAfter(ms) ==> reply is RateLimited && attempt + 1
            < MAX_ATTEMPTS,
{
    match reply {
        ReplyKind::Delivered => RetryDecision::Proceed,
        ReplyKind::RateLimited => {
            if attempt + 1 < MAX_ATTEMPTS {
                RetryDecision::RetryAfter(backoff_delay_ms(attempt, jitter))
            } else {
                RetryDecision::GiveUp(CommitMessageError::RateLimitExceeded)
            }
        },
        ReplyKind::AuthFailed => RetryDecision::GiveUp(CommitMessageError::AuthFailure),
        ReplyKind::TransportFailed => RetryDecision::GiveUp(CommitMessageError::ServiceFailure),
    }
}

/// How many consecutive rate-limited replies open the sequence.
pub open spec fn rate_limited_prefix_len(rs: Seq<ReplyKind>) -> int
    decreases rs.len(),
{
    if rs.len() > 0 && rs[0] is RateLimited {
        1 + rate_limited_prefix_len(rs.drop_first())
    } else {
        0
    }
}

/// The rate-limited prefix ends exactly at the first reply of another kind.
proof fn lemma_rl_prefix_char(rs: Seq<ReplyKind>, n: int)
    requires
        0 <= n <= rs.len(),
        forall|i: int| 0 <= i < n ==> rs[i] is RateLimited,
        n == rs.len() || !(rs[n] is RateLimited),
    ensures
        rate_limited_prefix_len(rs) == n,
    decreases rs.len(),
{
    if n == 0 {
    } else {
        assert(rs[0] is RateLimited);
        assert forall|i: int| 0 <= i < n - 1 implies rs.drop_first()[i] is RateLimited by {
            assert(rs.drop_first()[i] == rs[i + 1]);
        }
        lemma_rl_prefix_char(rs.drop_first(), n - 1);
    }
}

/// The prefix length is never negative.
proof fn lemma_rl_prefix_nonneg(rs: Seq<ReplyKind>)
    ensures
        rate_limited_prefix_len(rs) >= 0,
    decreases rs.len(),
{
    if rs.len() > 0 && rs[0] is RateLimited {
        lemma_rl_prefix_nonneg(rs.drop_first());
    }
}

/// A run of rate-limited replies bounds the prefix length from below.
proof fn lemma_rl_prefix_lower(rs: Seq<ReplyKind>, n: int)
    requires
        0 <= n <= rs.len(),
        forall|i: int| 0 <= i < n ==> rs[i] is RateLimited,
    ensures
        rate_limited_prefix_len(rs) >= n,
    decreases rs.len(),
{
    if n > 0 {
        assert(rs[0] is RateLimited);
        assert forall|i: int| 0 <= i < n - 1 implies rs.drop_first()[i] is RateLimited by {
            assert(rs.drop_first()[i] == rs[i + 1]);
        }
        lemma_rl_prefix_lower(rs.drop_first(), n - 1);
    } else {
        lemma_rl_prefix_nonneg(rs);
    }
}

/// What one whole generation call did: how many attempts were made, which
/// backoff delays were waited between them, and how it ended.
pub struct RetryTrace {
    pub attempts: u32,
    pub delays: Vec<u64>,
    pub outcome: Result<(), CommitMessageError>,
}

/// Follow the retry policy over a pre-recorded sequence of reply kinds (with
/// a jitter value per possible attempt): after `n` rate-limited replies
/// followed by a delivered one, exactly `n + 1` attempts are made with
/// strictly growing delays between them; a reply of any other kind ends the
/// run at once; and a whole ceiling's worth of rate limiting gives up with
/// `RateLimitExceeded`.
pub fn run_retry_schedule(replies: &Vec<ReplyKind>, jitters: &Vec<u64>) -> (t: RetryTrace)
    requires
        replies@.len() >= MAX_ATTEMPTS,
        jitters@.len() >= MAX_ATTEMPTS,
    ensures
        1 <= t.attempts <= MAX_ATTEMPTS,
        t.delays@.len() == t.attempts - 1,
        forall|i: int|
            0 <= i < t.delays@.len() ==> t.delays@[i] as nat == backoff_delay_spec(
                i as nat,
                jitters@[i] as nat,
            ),
        forall|i: int| 0 <= i < t.delays@.len() - 1 ==> #[trigger] t.delays@[i] < t.delays@[i + 1],
        rate_limited_prefix_len(replies@) >= MAX_ATTEMPTS ==> t.attempts == MAX_ATTEMPTS
            && t.outcome == Err::<(), CommitMessageError>(CommitMessageError::RateLimitExceeded),
        rate_limited_prefix_len(replies@) < MAX_ATTEMPTS ==> {
            &&& t.attempts as int == rate_limited_prefix_len(replies@) + 1
            &&& (replies@[t.attempts as int - 1] is Delivered ==> t.outcome == Ok::<
                (),
                CommitMessageError,
            >(()))
            &&& (replies@[t.attempts as int - 1] is AuthFailed ==> t.outcome == Err::<
                (),
                CommitMessageError,
            >(CommitMessageError::AuthFailure))
            &&& (replies@[t.attempts as int - 1] is TransportFailed ==> t.outcome == Err::<
                (),
                CommitMessageError,
            >(CommitMessageError::ServiceFailure))
        },
{
    let mut delays: Vec<u64> = Vec::new();
    let mut attempt: u32 = 0;
    while attempt < MAX_ATTEMPTS
        invariant
            attempt < MAX_ATTEMPTS,
            replies@.len() >= MAX_ATTEMPTS,
            jitters@.len() >= MAX_ATTEMPTS,
            delays@.len() == attempt,
            forall|i: int| 0 <= i < attempt ==> replies@[i] is RateLimited,
            forall|i: int|
                0 <= i < delays@.len() ==> delays@[i] as nat == backoff_delay_spec(
                    i as nat,
                    jitters@[i] as nat,
                ),
            forall|i: int| 0 <= i < delays@.len() - 1 ==> #[trigger] delays@[i] < delays@[i + 1],
        decreases MAX_ATTEMPTS - attempt,
    {
        let kind = replies[attempt as usize];
        match decide_retry(attempt, jitters[attempt as usize], kind) {
            RetryDecision::Proceed => {
                proof {
                    lemma_rl_prefix_char(replies@, attempt as int);
                }
                return RetryTrace { attempts: attempt + 1, delays, outcome: Ok(()) };
            },
            RetryDecision::GiveUp(e) => {
                proof {
                    if kind is RateLimited {
                        lemma_rl_prefix_lower(replies@, attempt as int + 1);
                    } else {
                        lemma_rl_prefix_char(replies@, attempt as int);
                    }
                }
                return RetryTrace { attempts: attempt + 1, delays, outcome: Err(e) };
            },
            RetryDecision::RetryAfter(ms) => {
                proof {
                    if delays@.len() > 0 {
                        lemma_backoff_monotone(
                            (attempt - 1) as nat,
                            jitters@[attempt as int - 1] as nat,
                            jitters@[attempt as int] as nat,
                        );
                    }
                }
                delays.push(ms);
                attempt = attempt + 1;
            },
        }
    }
    proof {
        assert(false);
    }
    RetryTrace { attempts: 1, delays: Vec::new(), outcome: Ok(()) }
}

} // verus!
