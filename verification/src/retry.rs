//! The backoff policy: a sequence of delays that is handed out one by one
//! until none is left.

use vstd::prelude::*;

verus! {

/// How many delays a fresh exponential policy holds.
pub const MAX_ATTEMPTS: usize = 3;

/// No delay of the exponential policy is longer than this, in nanoseconds:
/// sixteen seconds.
pub const MAX_BACKOFF_NANOS: u128 = 16_000_000_000;

/// The delays of a fresh exponential policy, in nanoseconds, in the order in
/// which they are handed out: two, four and sixteen seconds.
pub open spec fn backoff_delays() -> Seq<u128> {
    seq![2_000_000_000u128, 4_000_000_000u128, 16_000_000_000u128]
}

/// What taking one delay from the sequence `delays` gives: the first delay and
/// the rest, or nothing and the same empty sequence.
pub open spec fn take_delay(delays: Seq<u128>) -> (Option<u128>, Seq<u128>) {
    if delays.len() > 0 {
        (Some(delays[0]), delays.drop_first())
    } else {
        (None, delays)
    }
}

/// A generator of backoff delays. Its view is the sequence of delays, in
/// nanoseconds, that it has still to give, next one first.
#[derive(Debug)]
pub struct RetryPolicy {
    // Held last-first, so that the next delay is the one `pop` removes.
    stack: Vec<u128>,
}

impl View for RetryPolicy {
    type V = Seq<u128>;

    closed spec fn view(&self) -> Seq<u128> {
        self.stack@.reverse()
    }
}

impl RetryPolicy {
    /// A bounded sequence of growing delays.
    pub fn exponential() -> (policy: RetryPolicy)
        ensures
            policy@ == backoff_delays(),
    {
        let mut stack: Vec<u128> = Vec::new();
        stack.push(16_000_000_000);
        stack.push(4_000_000_000);
        stack.push(2_000_000_000);
        RetryPolicy { stack }
    }

    /// A policy with no delay to give: whoever asks is told at once that no
    /// retry is left.
    pub fn once() -> (policy: RetryPolicy)
        ensures
            policy@ == Seq::<u128>::empty(),
    {
        let stack: Vec<u128> = Vec::new();
        RetryPolicy { stack }
    }

    /// Hands out the next delay, or `None` when the policy is exhausted.
    pub fn next(&mut self) -> (delay: Option<u128>)
        ensures
            (delay, final(self)@) == take_delay(old(self)@),
    {
        self.stack.pop()
    }

    /// The number of delays still to come.
    pub fn remaining(&self) -> (n: usize)
        ensures
            n == self@.len(),
    {
        self.stack.len()
    }

    /// Whether no delay is left.
    pub fn is_exhausted(&self) -> (yes: bool)
        ensures
            yes == (self@.len() == 0),
    {
        self.stack.len() == 0
    }
}

impl Default for RetryPolicy {
    /// The exponential policy.
    fn default() -> (policy: RetryPolicy)
        ensures
            policy@ == backoff_delays(),
    {
        RetryPolicy::exponential()
    }
}

/// What is left of `delays` after `n` delays were taken from it.
pub open spec fn after_taking(delays: Seq<u128>, n: nat) -> Seq<u128>
    decreases n,
{
    if n == 0 {
        delays
    } else {
        after_taking(take_delay(delays).1, (n - 1) as nat)
    }
}

/// Taking `n` delays leaves the sequence without its first `n` entries, or
/// empty where it held fewer.
pub proof fn lemma_after_taking(delays: Seq<u128>, n: nat)
    ensures
        n <= delays.len() ==> after_taking(delays, n) == delays.skip(n as int),
        n >= delays.len() ==> after_taking(delays, n) == Seq::<u128>::empty(),
    decreases n,
{
    if n > 0 {
        lemma_after_taking(take_delay(delays).1, (n - 1) as nat);
    }
}

/// The exponential policy is bounded and grows: it holds exactly
/// `MAX_ATTEMPTS` delays, each strictly longer than the one before it and none
/// longer than `MAX_BACKOFF_NANOS`.
pub proof fn lemma_backoff_grows_and_is_capped()
    ensures
        backoff_delays().len() == MAX_ATTEMPTS,
        forall|i: int, j: int|
            0 <= i < j < backoff_delays().len() ==> backoff_delays()[i] < backoff_delays()[j],
        forall|i: int|
            0 <= i < backoff_delays().len() ==> 0 < #[trigger] backoff_delays()[i]
                <= MAX_BACKOFF_NANOS,
{
}

/// A fresh exponential policy gives its delays in order on the first
/// `MAX_ATTEMPTS` requests and nothing from then on.
pub proof fn lemma_exponential_exhausts(n: nat)
    ensures
        n < MAX_ATTEMPTS ==> take_delay(after_taking(backoff_delays(), n)).0 == Some(
            backoff_delays()[n as int],
        ),
        n >= MAX_ATTEMPTS ==> take_delay(after_taking(backoff_delays(), n)).0 == None::<u128>,
        n >= MAX_ATTEMPTS ==> after_taking(backoff_delays(), n) == Seq::<u128>::empty(),
{
    lemma_after_taking(backoff_delays(), n);
}

} // verus!
