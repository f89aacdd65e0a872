use vstd::prelude::*;
use crate::config::{MAX_RETRIES, RETRY_DELAY_SECS};
use crate::git::{Invocation, InvocationView};

verus! {

/// The publish command.
pub open spec fn publish_view() -> InvocationView {
    ("cargo"@, seq!["publish"@, "--allow-dirty"@])
}

/// `cargo publish --allow-dirty`: one publish attempt.
pub fn publish_invocation() -> (r: Invocation)
    ensures
        r@ == publish_view(),
{
    let mut r = Invocation { program: String::from_str("cargo"), args: Vec::new() };
    assert(r.args@.map_values(|a: String| a@) =~= Seq::<Seq<char>>::empty());
    r.arg("publish");
    r.arg("--allow-dirty");
    assert(r@.1 =~= seq!["publish"@, "--allow-dirty"@]);
    r
}

/// What to do after a publish attempt.
#[derive(PartialEq, Eq, Structural, Clone, Copy, Debug)]
pub enum PublishStep {
    /// The attempt succeeded: go on with the command.
    Published,
    /// The attempt failed: wait this many seconds, then try again.
    RetryAfter(u64),
    /// The last attempt failed: abort.
    GiveUp,
}

/// The retry state of one publish: the number of the current attempt.
pub struct PublishRetry {
    attempt: u32,
}

/// The decision after attempt `attempt` (counted from 1) ended with `succeeded`.
pub open spec fn step_spec(attempt: int, succeeded: bool) -> PublishStep {
    if succeeded {
        PublishStep::Published
    } else if attempt < MAX_RETRIES {
        PublishStep::RetryAfter(RETRY_DELAY_SECS)
    } else {
        PublishStep::GiveUp
    }
}

/// The result of running the retry loop from attempt `attempt` on, where the
/// invoker's attempt `i` succeeds exactly when `outcome(i)`: how many
/// invocations and delays happen, and whether the publish succeeds.
pub open spec fn run_from(attempt: int, outcome: spec_fn(int) -> bool) -> (int, int, bool)
    decreases MAX_RETRIES - attempt,
{
    if attempt < 1 || attempt > MAX_RETRIES {
        (0, 0, false)
    } else {
        match step_spec(attempt, outcome(attempt)) {
            PublishStep::Published => (1, 0, true),
            PublishStep::RetryAfter(_) => {
                let rest = run_from(attempt + 1, outcome);
                (rest.0 + 1, rest.1 + 1, rest.2)
            },
            PublishStep::GiveUp => (1, 0, false),
        }
    }
}

/// A whole retry loop, from the first attempt.
pub open spec fn publish_run(outcome: spec_fn(int) -> bool) -> (int, int, bool) {
    run_from(1, outcome)
}

impl PublishRetry {
    /// The number of the current attempt, from 1.
    pub closed spec fn attempt_spec(&self) -> int {
        self.attempt as int
    }

    /// The attempt number stays within the allowed attempts.
    pub open spec fn wf(&self) -> bool {
        1 <= self.attempt_spec() <= MAX_RETRIES
    }

    /// The state before the first attempt.
    pub fn new() -> (r: PublishRetry)
        ensures
            r.wf(),
            r.attempt_spec() == 1,
    {
        PublishRetry { attempt: 1 }
    }

    /// The number of the current attempt, from 1.
    pub fn attempt(&self) -> (r: u32)
        ensures
            r == self.attempt_spec(),
    {
        self.attempt
    }

    /// Records how the current attempt ended and says what to do next; after
    /// a retry the state counts the next attempt.
    pub fn record(&mut self, succeeded: bool) -> (r: PublishStep)
        requires
            old(self).wf(),
        ensures
            r == step_spec(old(self).attempt_spec(), succeeded),
            final(self).wf(),
            final(self).attempt_spec() == match r {
                PublishStep::RetryAfter(_) => old(self).attempt_spec() + 1,
                _ => old(self).attempt_spec(),
            },
    {
        if succeeded {
            PublishStep::Published
        } else if self.attempt < MAX_RETRIES {
            self.attempt = self.attempt + 1;
            PublishStep::RetryAfter(RETRY_DELAY_SECS)
        } else {
            PublishStep::GiveUp
        }
    }
}

proof fn lemma_fails_until(attempt: int, k: int, outcome: spec_fn(int) -> bool)
    requires
        1 <= attempt <= k + 1,
        0 <= k < MAX_RETRIES,
        forall|i: int| #[trigger] outcome(i) == (i > k),
    ensures
        run_from(attempt, outcome) == (k + 2 - attempt, k + 1 - attempt, true),
    decreases k + 1 - attempt,
{
    if attempt <= k {
        lemma_fails_until(attempt + 1, k, outcome);
    }
}

proof fn lemma_always_fails_from(attempt: int, outcome: spec_fn(int) -> bool)
    requires
        1 <= attempt <= MAX_RETRIES,
        forall|i: int| !#[trigger] outcome(i),
    ensures
        run_from(attempt, outcome) == (MAX_RETRIES + 1 - attempt, MAX_RETRIES - attempt, false),
    decreases MAX_RETRIES - attempt,
{
    if attempt < MAX_RETRIES {
        lemma_always_fails_from(attempt + 1, outcome);
    }
}

/// When the publish command fails on its first `k` attempts (fewer than the
/// maximum) and then succeeds, the loop makes `k + 1` attempts with `k` waits
/// between them and ends in success.
pub proof fn lemma_publish_succeeds_after_failures(k: int, outcome: spec_fn(int) -> bool)
    requires
        0 <= k < MAX_RETRIES,
        forall|i: int| #[trigger] outcome(i) == (i > k),
    ensures
        publish_run(outcome) == (k + 1, k, true),
{
    lemma_fails_until(1, k, outcome);
}

/// When the publish command always fails, the loop makes exactly the maximum
/// number of attempts, waits between consecutive ones, and ends in giving up.
pub proof fn lemma_publish_gives_up(outcome: spec_fn(int) -> bool)
    requires
        forall|i: int| !#[trigger] outcome(i),
    ensures
        publish_run(outcome) == (MAX_RETRIES as int, MAX_RETRIES - 1, false),
{
    lemma_always_fails_from(1, outcome);
}

} // verus!
