use crate::common::ExchangeFeed;
use vstd::prelude::*;

verus! {

/// How many times a feed tries to connect before it is given up.
pub const MAX_ATTEMPTS: u32 = 5;

/// The pause between two attempts, in seconds. It is the same after every
/// failure.
pub const BACKOFF_SECS: u64 = 30;

/// What the runner does once a connection attempt has ended.
#[derive(Debug, Clone, Copy, PartialEq, Eq, Structural)]
pub enum RunnerStep {
    /// The attempt ended well: leave the loop and the thread.
    Exit,
    /// The attempt failed and others remain: sleep, then connect again.
    Retry { delay_secs: u64 },
    /// The attempt failed and none remains: call the feed's stop hook, then
    /// leave the thread.
    GiveUp,
}

/// The retry loop's state as contracts see it.
pub struct RetryView {
    pub attempts: nat,
    pub max_attempts: nat,
    pub backoff_secs: nat,
}

/// The state after one more attempt, and what the runner does then. A
/// success changes nothing and ends the loop. A failure is counted; the
/// runner sleeps while the count is under the limit and gives up when it has
/// reached it.
pub open spec fn next(state: RetryView, succeeded: bool) -> (RetryView, RunnerStep) {
    if succeeded {
        (state, RunnerStep::Exit)
    } else {
        let attempts = if state.attempts < state.max_attempts {
            state.attempts + 1
        } else {
            state.attempts
        };
        let counted = RetryView { attempts: attempts as nat, ..state };
        if attempts < state.max_attempts {
            (counted, RunnerStep::Retry { delay_secs: state.backoff_secs as u64 })
        } else {
            (counted, RunnerStep::GiveUp)
        }
    }
}

/// The steps of a whole run that starts in `state`, one for each attempt
/// made, where `outcomes` says in order whether each attempt succeeds. The
/// run ends with the first step that is no retry.
pub open spec fn steps(state: RetryView, outcomes: Seq<bool>) -> Seq<RunnerStep>
    decreases outcomes.len(),
{
    if outcomes.len() == 0 {
        Seq::empty()
    } else {
        let (after, step) = next(state, outcomes[0]);
        if step is Retry {
            seq![step] + steps(after, outcomes.skip(1))
        } else {
            seq![step]
        }
    }
}

/// The state in which every run starts.
pub open spec fn fresh() -> RetryView {
    RetryView { attempts: 0, max_attempts: MAX_ATTEMPTS as nat, backoff_secs: BACKOFF_SECS as nat }
}

/// The state of one feed's retry loop: the failures counted so far, the
/// limit, and the pause between attempts.
#[derive(Debug)]
pub struct RetryState {
    attempts: u32,
    max_attempts: u32,
    backoff_secs: u64,
}

impl View for RetryState {
    type V = RetryView;

    closed spec fn view(&self) -> RetryView {
        RetryView {
            attempts: self.attempts as nat,
            max_attempts: self.max_attempts as nat,
            backoff_secs: self.backoff_secs as nat,
        }
    }
}

impl RetryState {
    #[verifier::type_invariant]
    spec fn counted(self) -> bool {
        self.attempts <= self.max_attempts
    }

    /// The state at the start of a run: no failure yet, five attempts at
    /// most, thirty seconds between them.
    pub fn new() -> (r: RetryState)
        ensures
            r@ == fresh(),
    {
        RetryState { attempts: 0, max_attempts: MAX_ATTEMPTS, backoff_secs: BACKOFF_SECS }
    }

    /// The failures counted so far.
    pub fn attempts(&self) -> (r: u32)
        ensures
            r == self@.attempts,
            self@.attempts <= self@.max_attempts,
    {
        proof {
            use_type_invariant(self);
        }
        self.attempts
    }

    /// The number of attempts after which the feed is given up.
    pub fn max_attempts(&self) -> (r: u32)
        ensures
            r == self@.max_attempts,
    {
        self.max_attempts
    }

    /// The pause between two attempts, in seconds.
    pub fn backoff_secs(&self) -> (r: u64)
        ensures
            r == self@.backoff_secs,
    {
        self.backoff_secs
    }

    /// Takes note of how a connection attempt ended and says what the runner
    /// does next.
    pub fn record(&mut self, succeeded: bool) -> (step: RunnerStep)
        ensures
            (final(self)@, step) == next(old(self)@, succeeded),
    {
        proof {
            use_type_invariant(&*self);
        }
        if succeeded {
            return RunnerStep::Exit;
        }
        if self.attempts < self.max_attempts {
            self.attempts = self.attempts + 1;
        }
        if self.attempts < self.max_attempts {
            RunnerStep::Retry { delay_secs: self.backoff_secs }
        } else {
            RunnerStep::GiveUp
        }
    }
}

/// What the thread of one feed is set up with.
#[derive(Debug)]
pub struct ThreadPlan {
    /// The name of the thread and of its event loop: that of the feed.
    pub thread_name: String,
    /// The core to which the thread is bound, if any. Where binding fails the
    /// feed runs unbound.
    pub core_pin: Option<usize>,
    /// The state with which the retry loop starts.
    pub retry: RetryState,
}

/// Plans the thread on which `feed` runs: a thread of its own, named after
/// the feed and bound to `core_pin` where that names a core, with an event
/// loop of its own and a fresh retry loop.
pub fn connect_on_thread<F: ExchangeFeed>(feed: &F, core_pin: Option<usize>) -> (plan: ThreadPlan)
    ensures
        plan.thread_name@ == feed.descriptor().name,
        plan.core_pin == core_pin,
        plan.retry@ == fresh(),
{
    ThreadPlan { thread_name: feed.name().to_owned(), core_pin, retry: RetryState::new() }
}

/// A feed whose every attempt fails is tried exactly five times: four times
/// the runner sleeps thirty seconds and connects again, and after the fifth
/// failure it gives up, once, and makes no further attempt, however many
/// more failures would have followed.
pub proof fn lemma_always_failing_feed(outcomes: Seq<bool>)
    requires
        outcomes.len() >= MAX_ATTEMPTS,
        forall|i: int| 0 <= i < outcomes.len() ==> !outcomes[i],
    ensures
        steps(fresh(), outcomes) == seq![
            RunnerStep::Retry { delay_secs: BACKOFF_SECS },
            RunnerStep::Retry { delay_secs: BACKOFF_SECS },
            RunnerStep::Retry { delay_secs: BACKOFF_SECS },
            RunnerStep::Retry { delay_secs: BACKOFF_SECS },
            RunnerStep::GiveUp,
        ],
{
    let s0 = fresh();
    let (s1, _) = next(s0, false);
    let (s2, _) = next(s1, false);
    let (s3, _) = next(s2, false);
    let (s4, _) = next(s3, false);
    let o1 = outcomes.skip(1);
    let o2 = o1.skip(1);
    let o3 = o2.skip(1);
    let o4 = o3.skip(1);
    assert(!outcomes[0] && !o1[0] && !o2[0] && !o3[0] && !o4[0]);
    assert(steps(s4, o4) == seq![RunnerStep::GiveUp]);
    assert(steps(s3, o3) == seq![RunnerStep::Retry { delay_secs: BACKOFF_SECS }] + steps(s4, o4));
    assert(steps(s2, o2) == seq![RunnerStep::Retry { delay_secs: BACKOFF_SECS }] + steps(s3, o3));
    assert(steps(s1, o1) == seq![RunnerStep::Retry { delay_secs: BACKOFF_SECS }] + steps(s2, o2));
    assert(steps(s0, outcomes) == seq![RunnerStep::Retry { delay_secs: BACKOFF_SECS }] + steps(
        s1,
        o1,
    ));
}

/// However the attempts end, a run makes no more than five of them, it
/// sleeps thirty seconds after each but the last, and only its last step can
/// be a success or a giving up.
pub proof fn lemma_run_is_bounded(outcomes: Seq<bool>)
    ensures
        steps(fresh(), outcomes).len() <= MAX_ATTEMPTS,
        steps(fresh(), outcomes).len() <= outcomes.len(),
        forall|i: int|
            0 <= i < steps(fresh(), outcomes).len() - 1 ==> #[trigger] steps(fresh(), outcomes)[i]
                == (RunnerStep::Retry { delay_secs: BACKOFF_SECS }),
{
    lemma_run_from(fresh(), outcomes);
}

/// A run that starts with some failures counted makes no more attempts than
/// are left, and sleeps the same time after each but the last.
pub proof fn lemma_run_from(state: RetryView, outcomes: Seq<bool>)
    requires
        state.attempts < state.max_attempts,
    ensures
        steps(state, outcomes).len() <= state.max_attempts - state.attempts,
        steps(state, outcomes).len() <= outcomes.len(),
        forall|i: int|
            0 <= i < steps(state, outcomes).len() - 1 ==> #[trigger] steps(state, outcomes)[i]
                == (RunnerStep::Retry { delay_secs: state.backoff_secs as u64 }),
    decreases outcomes.len(),
{
    if outcomes.len() > 0 {
        let (after, step) = next(state, outcomes[0]);
        if step is Retry {
            lemma_run_from(after, outcomes.skip(1));
            let rest = steps(after, outcomes.skip(1));
            assert forall|i: int| 0 <= i < steps(state, outcomes).len() - 1 implies #[trigger] steps(
                state,
                outcomes,
            )[i] == (RunnerStep::Retry { delay_secs: state.backoff_secs as u64 }) by {
                if i > 0 {
                    assert(steps(state, outcomes)[i] == rest[i - 1]);
                }
            }
        }
    }
}

/// A run ends with the first attempt that succeeds: the feed leaves the loop
/// and nothing is stopped.
pub proof fn lemma_success_ends_run(state: RetryView, outcomes: Seq<bool>)
    requires
        outcomes.len() > 0,
        outcomes[0],
    ensures
        steps(state, outcomes) == seq![RunnerStep::Exit],
{
}

} // verus!
