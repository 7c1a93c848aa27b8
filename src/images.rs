use vstd::prelude::*;

use crate::text::{contains_str, has_substring, join2, lower_of, lowercase, trim_of, trimmed};

verus! {

/// Relies on `Duration`'s `Clone`, which copies the value (`Duration` is `Copy`).
pub assume_specification[ <std::time::Duration as Clone>::clone ](d: &std::time::Duration) -> (r:
    std::time::Duration)
    ensures
        r == *d,
;

/// Progress of the image pulls.
#[derive(Debug, Clone)]
pub enum PullEvent {
    Started { index: usize, image: String },
    Completed { index: usize, image: String, elapsed: std::time::Duration },
    Failed { index: usize, image: String, error: String, attempt: u32 },
    Retrying { index: usize, image: String, attempt: u32 },
}

/// How many pulls may run at once.
pub const MAX_CONCURRENT: usize = 4;

/// How many times a pull is attempted at most.
pub const MAX_RETRIES: u32 = 3;

/// Whether lower-cased error text names a local configuration problem: a
/// credential helper, a missing binary, an unreachable daemon, or a permission
/// error. Such failures do not heal by retrying.
pub open spec fn local_signature(lower: Seq<char>) -> bool {
    ||| has_substring(lower, "credential"@)
    ||| has_substring(lower, "not found in path"@)
    ||| has_substring(lower, "docker daemon is not running"@)
    ||| has_substring(lower, "permission denied"@)
    ||| has_substring(lower, "cannot connect to the docker daemon"@)
}

/// Whether lower-cased error text matches a local configuration signature.
pub fn matches_local_signature(lower: &str) -> (r: bool)
    ensures
        r == local_signature(lower@),
{
    contains_str(lower, "credential") || contains_str(lower, "not found in path") || contains_str(
        lower,
        "docker daemon is not running",
    ) || contains_str(lower, "permission denied") || contains_str(
        lower,
        "cannot connect to the docker daemon",
    )
}

/// Errors that indicate a local Docker configuration issue (not transient).
/// These should fail immediately without retrying.
pub fn is_local_docker_error(stderr: &str) -> (r: bool)
    ensures
        r == local_signature(lower_of(stderr@)),
{
    let lower = lowercase(stderr);
    matches_local_signature(lower.as_str())
}

/// Two to the power `n`.
pub open spec fn pow2(n: nat) -> nat
    decreases n,
{
    if n == 0 {
        1
    } else {
        2 * pow2((n - 1) as nat)
    }
}

/// What follows a failed attempt: wait and try again, or give up with an error.
#[derive(Debug, Clone)]
pub enum PullDecision {
    Retry { next_attempt: u32, backoff_secs: u64 },
    GiveUp { error: String },
}

/// The backoff after failed attempt `attempt` when another is owed, none when
/// the pull gives up: a local configuration error gives up at once, other errors
/// are retried up to the attempt ceiling, after `2^attempt` seconds.
pub open spec fn retry_backoff(attempt: nat, local: bool) -> Option<nat> {
    if local || attempt >= MAX_RETRIES {
        None
    } else {
        Some(pow2(attempt))
    }
}

/// The message a pull gives up with, from the trimmed error text.
pub open spec fn give_up_message(local: bool, trimmed: Seq<char>) -> Seq<char> {
    if local {
        "docker config error (skipping retries): "@ + trimmed
    } else {
        trimmed
    }
}

/// The decision after failed attempt `attempt`, from whether its error is a
/// local configuration error and from its trimmed text.
pub fn decide_after_failure(attempt: u32, local: bool, trimmed: &str) -> (d: PullDecision)
    requires
        1 <= attempt <= MAX_RETRIES,
    ensures
        match retry_backoff(attempt as nat, local) {
            Some(b) => d matches PullDecision::Retry { next_attempt, backoff_secs } && next_attempt
                == attempt + 1 && backoff_secs == b,
            None => d matches PullDecision::GiveUp { error } && error@ == give_up_message(
                local,
                trimmed@,
            ),
        },
{
    if local {
        PullDecision::GiveUp { error: join2("docker config error (skipping retries): ", trimmed) }
    } else if attempt < MAX_RETRIES {
        let mut backoff: u64 = 1;
        let mut k: u32 = 0;
        while k < attempt
            invariant
                k <= attempt < MAX_RETRIES,
                backoff == pow2(k as nat),
                backoff <= 4,
                k <= 1 ==> backoff <= 2,
                k == 0 ==> backoff == 1,
            decreases attempt - k,
        {
            proof {
                reveal_with_fuel(pow2, 3);
            }
            backoff = backoff * 2;
            k += 1;
        }
        PullDecision::Retry { next_attempt: attempt + 1, backoff_secs: backoff }
    } else {
        PullDecision::GiveUp { error: String::from_str(trimmed) }
    }
}

/// The decision after failed attempt `attempt` with error output `stderr`.
pub fn after_failure(attempt: u32, stderr: &str) -> (d: PullDecision)
    requires
        1 <= attempt <= MAX_RETRIES,
    ensures
        match retry_backoff(attempt as nat, local_signature(lower_of(stderr@))) {
            Some(b) => d matches PullDecision::Retry { next_attempt, backoff_secs } && next_attempt
                == attempt + 1 && backoff_secs == b,
            None => d matches PullDecision::GiveUp { error } && error@ == give_up_message(
                local_signature(lower_of(stderr@)),
                trim_of(stderr@),
            ),
        },
{
    let local = is_local_docker_error(stderr);
    let trimmed = trimmed(stderr);
    decide_after_failure(attempt, local, trimmed.as_str())
}

/// A pull whose every attempt fails with a transient error is attempted exactly
/// three times, waiting 2 and then 4 seconds, strictly more each time; one that
/// fails with a local configuration error is attempted exactly once.
pub proof fn lemma_retry_schedule()
    ensures
        retry_backoff(1, false) == Some(2nat),
        retry_backoff(2, false) == Some(4nat),
        retry_backoff(3, false).is_none(),
        forall|a: nat| 1 <= a ==> #[trigger] retry_backoff(a, true).is_none(),
        forall|a: nat, b: nat|
            1 <= a < b < MAX_RETRIES ==> #[trigger] retry_backoff(a, false)->0 < #[trigger] retry_backoff(
                b,
                false,
            )->0,
{
    reveal_with_fuel(pow2, 3);
}

/// Admission to the pulls: no more than `MAX_CONCURRENT` run at once.
pub struct PullGate {
    pub running: usize,
}

impl PullGate {
    pub open spec fn wf(&self) -> bool {
        self.running <= MAX_CONCURRENT
    }

    pub fn new() -> (r: PullGate)
        ensures
            r.wf(),
            r.running == 0,
    {
        PullGate { running: 0 }
    }

    /// Admits one more pull when fewer than the limit are running.
    pub fn try_enter(&mut self) -> (admitted: bool)
        requires
            old(self).wf(),
        ensures
            final(self).wf(),
            admitted == (old(self).running < MAX_CONCURRENT),
            final(self).running == if admitted {
                old(self).running + 1
            } else {
                old(self).running as int
            },
    {
        if self.running < MAX_CONCURRENT {
            self.running = self.running + 1;
            true
        } else {
            false
        }
    }

    /// Records that an admitted pull finished.
    pub fn leave(&mut self)
        requires
            old(self).wf(),
            old(self).running > 0,
        ensures
            final(self).wf(),
            final(self).running == old(self).running - 1,
    {
        self.running = self.running - 1;
    }
}

/// One artifact's pull, as a sequence of events: `Started`, then `Retrying`
/// for each retry, then exactly one terminal `Completed` or `Failed`.
pub struct PullJob {
    pub index: usize,
    pub image: String,
    pub attempt: u32,
    pub finished: bool,
}

impl PullJob {
    /// The attempt under way is within the attempt ceiling.
    pub open spec fn wf(&self) -> bool {
        1 <= self.attempt <= MAX_RETRIES
    }

    /// A new pull, with its `Started` event.
    pub fn start(index: usize, image: String) -> (r: (PullJob, PullEvent))
        ensures
            r.0.wf(),
            r.0.index == index,
            r.0.image == image,
            r.0.attempt == 1,
            !r.0.finished,
            r.1 == (PullEvent::Started { index, image }),
    {
        let event = PullEvent::Started { index, image: image.clone() };
        (PullJob { index, image, attempt: 1, finished: false }, event)
    }

    /// The attempt under way succeeded: the terminal `Completed` event.
    pub fn succeeded(&mut self, elapsed: std::time::Duration) -> (e: PullEvent)
        requires
            old(self).wf(),
            !old(self).finished,
        ensures
            final(self).finished,
            final(self).wf(),
            *final(self) == (PullJob { finished: true, ..*old(self) }),
            e == (PullEvent::Completed { index: old(self).index, image: old(self).image, elapsed }),
    {
        self.finished = true;
        PullEvent::Completed { index: self.index, image: self.image.clone(), elapsed }
    }

    /// The pull could not be run at all: the terminal `Failed` event.
    pub fn could_not_run(&mut self, error: String) -> (e: PullEvent)
        requires
            old(self).wf(),
            !old(self).finished,
        ensures
            final(self).finished,
            final(self).wf(),
            *final(self) == (PullJob { finished: true, ..*old(self) }),
            e == (PullEvent::Failed {
                index: old(self).index,
                image: old(self).image,
                error,
                attempt: MAX_RETRIES,
            }),
    {
        self.finished = true;
        PullEvent::Failed { index: self.index, image: self.image.clone(), error, attempt: MAX_RETRIES }
    }

    /// The attempt under way failed with error output `stderr`: either a
    /// `Retrying` event and the seconds to wait before the next attempt, or the
    /// terminal `Failed` event.
    pub fn failed(&mut self, stderr: &str) -> (r: (PullEvent, Option<u64>))
        requires
            old(self).wf(),
            !old(self).finished,
        ensures
            final(self).wf(),
            final(self).index == old(self).index,
            final(self).image == old(self).image,
            match retry_backoff(old(self).attempt as nat, local_signature(lower_of(stderr@))) {
                Some(b) => {
                    &&& !final(self).finished
                    &&& final(self).attempt == old(self).attempt + 1
                    &&& r.1 == Some(b as u64)
                    &&& r.0 == (PullEvent::Retrying {
                        index: old(self).index,
                        image: old(self).image,
                        attempt: final(self).attempt,
                    })
                },
                None => {
                    &&& final(self).finished
                    &&& final(self).attempt == old(self).attempt
                    &&& r.1.is_none()
                    &&& r.0 matches PullEvent::Failed { index, image, error, attempt } && index
                        == old(self).index && image == old(self).image && attempt == MAX_RETRIES
                        && error@ == give_up_message(
                        local_signature(lower_of(stderr@)),
                        trim_of(stderr@),
                    )
                },
            },
    {
        match after_failure(self.attempt, stderr) {
            PullDecision::Retry { next_attempt, backoff_secs } => {
                self.attempt = next_attempt;
                (
                    PullEvent::Retrying { index: self.index, image: self.image.clone(), attempt: next_attempt },
                    Some(backoff_secs),
                )
            },
            PullDecision::GiveUp { error } => {
                self.finished = true;
                (
                    PullEvent::Failed {
                        index: self.index,
                        image: self.image.clone(),
                        error,
                        attempt: MAX_RETRIES,
                    },
                    None,
                )
            },
        }
    }
}

} // verus!
