use vstd::prelude::*;

use crate::text::str_eq;

verus! {

/// The observed health of one pod.
#[derive(Debug, Clone)]
pub struct PodHealth {
    pub name: String,
    pub deployment: String,
    pub ready: bool,
    pub phase: String,
    pub image: String,
    pub restarts: i32,
    pub error: Option<String>,
    pub logs_tail: Option<String>,
}

/// What the health monitor reports.
#[derive(Debug, Clone)]
pub enum HealthEvent {
    PodUpdate(PodHealth),
    RecoveryAttempt { deployment: String, attempt: u32 },
    AllHealthy,
    Failed { unhealthy: Vec<PodHealth> },
}

/// `p` written into a pod list: it replaces the first pod with the same name,
/// or is appended when there is none.
pub open spec fn upsert_pod(s: Seq<PodHealth>, p: PodHealth) -> Seq<PodHealth>
    decreases s.len(),
{
    if s.len() == 0 {
        seq![p]
    } else if s[0].name@ == p.name@ {
        seq![p] + s.skip(1)
    } else {
        seq![s[0]] + upsert_pod(s.skip(1), p)
    }
}

/// Each pod of `ps` written into `s`, in order.
pub open spec fn upsert_pods(s: Seq<PodHealth>, ps: Seq<PodHealth>) -> Seq<PodHealth>
    decreases ps.len(),
{
    if ps.len() == 0 {
        s
    } else {
        upsert_pod(upsert_pods(s, ps.drop_last()), ps.last())
    }
}

proof fn lemma_upsert_pod_at(s: Seq<PodHealth>, p: PodHealth, i: int)
    requires
        0 <= i <= s.len(),
        forall|t: int| 0 <= t < i ==> s[t].name@ != p.name@,
        i < s.len() ==> s[i].name@ == p.name@,
    ensures
        i < s.len() ==> upsert_pod(s, p) == s.update(i, p),
        i == s.len() ==> upsert_pod(s, p) == s.push(p),
    decreases i,
{
    if i == 0 {
        if s.len() == 0 {
            assert(seq![p] =~= s.push(p));
        } else {
            assert(seq![p] + s.skip(1) =~= s.update(0, p));
        }
    } else {
        lemma_upsert_pod_at(s.skip(1), p, i - 1);
        if i < s.len() {
            assert(seq![s[0]] + s.skip(1).update(i - 1, p) =~= s.update(i, p));
        } else {
            assert(seq![s[0]] + s.skip(1).push(p) =~= s.push(p));
        }
    }
}

/// Records a pod's health, replacing an earlier record of the same pod.
pub fn upsert_pod_status(pods: &mut Vec<PodHealth>, pod: PodHealth)
    ensures
        final(pods)@ == upsert_pod(old(pods)@, pod),
{
    let mut i: usize = 0;
    while i < pods.len()
        invariant
            pods@ == old(pods)@,
            i <= pods@.len(),
            forall|t: int| 0 <= t < i ==> pods@[t].name@ != pod.name@,
        decreases pods@.len() - i,
    {
        if str_eq(pods[i].name.as_str(), pod.name.as_str()) {
            proof {
                lemma_upsert_pod_at(pods@, pod, i as int);
            }
            pods.set(i, pod);
            return;
        }
        i += 1;
    }
    proof {
        lemma_upsert_pod_at(pods@, pod, i as int);
    }
    pods.push(pod);
}

/// What the monitor reads of one container of a pod.
#[derive(Debug, Clone)]
pub struct ContainerObservation {
    pub ready: bool,
    pub restart_count: i32,
    pub image: String,
    pub waiting_reason: Option<String>,
}

/// What the monitor reads of one pod.
#[derive(Debug, Clone)]
pub struct PodObservation {
    pub name: String,
    pub phase: Option<String>,
    pub containers: Vec<ContainerObservation>,
}

/// Sum of the restart counts of the containers.
pub open spec fn restart_total(cs: Seq<ContainerObservation>) -> int
    decreases cs.len(),
{
    if cs.len() == 0 {
        0
    } else {
        restart_total(cs.drop_last()) + cs.last().restart_count as int
    }
}

/// An integer held within the range of `i32`.
pub open spec fn clamp_i32(x: int) -> int {
    if x > i32::MAX as int {
        i32::MAX as int
    } else if x < i32::MIN as int {
        i32::MIN as int
    } else {
        x
    }
}

/// Whether a container waits in the crash-loop state.
pub open spec fn is_crash_looping(c: ContainerObservation) -> bool {
    match c.waiting_reason {
        Some(r) => r@ == "CrashLoopBackOff"@,
        None => false,
    }
}

/// The health record of a pod of a workload: ready when every container is,
/// with the summed restarts, the first container's image, and the crash-loop
/// classification.
pub open spec fn assessed(workload: Seq<char>, pod: PodObservation, h: PodHealth) -> bool {
    let cs = pod.containers@;
    &&& h.name@ == pod.name@
    &&& h.deployment@ == workload
    &&& h.ready == (forall|i: int| 0 <= i < cs.len() ==> (#[trigger] cs[i]).ready)
    &&& h.phase@ == match pod.phase {
        Some(p) => p@,
        None => "Unknown"@,
    }
    &&& h.image@ == if cs.len() > 0 { cs[0].image@ } else { Seq::empty() }
    &&& h.restarts as int == clamp_i32(restart_total(cs))
    &&& h.error.is_some() == (exists|i: int| 0 <= i < cs.len() && is_crash_looping(#[trigger] cs[i]))
    &&& (h.error matches Some(e) ==> e@ == "CrashLoopBackOff"@)
    &&& h.logs_tail.is_none()
}

/// Computes the health record of a pod.
pub fn assess_pod(workload: &str, pod: &PodObservation) -> (h: PodHealth)
    ensures
        assessed(workload@, *pod, h),
{
    let ghost cs = pod.containers@;
    let mut ready = true;
    let mut crash = false;
    let mut restarts: i128 = 0;
    let n = pod.containers.len();
    let mut i: usize = 0;
    while i < pod.containers.len()
        invariant
            cs == pod.containers@,
            i <= cs.len(),
            ready == (forall|t: int| 0 <= t < i ==> (#[trigger] cs[t]).ready),
            crash == (exists|t: int| 0 <= t < i && is_crash_looping(#[trigger] cs[t])),
            n == cs.len(),
            restarts as int == restart_total(cs.take(i as int)),
            -0x8000_0000 * (i as int) <= restarts as int <= 0x8000_0000 * (i as int),
        decreases cs.len() - i,
    {
        assert(cs.take(i + 1).drop_last() =~= cs.take(i as int));
        let c = &pod.containers[i];
        if !c.ready {
            ready = false;
        }
        if let Some(reason) = &c.waiting_reason {
            if str_eq(reason.as_str(), "CrashLoopBackOff") {
                crash = true;
            }
        }
        restarts = restarts + c.restart_count as i128;
        i += 1;
    }
    assert(cs.take(i as int) =~= cs);
    let total: i32 = if restarts > i32::MAX as i128 {
        i32::MAX
    } else if restarts < i32::MIN as i128 {
        i32::MIN
    } else {
        restarts as i32
    };
    let phase = match &pod.phase {
        Some(p) => p.clone(),
        None => String::from_str("Unknown"),
    };
    let image = if pod.containers.len() > 0 {
        pod.containers[0].image.clone()
    } else {
        String::new()
    };
    PodHealth {
        name: pod.name.clone(),
        deployment: String::from_str(workload),
        ready,
        phase,
        image,
        restarts: total,
        error: if crash { Some(String::from_str("CrashLoopBackOff")) } else { None },
        logs_tail: None,
    }
}

/// How many recovery attempts a workload may get.
pub const MAX_RECOVERY_ATTEMPTS: u32 = 3;

/// The count of recovery attempts made per workload name.
pub struct RecoveryBudget {
    pub attempts: Vec<(String, u32)>,
}

impl RecoveryBudget {
    /// No workload has used more than its budget, and each name is counted once.
    pub open spec fn wf(&self) -> bool {
        &&& forall|i: int| 0 <= i < self.attempts@.len() ==> (#[trigger] self.attempts@[i]).1 <= 3
        &&& forall|i: int, j: int|
            0 <= i < j < self.attempts@.len() ==> (#[trigger] self.attempts@[i]).0@
                != (#[trigger] self.attempts@[j]).0@
    }

    /// Attempts used so far by workload `w`.
    pub open spec fn used(&self, w: Seq<char>) -> nat {
        if exists|i: int| 0 <= i < self.attempts@.len() && (#[trigger] self.attempts@[i]).0@ == w {
            let i = choose|i: int| 0 <= i < self.attempts@.len() && (#[trigger] self.attempts@[i]).0@ == w;
            self.attempts@[i].1 as nat
        } else {
            0
        }
    }

    pub fn new() -> (r: RecoveryBudget)
        ensures
            r.wf(),
            forall|w: Seq<char>| r.used(w) == 0,
    {
        RecoveryBudget { attempts: Vec::new() }
    }

    /// Spends one recovery attempt of workload `w` when any is left; returns the
    /// attempt's number.
    pub fn try_spend(&mut self, w: &str) -> (r: Option<u32>)
        requires
            old(self).wf(),
        ensures
            final(self).wf(),
            old(self).used(w@) < 3 ==> r == Some((old(self).used(w@) + 1) as u32) && final(self).used(w@)
                == old(self).used(w@) + 1,
            old(self).used(w@) >= 3 ==> r.is_none() && final(self).used(w@) == old(self).used(w@),
            forall|o: Seq<char>| o != w@ ==> final(self).used(o) == old(self).used(o),
    {
        let mut i: usize = 0;
        while i < self.attempts.len()
            invariant
                self.wf(),
                *self == *old(self),
                i <= self.attempts@.len(),
                forall|t: int| 0 <= t < i ==> (#[trigger] self.attempts@[t]).0@ != w@,
            decreases self.attempts@.len() - i,
        {
            if str_eq(self.attempts[i].0.as_str(), w) {
                let n = self.attempts[i].1;
                assert(self.used(w@) == n);
                if n >= 3 {
                    return None;
                }
                let ghost before = self.attempts@;
                let name = self.attempts[i].0.clone();
                self.attempts.set(i, (name, n + 1));
                assert forall|o: Seq<char>| o != w@ implies self.used(o) == old(self).used(o) by {
                    if exists|t: int| 0 <= t < before.len() && (#[trigger] before[t]).0@ == o {
                        let t = choose|t: int| 0 <= t < before.len() && (#[trigger] before[t]).0@ == o;
                        assert(self.attempts@[t].0@ == o);
                    }
                    if exists|t: int| 0 <= t < self.attempts@.len() && (#[trigger] self.attempts@[t]).0@ == o {
                        let t = choose|t: int| 0 <= t < self.attempts@.len() && (#[trigger] self.attempts@[t]).0@ == o;
                        assert(before[t].0@ == o);
                    }
                }
                assert(self.attempts@[i as int].0@ == w@);
                return Some(n + 1);
            }
            i += 1;
        }
        assert(self.used(w@) == 0);
        let ghost before = self.attempts@;
        self.attempts.push((String::from_str(w), 1));
        assert(self.attempts@[before.len() as int].0@ == w@);
        assert forall|o: Seq<char>| o != w@ implies self.used(o) == old(self).used(o) by {
            if exists|t: int| 0 <= t < before.len() && (#[trigger] before[t]).0@ == o {
                let t = choose|t: int| 0 <= t < before.len() && (#[trigger] before[t]).0@ == o;
                assert(self.attempts@[t].0@ == o);
            }
            if exists|t: int| 0 <= t < self.attempts@.len() && (#[trigger] self.attempts@[t]).0@ == o {
                let t = choose|t: int| 0 <= t < self.attempts@.len() && (#[trigger] self.attempts@[t]).0@ == o;
                assert(t < before.len());
                assert(before[t].0@ == o);
            }
        }
        Some(1)
    }
}

/// However many crash-loop cycles are seen, no workload's recovery-attempt
/// counter exceeds the ceiling of three.
pub proof fn lemma_recovery_bounded(b: RecoveryBudget, w: Seq<char>)
    requires
        b.wf(),
    ensures
        b.used(w) <= MAX_RECOVERY_ATTEMPTS,
{
    if exists|i: int| 0 <= i < b.attempts@.len() && (#[trigger] b.attempts@[i]).0@ == w {
        let i = choose|i: int| 0 <= i < b.attempts@.len() && (#[trigger] b.attempts@[i]).0@ == w;
        assert(b.attempts@[i].1 <= 3);
    }
}

/// Seconds between two polling cycles.
pub const POLL_INTERVAL_SECS: u64 = 2;

/// Seconds after which a monitor that has not seen every pod ready gives up.
pub const POD_TIMEOUT_SECS: u64 = 120;

/// How a polling cycle ended.
#[derive(Debug, Clone, Copy, PartialEq, Eq, Structural)]
pub enum CycleVerdict {
    AllHealthy,
    TimedOut,
    KeepPolling,
}

/// What one pod's observation asks of the caller: report its health, and when
/// `recovery` holds an attempt number, capture its logs and delete it.
pub struct PodStep {
    pub health: PodHealth,
    pub recovery: Option<u32>,
}

/// The decisions of the health monitor, cycle by cycle.
pub struct HealthMonitor {
    pub workloads: Vec<String>,
    pub budget: RecoveryBudget,
    pub all_ready: bool,
    pub unhealthy: Vec<PodHealth>,
    pub finished: bool,
}

fn copy_text(o: &Option<String>) -> (r: Option<String>)
    ensures
        r == *o,
{
    match o {
        Some(s) => Some(s.clone()),
        None => None,
    }
}

/// A copy of a pod's health record.
pub fn copy_pod(p: &PodHealth) -> (r: PodHealth)
    ensures
        r == *p,
{
    PodHealth {
        name: p.name.clone(),
        deployment: p.deployment.clone(),
        ready: p.ready,
        phase: p.phase.clone(),
        image: p.image.clone(),
        restarts: p.restarts,
        error: copy_text(&p.error),
        logs_tail: copy_text(&p.logs_tail),
    }
}

impl HealthMonitor {
    pub open spec fn wf(&self) -> bool {
        self.budget.wf()
    }

    pub fn new(workloads: Vec<String>) -> (r: HealthMonitor)
        ensures
            r.wf(),
            r.workloads@ == workloads@,
            !r.finished,
            forall|w: Seq<char>| r.budget.used(w) == 0,
    {
        HealthMonitor {
            workloads,
            budget: RecoveryBudget::new(),
            all_ready: true,
            unhealthy: Vec::new(),
            finished: false,
        }
    }

    /// Starts a polling cycle with no pod seen yet.
    pub fn begin_cycle(&mut self)
        requires
            old(self).wf(),
            !old(self).finished,
        ensures
            final(self).wf(),
            !final(self).finished,
            final(self).all_ready,
            final(self).unhealthy@.len() == 0,
            final(self).workloads@ == old(self).workloads@,
            final(self).budget == old(self).budget,
    {
        self.all_ready = true;
        self.unhealthy = Vec::new();
    }

    /// Records one pod of workload `w`: its health, and a recovery attempt when
    /// it crash-loops and the workload's budget is not spent.
    pub fn observe(&mut self, w: &str, pod: &PodObservation) -> (r: PodStep)
        requires
            old(self).wf(),
            !old(self).finished,
        ensures
            final(self).wf(),
            !final(self).finished,
            final(self).workloads@ == old(self).workloads@,
            assessed(w@, *pod, r.health),
            final(self).all_ready == (old(self).all_ready && r.health.ready),
            final(self).unhealthy@ == if r.health.ready {
                old(self).unhealthy@
            } else {
                old(self).unhealthy@.push(r.health)
            },
            r.health.error.is_some() && old(self).budget.used(w@) < 3 ==> r.recovery == Some(
                (old(self).budget.used(w@) + 1) as u32,
            ) && final(self).budget.used(w@) == old(self).budget.used(w@) + 1,
            !(r.health.error.is_some() && old(self).budget.used(w@) < 3) ==> r.recovery.is_none()
                && final(self).budget.used(w@) == old(self).budget.used(w@),
            forall|o: Seq<char>| o != w@ ==> final(self).budget.used(o) == old(self).budget.used(o),
    {
        let health = assess_pod(w, pod);
        let recovery = if health.error.is_some() {
            self.budget.try_spend(w)
        } else {
            None
        };
        if !health.ready {
            self.all_ready = false;
            self.unhealthy.push(copy_pod(&health));
        }
        PodStep { health, recovery }
    }

    /// Ends a polling cycle: all healthy once every pod seen is ready and some
    /// workload is monitored; timed out once more than the ceiling has elapsed;
    /// else polling goes on.
    pub fn end_cycle(&mut self, elapsed_secs: u64) -> (v: CycleVerdict)
        requires
            old(self).wf(),
            !old(self).finished,
        ensures
            final(self).wf(),
            v == if old(self).all_ready && old(self).workloads@.len() > 0 {
                CycleVerdict::AllHealthy
            } else if elapsed_secs > POD_TIMEOUT_SECS {
                CycleVerdict::TimedOut
            } else {
                CycleVerdict::KeepPolling
            },
            final(self).finished == (v != CycleVerdict::KeepPolling),
            *final(self) == (HealthMonitor { finished: final(self).finished, ..*old(self) }),
    {
        if self.all_ready && self.workloads.len() > 0 {
            self.finished = true;
            CycleVerdict::AllHealthy
        } else if elapsed_secs > POD_TIMEOUT_SECS {
            self.finished = true;
            CycleVerdict::TimedOut
        } else {
            CycleVerdict::KeepPolling
        }
    }

    /// The terminal report of a timed-out monitor: every pod unhealthy in the
    /// last cycle, each with its captured log tail.
    pub fn timeout_report(&self, tails: Vec<String>) -> (e: HealthEvent)
        requires
            tails@.len() == self.unhealthy@.len(),
        ensures
            e matches HealthEvent::Failed { unhealthy } && unhealthy@.len() == self.unhealthy@.len()
                && forall|i: int|
                0 <= i < unhealthy@.len() ==> #[trigger] unhealthy@[i] == (PodHealth {
                    logs_tail: Some(tails@[i]),
                    ..self.unhealthy@[i]
                }),
    {
        let mut out: Vec<PodHealth> = Vec::new();
        let mut i: usize = 0;
        while i < self.unhealthy.len()
            invariant
                tails@.len() == self.unhealthy@.len(),
                i <= self.unhealthy@.len(),
                out@.len() == i,
                forall|t: int|
                    0 <= t < i ==> #[trigger] out@[t] == (PodHealth {
                        logs_tail: Some(tails@[t]),
                        ..self.unhealthy@[t]
                    }),
            decreases self.unhealthy@.len() - i,
        {
            let mut p = copy_pod(&self.unhealthy[i]);
            p.logs_tail = Some(tails[i].clone());
            out.push(p);
            i += 1;
        }
        HealthEvent::Failed { unhealthy: out }
    }
}

/// Whether a workload's rollout is done: its ready replicas reach the desired
/// count (one when unset), and that count is positive.
pub fn rollout_ready(desired: Option<i32>, ready: Option<i32>) -> (r: bool)
    ensures
        r == ({
            let d: int = match desired {
                Some(d) => d as int,
                None => 1,
            };
            let k: int = match ready {
                Some(k) => k as int,
                None => 0,
            };
            k >= d && d > 0
        }),
{
    let d = match desired {
        Some(d) => d,
        None => 1,
    };
    let k = match ready {
        Some(k) => k,
        None => 0,
    };
    k >= d && d > 0
}

} // verus!
