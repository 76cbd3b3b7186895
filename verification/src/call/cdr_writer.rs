//! The writer of call records: when a domain is refused new calls because too much
//! waits in its spool, and how its worker goes through what waits.

use crate::keyed::KeyedMap;
use vstd::prelude::*;

verus! {

pub const CDR_WRITER_QUEUE_CAPACITY: usize = 512;

pub const MAX_RETRY_ATTEMPTS: u32 = 5;

pub const BASE_RETRY_DELAY_MS: u64 = 200;

pub const MAX_RETRY_DELAY_MS: u64 = 10_000;

pub const MIB: u64 = 1_048_576;

/// The watermarks of a spool, in mebibytes.
#[derive(Debug, Clone, Copy, PartialEq, Eq, Structural)]
pub struct CdrSpoolLimits {
    pub warning_mb: u64,
    pub resume_mb: u64,
    pub reject_mb: u64,
}

#[derive(Debug, Clone, Copy, PartialEq, Eq, Structural)]
pub struct DomainSpoolStatus {
    pub backlog_bytes: u64,
    pub rejecting_new_calls: bool,
    pub warning_active: bool,
}

/// A limit in bytes.
pub open spec fn in_bytes(mebibytes: u64) -> u64 {
    if mebibytes * MIB <= u64::MAX {
        (mebibytes * MIB) as u64
    } else {
        u64::MAX
    }
}

fn to_bytes(mebibytes: u64) -> (bytes: u64)
    ensures
        bytes == in_bytes(mebibytes),
{
    if mebibytes > u64::MAX / MIB {
        return u64::MAX;
    }
    mebibytes * MIB
}

/// The status of a domain that nothing is known of.
pub open spec fn unknown_status() -> DomainSpoolStatus {
    DomainSpoolStatus { backlog_bytes: 0, rejecting_new_calls: false, warning_active: false }
}

/// The status of a domain once its backlog is known. Calls are refused from the
/// upper limit on, and admitted again below the lower one.
pub open spec fn status_after(
    limits: CdrSpoolLimits,
    status: DomainSpoolStatus,
    backlog_bytes: u64,
) -> DomainSpoolStatus {
    DomainSpoolStatus {
        backlog_bytes,
        warning_active: backlog_bytes >= in_bytes(limits.warning_mb),
        rejecting_new_calls: if status.rejecting_new_calls {
            backlog_bytes >= in_bytes(limits.resume_mb)
        } else {
            backlog_bytes >= in_bytes(limits.reject_mb)
        },
    }
}

/// Between the two limits a domain stays as it was.
pub proof fn lemma_admission_has_hysteresis(
    limits: CdrSpoolLimits,
    status: DomainSpoolStatus,
    backlog_bytes: u64,
)
    requires
        in_bytes(limits.resume_mb) <= backlog_bytes,
        backlog_bytes < in_bytes(limits.reject_mb),
    ensures
        status_after(limits, status, backlog_bytes).rejecting_new_calls
            == status.rejecting_new_calls,
{
}

pub struct SpoolAdmission {
    pub domains: KeyedMap<DomainSpoolStatus>,
    pub limits: CdrSpoolLimits,
}

pub open spec fn status_of(domains: Map<Seq<char>, DomainSpoolStatus>, domain: Seq<char>) -> DomainSpoolStatus {
    if domains.contains_key(domain) {
        domains[domain]
    } else {
        unknown_status()
    }
}

impl SpoolAdmission {
    pub open spec fn wf(self) -> bool {
        self.domains.wf()
    }

    pub fn new(limits: CdrSpoolLimits) -> (admission: Self)
        ensures
            admission.wf(),
            admission.limits == limits,
            admission.domains@ == Map::<Seq<char>, DomainSpoolStatus>::empty(),
    {
        SpoolAdmission { domains: KeyedMap::new(), limits }
    }

    pub fn update(&mut self, domain_id: &str, backlog_bytes: u64)
        requires
            old(self).wf(),
        ensures
            final(self).wf(),
            final(self).limits == old(self).limits,
            final(self).domains@ == old(self).domains@.insert(
                domain_id@,
                status_after(
                    old(self).limits,
                    status_of(old(self).domains@, domain_id@),
                    backlog_bytes,
                ),
            ),
    {
        let status = match self.domains.get(domain_id) {
            Some(status) => *status,
            None => DomainSpoolStatus {
                backlog_bytes: 0,
                rejecting_new_calls: false,
                warning_active: false,
            },
        };
        let rejecting_new_calls = if status.rejecting_new_calls {
            backlog_bytes >= to_bytes(self.limits.resume_mb)
        } else {
            backlog_bytes >= to_bytes(self.limits.reject_mb)
        };
        let warning_active = backlog_bytes >= to_bytes(self.limits.warning_mb);
        self.domains.insert(
            domain_id.to_owned(),
            DomainSpoolStatus { backlog_bytes, rejecting_new_calls, warning_active },
        );
    }

    pub fn admits_new_call(&self, domain_id: &str) -> (admits: bool)
        requires
            self.wf(),
        ensures
            admits == !status_of(self.domains@, domain_id@).rejecting_new_calls,
    {
        match self.domains.get(domain_id) {
            Some(status) => !status.rejecting_new_calls,
            None => true,
        }
    }

    /// New limits count at once, for every domain that is known.
    pub fn set_limits(&mut self, limits: CdrSpoolLimits)
        requires
            old(self).wf(),
        ensures
            final(self).wf(),
            final(self).limits == limits,
            final(self).domains@ == old(self).domains@.map_values(
                |status: DomainSpoolStatus| status_after(limits, status, status.backlog_bytes),
            ),
    {
        self.limits = limits;
        let ghost before = self.domains;
        let mut i: usize = 0;
        while i < self.domains.len()
            invariant
                self.wf(),
                before.wf(),
                self.limits == limits,
                before == old(self).domains,
                i <= self.domains.entries().len() == before.entries().len(),
                forall|k: int|
                    0 <= k < before.entries().len() ==> (#[trigger] self.domains.entries()[k]).key
                        == before.entries()[k].key,
                forall|k: int|
                    0 <= k < i ==> (#[trigger] self.domains.entries()[k]).value == status_after(
                        limits,
                        before.entries()[k].value,
                        before.entries()[k].value.backlog_bytes,
                    ),
                forall|k: int|
                    i <= k < before.entries().len() ==> #[trigger] self.domains.entries()[k]
                        == before.entries()[k],
            decreases self.domains.entries().len() - i,
        {
            let status = *self.domains.value_at(i);
            let backlog_bytes: u64 = status.backlog_bytes;
            let rejecting_new_calls = if status.rejecting_new_calls {
                backlog_bytes >= to_bytes(limits.resume_mb)
            } else {
                backlog_bytes >= to_bytes(limits.reject_mb)
            };
            let warning_active = backlog_bytes >= to_bytes(limits.warning_mb);
            self.domains.set_at(
                i,
                DomainSpoolStatus { backlog_bytes, rejecting_new_calls, warning_active },
            );
            i = i + 1;
        }
        proof {
            let after = self.domains;
            let expected = before@.map_values(
                |status: DomainSpoolStatus| status_after(limits, status, status.backlog_bytes),
            );
            assert forall|domain: Seq<char>| #[trigger] after@.contains_key(domain)
                <==> expected.contains_key(domain) by {
                if after.has(domain) {
                    let at = after.index_of(domain);
                    assert(after.has_at(domain, at));
                    assert(before.has_at(domain, at));
                }
                if before.has(domain) {
                    let at = before.index_of(domain);
                    assert(before.has_at(domain, at));
                    assert(after.has_at(domain, at));
                }
            }
            assert forall|domain: Seq<char>| #[trigger] after@.contains_key(domain) implies after@[domain]
                == expected[domain] by {
                let at = after.index_of(domain);
                assert(after.has_at(domain, at));
                assert(before.has_at(domain, at));
                after.lemma_index(domain, at);
                before.lemma_index(domain, at);
            }
            assert(after@ =~= expected);
        }
    }
}

/// Two to the power of `n`, for the delays between attempts.
pub open spec fn doubled(n: nat) -> nat
    decreases n,
{
    if n == 0 {
        1
    } else {
        2 * doubled((n - 1) as nat)
    }
}

/// How long the writer waits before the next attempt: twice as long each time, up
/// to a limit.
pub open spec fn delay_before(attempt: u32) -> nat {
    let shift = if attempt < 6 {
        attempt as nat
    } else {
        6
    };
    let delay = BASE_RETRY_DELAY_MS as nat * doubled(shift);
    if delay < MAX_RETRY_DELAY_MS {
        delay
    } else {
        MAX_RETRY_DELAY_MS as nat
    }
}

pub fn retry_delay_ms(attempt: u32) -> (delay: u64)
    ensures
        delay == delay_before(attempt),
{
    let shift: u32 = if attempt < 6 {
        attempt
    } else {
        6
    };
    let mut factor: u64 = 1;
    let mut i: u32 = 0;
    while i < shift
        invariant
            i <= shift <= 6,
            factor == doubled(i as nat),
            factor <= 64,
            i == 0 ==> factor <= 1,
            i == 1 ==> factor <= 2,
            i == 2 ==> factor <= 4,
            i == 3 ==> factor <= 8,
            i == 4 ==> factor <= 16,
            i == 5 ==> factor <= 32,
        decreases shift - i,
    {
        factor = 2 * factor;
        i = i + 1;
    }
    let delay: u64 = BASE_RETRY_DELAY_MS * factor;
    if delay < MAX_RETRY_DELAY_MS {
        delay
    } else {
        MAX_RETRY_DELAY_MS
    }
}

/// The delays never shrink, and never exceed the limit.
pub proof fn lemma_delays_grow_to_the_limit(attempt: u32)
    requires
        attempt < u32::MAX,
    ensures
        delay_before(attempt) <= delay_before((attempt + 1) as u32) <= MAX_RETRY_DELAY_MS,
{
    reveal_with_fuel(doubled, 8);
}

#[derive(Debug, Clone, Copy, PartialEq, Eq, Structural)]
pub enum RetryDecision {
    GiveUp,
    RetryAfterMs(u64),
}

/// What comes after a failed attempt; `failed_before` attempts failed before it.
pub fn after_failed_attempt(failed_before: u32) -> (decision: RetryDecision)
    requires
        failed_before < u32::MAX,
    ensures
        decision == (if failed_before + 1 >= MAX_RETRY_ATTEMPTS {
            RetryDecision::GiveUp
        } else {
            RetryDecision::RetryAfterMs(delay_before((failed_before + 1) as u32) as u64)
        }),
{
    let attempt: u32 = failed_before + 1;
    if attempt >= MAX_RETRY_ATTEMPTS {
        RetryDecision::GiveUp
    } else {
        RetryDecision::RetryAfterMs(retry_delay_ms(attempt))
    }
}

/// What the worker of a domain is doing. `next` counts the entries of the present
/// replay that are checkpointed.
#[derive(Debug, Clone, Copy, PartialEq, Eq, Structural)]
pub enum WorkerPhase {
    Waiting,
    Loading,
    Persisting { next: usize },
    Acknowledging { next: usize },
    Resting,
}

#[derive(Debug, Clone, Copy, PartialEq, Eq, Structural)]
pub enum WorkerEvent {
    Woken,
    /// The entries were loaded, or could not be.
    Loaded(bool),
    /// The entry was written to the database, or not.
    Persisted(bool),
    /// The checkpoint was moved behind the entry, or not.
    Acknowledged(bool),
    Rested,
}

#[derive(Debug, Clone, Copy, PartialEq, Eq, Structural)]
pub enum WorkerAction {
    Wait,
    Load,
    Persist(usize),
    Acknowledge(usize),
    Rest(u64),
}

/// The worker of a domain: its phase, and for each entry of the present replay
/// whether it is to be written (or was put aside).
pub struct DomainWorker {
    pub phase: WorkerPhase,
    pub entries: Vec<bool>,
}

/// What comes next when the entries before `next` are checkpointed.
pub open spec fn worker_at(entries: Seq<bool>, next: usize) -> (WorkerPhase, WorkerAction) {
    if next >= entries.len() {
        (WorkerPhase::Loading, WorkerAction::Load)
    } else if entries[next as int] {
        (WorkerPhase::Persisting { next }, WorkerAction::Persist(next))
    } else {
        (WorkerPhase::Acknowledging { next }, WorkerAction::Acknowledge(next))
    }
}

pub open spec fn worker_rests() -> (WorkerPhase, WorkerAction) {
    (WorkerPhase::Resting, WorkerAction::Rest(MAX_RETRY_DELAY_MS))
}

/// The next phase of the worker and what it does, when `entries` were loaded and
/// `event` happened. An event that does not belong to the phase changes nothing.
pub open spec fn worker_step(phase: WorkerPhase, entries: Seq<bool>, event: WorkerEvent) -> (
    WorkerPhase,
    WorkerAction,
) {
    match (phase, event) {
        (WorkerPhase::Waiting, WorkerEvent::Woken) => (WorkerPhase::Loading, WorkerAction::Load),
        (WorkerPhase::Loading, WorkerEvent::Loaded(done)) => if !done {
            worker_rests()
        } else if entries.len() == 0 {
            (WorkerPhase::Waiting, WorkerAction::Wait)
        } else {
            worker_at(entries, 0)
        },
        (WorkerPhase::Persisting { next }, WorkerEvent::Persisted(done)) => if done {
            (WorkerPhase::Acknowledging { next }, WorkerAction::Acknowledge(next))
        } else {
            worker_rests()
        },
        (WorkerPhase::Acknowledging { next }, WorkerEvent::Acknowledged(done)) => if done {
            worker_at(entries, (next + 1) as usize)
        } else {
            worker_rests()
        },
        (WorkerPhase::Resting, WorkerEvent::Rested) => (WorkerPhase::Loading, WorkerAction::Load),
        (WorkerPhase::Waiting, _) => (phase, WorkerAction::Wait),
        (WorkerPhase::Loading, _) => (phase, WorkerAction::Load),
        (WorkerPhase::Persisting { next }, _) => (phase, WorkerAction::Persist(next)),
        (WorkerPhase::Acknowledging { next }, _) => (phase, WorkerAction::Acknowledge(next)),
        (WorkerPhase::Resting, _) => worker_rests(),
    }
}

pub open spec fn phase_fits(phase: WorkerPhase, entries: Seq<bool>) -> bool {
    match phase {
        WorkerPhase::Persisting { next } => next < entries.len() && entries[next as int],
        WorkerPhase::Acknowledging { next } => next < entries.len(),
        _ => true,
    }
}

/// The checkpoint is moved behind an entry only once the entry was written or put
/// aside, and the entries are taken in order.
pub proof fn lemma_checkpoint_follows_the_write(
    phase: WorkerPhase,
    entries: Seq<bool>,
    event: WorkerEvent,
    i: usize,
)
    requires
        phase_fits(phase, entries),
        entries.len() <= usize::MAX,
        worker_step(phase, entries, event).1 == WorkerAction::Acknowledge(i),
    ensures
        i < entries.len(),
        phase == (WorkerPhase::Acknowledging { next: i }) || !entries[i as int] || (phase == (
        WorkerPhase::Persisting { next: i }) && event == WorkerEvent::Persisted(true)),
        phase_fits(worker_step(phase, entries, event).0, entries),
{
}

impl DomainWorker {
    pub open spec fn wf(self) -> bool {
        phase_fits(self.phase, self.entries@)
    }

    pub fn new() -> (worker: Self)
        ensures
            worker.wf(),
            worker.phase == WorkerPhase::Waiting,
            worker.entries@.len() == 0,
    {
        DomainWorker { phase: WorkerPhase::Waiting, entries: Vec::new() }
    }

    /// Takes the entries that were loaded.
    pub fn load(&mut self, entries: Vec<bool>)
        requires
            old(self).phase == WorkerPhase::Loading,
        ensures
            final(self).wf(),
            final(self).phase == old(self).phase,
            final(self).entries == entries,
    {
        self.entries = entries;
    }

    fn go_to(&mut self, next: usize) -> (action: WorkerAction)
        ensures
            final(self).entries == old(self).entries,
            (final(self).phase, action) == worker_at(old(self).entries@, next),
    {
        if next >= self.entries.len() {
            self.phase = WorkerPhase::Loading;
            return WorkerAction::Load;
        }
        if self.entries[next] {
            self.phase = WorkerPhase::Persisting { next };
            return WorkerAction::Persist(next);
        }
        self.phase = WorkerPhase::Acknowledging { next };
        WorkerAction::Acknowledge(next)
    }

    fn rest(&mut self) -> (action: WorkerAction)
        ensures
            final(self).entries == old(self).entries,
            (final(self).phase, action) == worker_rests(),
    {
        self.phase = WorkerPhase::Resting;
        WorkerAction::Rest(MAX_RETRY_DELAY_MS)
    }

    pub fn step(&mut self, event: WorkerEvent) -> (action: WorkerAction)
        requires
            old(self).wf(),
        ensures
            final(self).wf(),
            final(self).entries == old(self).entries,
            (final(self).phase, action) == worker_step(
                old(self).phase,
                old(self).entries@,
                event,
            ),
    {
        match (self.phase, event) {
            (WorkerPhase::Waiting, WorkerEvent::Woken) => {
                self.phase = WorkerPhase::Loading;
                WorkerAction::Load
            },
            (WorkerPhase::Loading, WorkerEvent::Loaded(done)) => {
                if !done {
                    return self.rest();
                }
                if self.entries.len() == 0 {
                    self.phase = WorkerPhase::Waiting;
                    return WorkerAction::Wait;
                }
                self.go_to(0)
            },
            (WorkerPhase::Persisting { next }, WorkerEvent::Persisted(done)) => {
                if done {
                    self.phase = WorkerPhase::Acknowledging { next };
                    return WorkerAction::Acknowledge(next);
                }
                self.rest()
            },
            (WorkerPhase::Acknowledging { next }, WorkerEvent::Acknowledged(done)) => {
                if done {
                    let count: usize = self.entries.len();
                    assert(next < count);
                    return self.go_to(next + 1);
                }
                self.rest()
            },
            (WorkerPhase::Resting, WorkerEvent::Rested) => {
                self.phase = WorkerPhase::Loading;
                WorkerAction::Load
            },
            (WorkerPhase::Waiting, _) => WorkerAction::Wait,
            (WorkerPhase::Loading, _) => WorkerAction::Load,
            (WorkerPhase::Persisting { next }, _) => WorkerAction::Persist(next),
            (WorkerPhase::Acknowledging { next }, _) => WorkerAction::Acknowledge(next),
            (WorkerPhase::Resting, _) => self.rest(),
        }
    }
}

} // verus!
