//! What a call shows of itself, and what its sessions say when they are asked.

use crate::call::actor::SessionActor;
use crate::call::callee::CalleeSessionActor;
use crate::call::config_snapshot::CallRuntime;
use crate::call::coordinator::CallCore;
use crate::call::dtmf::{
    collectors_of, Collector, DigitCollectionMode, DigitCollectionOutcome,
    DigitCollectionResultCode, DigitCollectorPhase, DtmfRouterStats, DtmfSourceStats, Outcome,
};
use crate::call::model::{session_id, CallState, LegState};
use crate::dtmf::DtmfDigit;
use vstd::prelude::*;

verus! {

/// What is shown of a call that is going on.
#[derive(Debug, Clone)]
pub struct ActiveCallView {
    pub call_id: String,
    pub domain_id: String,
    pub caller_session_id: String,
    pub callee_session_id: String,
    pub caller_number: String,
    pub callee_number: String,
    pub state: CallState,
    pub started_at_ms: u64,
    pub answered_at_ms: Option<u64>,
    pub last_status: Option<u16>,
    pub caller_terminated: bool,
    pub callee_terminated: bool,
    pub runtime_config_version: u64,
    pub domain_config_version: u64,
}

impl CallRuntime {
    /// The view of the call in the state that its owner has it in.
    pub fn active_view(&self, core: &CallCore) -> (view: ActiveCallView)
        ensures
            view == (ActiveCallView {
                call_id: self.call_id,
                domain_id: self.config_snapshot.domain_id,
                caller_session_id: self.caller_session_id,
                callee_session_id: self.callee_session_id,
                caller_number: self.config_snapshot.numbers.original_caller,
                callee_number: self.config_snapshot.numbers.original_callee,
                state: core.state,
                started_at_ms: self.started_at_ms,
                answered_at_ms: core.answered_at_ms,
                last_status: core.last_status,
                caller_terminated: core.caller_terminated,
                callee_terminated: core.callee_terminated,
                runtime_config_version: self.config_snapshot.runtime_config_version,
                domain_config_version: self.config_snapshot.domain_config_version,
            }),
    {
        let snapshot = &self.config_snapshot;
        ActiveCallView {
            call_id: self.call_id.clone(),
            domain_id: snapshot.domain_id.clone(),
            caller_session_id: self.caller_session_id.clone(),
            callee_session_id: self.callee_session_id.clone(),
            caller_number: snapshot.numbers.original_caller.clone(),
            callee_number: snapshot.numbers.original_callee.clone(),
            state: core.state,
            started_at_ms: self.started_at_ms,
            answered_at_ms: core.answered_at_ms,
            last_status: core.last_status,
            caller_terminated: core.caller_terminated,
            callee_terminated: core.callee_terminated,
            runtime_config_version: snapshot.runtime_config_version,
            domain_config_version: snapshot.domain_config_version,
        }
    }
}

pub open spec fn mode_name(mode: DigitCollectionMode) -> Seq<char> {
    match mode {
        DigitCollectionMode::Observe => "observe"@,
        DigitCollectionMode::Collect => "collect"@,
    }
}

pub open spec fn phase_name(phase: DigitCollectorPhase) -> Seq<char> {
    match phase {
        DigitCollectorPhase::Acquiring => "acquiring"@,
        DigitCollectorPhase::Active => "active"@,
        DigitCollectorPhase::Releasing => "releasing"@,
    }
}

fn mode_text(mode: DigitCollectionMode) -> (text: String)
    ensures
        text@ == mode_name(mode),
{
    match mode {
        DigitCollectionMode::Observe => "observe".to_owned(),
        DigitCollectionMode::Collect => "collect".to_owned(),
    }
}

fn phase_text(phase: DigitCollectorPhase) -> (text: String)
    ensures
        text@ == phase_name(phase),
{
    match phase {
        DigitCollectorPhase::Acquiring => "acquiring".to_owned(),
        DigitCollectorPhase::Active => "active".to_owned(),
        DigitCollectorPhase::Releasing => "releasing".to_owned(),
    }
}

/// A collector at work.
#[derive(Debug, Clone)]
pub struct CollectorSummary {
    pub collector_id: String,
    pub source_session_id: String,
    pub mode: String,
    pub phase: String,
}

/// What a summary says of a collector.
pub open spec fn sums_up(summary: CollectorSummary, collector: Collector) -> bool {
    &&& summary.collector_id == collector.spec.collector_id
    &&& summary.source_session_id == collector.spec.source_session_id
    &&& summary.mode@ == mode_name(collector.spec.mode)
    &&& summary.phase@ == phase_name(collector.phase)
}

/// What the owner of a call says of it.
#[derive(Debug, Clone)]
pub struct CoordinatorSummary {
    pub session_id: String,
    pub call_id: String,
    pub domain_id: String,
    pub state: CallState,
    pub source: DtmfSourceStats,
    pub router: DtmfRouterStats,
    /// The collectors, in the order of their names.
    pub collectors: Vec<CollectorSummary>,
}

impl SessionActor {
    pub fn summary(&self) -> (summary: CoordinatorSummary)
        ensures
            summary.session_id@ == self.plan.name(self.plan.owner),
            summary.call_id == self.plan.call_id,
            summary.domain_id == self.plan.domain_id,
            summary.state == self@.core.state,
            summary.source == self@.source.stats,
            summary.router == self@.router,
            summary.collectors@.len() == self@.collection.collectors.len(),
            forall|i: int|
                0 <= i < summary.collectors@.len() ==> sums_up(
                    #[trigger] summary.collectors@[i],
                    self@.collection.collectors[i],
                ),
    {
        let mut collectors: Vec<CollectorSummary> = Vec::new();
        let mut i: usize = 0;
        while i < self.collection.collectors.len()
            invariant
                i <= self.collection.collectors.len(),
                collectors@.len() == i,
                forall|k: int|
                    0 <= k < i ==> sums_up(
                        #[trigger] collectors@[k],
                        collectors_of(self.collection.collectors@)[k],
                    ),
            decreases self.collection.collectors.len() - i,
        {
            let collector = &self.collection.collectors[i];
            collectors.push(
                CollectorSummary {
                    collector_id: collector.spec.collector_id.clone(),
                    source_session_id: collector.spec.source_session_id.clone(),
                    mode: mode_text(collector.spec.mode),
                    phase: phase_text(collector.phase),
                },
            );
            i = i + 1;
        }
        CoordinatorSummary {
            session_id: session_id(self.plan.call_id.as_str(), self.plan.owner),
            call_id: self.plan.call_id.clone(),
            domain_id: self.plan.domain_id.clone(),
            state: self.core.state,
            source: self.dtmf_source.stats,
            router: self.dtmf_router.stats,
            collectors,
        }
    }
}

/// What the session of a callee's leg says of itself.
#[derive(Debug, Clone)]
pub struct CalleeSummary {
    pub session_id: String,
    pub call_id: String,
    pub attempt_seq: u16,
    pub state: LegState,
    pub source: DtmfSourceStats,
}

/// Why a callee's session collects nothing.
pub open spec fn needs_coordinator() -> Seq<char> {
    "collector_requires_call_coordinator"@
}

impl CalleeSessionActor {
    pub fn summary(&self) -> (summary: CalleeSummary)
        ensures
            summary == (CalleeSummary {
                session_id: self.session_id,
                call_id: self.call_id,
                attempt_seq: self.attempt_seq,
                state: self.state,
                source: self.dtmf_source.stats,
            }),
    {
        CalleeSummary {
            session_id: self.session_id.clone(),
            call_id: self.call_id.clone(),
            attempt_seq: self.attempt_seq,
            state: self.state,
            source: self.dtmf_source.stats,
        }
    }

    /// The answer to one who asks a callee's session to collect digits: why it is
    /// not ready, and how the collection ended. A cancellation gets the first alone.
    pub fn refuse_collection(&self, collector_id: String) -> (answer: (
        String,
        DigitCollectionOutcome,
    ))
        ensures
            answer.0@ == needs_coordinator(),
            answer.1@ == (Outcome {
                collector_id: collector_id@,
                code: DigitCollectionResultCode::Failed,
                digits: Seq::<DtmfDigit>::empty(),
                reason: Some(needs_coordinator()),
            }),
    {
        (
            "collector_requires_call_coordinator".to_owned(),
            DigitCollectionOutcome {
                collector_id,
                code: DigitCollectionResultCode::Failed,
                digits: Vec::new(),
                reason: Some("collector_requires_call_coordinator".to_owned()),
            },
        )
    }
}

} // verus!
