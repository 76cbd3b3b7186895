//! The settings that a call was begun with. They hold for the call to its end,
//! whatever is changed meanwhile.

use crate::call::cdr::CallFacts;
use crate::call::coordinator::CallTimeouts;
use crate::call::model::{AiPolicyDecisionSnapshot, OutboundCandidate, TransportAddress};
use crate::recording::RecordingSpec;
use crate::text::{copy_opt, opt_text};
use vstd::prelude::*;

verus! {

#[derive(Debug, Clone)]
pub struct CallNumberSnapshot {
    pub original_caller: String,
    pub original_callee: String,
    pub signaling_caller: String,
    pub signaling_callee: String,
}

#[derive(Debug, Clone)]
pub struct RouteSnapshot {
    pub route_id: Option<String>,
    pub route_name: Option<String>,
    pub trunk_ref: Option<String>,
    pub trunk_name: Option<String>,
}

#[derive(Debug, Clone)]
pub struct RecordingDecisionSnapshot {
    pub initial_requested: bool,
    pub initial_policy_ids: Vec<u64>,
    pub recording_dir: String,
}

#[derive(Debug, Clone, Copy, PartialEq, Eq, Structural)]
pub struct MediaPolicySnapshot {
    pub audio_only: bool,
    pub max_audio_m_lines: u8,
}

impl MediaPolicySnapshot {
    /// One line of audio, and nothing but audio.
    pub open spec fn supported(self) -> bool {
        self == MediaPolicySnapshot { audio_only: true, max_audio_m_lines: 1 }
    }
}

#[derive(Debug, Clone)]
pub struct CallConfigSnapshot {
    pub runtime_config_version: u64,
    pub domain_config_version: u64,
    pub domain_id: String,
    pub numbers: CallNumberSnapshot,
    pub inbound: RouteSnapshot,
    pub outbound: RouteSnapshot,
    pub candidates: Vec<OutboundCandidate>,
    pub timeouts: CallTimeouts,
    pub recording: RecordingDecisionSnapshot,
    pub initial_ai_policy: Option<AiPolicyDecisionSnapshot>,
    pub media_policy: MediaPolicySnapshot,
}

fn copy_ids(ids: &Vec<u64>) -> (copy: Vec<u64>)
    ensures
        copy@ == ids@,
{
    let copy = ids.clone();
    assert(copy@ =~= ids@);
    copy
}

impl AiPolicyDecisionSnapshot {
    pub fn copy(&self) -> (decision: Self)
        ensures
            decision == *self,
    {
        AiPolicyDecisionSnapshot { policy_id: self.policy_id, profile_id: self.profile_id.clone() }
    }
}

pub fn copy_policy(policy: &Option<AiPolicyDecisionSnapshot>) -> (copy: Option<
    AiPolicyDecisionSnapshot,
>)
    ensures
        copy == *policy,
{
    match policy {
        Some(policy) => Some(policy.copy()),
        None => None,
    }
}

pub fn copy_address(address: &Option<TransportAddress>) -> (copy: Option<TransportAddress>)
    ensures
        copy == *address,
{
    match address {
        Some(address) => Some(TransportAddress { host: address.host.clone(), port: address.port }),
        None => None,
    }
}

impl OutboundCandidate {
    /// A copy with the given policies applied.
    pub fn with_policies(
        &self,
        recording_policy_ids: Vec<u64>,
        ai_policy: Option<AiPolicyDecisionSnapshot>,
    ) -> (candidate: Self)
        ensures
            candidate.outbound_target == self.outbound_target,
            candidate.callee_route_target == self.callee_route_target,
            candidate.outbound_trunk_ref == self.outbound_trunk_ref,
            candidate.outbound_trunk_name == self.outbound_trunk_name,
            candidate.recording_requested == (recording_policy_ids@.len() > 0),
            candidate.recording_policy_ids == recording_policy_ids,
            candidate.ai_policy == ai_policy,
    {
        OutboundCandidate {
            outbound_target: self.outbound_target.copy(),
            callee_route_target: copy_address(&self.callee_route_target),
            outbound_trunk_ref: copy_opt(&self.outbound_trunk_ref),
            outbound_trunk_name: copy_opt(&self.outbound_trunk_name),
            recording_requested: recording_policy_ids.len() > 0,
            recording_policy_ids,
            ai_policy,
        }
    }
}

impl CallConfigSnapshot {
    /// What every snapshot holds to: there is a candidate, the call begins with the
    /// first, and it has one stream of audio.
    pub open spec fn wf(self) -> bool {
        &&& self.candidates@.len() > 0
        &&& self.recording.initial_requested == self.candidates@[0].recording_requested
        &&& self.recording.initial_policy_ids@ == self.candidates@[0].recording_policy_ids@
        &&& self.initial_ai_policy == self.candidates@[0].ai_policy
        &&& self.media_policy.supported()
    }

    pub fn new(
        runtime_config_version: u64,
        domain_config_version: u64,
        domain_id: String,
        numbers: CallNumberSnapshot,
        inbound: RouteSnapshot,
        outbound: RouteSnapshot,
        candidates: Vec<OutboundCandidate>,
        timeouts: CallTimeouts,
        recording_dir: String,
    ) -> (result: Result<Self, String>)
        ensures
            match result {
                Ok(snapshot) => {
                    &&& snapshot.wf()
                    &&& snapshot.runtime_config_version == runtime_config_version
                    &&& snapshot.domain_config_version == domain_config_version
                    &&& snapshot.domain_id == domain_id
                    &&& snapshot.numbers == numbers
                    &&& snapshot.inbound == inbound
                    &&& snapshot.outbound == outbound
                    &&& snapshot.candidates == candidates
                    &&& snapshot.timeouts == timeouts
                    &&& snapshot.recording.recording_dir == recording_dir
                },
                Err(message) => candidates@.len() == 0 && message@
                    == "call config snapshot requires at least one candidate"@,
            },
    {
        if candidates.len() == 0 {
            return Err("call config snapshot requires at least one candidate".to_owned());
        }
        let initial_requested = candidates[0].recording_requested;
        let initial_policy_ids = copy_ids(&candidates[0].recording_policy_ids);
        let initial_ai_policy = copy_policy(&candidates[0].ai_policy);
        Ok(
            CallConfigSnapshot {
                runtime_config_version,
                domain_config_version,
                domain_id,
                numbers,
                inbound,
                outbound,
                candidates,
                timeouts,
                recording: RecordingDecisionSnapshot {
                    initial_requested,
                    initial_policy_ids,
                    recording_dir,
                },
                initial_ai_policy,
                media_policy: MediaPolicySnapshot { audio_only: true, max_audio_m_lines: 1 },
            },
        )
    }
}

/// A call with the settings it was begun with, and what follows from the candidate
/// that is tried.
pub struct CallRuntime {
    pub config_snapshot: CallConfigSnapshot,
    pub call_id: String,
    pub caller_session_id: String,
    pub callee_session_id: String,
    pub caller_adapter_leg_id: String,
    pub callee_target: String,
    pub outbound_trunk_ref: Option<String>,
    pub outbound_trunk_name: Option<String>,
    pub recording_requested: bool,
    pub ai_policy: Option<AiPolicyDecisionSnapshot>,
    pub started_at_ms: u64,
}

/// How a call came to its end, as far as the coordinator knows.
pub struct CallOutcome {
    pub answered_at_ms: Option<u64>,
    pub last_status: Option<u16>,
    pub hangup_cause: Option<String>,
    pub recording_start_error: Option<String>,
}

impl CallRuntime {
    /// Whether the call stands at a candidate.
    pub open spec fn is_at(self, candidate: OutboundCandidate) -> bool {
        &&& self.callee_target@ == candidate.outbound_target.stable_name()
        &&& self.outbound_trunk_ref == candidate.outbound_trunk_ref
        &&& self.outbound_trunk_name == candidate.outbound_trunk_name
        &&& self.recording_requested == candidate.recording_requested
        &&& self.ai_policy == candidate.ai_policy
    }

    pub open spec fn same_call(self, other: Self) -> bool {
        &&& self.config_snapshot == other.config_snapshot
        &&& self.call_id == other.call_id
        &&& self.caller_session_id == other.caller_session_id
        &&& self.caller_adapter_leg_id == other.caller_adapter_leg_id
        &&& self.started_at_ms == other.started_at_ms
    }

    /// A call that begins with the first candidate of its settings. `number_refusal` says
    /// why that candidate's number is none that extensions can have, where it is not.
    pub fn new(
        call_id: String,
        caller_session_id: String,
        callee_session_id: String,
        caller_adapter_leg_id: String,
        config_snapshot: CallConfigSnapshot,
        number_refusal: &Option<String>,
        started_at_ms: u64,
    ) -> (result: Result<Self, String>)
        requires
            config_snapshot.candidates@.len() > 0,
        ensures
            match result {
                Ok(call) => {
                    &&& config_snapshot.media_policy.supported()
                    &&& number_refusal is None
                    &&& call.config_snapshot == config_snapshot
                    &&& call.call_id == call_id
                    &&& call.caller_session_id == caller_session_id
                    &&& call.callee_session_id == callee_session_id
                    &&& call.caller_adapter_leg_id == caller_adapter_leg_id
                    &&& call.callee_target@
                        == config_snapshot.candidates@[0].outbound_target.stable_name()
                    &&& call.outbound_trunk_ref == config_snapshot.candidates@[0].outbound_trunk_ref
                    &&& call.outbound_trunk_name
                        == config_snapshot.candidates@[0].outbound_trunk_name
                    &&& call.recording_requested == config_snapshot.recording.initial_requested
                    &&& call.ai_policy == config_snapshot.initial_ai_policy
                    &&& call.started_at_ms == started_at_ms
                },
                Err(message) => if config_snapshot.media_policy.supported() {
                    opt_text(*number_refusal) == Some(message@)
                } else {
                    message@ == "unsupported call media policy snapshot"@
                },
            },
    {
        if !config_snapshot.media_policy.audio_only
            || config_snapshot.media_policy.max_audio_m_lines != 1 {
            return Err("unsupported call media policy snapshot".to_owned());
        }
        match number_refusal {
            Some(reason) => return Err(reason.clone()),
            None => {},
        }
        let recording_requested = config_snapshot.recording.initial_requested;
        let ai_policy = copy_policy(&config_snapshot.initial_ai_policy);
        let callee_target = config_snapshot.candidates[0].outbound_target.stable_ref();
        let outbound_trunk_ref = copy_opt(&config_snapshot.candidates[0].outbound_trunk_ref);
        let outbound_trunk_name = copy_opt(&config_snapshot.candidates[0].outbound_trunk_name);
        Ok(
            CallRuntime {
                config_snapshot,
                call_id,
                caller_session_id,
                callee_session_id,
                caller_adapter_leg_id,
                callee_target,
                outbound_trunk_ref,
                outbound_trunk_name,
                recording_requested,
                ai_policy,
                started_at_ms,
            },
        )
    }

    /// Goes on with another candidate and its session.
    pub fn follow_candidate(&mut self, candidate: &OutboundCandidate, callee_session_id: String)
        ensures
            final(self).is_at(*candidate),
            final(self).same_call(*old(self)),
            final(self).callee_session_id == callee_session_id,
    {
        self.callee_target = candidate.outbound_target.stable_ref();
        self.outbound_trunk_ref = copy_opt(&candidate.outbound_trunk_ref);
        self.outbound_trunk_name = copy_opt(&candidate.outbound_trunk_name);
        self.recording_requested = candidate.recording_requested;
        self.ai_policy = copy_policy(&candidate.ai_policy);
        self.callee_session_id = callee_session_id;
    }

    /// What is known of the call when it ends.
    pub fn facts(&self, outcome: CallOutcome) -> (facts: CallFacts)
        ensures
            facts.call_id == self.call_id,
            facts.domain_id == self.config_snapshot.domain_id,
            facts.caller_number == self.config_snapshot.numbers.original_caller,
            facts.callee_number == self.config_snapshot.numbers.original_callee,
            facts.callee_target == self.callee_target,
            facts.inbound_route_id == self.config_snapshot.inbound.route_id,
            facts.inbound_route_name == self.config_snapshot.inbound.route_name,
            facts.inbound_trunk_ref == self.config_snapshot.inbound.trunk_ref,
            facts.inbound_trunk_name == self.config_snapshot.inbound.trunk_name,
            facts.outbound_route_id == self.config_snapshot.outbound.route_id,
            facts.outbound_route_name == self.config_snapshot.outbound.route_name,
            facts.outbound_trunk_ref == self.outbound_trunk_ref,
            facts.outbound_trunk_name == self.outbound_trunk_name,
            facts.started_at_ms == self.started_at_ms,
            facts.answered_at_ms == outcome.answered_at_ms,
            facts.last_status == outcome.last_status,
            facts.hangup_cause == outcome.hangup_cause,
            facts.recording_requested == self.recording_requested,
            facts.recording_start_error == outcome.recording_start_error,
            facts.caller_session_id == self.caller_session_id,
            facts.callee_session_id == self.callee_session_id,
    {
        let snapshot = &self.config_snapshot;
        CallFacts {
            call_id: self.call_id.clone(),
            domain_id: snapshot.domain_id.clone(),
            caller_number: snapshot.numbers.original_caller.clone(),
            callee_number: snapshot.numbers.original_callee.clone(),
            callee_target: self.callee_target.clone(),
            inbound_route_id: copy_opt(&snapshot.inbound.route_id),
            inbound_route_name: copy_opt(&snapshot.inbound.route_name),
            inbound_trunk_ref: copy_opt(&snapshot.inbound.trunk_ref),
            inbound_trunk_name: copy_opt(&snapshot.inbound.trunk_name),
            outbound_route_id: copy_opt(&snapshot.outbound.route_id),
            outbound_route_name: copy_opt(&snapshot.outbound.route_name),
            outbound_trunk_ref: copy_opt(&self.outbound_trunk_ref),
            outbound_trunk_name: copy_opt(&self.outbound_trunk_name),
            started_at_ms: self.started_at_ms,
            answered_at_ms: outcome.answered_at_ms,
            last_status: outcome.last_status,
            hangup_cause: outcome.hangup_cause,
            recording_requested: self.recording_requested,
            recording_start_error: outcome.recording_start_error,
            caller_session_id: self.caller_session_id.clone(),
            callee_session_id: self.callee_session_id.clone(),
        }
    }
}

/// The recording of a call that was answered: where it goes was decided when the call
/// began.
pub fn recording_spec_from_snapshot(call: &CallRuntime, answered_at_ms: u64, payload_types: Vec<u8>) -> (spec:
    RecordingSpec)
    ensures
        spec.call_id == call.call_id,
        spec.domain_id == call.config_snapshot.domain_id,
        spec.caller_number == call.config_snapshot.numbers.original_caller,
        spec.callee_number == call.config_snapshot.numbers.original_callee,
        spec.started_at_ms == answered_at_ms,
        spec.recording_dir == call.config_snapshot.recording.recording_dir,
        spec.payload_types == payload_types,
{
    RecordingSpec {
        call_id: call.call_id.clone(),
        domain_id: call.config_snapshot.domain_id.clone(),
        caller_number: call.config_snapshot.numbers.original_caller.clone(),
        callee_number: call.config_snapshot.numbers.original_callee.clone(),
        started_at_ms: answered_at_ms,
        recording_dir: call.config_snapshot.recording.recording_dir.clone(),
        payload_types,
    }
}

} // verus!
