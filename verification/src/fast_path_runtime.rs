//! When the media of a bridge takes the fast path, and when it has to come back to
//! the relays. The calls to the controller are made outside; their answers come back
//! in here.

use crate::fastpath::{
    controller_error, no_stats, FastPathError, FastPathStats, Fault, MediaFlowDirection,
};
use crate::text::{opt_text, same_text};
use vstd::prelude::*;

verus! {

pub const FAST_PATH_REDIRECT_ERROR_THRESHOLD: u64 = 3;

/// How the media of a call was forwarded.
#[derive(Debug, Clone, Copy, PartialEq, Eq, Structural)]
pub enum MediaForwardingMode {
    Userspace,
    FastPath,
    Mixed,
}

#[derive(Debug, Clone, Copy, PartialEq, Eq, Structural)]
pub struct FlowHistory {
    pub promoted: bool,
    pub demoted: bool,
}

/// Which directions were ever put on the fast path, and which came back from it.
#[derive(Debug, Clone, Copy, PartialEq, Eq, Structural)]
pub struct MediaForwardingHistory {
    pub caller_to_callee: FlowHistory,
    pub callee_to_caller: FlowHistory,
}

impl MediaForwardingHistory {
    pub open spec fn promoted(self, direction: MediaFlowDirection) -> Self {
        match direction {
            MediaFlowDirection::CallerToCallee => MediaForwardingHistory {
                caller_to_callee: FlowHistory { promoted: true, ..self.caller_to_callee },
                ..self
            },
            MediaFlowDirection::CalleeToCaller => MediaForwardingHistory {
                callee_to_caller: FlowHistory { promoted: true, ..self.callee_to_caller },
                ..self
            },
        }
    }

    pub open spec fn demoted(self, direction: MediaFlowDirection) -> Self {
        match direction {
            MediaFlowDirection::CallerToCallee => MediaForwardingHistory {
                caller_to_callee: FlowHistory { demoted: true, ..self.caller_to_callee },
                ..self
            },
            MediaFlowDirection::CalleeToCaller => MediaForwardingHistory {
                callee_to_caller: FlowHistory { demoted: true, ..self.callee_to_caller },
                ..self
            },
        }
    }

    pub open spec fn both_promoted(self) -> Self {
        self.promoted(MediaFlowDirection::CallerToCallee).promoted(
            MediaFlowDirection::CalleeToCaller,
        )
    }

    pub open spec fn both_demoted(self) -> Self {
        self.demoted(MediaFlowDirection::CallerToCallee).demoted(MediaFlowDirection::CalleeToCaller)
    }

    pub fn mark_promoted(&mut self, direction: MediaFlowDirection)
        ensures
            *final(self) == old(self).promoted(direction),
    {
        match direction {
            MediaFlowDirection::CallerToCallee => {
                self.caller_to_callee.promoted = true;
            },
            MediaFlowDirection::CalleeToCaller => {
                self.callee_to_caller.promoted = true;
            },
        }
    }

    pub fn mark_demoted(&mut self, direction: MediaFlowDirection)
        ensures
            *final(self) == old(self).demoted(direction),
    {
        match direction {
            MediaFlowDirection::CallerToCallee => {
                self.caller_to_callee.demoted = true;
            },
            MediaFlowDirection::CalleeToCaller => {
                self.callee_to_caller.demoted = true;
            },
        }
    }
}

/// Why media comes back from the fast path.
#[derive(Debug, Clone, Copy, PartialEq, Eq, Structural)]
pub enum FastPathFallbackReason {
    AiMediaTap,
    DtmfCapability,
    RemoteEndpointChanged,
    RedirectErrors,
    StatsSnapshotFailed,
}

pub struct FastPathRuntimeState {
    pub bridge_id: Option<String>,
    pub generation: u64,
    pub active_generation: Option<u64>,
    pub accumulated_stats: FastPathStats,
    pub forwarding_history: MediaForwardingHistory,
    pub promotion_blocked: bool,
    pub stopped: bool,
}

#[verifier::ext_equal]
pub struct RuntimePath {
    pub bridge: Option<Seq<char>>,
    pub generation: u64,
    pub active: Option<u64>,
    pub stats: FastPathStats,
    pub history: MediaForwardingHistory,
    pub blocked: bool,
    pub stopped: bool,
}

pub open spec fn next_generation(generation: u64) -> u64 {
    if generation < u64::MAX {
        (generation + 1) as u64
    } else {
        u64::MAX
    }
}

/// What follows from a confirmed change of a remote end.
#[derive(Debug, Clone, Copy, PartialEq, Eq, Structural)]
pub enum RebindStep {
    Nothing,
    /// The rules of this generation have to go first.
    Demote(u64),
    Promote,
}

impl RuntimePath {
    /// The generation whose rules are installed, where there are any.
    pub open spec fn installed(self) -> Option<u64> {
        if self.bridge is Some {
            self.active
        } else {
            None
        }
    }

    pub open spec fn came_back(self, stats: FastPathStats) -> Self {
        RuntimePath { active: None, stats: self.stats.merged(stats), ..self }
    }

    /// The generation that the next rules get, where rules may be installed.
    pub open spec fn next_promotion(self, has_flows: bool) -> Option<u64> {
        if self.blocked || self.bridge is None || !has_flows {
            None
        } else {
            Some(next_generation(self.generation))
        }
    }

    /// Whether a bridge may go to the fast path now.
    pub open spec fn promotable(self, bridge: Seq<char>, available: bool, has_flows: bool) -> bool {
        &&& available
        &&& has_flows
        &&& !self.stopped
        &&& !self.blocked
        &&& self.active is None
        &&& self.bridge is None || self.bridge == Some(bridge)
    }

    pub open spec fn promotion_noted(self, generation: u64, done: bool) -> Self {
        if done {
            RuntimePath {
                generation,
                active: Some(generation),
                history: self.history.both_promoted(),
                ..self
            }
        } else {
            self
        }
    }
}

impl FastPathRuntimeState {
    pub open spec fn view(&self) -> RuntimePath {
        RuntimePath {
            bridge: opt_text(self.bridge_id),
            generation: self.generation,
            active: self.active_generation,
            stats: self.accumulated_stats,
            history: self.forwarding_history,
            blocked: self.promotion_blocked,
            stopped: self.stopped,
        }
    }

    pub fn new() -> (state: Self)
        ensures
            state@ == (RuntimePath {
                bridge: None,
                generation: 0,
                active: None,
                stats: no_stats(),
                history: MediaForwardingHistory {
                    caller_to_callee: FlowHistory { promoted: false, demoted: false },
                    callee_to_caller: FlowHistory { promoted: false, demoted: false },
                },
                blocked: false,
                stopped: false,
            }),
    {
        FastPathRuntimeState {
            bridge_id: None,
            generation: 0,
            active_generation: None,
            accumulated_stats: FastPathStats::default(),
            forwarding_history: MediaForwardingHistory {
                caller_to_callee: FlowHistory { promoted: false, demoted: false },
                callee_to_caller: FlowHistory { promoted: false, demoted: false },
            },
            promotion_blocked: false,
            stopped: false,
        }
    }

    fn installed_generation(&self) -> (generation: Option<u64>)
        ensures
            generation == self@.installed(),
    {
        if self.bridge_id.is_some() {
            self.active_generation
        } else {
            None
        }
    }

    fn mark_both_demoted(&mut self)
        ensures
            final(self)@ == (RuntimePath { history: old(self)@.history.both_demoted(), ..old(self)@ }),
    {
        self.forwarding_history.mark_demoted(MediaFlowDirection::CallerToCallee);
        self.forwarding_history.mark_demoted(MediaFlowDirection::CalleeToCaller);
    }

    /// Keeps the bridge off the fast path, for a capability that only the relays
    /// have. Gives the generation whose rules have to go before the capability is
    /// there.
    pub fn block_for_userspace_capability(&mut self) -> (result: Result<Option<u64>, FastPathError>)
        ensures
            if old(self)@.stopped {
                final(self)@ == old(self)@ && (result matches Err(error) && error@ == (Fault {
                    code: "media_bridge_stopped"@,
                    message: "media bridge is already stopped"@,
                }))
            } else {
                final(self)@ == (RuntimePath { blocked: true, ..old(self)@ }) && (result matches Ok(
                    generation,
                ) && generation == old(self)@.installed())
            },
    {
        if self.stopped {
            return Err(
                controller_error("media_bridge_stopped", "media bridge is already stopped"),
            );
        }
        self.promotion_blocked = true;
        Ok(self.installed_generation())
    }

    /// Takes the controller's answer to that. Where the rules are still there, the
    /// capability is not to be had.
    pub fn note_capability_demotion(&mut self, reply: Result<FastPathStats, FastPathError>) -> (result:
        Result<(), FastPathError>)
        ensures
            match reply {
                Ok(stats) => result is Ok && final(self)@ == (RuntimePath {
                    history: old(self)@.history.both_demoted(),
                    ..old(self)@.came_back(stats)
                }),
                Err(error) => result == Err::<(), FastPathError>(error) && final(self)@ == old(self)@,
            },
    {
        match reply {
            Ok(stats) => {
                self.active_generation = None;
                self.accumulated_stats = self.accumulated_stats.merge_from(stats);
                self.mark_both_demoted();
                Ok(())
            },
            Err(error) => Err(error),
        }
    }

    /// Asks to put a bridge on the fast path. Gives the generation of its rules where
    /// it may go there.
    pub fn begin_promotion(&mut self, bridge_id: &str, available: bool, has_flows: bool) -> (generation:
        Option<u64>)
        ensures
            if old(self)@.promotable(bridge_id@, available, has_flows) {
                final(self)@ == (RuntimePath { bridge: Some(bridge_id@), ..old(self)@ })
                    && generation == Some(next_generation(old(self)@.generation))
            } else {
                final(self)@ == old(self)@ && generation is None
            },
    {
        if !available || !has_flows {
            return None;
        }
        if self.stopped || self.promotion_blocked || self.active_generation.is_some() {
            return None;
        }
        match &self.bridge_id {
            Some(current) => {
                if !same_text(current.as_str(), bridge_id) {
                    return None;
                }
            },
            None => {
                self.bridge_id = Some(bridge_id.to_owned());
            },
        }
        Some(self.generation.saturating_add(1))
    }

    /// Takes the controller's answer to a promotion.
    pub fn note_promotion(&mut self, generation: u64, done: bool)
        ensures
            final(self)@ == old(self)@.promotion_noted(generation, done),
    {
        if done {
            self.generation = generation;
            self.active_generation = Some(generation);
            self.forwarding_history.mark_promoted(MediaFlowDirection::CallerToCallee);
            self.forwarding_history.mark_promoted(MediaFlowDirection::CalleeToCaller);
        }
    }

    /// What a confirmed change of a remote end asks for first.
    pub fn begin_rebind(&self) -> (step: RebindStep)
        ensures
            step == (if self@.stopped || self@.bridge is None {
                RebindStep::Nothing
            } else {
                match self@.active {
                    Some(generation) => RebindStep::Demote(generation),
                    None => RebindStep::Promote,
                }
            }),
    {
        if self.stopped || self.bridge_id.is_none() {
            return RebindStep::Nothing;
        }
        match self.active_generation {
            Some(generation) => RebindStep::Demote(generation),
            None => RebindStep::Promote,
        }
    }

    /// Takes the controller's answer to the demotion. Says whether new rules can be
    /// installed.
    pub fn note_rebind_demotion(
        &mut self,
        direction: MediaFlowDirection,
        reply: Result<FastPathStats, FastPathError>,
    ) -> (goes_on: bool)
        ensures
            goes_on == reply is Ok,
            final(self)@ == (match reply {
                Ok(stats) => RuntimePath {
                    history: old(self)@.history.demoted(direction),
                    ..old(self)@.came_back(stats)
                },
                Err(_) => RuntimePath {
                    history: old(self)@.history.demoted(direction),
                    ..old(self)@
                },
            }),
    {
        self.forwarding_history.mark_demoted(direction);
        match reply {
            Ok(stats) => {
                self.active_generation = None;
                self.accumulated_stats = self.accumulated_stats.merge_from(stats);
                true
            },
            Err(_) => false,
        }
    }

    /// The generation that the rules for a changed bridge get, where it may have any.
    pub fn repromotion(&self, has_flows: bool) -> (generation: Option<u64>)
        ensures
            generation == self@.next_promotion(has_flows),
    {
        if self.promotion_blocked || self.bridge_id.is_none() || !has_flows {
            return None;
        }
        Some(self.generation.saturating_add(1))
    }

    /// The generation whose health is to be looked at.
    pub fn health_generation(&self) -> (generation: Option<u64>)
        ensures
            generation == (if self@.stopped {
                None
            } else {
                self@.installed()
            }),
    {
        if self.stopped {
            return None;
        }
        self.installed_generation()
    }

    /// Whether a look at the fast path says that it has to be left.
    pub fn health_verdict(reply: &Result<FastPathStats, FastPathError>) -> (reason: Option<
        FastPathFallbackReason,
    >)
        ensures
            reason == (match reply {
                Ok(stats) => if stats.worst_errors() >= FAST_PATH_REDIRECT_ERROR_THRESHOLD {
                    Some(FastPathFallbackReason::RedirectErrors)
                } else {
                    None
                },
                Err(_) => Some(FastPathFallbackReason::StatsSnapshotFailed),
            }),
    {
        match reply {
            Ok(stats) => {
                if stats.max_redirect_errors() >= FAST_PATH_REDIRECT_ERROR_THRESHOLD {
                    Some(FastPathFallbackReason::RedirectErrors)
                } else {
                    None
                }
            },
            Err(_) => Some(FastPathFallbackReason::StatsSnapshotFailed),
        }
    }

    /// Takes the controller's answer to leaving an unhealthy fast path. The bridge
    /// does not go there again; where the rules are still there, it is tried again.
    pub fn demote_and_block(&mut self, generation: u64, reply: Result<FastPathStats, FastPathError>)
        ensures
            final(self)@ == (if old(self)@.active != Some(generation) {
                old(self)@
            } else {
                match reply {
                    Ok(stats) => RuntimePath {
                        history: old(self)@.history.both_demoted(),
                        blocked: true,
                        ..old(self)@.came_back(stats)
                    },
                    Err(_) => RuntimePath {
                        history: old(self)@.history.both_demoted(),
                        blocked: true,
                        ..old(self)@
                    },
                }
            }),
    {
        let current = match self.active_generation {
            Some(active) => active == generation,
            None => false,
        };
        if !current {
            return;
        }
        match reply {
            Ok(stats) => {
                self.active_generation = None;
                self.accumulated_stats = self.accumulated_stats.merge_from(stats);
            },
            Err(_) => {},
        }
        self.mark_both_demoted();
        self.promotion_blocked = true;
    }

    /// Ends the bridge. Gives the generation whose rules have to go.
    pub fn stop(&mut self) -> (generation: Option<u64>)
        ensures
            final(self)@ == (RuntimePath { stopped: true, active: None, ..old(self)@ }),
            generation == old(self)@.installed(),
    {
        let generation = self.installed_generation();
        self.stopped = true;
        self.active_generation = None;
        generation
    }

    /// Takes what was counted until the rules went.
    pub fn note_removal(&mut self, reply: Result<FastPathStats, FastPathError>)
        ensures
            final(self)@ == (match reply {
                Ok(stats) => RuntimePath { stats: old(self)@.stats.merged(stats), ..old(self)@ },
                Err(_) => old(self)@,
            }),
    {
        match reply {
            Ok(stats) => {
                self.accumulated_stats = self.accumulated_stats.merge_from(stats);
            },
            Err(_) => {},
        }
    }
}

/// A bridge that was kept off the fast path, or stopped, does not go there.
pub proof fn lemma_blocked_bridge_is_not_promoted(
    s: RuntimePath,
    bridge: Seq<char>,
    available: bool,
    has_flows: bool,
)
    requires
        s.blocked || s.stopped,
    ensures
        !s.promotable(bridge, available, has_flows),
        s.blocked ==> s.next_promotion(has_flows) is None,
{
}

/// Rules are never installed twice under one generation: each promotion gets a later
/// one than all before.
pub proof fn lemma_generations_only_rise(s: RuntimePath, has_flows: bool)
    requires
        s.generation < u64::MAX,
        s.next_promotion(has_flows) is Some,
    ensures
        s.next_promotion(has_flows)->Some_0 > s.generation,
        s.promotion_noted(s.next_promotion(has_flows)->Some_0, true).generation > s.generation,
{
}

/// Media that went to the fast path and came back is remembered to have done both, in
/// either direction.
pub proof fn lemma_return_is_remembered(history: MediaForwardingHistory)
    ensures
        ({
            let both = FlowHistory { promoted: true, demoted: true };
            history.both_promoted().both_demoted() == (MediaForwardingHistory {
                caller_to_callee: both,
                callee_to_caller: both,
            })
        }),
{
}

} // verus!
