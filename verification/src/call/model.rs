//! What a call is made of: its state, where it may be sent, and the settings it
//! was begun with.

use crate::text::{decimal, decimal_text, join2, join3};
use vstd::prelude::*;

verus! {

#[derive(Debug, Clone, Copy, PartialEq, Eq, Structural)]
pub enum CallState {
    Establishing,
    Answering,
    Connected,
    Terminating,
    Completed,
}

#[derive(Debug, Clone, Copy, PartialEq, Eq, Structural)]
pub enum HangupCause {
    NormalClearing,
    OriginatorCancel,
    CallRejected,
    UserBusy,
    NoUserResponse,
    RecoveryOnTimerExpire,
    TemporaryFailure,
    NetworkFailure,
    NoRoute,
    IncompatibleDestination,
    SystemShutdown,
    InternalError,
}

#[derive(Debug, Clone, Copy, PartialEq, Eq, Structural)]
pub enum LegState {
    Dialing,
    WaitForAnswer,
    Bridged,
    Destroyed,
}

impl LegState {
    pub fn is_terminal(self) -> (terminal: bool)
        ensures
            terminal == (self == LegState::Destroyed),
    {
        self == LegState::Destroyed
    }
}

/// A session description with its media type.
#[derive(Debug, Clone)]
pub struct SdpBody {
    pub content_type: String,
    pub text: String,
}

/// A transport address, the host as text.
#[derive(Debug, Clone)]
pub struct TransportAddress {
    pub host: String,
    pub port: u16,
}

/// The sessions of a call: the caller's, and one for each attempt to reach the
/// callee.
#[derive(Debug, Clone, Copy, PartialEq, Eq, Structural)]
pub enum SessionRef {
    Caller,
    CalleeAttempt(u16),
}

/// How a session is named.
pub open spec fn session_name(call_id: Seq<char>, session: SessionRef) -> Seq<char> {
    match session {
        SessionRef::Caller => "session-"@ + call_id + "-caller"@,
        SessionRef::CalleeAttempt(attempt) => "session-"@ + call_id + "-callee-attempt-"@ + decimal(
            attempt as nat,
        ),
    }
}

pub fn session_id(call_id: &str, session: SessionRef) -> (name: String)
    ensures
        name@ == session_name(call_id@, session),
{
    match session {
        SessionRef::Caller => join3("session-", call_id, "-caller"),
        SessionRef::CalleeAttempt(attempt) => {
            let front = join3("session-", call_id, "-callee-attempt-");
            join2(front.as_str(), decimal_text(attempt as u64).as_str())
        },
    }
}

/// The sessions of a call have different names.
pub proof fn lemma_sessions_named_apart(call_id: Seq<char>, a: SessionRef, b: SessionRef)
    requires
        session_name(call_id, a) == session_name(call_id, b),
    ensures
        a == b,
{
    reveal_strlit("session-");
    reveal_strlit("-caller");
    reveal_strlit("-callee-attempt-");
    let n = "session-"@.len() + call_id.len();
    let left = session_name(call_id, a);
    let right = session_name(call_id, b);
    assert(left[n as int + 6] == right[n as int + 6]);
    if a is CalleeAttempt && b is CalleeAttempt {
        let m = n + "-callee-attempt-"@.len();
        assert(left.skip(m as int) =~= decimal(a->CalleeAttempt_0 as nat));
        assert(right.skip(m as int) =~= decimal(b->CalleeAttempt_0 as nat));
        crate::text::lemma_decimal_injective(a->CalleeAttempt_0 as nat, b->CalleeAttempt_0 as nat);
    }
}

/// Where a call may be sent.
#[derive(Debug, Clone)]
pub enum OutboundTarget {
    Endpoint { endpoint_id: String, endpoint_number: String },
    Trunk { trunk_ref: String },
}

impl OutboundTarget {
    /// A name of the target that does not change.
    pub open spec fn stable_name(self) -> Seq<char> {
        match self {
            OutboundTarget::Endpoint { endpoint_id, .. } => "endpoint:"@ + endpoint_id@,
            OutboundTarget::Trunk { trunk_ref } => trunk_ref@,
        }
    }

    pub fn stable_ref(&self) -> (name: String)
        ensures
            name@ == self.stable_name(),
    {
        match self {
            OutboundTarget::Endpoint { endpoint_id, .. } => join2("endpoint:", endpoint_id.as_str()),
            OutboundTarget::Trunk { trunk_ref } => trunk_ref.clone(),
        }
    }

    pub fn copy(&self) -> (target: OutboundTarget)
        ensures
            target == *self,
    {
        match self {
            OutboundTarget::Endpoint { endpoint_id, endpoint_number } => OutboundTarget::Endpoint {
                endpoint_id: endpoint_id.clone(),
                endpoint_number: endpoint_number.clone(),
            },
            OutboundTarget::Trunk { trunk_ref } => OutboundTarget::Trunk {
                trunk_ref: trunk_ref.clone(),
            },
        }
    }
}

/// The AI policy that applies to a call.
#[derive(Debug, Clone)]
pub struct AiPolicyDecisionSnapshot {
    pub policy_id: u64,
    pub profile_id: String,
}

/// One way to reach the callee.
#[derive(Debug, Clone)]
pub struct OutboundCandidate {
    pub outbound_target: OutboundTarget,
    pub callee_route_target: Option<TransportAddress>,
    pub outbound_trunk_ref: Option<String>,
    pub outbound_trunk_name: Option<String>,
    pub recording_requested: bool,
    pub recording_policy_ids: Vec<u64>,
    pub ai_policy: Option<AiPolicyDecisionSnapshot>,
}

/// The ways to reach the callee, and the numbers to signal.
pub struct ResolvedRoute {
    pub signaling_caller_number: String,
    pub signaling_callee_number: String,
    pub candidates: Vec<OutboundCandidate>,
    pub outbound_route_id: Option<String>,
    pub outbound_route_name: Option<String>,
}

} // verus!
