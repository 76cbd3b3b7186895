//! The analysis of a call after its end: whether the call is captured for it, and the
//! job that the analysis service is given.

use crate::call::config_snapshot::CallRuntime;
use crate::text::join2;
use vstd::prelude::*;

verus! {

#[derive(Debug, Clone, Copy, PartialEq, Eq, Structural)]
pub enum AudioCodec {
    Pcmu,
    Pcma,
}

pub const AI_SAMPLE_RATE: u32 = 8_000;

pub const AI_CHANNELS: u8 = 1;

/// The codec of a payload type, where the service can decode it.
pub open spec fn codec_of(payload_type: u8) -> Option<AudioCodec> {
    if payload_type == 0 {
        Some(AudioCodec::Pcmu)
    } else if payload_type == 8 {
        Some(AudioCodec::Pcma)
    } else {
        None
    }
}

/// The first payload type that the service can decode, from `i` on.
pub open spec fn first_codec(payload_types: Seq<u8>, i: nat) -> Option<(u8, AudioCodec)>
    decreases payload_types.len() - i,
{
    if i >= payload_types.len() {
        None
    } else {
        match codec_of(payload_types[i as int]) {
            Some(codec) => Some((payload_types[i as int], codec)),
            None => first_codec(payload_types, i + 1),
        }
    }
}

pub fn capture_codec(payload_types: &[u8]) -> (codec: Option<(u8, AudioCodec)>)
    ensures
        codec == first_codec(payload_types@, 0),
{
    let mut i: usize = 0;
    while i < payload_types.len()
        invariant
            i <= payload_types.len(),
            first_codec(payload_types@, 0) == first_codec(payload_types@, i as nat),
        decreases payload_types.len() - i,
    {
        let payload_type: u8 = payload_types[i];
        if payload_type == 0 {
            return Some((payload_type, AudioCodec::Pcmu));
        }
        if payload_type == 8 {
            return Some((payload_type, AudioCodec::Pcma));
        }
        i = i + 1;
    }
    None
}

/// What becomes of the capture of a call.
#[derive(Debug, Clone, Copy, PartialEq, Eq, Structural)]
pub enum CapturePlan {
    /// No policy asks for it.
    NotWanted,
    ServiceUnavailable,
    ProfileNotExecutable,
    CodecUnsupported,
    /// A job is to be submitted.
    Submit { payload_type: u8, codec: AudioCodec },
}

/// Whether a call that was answered is captured. The call is captured once the service
/// has taken the job.
pub fn plan_capture(
    wanted: bool,
    service_available: bool,
    profile_executable: bool,
    payload_types: &[u8],
) -> (plan: CapturePlan)
    ensures
        plan == (if !wanted {
            CapturePlan::NotWanted
        } else if !service_available {
            CapturePlan::ServiceUnavailable
        } else if !profile_executable {
            CapturePlan::ProfileNotExecutable
        } else {
            match first_codec(payload_types@, 0) {
                Some((payload_type, codec)) => CapturePlan::Submit { payload_type, codec },
                None => CapturePlan::CodecUnsupported,
            }
        }),
{
    if !wanted {
        return CapturePlan::NotWanted;
    }
    if !service_available {
        return CapturePlan::ServiceUnavailable;
    }
    if !profile_executable {
        return CapturePlan::ProfileNotExecutable;
    }
    match capture_codec(payload_types) {
        Some((payload_type, codec)) => CapturePlan::Submit { payload_type, codec },
        None => CapturePlan::CodecUnsupported,
    }
}

#[derive(Debug, Clone)]
pub struct JobRef {
    pub job_id: String,
    pub tenant_id: String,
    pub conversation_id: String,
    pub operation_id: String,
    pub generation: u64,
}

#[derive(Debug, Clone)]
pub struct Participant {
    pub participant_id: String,
    pub role: String,
    pub display_number: Option<String>,
}

/// A stream of what a participant says.
#[derive(Debug, Clone)]
pub struct StreamBinding {
    pub stream_id: String,
    pub participant_id: String,
    pub codec: AudioCodec,
    pub sample_rate: u32,
    pub channels: u8,
}

#[derive(Debug, Clone)]
pub struct SubmitPostCallJob {
    pub job: JobRef,
    pub profile_id: String,
    pub participants: Vec<Participant>,
    pub streams: Vec<StreamBinding>,
}

#[derive(Debug, Clone)]
pub struct AiTapStreamSpec {
    pub participant_id: String,
    pub stream_id: String,
    pub payload_type: u8,
    pub codec: AudioCodec,
    pub sample_rate: u32,
    pub channels: u8,
}

/// What is to be taken from the media of a call for a job.
#[derive(Debug, Clone)]
pub struct AiMediaTapSpec {
    pub job: JobRef,
    pub caller: AiTapStreamSpec,
    pub callee: AiTapStreamSpec,
}

impl JobRef {
    /// Whether a job is the one of a call.
    pub open spec fn is_of(self, call: CallRuntime) -> bool {
        &&& self.job_id@ == "ai-"@ + call.call_id@
        &&& self.tenant_id == call.config_snapshot.domain_id
        &&& self.conversation_id == call.call_id
        &&& self.operation_id@ == "post-call-v1"@
        &&& self.generation == 1
    }

    fn for_call(call: &CallRuntime) -> (job: Self)
        ensures
            job.is_of(*call),
    {
        JobRef {
            job_id: join2("ai-", call.call_id.as_str()),
            tenant_id: call.config_snapshot.domain_id.clone(),
            conversation_id: call.call_id.clone(),
            operation_id: "post-call-v1".to_owned(),
            generation: 1,
        }
    }
}

impl Participant {
    pub open spec fn is(self, role: Seq<char>, number: String) -> bool {
        self.participant_id@ == role && self.role@ == role && self.display_number == Some(number)
    }

    fn named(role: &str, number: &String) -> (participant: Self)
        ensures
            participant.is(role@, *number),
    {
        Participant {
            participant_id: role.to_owned(),
            role: role.to_owned(),
            display_number: Some(number.clone()),
        }
    }
}

impl StreamBinding {
    pub open spec fn carries(self, stream: Seq<char>, participant: Seq<char>, codec: AudioCodec) -> bool {
        self.stream_id@ == stream && self.participant_id@ == participant && self.codec == codec
            && self.sample_rate == AI_SAMPLE_RATE && self.channels == AI_CHANNELS
    }

    fn from_participant(stream: &str, participant: &str, codec: AudioCodec) -> (binding: Self)
        ensures
            binding.carries(stream@, participant@, codec),
    {
        StreamBinding {
            stream_id: stream.to_owned(),
            participant_id: participant.to_owned(),
            codec,
            sample_rate: AI_SAMPLE_RATE,
            channels: AI_CHANNELS,
        }
    }
}

impl AiTapStreamSpec {
    pub open spec fn taps(
        self,
        stream: Seq<char>,
        participant: Seq<char>,
        payload_type: u8,
        codec: AudioCodec,
    ) -> bool {
        self.stream_id@ == stream && self.participant_id@ == participant && self.payload_type
            == payload_type && self.codec == codec && self.sample_rate == AI_SAMPLE_RATE
            && self.channels == AI_CHANNELS
    }

    fn from_participant(stream: &str, participant: &str, payload_type: u8, codec: AudioCodec) -> (spec:
        Self)
        ensures
            spec.taps(stream@, participant@, payload_type, codec),
    {
        AiTapStreamSpec {
            participant_id: participant.to_owned(),
            stream_id: stream.to_owned(),
            payload_type,
            codec,
            sample_rate: AI_SAMPLE_RATE,
            channels: AI_CHANNELS,
        }
    }
}

/// The job for a call, and what its media has to deliver for it: one stream of each
/// side, under the same names.
pub fn build_ai_submission(
    call: &CallRuntime,
    profile_id: String,
    payload_type: u8,
    codec: AudioCodec,
) -> (submission: (SubmitPostCallJob, AiMediaTapSpec))
    ensures
        submission.0.job.is_of(*call),
        submission.0.profile_id == profile_id,
        submission.0.participants@.len() == 2,
        submission.0.participants@[0].is(
            "caller"@,
            call.config_snapshot.numbers.original_caller,
        ),
        submission.0.participants@[1].is(
            "callee"@,
            call.config_snapshot.numbers.original_callee,
        ),
        submission.0.streams@.len() == 2,
        submission.0.streams@[0].carries("caller-audio"@, "caller"@, codec),
        submission.0.streams@[1].carries("callee-audio"@, "callee"@, codec),
        submission.1.job.is_of(*call),
        submission.1.caller.taps("caller-audio"@, "caller"@, payload_type, codec),
        submission.1.callee.taps("callee-audio"@, "callee"@, payload_type, codec),
{
    let mut participants: Vec<Participant> = Vec::new();
    participants.push(
        Participant::named("caller", &call.config_snapshot.numbers.original_caller),
    );
    participants.push(
        Participant::named("callee", &call.config_snapshot.numbers.original_callee),
    );
    let mut streams: Vec<StreamBinding> = Vec::new();
    streams.push(StreamBinding::from_participant("caller-audio", "caller", codec));
    streams.push(StreamBinding::from_participant("callee-audio", "callee", codec));
    (
        SubmitPostCallJob { job: JobRef::for_call(call), profile_id, participants, streams },
        AiMediaTapSpec {
            job: JobRef::for_call(call),
            caller: AiTapStreamSpec::from_participant("caller-audio", "caller", payload_type, codec),
            callee: AiTapStreamSpec::from_participant("callee-audio", "callee", payload_type, codec),
        },
    )
}

} // verus!
