//! The limits that the switch works within: how much waits where, how long things may
//! take, and what is written into a format.

use crate::adapter::{
    ADVERTISED_WRITE_TIMEOUT_MS, CALL_ADMISSION_CAPACITY, HEARTBEAT_INTERVAL_MS, PROTOCOL_VERSION,
    RUNTIME_INBOUND_QUEUE_CAPACITY,
};
use crate::adapter_writer::{ADAPTER_ACTION_QUEUE_CAPACITY, ADAPTER_WRITE_TIMEOUT_MS};
use crate::call::ai::{AI_CHANNELS, AI_SAMPLE_RATE};
use crate::call::cdr_spool::{
    FRAME_HEADER_SIZE, MAX_FRAME_SIZE, SEGMENT_SIZE_LIMIT, SPOOL_SCHEMA_VERSION,
};
use crate::call::cdr_writer::{
    BASE_RETRY_DELAY_MS, CDR_WRITER_QUEUE_CAPACITY, MAX_RETRY_ATTEMPTS, MAX_RETRY_DELAY_MS, MIB,
};
use crate::call::coordinator::{ATTEMPT_REGISTRATION_CAPACITY, MEDIA_ACTION_QUEUE_CAPACITY};
use crate::call::dtmf::{DTMF_COLLECTOR_CAPACITY, SOURCE_EVENT_DEDUP_CAPACITY};
use crate::call::dtmf_operation::{
    DTMF_OPERATION_HISTORY_CAPACITY, DTMF_OPERATION_QUEUE_CAPACITY,
};
use crate::call::handoff::{HANDOFF_READY_CAPACITY, HANDOFF_REQUEST_CAPACITY};
use crate::call::registry::LEG_CAPACITY;
use crate::call::session::{
    CONTROL_MAILBOX_CAPACITY, COORDINATOR_CONTROL_MAILBOX_CAPACITY,
    COORDINATOR_EVENT_MAILBOX_CAPACITY, CRITICAL_DISPATCHER_CAPACITY, EVENT_MAILBOX_CAPACITY,
};
use crate::call::timer::{
    DEFAULT_CALL_ROUTE_BUDGET_MS, DEFAULT_CLEANUP_TIMEOUT_MS, DEFAULT_DIAL_TIMEOUT_MS,
    DEFAULT_MIN_ATTEMPT_WINDOW_MS, DEFAULT_RING_TIMEOUT_MS, DEFAULT_ROUTE_TIMEOUT_MS,
    NANOS_PER_MILLI,
};
use crate::dtmf::{
    IDLE_TIMEOUT, MAX_PRESS_DURATION, MAX_PRESS_DURATION_MS, RECENT_TTL, STATE_CAPACITY,
};
use crate::fast_path_runtime::FAST_PATH_REDIRECT_ERROR_THRESHOLD;
use crate::fastpath::IPPROTO_UDP;
use crate::media::{
    DTMF_COLLECT_RELEASE_DRAIN_MS, DTMF_OBSERVATION_QUEUE_CAPACITY, FAST_PATH_HEALTH_INTERVAL_MS,
};
use crate::recording::{
    BITS_PER_SAMPLE, CHANNELS, MAX_TIMESTAMP_GAP_SAMPLES, NANOS_PER_MS, RECORDING_QUEUE_CAPACITY,
    SAMPLE_RATE,
};
use crate::rtp::RTP_HEADER_LEN;
use crate::runtime_view::{HASH_OFFSET, HASH_PRIME};
use vstd::prelude::*;

verus! {

/// How much may wait in each queue, and how much is remembered.
pub proof fn lemma_queues_are_bounded()
    ensures
        CALL_ADMISSION_CAPACITY == 256,
        RUNTIME_INBOUND_QUEUE_CAPACITY == 50_000,
        ADAPTER_ACTION_QUEUE_CAPACITY == 50_000,
        CRITICAL_DISPATCHER_CAPACITY == 50_000,
        CONTROL_MAILBOX_CAPACITY == 64,
        EVENT_MAILBOX_CAPACITY == 128,
        COORDINATOR_CONTROL_MAILBOX_CAPACITY == 128,
        COORDINATOR_EVENT_MAILBOX_CAPACITY == 128,
        MEDIA_ACTION_QUEUE_CAPACITY == 16,
        ATTEMPT_REGISTRATION_CAPACITY == 1024,
        HANDOFF_REQUEST_CAPACITY == 32,
        HANDOFF_READY_CAPACITY == 32,
        LEG_CAPACITY == 16_384,
        CDR_WRITER_QUEUE_CAPACITY == 512,
        RECORDING_QUEUE_CAPACITY == 2048,
        DTMF_OBSERVATION_QUEUE_CAPACITY == 32,
        DTMF_OPERATION_QUEUE_CAPACITY == 32,
        DTMF_OPERATION_HISTORY_CAPACITY == 128,
        DTMF_COLLECTOR_CAPACITY == 16,
        SOURCE_EVENT_DEDUP_CAPACITY == 128,
        STATE_CAPACITY == 32,
{
}

/// How long things may take, and how often they are looked at.
pub proof fn lemma_times_are_bounded()
    ensures
        HEARTBEAT_INTERVAL_MS == 5_000,
        ADVERTISED_WRITE_TIMEOUT_MS == 100,
        ADAPTER_WRITE_TIMEOUT_MS == 5_000,
        DEFAULT_ROUTE_TIMEOUT_MS == 3_000,
        DEFAULT_DIAL_TIMEOUT_MS == 5_000,
        DEFAULT_RING_TIMEOUT_MS == 60_000,
        DEFAULT_CLEANUP_TIMEOUT_MS == 5_000,
        DEFAULT_CALL_ROUTE_BUDGET_MS == 180_000,
        DEFAULT_MIN_ATTEMPT_WINDOW_MS == 1_000,
        FAST_PATH_HEALTH_INTERVAL_MS == 500,
        DTMF_COLLECT_RELEASE_DRAIN_MS == 250,
        BASE_RETRY_DELAY_MS == 200,
        MAX_RETRY_DELAY_MS == 10_000,
        MAX_RETRY_ATTEMPTS == 5,
        NANOS_PER_MILLI == 1_000_000,
        NANOS_PER_MS == 1_000_000,
        RECENT_TTL == 2_000 * NANOS_PER_MS,
        IDLE_TIMEOUT == 250 * NANOS_PER_MS,
        MAX_PRESS_DURATION == MAX_PRESS_DURATION_MS * NANOS_PER_MS,
        MAX_PRESS_DURATION_MS == 10_000,
        FAST_PATH_REDIRECT_ERROR_THRESHOLD == 3,
{
}

/// What is written into a format, or read from one.
pub proof fn lemma_formats_are_fixed()
    ensures
        PROTOCOL_VERSION == 1,
        IPPROTO_UDP == 17,
        RTP_HEADER_LEN == 12,
        SAMPLE_RATE == 8_000,
        CHANNELS == 2,
        BITS_PER_SAMPLE == 16,
        MAX_TIMESTAMP_GAP_SAMPLES == 5 * SAMPLE_RATE,
        AI_SAMPLE_RATE == 8_000,
        AI_CHANNELS == 1,
        SPOOL_SCHEMA_VERSION == 1,
        SEGMENT_SIZE_LIMIT == 16 * MIB,
        MAX_FRAME_SIZE == 64 * MIB,
        FRAME_HEADER_SIZE == 8,
        MIB == 1024 * 1024,
        HASH_OFFSET == 0xcbf29ce484222325,
        HASH_PRIME == 0x100000001b3,
{
}

} // verus!
