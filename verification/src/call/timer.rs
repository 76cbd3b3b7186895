//! The time limits of calls, and how they are set.

use crate::call::coordinator::CallTimeouts;
use crate::text::{chars_of, opt_text, parse_u64, parsed_u64};
use vstd::prelude::*;

verus! {

pub const DEFAULT_ROUTE_TIMEOUT_MS: u64 = 3_000;

pub const DEFAULT_DIAL_TIMEOUT_MS: u64 = 5_000;

pub const DEFAULT_RING_TIMEOUT_MS: u64 = 60_000;

pub const DEFAULT_CLEANUP_TIMEOUT_MS: u64 = 5_000;

pub const DEFAULT_CALL_ROUTE_BUDGET_MS: u64 = 180_000;

pub const DEFAULT_MIN_ATTEMPT_WINDOW_MS: u64 = 1_000;

pub const NANOS_PER_MILLI: u64 = 1_000_000;

/// Milliseconds in nanoseconds. What is too long to be counted lasts as long as can
/// be counted, which is more than five centuries.
pub open spec fn nanos(milliseconds: u64) -> u64 {
    if milliseconds * NANOS_PER_MILLI <= u64::MAX {
        (milliseconds * NANOS_PER_MILLI) as u64
    } else {
        u64::MAX
    }
}

pub fn nanos_from_millis(milliseconds: u64) -> (nanoseconds: u64)
    ensures
        nanoseconds == nanos(milliseconds),
{
    if milliseconds <= u64::MAX / NANOS_PER_MILLI {
        milliseconds * NANOS_PER_MILLI
    } else {
        u64::MAX
    }
}

/// The milliseconds that a setting asks for. A setting that is no positive number
/// counts as none.
pub open spec fn chosen_ms(setting: Option<Seq<char>>, default_ms: u64) -> u64 {
    match setting {
        Some(text) => match parsed_u64(text) {
            Some(milliseconds) => if milliseconds > 0 {
                milliseconds
            } else {
                default_ms
            },
            None => default_ms,
        },
        None => default_ms,
    }
}

/// A time limit, in nanoseconds.
pub fn timeout_from_setting(setting: &Option<String>, default_ms: u64) -> (timeout: u64)
    ensures
        timeout == nanos(chosen_ms(opt_text(*setting), default_ms)),
{
    match setting {
        Some(text) => {
            let chars = chars_of(text.as_str());
            match parse_u64(&chars) {
                Some(milliseconds) => if milliseconds > 0 {
                    nanos_from_millis(milliseconds)
                } else {
                    nanos_from_millis(default_ms)
                },
                None => nanos_from_millis(default_ms),
            }
        },
        None => nanos_from_millis(default_ms),
    }
}

/// What is set of the time limits, each in milliseconds.
#[derive(Debug, Clone)]
pub struct TimeoutSettings {
    pub route: Option<String>,
    pub dial: Option<String>,
    pub ring: Option<String>,
    pub cleanup: Option<String>,
    pub route_budget: Option<String>,
    pub min_attempt_window: Option<String>,
}

impl CallTimeouts {
    pub fn from_settings(settings: &TimeoutSettings) -> (timeouts: Self)
        ensures
            timeouts == (CallTimeouts {
                route: nanos(chosen_ms(opt_text(settings.route), DEFAULT_ROUTE_TIMEOUT_MS)),
                dial: nanos(chosen_ms(opt_text(settings.dial), DEFAULT_DIAL_TIMEOUT_MS)),
                ring: nanos(chosen_ms(opt_text(settings.ring), DEFAULT_RING_TIMEOUT_MS)),
                cleanup: nanos(chosen_ms(opt_text(settings.cleanup), DEFAULT_CLEANUP_TIMEOUT_MS)),
                route_budget: nanos(
                    chosen_ms(opt_text(settings.route_budget), DEFAULT_CALL_ROUTE_BUDGET_MS),
                ),
                min_attempt_window: nanos(
                    chosen_ms(opt_text(settings.min_attempt_window), DEFAULT_MIN_ATTEMPT_WINDOW_MS),
                ),
            }),
    {
        CallTimeouts {
            route: timeout_from_setting(&settings.route, DEFAULT_ROUTE_TIMEOUT_MS),
            dial: timeout_from_setting(&settings.dial, DEFAULT_DIAL_TIMEOUT_MS),
            ring: timeout_from_setting(&settings.ring, DEFAULT_RING_TIMEOUT_MS),
            cleanup: timeout_from_setting(&settings.cleanup, DEFAULT_CLEANUP_TIMEOUT_MS),
            route_budget: timeout_from_setting(&settings.route_budget, DEFAULT_CALL_ROUTE_BUDGET_MS),
            min_attempt_window: timeout_from_setting(
                &settings.min_attempt_window,
                DEFAULT_MIN_ATTEMPT_WINDOW_MS,
            ),
        }
    }
}

/// However a limit is set, it is never zero.
pub proof fn lemma_timeouts_are_positive(setting: Option<Seq<char>>, default_ms: u64)
    requires
        default_ms > 0,
    ensures
        nanos(chosen_ms(setting, default_ms)) > 0,
{
}

} // verus!
