//! Collections of digits that were asked for from outside: each is an operation
//! with a status, and the last of them are remembered.

use crate::call::dtmf::{
    DigitCollectionMode, DigitCollectionOutcome, DigitCollectionResultCode, DigitSet, Outcome,
};
use crate::call::runtime_queue::{BindingState, QueueError, QueueState, RuntimeQueue};
use crate::dtmf::DtmfDigit;
use crate::keyed::KeyedMap;
use crate::text::{chars_of, copy_opt, decimal, decimal_text, join4, opt_text};
use std::collections::VecDeque;
use vstd::prelude::*;

verus! {

pub const DTMF_OPERATION_QUEUE_CAPACITY: usize = 32;

pub const DTMF_OPERATION_HISTORY_CAPACITY: usize = 128;

#[derive(Debug, Clone, Copy, PartialEq, Eq, Structural)]
pub enum DtmfOperationSource {
    Caller,
    Callee,
}

#[derive(Debug, Clone, Copy, PartialEq, Eq, Structural)]
pub enum DtmfOperationMode {
    Observe,
    Collect,
}

impl DtmfOperationMode {
    pub open spec fn as_collection(self) -> DigitCollectionMode {
        match self {
            DtmfOperationMode::Observe => DigitCollectionMode::Observe,
            DtmfOperationMode::Collect => DigitCollectionMode::Collect,
        }
    }

    pub fn collection_mode(self) -> (mode: DigitCollectionMode)
        ensures
            mode == self.as_collection(),
    {
        match self {
            DtmfOperationMode::Observe => DigitCollectionMode::Observe,
            DtmfOperationMode::Collect => DigitCollectionMode::Collect,
        }
    }
}

/// What is to be collected. Times are in nanoseconds.
#[derive(Debug, Clone)]
pub struct DtmfOperationSpec {
    pub call_id: String,
    pub source: DtmfOperationSource,
    pub mode: DtmfOperationMode,
    pub allowed: DigitSet,
    pub min_digits: usize,
    pub max_digits: usize,
    pub terminators: DigitSet,
    pub first_digit_timeout: u64,
    pub inter_digit_timeout: u64,
    pub overall_timeout: u64,
}

#[derive(Debug)]
pub enum DtmfRuntimeOperation {
    Start { operation_id: String, spec: DtmfOperationSpec },
    Cancel { operation_id: String, call_id: String },
}

pub enum OperationRequest {
    Start { operation_id: Seq<char>, spec: DtmfOperationSpec },
    Cancel { operation_id: Seq<char>, call_id: Seq<char> },
}

impl DtmfRuntimeOperation {
    pub open spec fn view(&self) -> OperationRequest {
        match *self {
            DtmfRuntimeOperation::Start { operation_id, spec } => OperationRequest::Start {
                operation_id: operation_id@,
                spec,
            },
            DtmfRuntimeOperation::Cancel { operation_id, call_id } => OperationRequest::Cancel {
                operation_id: operation_id@,
                call_id: call_id@,
            },
        }
    }
}

#[derive(Debug, Clone, Copy, PartialEq, Eq, Structural)]
pub enum DtmfOperationStatus {
    Pending,
    Acquiring,
    Ready,
    Completed,
    Cancelling,
    Cancelled,
    Failed,
}

impl DtmfOperationStatus {
    pub open spec fn terminal(self) -> bool {
        self is Completed || self is Cancelled || self is Failed
    }

    pub fn is_terminal(self) -> (terminal: bool)
        ensures
            terminal == self.terminal(),
    {
        match self {
            DtmfOperationStatus::Completed
            | DtmfOperationStatus::Cancelled
            | DtmfOperationStatus::Failed => true,
            _ => false,
        }
    }
}

/// What is known of an operation.
#[derive(Debug)]
pub struct DtmfOperationView {
    pub operation_id: String,
    pub call_id: String,
    pub source: DtmfOperationSource,
    pub mode: DtmfOperationMode,
    pub status: DtmfOperationStatus,
    pub media_generation: Option<u64>,
    pub result_code: Option<String>,
    pub digits: Option<String>,
    pub digit_count: usize,
    pub reason: Option<String>,
    pub created_at_ms: u64,
    pub updated_at_ms: u64,
}

#[verifier::ext_equal]
pub struct Operation {
    pub operation_id: Seq<char>,
    pub call_id: Seq<char>,
    pub source: DtmfOperationSource,
    pub mode: DtmfOperationMode,
    pub status: DtmfOperationStatus,
    pub media_generation: Option<u64>,
    pub result_code: Option<Seq<char>>,
    pub digits: Option<Seq<char>>,
    pub digit_count: nat,
    pub reason: Option<Seq<char>>,
    pub created_at_ms: u64,
    pub updated_at_ms: u64,
}

impl DtmfOperationView {
    pub open spec fn view(&self) -> Operation {
        Operation {
            operation_id: self.operation_id@,
            call_id: self.call_id@,
            source: self.source,
            mode: self.mode,
            status: self.status,
            media_generation: self.media_generation,
            result_code: opt_text(self.result_code),
            digits: opt_text(self.digits),
            digit_count: self.digit_count as nat,
            reason: opt_text(self.reason),
            created_at_ms: self.created_at_ms,
            updated_at_ms: self.updated_at_ms,
        }
    }

    pub fn copy(&self) -> (copy: Self)
        ensures
            copy == *self,
    {
        DtmfOperationView {
            operation_id: self.operation_id.clone(),
            call_id: self.call_id.clone(),
            source: self.source,
            mode: self.mode,
            status: self.status,
            media_generation: self.media_generation,
            result_code: copy_opt(&self.result_code),
            digits: copy_opt(&self.digits),
            digit_count: self.digit_count,
            reason: copy_opt(&self.reason),
            created_at_ms: self.created_at_ms,
            updated_at_ms: self.updated_at_ms,
        }
    }
}

/// Why a request was refused.
#[derive(Debug, Clone, Copy, PartialEq, Eq, Structural)]
pub enum DtmfOperationError {
    Unconnected,
    QueueFull,
    QueueClosed,
    NotFound,
    AlreadyComplete,
    UnsupportedDigit,
}

impl DtmfOperationError {
    pub open spec fn code(self) -> Seq<char> {
        match self {
            DtmfOperationError::Unconnected =>
                "ADAPTER_UNAVAILABLE: adapter runtime is not connected"@,
            DtmfOperationError::QueueFull => "RESOURCE_EXHAUSTED: DTMF operation queue is full"@,
            DtmfOperationError::QueueClosed =>
                "ADAPTER_UNAVAILABLE: adapter runtime operation queue is closed"@,
            DtmfOperationError::NotFound => "RESOURCE_NOT_FOUND: DTMF operation not found"@,
            DtmfOperationError::AlreadyComplete =>
                "FAILED_PRECONDITION: DTMF operation is already complete"@,
            DtmfOperationError::UnsupportedDigit => "INVALID_ARGUMENT: unsupported DTMF digit"@,
        }
    }

    pub fn text(self) -> (text: String)
        ensures
            text@ == self.code(),
    {
        match self {
            DtmfOperationError::Unconnected =>
                "ADAPTER_UNAVAILABLE: adapter runtime is not connected".to_owned(),
            DtmfOperationError::QueueFull =>
                "RESOURCE_EXHAUSTED: DTMF operation queue is full".to_owned(),
            DtmfOperationError::QueueClosed =>
                "ADAPTER_UNAVAILABLE: adapter runtime operation queue is closed".to_owned(),
            DtmfOperationError::NotFound =>
                "RESOURCE_NOT_FOUND: DTMF operation not found".to_owned(),
            DtmfOperationError::AlreadyComplete =>
                "FAILED_PRECONDITION: DTMF operation is already complete".to_owned(),
            DtmfOperationError::UnsupportedDigit =>
                "INVALID_ARGUMENT: unsupported DTMF digit".to_owned(),
        }
    }
}

pub open spec fn refusal(error: QueueError) -> DtmfOperationError {
    match error {
        QueueError::Unconnected => DtmfOperationError::Unconnected,
        QueueError::Full => DtmfOperationError::QueueFull,
        QueueError::Closed => DtmfOperationError::QueueClosed,
    }
}

fn refused(error: QueueError) -> (refused: DtmfOperationError)
    ensures
        refused == refusal(error),
{
    match error {
        QueueError::Unconnected => DtmfOperationError::Unconnected,
        QueueError::Full => DtmfOperationError::QueueFull,
        QueueError::Closed => DtmfOperationError::QueueClosed,
    }
}

/// A step in the life of an operation.
pub enum OperationChange {
    Acquiring,
    Ready { media_generation: u64 },
    Ended { outcome: Outcome },
    Failed { reason: Seq<char> },
}

pub open spec fn ended_status(code: DigitCollectionResultCode) -> DtmfOperationStatus {
    match code {
        DigitCollectionResultCode::Cancelled => DtmfOperationStatus::Cancelled,
        DigitCollectionResultCode::Failed => DtmfOperationStatus::Failed,
        _ => DtmfOperationStatus::Completed,
    }
}

pub open spec fn result_name(code: DigitCollectionResultCode) -> Seq<char> {
    match code {
        DigitCollectionResultCode::Completed => "completed"@,
        DigitCollectionResultCode::FirstDigitTimeout => "first_digit_timeout"@,
        DigitCollectionResultCode::InterDigitTimeout => "inter_digit_timeout"@,
        DigitCollectionResultCode::OverallTimeout => "overall_timeout"@,
        DigitCollectionResultCode::Cancelled => "cancelled"@,
        DigitCollectionResultCode::Failed => "failed"@,
    }
}

pub fn result_code(code: DigitCollectionResultCode) -> (name: String)
    ensures
        name@ == result_name(code),
{
    match code {
        DigitCollectionResultCode::Completed => "completed".to_owned(),
        DigitCollectionResultCode::FirstDigitTimeout => "first_digit_timeout".to_owned(),
        DigitCollectionResultCode::InterDigitTimeout => "inter_digit_timeout".to_owned(),
        DigitCollectionResultCode::OverallTimeout => "overall_timeout".to_owned(),
        DigitCollectionResultCode::Cancelled => "cancelled".to_owned(),
        DigitCollectionResultCode::Failed => "failed".to_owned(),
    }
}

pub open spec fn letter(digit: DtmfDigit) -> char {
    match digit {
        DtmfDigit::D0 => '0',
        DtmfDigit::D1 => '1',
        DtmfDigit::D2 => '2',
        DtmfDigit::D3 => '3',
        DtmfDigit::D4 => '4',
        DtmfDigit::D5 => '5',
        DtmfDigit::D6 => '6',
        DtmfDigit::D7 => '7',
        DtmfDigit::D8 => '8',
        DtmfDigit::D9 => '9',
        DtmfDigit::Star => '*',
        DtmfDigit::Pound => '#',
        DtmfDigit::A => 'A',
        DtmfDigit::B => 'B',
        DtmfDigit::C => 'C',
        DtmfDigit::D => 'D',
        DtmfDigit::Flash => 'F',
    }
}

pub fn digit_char(digit: DtmfDigit) -> (c: char)
    ensures
        c == letter(digit),
{
    match digit {
        DtmfDigit::D0 => '0',
        DtmfDigit::D1 => '1',
        DtmfDigit::D2 => '2',
        DtmfDigit::D3 => '3',
        DtmfDigit::D4 => '4',
        DtmfDigit::D5 => '5',
        DtmfDigit::D6 => '6',
        DtmfDigit::D7 => '7',
        DtmfDigit::D8 => '8',
        DtmfDigit::D9 => '9',
        DtmfDigit::Star => '*',
        DtmfDigit::Pound => '#',
        DtmfDigit::A => 'A',
        DtmfDigit::B => 'B',
        DtmfDigit::C => 'C',
        DtmfDigit::D => 'D',
        DtmfDigit::Flash => 'F',
    }
}

pub open spec fn digit_named(c: char) -> Option<DtmfDigit> {
    if c == '0' {
        Some(DtmfDigit::D0)
    } else if c == '1' {
        Some(DtmfDigit::D1)
    } else if c == '2' {
        Some(DtmfDigit::D2)
    } else if c == '3' {
        Some(DtmfDigit::D3)
    } else if c == '4' {
        Some(DtmfDigit::D4)
    } else if c == '5' {
        Some(DtmfDigit::D5)
    } else if c == '6' {
        Some(DtmfDigit::D6)
    } else if c == '7' {
        Some(DtmfDigit::D7)
    } else if c == '8' {
        Some(DtmfDigit::D8)
    } else if c == '9' {
        Some(DtmfDigit::D9)
    } else if c == '*' {
        Some(DtmfDigit::Star)
    } else if c == '#' {
        Some(DtmfDigit::Pound)
    } else if c == 'A' || c == 'a' {
        Some(DtmfDigit::A)
    } else if c == 'B' || c == 'b' {
        Some(DtmfDigit::B)
    } else if c == 'C' || c == 'c' {
        Some(DtmfDigit::C)
    } else if c == 'D' || c == 'd' {
        Some(DtmfDigit::D)
    } else if c == 'F' || c == 'f' {
        Some(DtmfDigit::Flash)
    } else {
        None
    }
}

fn named_digit(c: char) -> (digit: Option<DtmfDigit>)
    ensures
        digit == digit_named(c),
{
    match c {
        '0' => Some(DtmfDigit::D0),
        '1' => Some(DtmfDigit::D1),
        '2' => Some(DtmfDigit::D2),
        '3' => Some(DtmfDigit::D3),
        '4' => Some(DtmfDigit::D4),
        '5' => Some(DtmfDigit::D5),
        '6' => Some(DtmfDigit::D6),
        '7' => Some(DtmfDigit::D7),
        '8' => Some(DtmfDigit::D8),
        '9' => Some(DtmfDigit::D9),
        '*' => Some(DtmfDigit::Star),
        '#' => Some(DtmfDigit::Pound),
        'A' | 'a' => Some(DtmfDigit::A),
        'B' | 'b' => Some(DtmfDigit::B),
        'C' | 'c' => Some(DtmfDigit::C),
        'D' | 'd' => Some(DtmfDigit::D),
        'F' | 'f' => Some(DtmfDigit::Flash),
        _ => None,
    }
}

/// The letter of a digit names that digit.
pub proof fn lemma_letter_names_its_digit(digit: DtmfDigit)
    ensures
        digit_named(letter(digit)) == Some(digit),
{
}

/// The digits that the characters name.
pub open spec fn digits_named(text: Seq<char>) -> Set<DtmfDigit> {
    Set::new(
        |digit: DtmfDigit|
            exists|i: int| 0 <= i < text.len() && #[trigger] digit_named(text[i]) == Some(digit),
    )
}

/// Digits are written one after another; any other character is an error.
pub fn parse_digit_set(value: &str) -> (result: Result<DigitSet, DtmfOperationError>)
    ensures
        result is Ok <==> forall|i: int|
            0 <= i < value@.len() ==> (#[trigger] digit_named(value@[i])) is Some,
        result matches Ok(set) ==> set.wf() && set@ == digits_named(value@),
        result matches Err(error) ==> error == DtmfOperationError::UnsupportedDigit,
{
    let chars = chars_of(value);
    let mut digits = DigitSet::new();
    let mut i: usize = 0;
    assert(digits@ =~= digits_named(chars@.take(0)));
    while i < chars.len()
        invariant
            i <= chars.len(),
            chars@ == value@,
            digits.wf(),
            digits@ == digits_named(chars@.take(i as int)),
            forall|k: int| 0 <= k < i ==> (#[trigger] digit_named(value@[k])) is Some,
        decreases chars.len() - i,
    {
        match named_digit(chars[i]) {
            Some(digit) => {
                let ghost before = digits@;
                digits.insert(digit);
                proof {
                    let short = chars@.take(i as int);
                    let long = chars@.take(i + 1);
                    assert forall|d: DtmfDigit| digits@.contains(d) <==> digits_named(long).contains(
                        d,
                    ) by {
                        if before.contains(d) {
                            let k = choose|k: int|
                                0 <= k < short.len() && #[trigger] digit_named(short[k]) == Some(d);
                            assert(digit_named(long[k]) == Some(d));
                        }
                        if d == digit {
                            assert(digit_named(long[i as int]) == Some(d));
                        }
                        if digits_named(long).contains(d) {
                            let k = choose|k: int|
                                0 <= k < long.len() && #[trigger] digit_named(long[k]) == Some(d);
                            if k < i {
                                assert(digit_named(short[k]) == Some(d));
                            }
                        }
                    }
                    assert(digits@ =~= digits_named(long));
                }
            },
            None => {
                assert(digit_named(value@[i as int]) is None);
                return Err(DtmfOperationError::UnsupportedDigit);
            },
        }
        i = i + 1;
    }
    assert(chars@.take(i as int) =~= value@);
    Ok(digits)
}

/// Every digit there is.
pub fn all_digits() -> (set: DigitSet)
    ensures
        set.wf(),
        forall|digit: DtmfDigit| set@.contains(digit),
        set.members@.len() == 17,
{
    let set = DigitSet {
        members: vec![
            DtmfDigit::D0,
            DtmfDigit::D1,
            DtmfDigit::D2,
            DtmfDigit::D3,
            DtmfDigit::D4,
            DtmfDigit::D5,
            DtmfDigit::D6,
            DtmfDigit::D7,
            DtmfDigit::D8,
            DtmfDigit::D9,
            DtmfDigit::Star,
            DtmfDigit::Pound,
            DtmfDigit::A,
            DtmfDigit::B,
            DtmfDigit::C,
            DtmfDigit::D,
            DtmfDigit::Flash,
        ],
    };
    proof {
        let m = set.members@;
        assert(m[0] is D0 && m[1] is D1 && m[2] is D2 && m[3] is D3 && m[4] is D4 && m[5] is D5);
        assert(m[6] is D6 && m[7] is D7 && m[8] is D8 && m[9] is D9 && m[10] is Star);
        assert(m[11] is Pound && m[12] is A && m[13] is B && m[14] is C && m[15] is D);
        assert(m[16] is Flash);
        assert forall|digit: DtmfDigit| set@.contains(digit) by {
            assert(m.contains(digit));
        }
    }
    set
}

pub open spec fn letters(digits: Seq<DtmfDigit>) -> Seq<char> {
    digits.map_values(|digit: DtmfDigit| letter(digit))
}

pub fn format_digits(digits: &Vec<DtmfDigit>) -> (text: String)
    ensures
        text@ == letters(digits@),
{
    let mut text = String::new();
    let mut i: usize = 0;
    while i < digits.len()
        invariant
            i <= digits.len(),
            text@ == letters(digits@.take(i as int)),
        decreases digits.len() - i,
    {
        text.push(digit_char(digits[i]));
        i = i + 1;
        assert(letters(digits@.take(i as int)) =~= letters(digits@.take(i - 1)).push(
            letter(digits@[i - 1]),
        ));
    }
    assert(digits@.take(i as int) =~= digits@);
    text
}

/// Digits that were written down are the digits that were entered.
pub proof fn lemma_letters_keep_digits(a: Seq<DtmfDigit>, b: Seq<DtmfDigit>)
    requires
        letters(a) == letters(b),
    ensures
        a == b,
{
    assert(a.len() == letters(a).len() == letters(b).len() == b.len());
    assert forall|i: int| 0 <= i < a.len() implies a[i] == b[i] by {
        assert(letters(a)[i] == letter(a[i]) && letters(b)[i] == letter(b[i]));
        lemma_letter_names_its_digit(a[i]);
        lemma_letter_names_its_digit(b[i]);
    }
    assert(a =~= b);
}

impl Operation {
    pub open spec fn changed(self, change: OperationChange, now: u64) -> Self {
        if self.status.terminal() {
            self
        } else {
            match change {
                OperationChange::Acquiring => Operation {
                    status: DtmfOperationStatus::Acquiring,
                    updated_at_ms: now,
                    ..self
                },
                OperationChange::Ready { media_generation } => Operation {
                    status: DtmfOperationStatus::Ready,
                    media_generation: Some(media_generation),
                    reason: None,
                    updated_at_ms: now,
                    ..self
                },
                OperationChange::Ended { outcome } => Operation {
                    status: ended_status(outcome.code),
                    result_code: Some(result_name(outcome.code)),
                    digit_count: outcome.digits.len(),
                    digits: Some(letters(outcome.digits)),
                    reason: outcome.reason,
                    updated_at_ms: now,
                    ..self
                },
                OperationChange::Failed { reason } => Operation {
                    status: DtmfOperationStatus::Failed,
                    reason: Some(reason),
                    updated_at_ms: now,
                    ..self
                },
            }
        }
    }
}

/// All that the service knows.
#[verifier::ext_equal]
pub struct ServiceState {
    pub queue: QueueState<OperationRequest>,
    pub sequence: u64,
    pub operations: Map<Seq<char>, Operation>,
    pub order: Seq<Seq<char>>,
}

pub open spec fn operation_name(now: u64, sequence: u64) -> Seq<char> {
    "dtmf-op-"@ + decimal(now as nat) + "-"@ + decimal(sequence as nat)
}

impl ServiceState {
    /// No more is remembered than the history holds.
    pub open spec fn bounded(self) -> bool {
        &&& self.order.len() <= DTMF_OPERATION_HISTORY_CAPACITY
        &&& forall|id: Seq<char>| #[trigger]
            self.operations.contains_key(id) ==> self.order.contains(id)
    }

    /// The oldest operation is forgotten where there are too many.
    pub open spec fn trimmed(self) -> Self {
        if self.order.len() > DTMF_OPERATION_HISTORY_CAPACITY {
            ServiceState {
                operations: self.operations.remove(self.order[0]),
                order: self.order.drop_first(),
                ..self
            }
        } else {
            self
        }
    }

    pub open spec fn next_sequence(self) -> u64 {
        if self.sequence == u64::MAX {
            u64::MAX
        } else {
            (self.sequence + 1) as u64
        }
    }

    pub open spec fn fresh(self, spec: DtmfOperationSpec, now: u64) -> Operation {
        Operation {
            operation_id: operation_name(now, self.next_sequence()),
            call_id: spec.call_id@,
            source: spec.source,
            mode: spec.mode,
            status: DtmfOperationStatus::Pending,
            media_generation: None,
            result_code: None,
            digits: None,
            digit_count: 0,
            reason: None,
            created_at_ms: now,
            updated_at_ms: now,
        }
    }

    pub open spec fn started(self, spec: DtmfOperationSpec, now: u64) -> (
        Self,
        Result<Operation, DtmfOperationError>,
    ) {
        if self.queue.runtime is None {
            (self, Err(DtmfOperationError::Unconnected))
        } else {
            let operation = self.fresh(spec, now);
            let numbered = ServiceState { sequence: self.next_sequence(), ..self };
            let (queue, answer) = self.queue.offered(
                OperationRequest::Start { operation_id: operation.operation_id, spec },
            );
            match answer {
                Err(error) => (ServiceState { queue, ..numbered }, Err(refusal(error))),
                Ok(()) => (
                    ServiceState {
                        queue,
                        operations: self.operations.insert(operation.operation_id, operation),
                        order: self.order.push(operation.operation_id),
                        ..numbered
                    }.trimmed(),
                    Ok(operation),
                ),
            }
        }
    }

    pub open spec fn cancelled(self, id: Seq<char>, now: u64) -> (
        Self,
        Result<Operation, DtmfOperationError>,
    ) {
        if self.queue.runtime is None {
            (self, Err(DtmfOperationError::Unconnected))
        } else if !self.operations.contains_key(id) {
            (self, Err(DtmfOperationError::NotFound))
        } else if self.operations[id].status.terminal() {
            (self, Err(DtmfOperationError::AlreadyComplete))
        } else {
            let (queue, answer) = self.queue.offered(
                OperationRequest::Cancel {
                    operation_id: id,
                    call_id: self.operations[id].call_id,
                },
            );
            match answer {
                Err(error) => (ServiceState { queue, ..self }, Err(refusal(error))),
                Ok(()) => {
                    let operation = Operation {
                        status: DtmfOperationStatus::Cancelling,
                        updated_at_ms: now,
                        ..self.operations[id]
                    };
                    (
                        ServiceState {
                            queue,
                            operations: self.operations.insert(id, operation),
                            ..self
                        },
                        Ok(operation),
                    )
                },
            }
        }
    }

    pub open spec fn updated(self, id: Seq<char>, change: OperationChange, now: u64) -> Self {
        if self.operations.contains_key(id) {
            ServiceState {
                operations: self.operations.insert(id, self.operations[id].changed(change, now)),
                ..self
            }
        } else {
            self
        }
    }

    /// Without a runtime no operation can go on.
    pub open spec fn detached(self, generation: u64, now: u64) -> Self {
        ServiceState {
            queue: self.queue.detached(generation),
            operations: self.operations.map_values(
                |operation: Operation|
                    operation.changed(
                        OperationChange::Failed { reason: "adapter_runtime_disconnected"@ },
                        now,
                    ),
            ),
            ..self
        }
    }
}

/// What is over stays as it was, whatever is reported of it later.
pub proof fn lemma_finished_operation_never_changes(
    s: ServiceState,
    id: Seq<char>,
    other: Seq<char>,
    change: OperationChange,
    generation: u64,
    now: u64,
)
    requires
        s.operations.contains_key(id),
        s.operations[id].status.terminal(),
    ensures
        s.updated(other, change, now).operations[id] == s.operations[id],
        s.cancelled(other, now).0.operations[id] == s.operations[id],
        s.detached(generation, now).operations[id] == s.operations[id],
{
}

/// The history stays within its bounds.
pub proof fn lemma_history_stays_bounded(
    s: ServiceState,
    spec: DtmfOperationSpec,
    id: Seq<char>,
    change: OperationChange,
    generation: u64,
    now: u64,
)
    requires
        s.bounded(),
    ensures
        s.started(spec, now).0.bounded(),
        s.cancelled(id, now).0.bounded(),
        s.updated(id, change, now).bounded(),
        s.detached(generation, now).bounded(),
{
    let t = s.started(spec, now).0;
    let name = s.fresh(spec, now).operation_id;
    if s.started(spec, now).1 is Ok {
        let full = s.order.push(name);
        assert forall|k: Seq<char>| #[trigger] t.operations.contains_key(k) implies t.order.contains(
            k,
        ) by {
            if k == name {
                assert(full[s.order.len() as int] == k);
                assert(full.contains(k));
            } else {
                assert(s.operations.contains_key(k));
                let i = choose|i: int| 0 <= i < s.order.len() && s.order[i] == k;
                assert(full[i] == k);
                assert(full.contains(k));
            }
            let i = choose|i: int| 0 <= i < full.len() && full[i] == k;
            if full.len() > DTMF_OPERATION_HISTORY_CAPACITY {
                assert(k != full[0]);
                assert(t.order[i - 1] == k);
            }
        }
    }
    assert forall|k: Seq<char>| #[trigger]
        s.cancelled(id, now).0.operations.contains_key(k) implies s.order.contains(k) by {
        assert(s.operations.contains_key(k));
    }
    assert forall|k: Seq<char>| #[trigger]
        s.updated(id, change, now).operations.contains_key(k) implies s.order.contains(k) by {
        assert(s.operations.contains_key(k));
    }
    assert forall|k: Seq<char>| #[trigger]
        s.detached(generation, now).operations.contains_key(k) implies s.order.contains(k) by {
        assert(s.operations.contains_key(k));
    }
}

pub struct DtmfOperationService {
    pub queue: RuntimeQueue<DtmfRuntimeOperation>,
    pub operation_sequence: u64,
    pub operations: KeyedMap<DtmfOperationView>,
    pub order: VecDeque<String>,
}

pub open spec fn requests_of(queue: QueueState<DtmfRuntimeOperation>) -> QueueState<
    OperationRequest,
> {
    QueueState {
        generation: queue.generation,
        runtime: match queue.runtime {
            Some(runtime) => Some(
                BindingState {
                    generation: runtime.generation,
                    open: runtime.open,
                    queue: runtime.queue.map_values(|o: DtmfRuntimeOperation| o@),
                },
            ),
            None => None,
        },
        capacity: queue.capacity,
    }
}

proof fn lemma_requests_offered(queue: QueueState<DtmfRuntimeOperation>, item: DtmfRuntimeOperation)
    ensures
        requests_of(queue.offered(item).0) == requests_of(queue).offered(item@).0,
        queue.offered(item).1 == requests_of(queue).offered(item@).1,
{
    assert(requests_of(queue.offered(item).0) =~= requests_of(queue).offered(item@).0) by {
        match queue.runtime {
            Some(runtime) => {
                assert(runtime.queue.push(item).map_values(|o: DtmfRuntimeOperation| o@)
                    =~= runtime.queue.map_values(|o: DtmfRuntimeOperation| o@).push(item@));
            },
            None => {},
        }
    }
}

pub open spec fn operation_map(map: Map<Seq<char>, DtmfOperationView>) -> Map<
    Seq<char>,
    Operation,
> {
    map.map_values(|operation: DtmfOperationView| operation@)
}

impl DtmfOperationService {
    pub open spec fn view(&self) -> ServiceState {
        ServiceState {
            queue: requests_of(self.queue@),
            sequence: self.operation_sequence,
            operations: operation_map(self.operations@),
            order: self.order@.map_values(|id: String| id@),
        }
    }

    pub open spec fn wf(self) -> bool {
        self.operations.wf() && self@.bounded()
    }

    pub fn new() -> (service: Self)
        ensures
            service.wf(),
            service@ == (ServiceState {
                queue: QueueState {
                    generation: 0,
                    runtime: None,
                    capacity: DTMF_OPERATION_QUEUE_CAPACITY as nat,
                },
                sequence: 0,
                operations: Map::empty(),
                order: Seq::empty(),
            }),
    {
        let service = DtmfOperationService {
            queue: RuntimeQueue::new(DTMF_OPERATION_QUEUE_CAPACITY),
            operation_sequence: 0,
            operations: KeyedMap::new(),
            order: VecDeque::new(),
        };
        assert(service@.operations =~= Map::empty());
        assert(service@.order =~= Seq::empty());
        service
    }

    pub fn attach_runtime(&mut self) -> (generation: u64)
        requires
            old(self).wf(),
        ensures
            final(self).wf(),
            final(self)@ == (ServiceState { queue: old(self)@.queue.attached(), ..old(self)@ }),
            generation == final(self)@.queue.generation,
    {
        let generation = self.queue.attach_runtime();
        assert(self@.queue =~= old(self)@.queue.attached());
        generation
    }

    pub fn detach_runtime(&mut self, generation: u64, now: u64)
        requires
            old(self).wf(),
        ensures
            final(self).wf(),
            final(self)@ == old(self)@.detached(generation, now),
    {
        self.queue.detach_runtime(generation);
        assert(requests_of(self.queue@) =~= old(self)@.queue.detached(generation));
        let ghost before = self.operations;
        let ghost change = OperationChange::Failed { reason: "adapter_runtime_disconnected"@ };
        let mut i: usize = 0;
        while i < self.operations.len()
            invariant
                self.operations.wf(),
                before.wf(),
                self.queue == old(self).queue || requests_of(self.queue@)
                    == old(self)@.queue.detached(generation),
                requests_of(self.queue@) == old(self)@.queue.detached(generation),
                self.operation_sequence == old(self).operation_sequence,
                self.order == old(self).order,
                before == old(self).operations,
                change == (OperationChange::Failed { reason: "adapter_runtime_disconnected"@ }),
                i <= self.operations.entries().len() == before.entries().len(),
                forall|k: int|
                    0 <= k < before.entries().len() ==> (#[trigger] self.operations.entries()[k]).key
                        == before.entries()[k].key,
                forall|k: int|
                    0 <= k < i ==> (#[trigger] self.operations.entries()[k]).value@
                        == before.entries()[k].value@.changed(change, now),
                forall|k: int|
                    i <= k < before.entries().len() ==> #[trigger] self.operations.entries()[k]
                        == before.entries()[k],
            decreases self.operations.entries().len() - i,
        {
            let operation = self.operations.value_at(i);
            if !operation.status.is_terminal() {
                let mut failed = operation.copy();
                failed.status = DtmfOperationStatus::Failed;
                failed.reason = Some("adapter_runtime_disconnected".to_owned());
                failed.updated_at_ms = now;
                self.operations.set_at(i, failed);
            }
            i = i + 1;
        }
        proof {
            let after = self.operations;
            let expected = old(self)@.detached(generation, now).operations;
            assert forall|id: Seq<char>| #[trigger] operation_map(after@).contains_key(id)
                <==> expected.contains_key(id) by {
                if after.has(id) {
                    let at = after.index_of(id);
                    assert(after.has_at(id, at));
                    assert(before.has_at(id, at));
                }
                if before.has(id) {
                    let at = before.index_of(id);
                    assert(before.has_at(id, at));
                    assert(after.has_at(id, at));
                }
            }
            assert forall|id: Seq<char>| #[trigger] operation_map(after@).contains_key(
                id,
            ) implies operation_map(after@)[id] == expected[id] by {
                let at = after.index_of(id);
                assert(after.has_at(id, at));
                assert(before.has_at(id, at));
                after.lemma_index(id, at);
                before.lemma_index(id, at);
            }
            assert(operation_map(after@) =~= expected);
            lemma_history_stays_bounded(
                old(self)@,
                arbitrary(),
                arbitrary(),
                arbitrary(),
                generation,
                now,
            );
        }
    }

    pub fn start(&mut self, spec: DtmfOperationSpec, now: u64) -> (result: Result<
        DtmfOperationView,
        DtmfOperationError,
    >)
        requires
            old(self).wf(),
        ensures
            final(self).wf(),
            final(self)@ == old(self)@.started(spec, now).0,
            match (result, old(self)@.started(spec, now).1) {
                (Ok(operation), Ok(expected)) => operation@ == expected,
                (Err(error), Err(expected)) => error == expected,
                _ => false,
            },
    {
        proof {
            lemma_history_stays_bounded(old(self)@, spec, arbitrary(), arbitrary(), 0, now);
        }
        if !self.queue.connected() {
            return Err(DtmfOperationError::Unconnected);
        }
        self.operation_sequence = if self.operation_sequence == u64::MAX {
            u64::MAX
        } else {
            self.operation_sequence + 1
        };
        let operation_id = join4(
            "dtmf-op-",
            decimal_text(now).as_str(),
            "-",
            decimal_text(self.operation_sequence).as_str(),
        );
        let view = DtmfOperationView {
            operation_id: operation_id.clone(),
            call_id: spec.call_id.clone(),
            source: spec.source,
            mode: spec.mode,
            status: DtmfOperationStatus::Pending,
            media_generation: None,
            result_code: None,
            digits: None,
            digit_count: 0,
            reason: None,
            created_at_ms: now,
            updated_at_ms: now,
        };
        let ghost expected = old(self)@.fresh(spec, now);
        assert(view@ =~= expected);
        let request = DtmfRuntimeOperation::Start { operation_id: operation_id.clone(), spec };
        proof {
            lemma_requests_offered(self.queue@, request);
        }
        match self.queue.offer(request) {
            Err(error) => Err(refused(error)),
            Ok(()) => {
                self.operations.insert(operation_id.clone(), view.copy());
                self.order.push_back(operation_id);
                let ghost full = ServiceState {
                    queue: requests_of(self.queue@),
                    sequence: self.operation_sequence,
                    operations: old(self)@.operations.insert(expected.operation_id, expected),
                    order: old(self)@.order.push(expected.operation_id),
                };
                assert(self@ =~= full);
                self.trim_history();
                Ok(view)
            },
        }
    }

    fn trim_history(&mut self)
        requires
            old(self).operations.wf(),
            old(self).order@.len() <= DTMF_OPERATION_HISTORY_CAPACITY + 1,
        ensures
            final(self).operations.wf(),
            final(self)@ == old(self)@.trimmed(),
    {
        if self.order.len() > DTMF_OPERATION_HISTORY_CAPACITY {
            let ghost before = *self;
            match self.order.pop_front() {
                Some(operation_id) => {
                    let _ = self.operations.remove(operation_id.as_str());
                    assert(before@.order[0] == operation_id@);
                    assert(self@.order =~= before@.order.drop_first());
                    assert(self@.operations =~= before@.operations.remove(operation_id@));
                },
                None => {},
            }
        }
    }

    pub fn cancel(&mut self, operation_id: &str, now: u64) -> (result: Result<
        DtmfOperationView,
        DtmfOperationError,
    >)
        requires
            old(self).wf(),
        ensures
            final(self).wf(),
            final(self)@ == old(self)@.cancelled(operation_id@, now).0,
            match (result, old(self)@.cancelled(operation_id@, now).1) {
                (Ok(operation), Ok(expected)) => operation@ == expected,
                (Err(error), Err(expected)) => error == expected,
                _ => false,
            },
    {
        proof {
            lemma_history_stays_bounded(
                old(self)@,
                arbitrary(),
                operation_id@,
                arbitrary(),
                0,
                now,
            );
        }
        if !self.queue.connected() {
            return Err(DtmfOperationError::Unconnected);
        }
        let mut operation = match self.operations.get(operation_id) {
            None => return Err(DtmfOperationError::NotFound),
            Some(operation) => operation.copy(),
        };
        if operation.status.is_terminal() {
            return Err(DtmfOperationError::AlreadyComplete);
        }
        let request = DtmfRuntimeOperation::Cancel {
            operation_id: operation_id.to_owned(),
            call_id: operation.call_id.clone(),
        };
        proof {
            lemma_requests_offered(self.queue@, request);
        }
        match self.queue.offer(request) {
            Err(error) => Err(refused(error)),
            Ok(()) => {
                operation.status = DtmfOperationStatus::Cancelling;
                operation.updated_at_ms = now;
                self.operations.insert(operation_id.to_owned(), operation.copy());
                assert(self@.operations =~= old(self)@.operations.insert(
                    operation_id@,
                    operation@,
                ));
                Ok(operation)
            },
        }
    }

    pub fn get(&self, operation_id: &str) -> (operation: Option<DtmfOperationView>)
        requires
            self.wf(),
        ensures
            operation is Some <==> self@.operations.contains_key(operation_id@),
            operation matches Some(view) ==> view@ == self@.operations[operation_id@],
    {
        match self.operations.get(operation_id) {
            Some(operation) => Some(operation.copy()),
            None => None,
        }
    }

    /// The operation, where it can still change.
    fn unfinished(&self, operation_id: &str) -> (operation: Option<DtmfOperationView>)
        requires
            self.wf(),
        ensures
            operation is Some <==> self@.operations.contains_key(operation_id@)
                && !self@.operations[operation_id@].status.terminal(),
            operation matches Some(view) ==> view@ == self@.operations[operation_id@],
    {
        match self.get(operation_id) {
            Some(operation) => if operation.status.is_terminal() {
                None
            } else {
                Some(operation)
            },
            None => None,
        }
    }

    fn store(&mut self, operation_id: &str, operation: DtmfOperationView)
        requires
            old(self).wf(),
            old(self)@.operations.contains_key(operation_id@),
        ensures
            final(self).wf(),
            final(self)@ == (ServiceState {
                operations: old(self)@.operations.insert(operation_id@, operation@),
                ..old(self)@
            }),
    {
        self.operations.insert(operation_id.to_owned(), operation);
        assert(self@.operations =~= old(self)@.operations.insert(operation_id@, operation@));
        assert forall|k: Seq<char>| #[trigger]
            self@.operations.contains_key(k) implies self@.order.contains(k) by {
            assert(old(self)@.operations.contains_key(k));
        }
    }

    pub fn mark_acquiring(&mut self, operation_id: &str, now: u64)
        requires
            old(self).wf(),
        ensures
            final(self).wf(),
            final(self)@ == old(self)@.updated(operation_id@, OperationChange::Acquiring, now),
    {
        match self.unfinished(operation_id) {
            Some(operation) => {
                let mut operation = operation;
                operation.status = DtmfOperationStatus::Acquiring;
                operation.updated_at_ms = now;
                self.store(operation_id, operation);
            },
            None => {},
        }
        assert(self@ =~= old(self)@.updated(operation_id@, OperationChange::Acquiring, now));
    }

    pub fn mark_ready(&mut self, operation_id: &str, media_generation: u64, now: u64)
        requires
            old(self).wf(),
        ensures
            final(self).wf(),
            final(self)@ == old(self)@.updated(
                operation_id@,
                OperationChange::Ready { media_generation },
                now,
            ),
    {
        match self.unfinished(operation_id) {
            Some(operation) => {
                let mut operation = operation;
                operation.status = DtmfOperationStatus::Ready;
                operation.media_generation = Some(media_generation);
                operation.reason = None;
                operation.updated_at_ms = now;
                self.store(operation_id, operation);
            },
            None => {},
        }
        assert(self@ =~= old(self)@.updated(
            operation_id@,
            OperationChange::Ready { media_generation },
            now,
        ));
    }

    pub fn complete(&mut self, operation_id: &str, outcome: DigitCollectionOutcome, now: u64)
        requires
            old(self).wf(),
        ensures
            final(self).wf(),
            final(self)@ == old(self)@.updated(
                operation_id@,
                OperationChange::Ended { outcome: outcome@ },
                now,
            ),
    {
        match self.unfinished(operation_id) {
            Some(operation) => {
                let mut operation = operation;
                operation.status = match outcome.code {
                    DigitCollectionResultCode::Cancelled => DtmfOperationStatus::Cancelled,
                    DigitCollectionResultCode::Failed => DtmfOperationStatus::Failed,
                    DigitCollectionResultCode::Completed
                    | DigitCollectionResultCode::FirstDigitTimeout
                    | DigitCollectionResultCode::InterDigitTimeout
                    | DigitCollectionResultCode::OverallTimeout => DtmfOperationStatus::Completed,
                };
                operation.result_code = Some(result_code(outcome.code));
                operation.digit_count = outcome.digits.len();
                operation.digits = Some(format_digits(&outcome.digits));
                operation.reason = outcome.reason;
                operation.updated_at_ms = now;
                self.store(operation_id, operation);
            },
            None => {},
        }
        assert(self@ =~= old(self)@.updated(
            operation_id@,
            OperationChange::Ended { outcome: outcome@ },
            now,
        ));
    }

    pub fn fail(&mut self, operation_id: &str, reason: String, now: u64)
        requires
            old(self).wf(),
        ensures
            final(self).wf(),
            final(self)@ == old(self)@.updated(
                operation_id@,
                OperationChange::Failed { reason: reason@ },
                now,
            ),
    {
        match self.unfinished(operation_id) {
            Some(operation) => {
                let mut operation = operation;
                operation.status = DtmfOperationStatus::Failed;
                operation.reason = Some(reason);
                operation.updated_at_ms = now;
                self.store(operation_id, operation);
            },
            None => {},
        }
        assert(self@ =~= old(self)@.updated(
            operation_id@,
            OperationChange::Failed { reason: reason@ },
            now,
        ));
    }
}

} // verus!
