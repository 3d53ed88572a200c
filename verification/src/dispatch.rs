//! The operation dispatcher's decision rules.
//!
//! Every protocol exchange runs through one choke point: send the envelope,
//! look at what came back, and either deliver the decoded response, fail with
//! a classified error, or — when the server signals it is busy — wait the
//! server-directed delay and try again. Retries are unbounded on purpose: the
//! loop is gated solely by the server's own back-off hints, so a throttled
//! exchange either eventually settles or fails for an unrelated reason.
//! Callers needing an overall deadline wrap the call externally.
//!
//! The decision itself is a pure function of what one attempt observed; the
//! surrounding loop performs the transport work and the sleeps.

use vstd::prelude::*;

use crate::error::EwsError;
use crate::text::{decimal_string, spec_decimal_digits};

verus! {

/// The behavior to follow when an operation request results in an
/// authentication failure. Both modes surface the failure immediately — the
/// engine performs no credential re-acquisition — and differ only in how
/// loudly the failure is reported.
#[derive(Debug, Clone, Copy, PartialEq, Eq, Structural)]
pub enum AuthFailureBehavior {
    /// Let the caller attempt to re-authenticate.
    ReAuth,
    /// Fail quietly; useful for connectivity checks.
    Silent,
}

/// The behavior to follow when an operation request results in a transport
/// security failure. Both modes propagate the failure; they differ only in
/// how loudly it is reported.
#[derive(Debug, Clone, Copy, PartialEq, Eq, Structural)]
pub enum TransportSecFailureBehavior {
    /// Alert about the failure before propagating it.
    Alert,
    /// Propagate the failure without alerting.
    Silent,
}

/// Options controlling how one dispatched operation reacts to failures.
#[derive(Debug, Clone, Copy, PartialEq, Eq, Structural)]
pub struct OperationRequestOptions {
    /// Behavior to follow when an authentication failure arises.
    pub auth_failure_behavior: AuthFailureBehavior,
    /// Behavior to follow when a transport security failure arises.
    pub transport_sec_failure_behavior: TransportSecFailureBehavior,
}

impl Default for AuthFailureBehavior {
    fn default() -> (r: Self)
        ensures
            r == AuthFailureBehavior::ReAuth,
    {
        AuthFailureBehavior::ReAuth
    }
}

impl Default for TransportSecFailureBehavior {
    fn default() -> (r: Self)
        ensures
            r == TransportSecFailureBehavior::Alert,
    {
        TransportSecFailureBehavior::Alert
    }
}

impl Default for OperationRequestOptions {
    fn default() -> (r: Self)
        ensures
            r == (OperationRequestOptions {
                auth_failure_behavior: AuthFailureBehavior::ReAuth,
                transport_sec_failure_behavior: TransportSecFailureBehavior::Alert,
            }),
    {
        OperationRequestOptions {
            auth_failure_behavior: AuthFailureBehavior::ReAuth,
            transport_sec_failure_behavior: TransportSecFailureBehavior::Alert,
        }
    }
}

/// What one attempt at a protocol exchange observed, reduced to the facts the
/// dispatcher decides on.
#[derive(Debug, Clone, PartialEq, Eq)]
pub enum AttemptOutcome {
    /// The transport rejected the request's credentials.
    AuthenticationFailed,
    /// The transport failed before an HTTP response arrived.
    TransportFailed { detail: String },
    /// An HTTP response arrived with a status outside the success range.
    HttpFailure { status: u16 },
    /// The response body could not be decoded. A decode fault that encodes a
    /// server-busy signal carries the server's back-off delay.
    DecodeFault { back_off_milliseconds: Option<u64>, detail: String },
    /// The response decoded. When the first response unit signals
    /// server-busy, the server's back-off delay is carried here.
    Decoded { first_unit_back_off_milliseconds: Option<u64> },
}

/// The dispatcher's verdict on one attempt.
#[derive(Debug, Clone, PartialEq, Eq)]
pub enum DispatchDecision {
    /// Hand the decoded response to the caller.
    Deliver,
    /// Sleep the server-directed delay, then repeat the attempt.
    RetryAfter { delay_milliseconds: u64 },
    /// Stop and surface the error.
    Fail(EwsError),
}

/// Whether `decision` is the verdict the dispatcher reaches on `outcome`.
///
/// Throttling signals — whether embedded in a decode fault or in the first
/// response unit — are never surfaced as errors: they always become a retry
/// with the server's delay. Every other failure is classified and surfaced.
pub open spec fn spec_decision_on(outcome: AttemptOutcome, decision: DispatchDecision) -> bool {
    match outcome {
        AttemptOutcome::AuthenticationFailed => decision == DispatchDecision::Fail(
            EwsError::Authentication,
        ),
        AttemptOutcome::TransportFailed { detail } => decision == DispatchDecision::Fail(
            EwsError::Http { detail },
        ),
        AttemptOutcome::HttpFailure { status } => decision matches DispatchDecision::Fail(e) && e
            matches EwsError::Processing { message } && message@ == spec_http_failure_message(
            status as int,
        ),
        AttemptOutcome::DecodeFault { back_off_milliseconds, detail } => {
            match back_off_milliseconds {
                Some(delay_milliseconds) => decision == (DispatchDecision::RetryAfter {
                    delay_milliseconds,
                }),
                None => decision == DispatchDecision::Fail(EwsError::Protocol { detail }),
            }
        },
        AttemptOutcome::Decoded { first_unit_back_off_milliseconds } => {
            match first_unit_back_off_milliseconds {
                Some(delay_milliseconds) => decision == (DispatchDecision::RetryAfter {
                    delay_milliseconds,
                }),
                None => decision == DispatchDecision::Deliver,
            }
        },
    }
}

/// The message reported for an HTTP response with an unsuccessful status.
pub open spec fn spec_http_failure_message(status: int) -> Seq<char> {
    "HTTP request failed with status: "@ + spec_decimal_digits(status)
}

/// Decides what to do after one attempt at a protocol exchange.
///
/// The options select logging verbosity only; they never change the verdict,
/// since the engine neither re-acquires credentials nor overrides certificate
/// decisions.
pub fn dispatch_decision(
    _options: &OperationRequestOptions,
    outcome: AttemptOutcome,
) -> (r: DispatchDecision)
    ensures
        spec_decision_on(outcome, r),
{
    match outcome {
        AttemptOutcome::AuthenticationFailed => DispatchDecision::Fail(EwsError::Authentication),
        AttemptOutcome::TransportFailed { detail } => DispatchDecision::Fail(
            EwsError::Http { detail },
        ),
        AttemptOutcome::HttpFailure { status } => {
            let mut message = String::from_str("HTTP request failed with status: ");
            message.append(decimal_string(status as u64).as_str());
            DispatchDecision::Fail(EwsError::Processing { message })
        },
        AttemptOutcome::DecodeFault { back_off_milliseconds, detail } => {
            match back_off_milliseconds {
                Some(delay_milliseconds) => DispatchDecision::RetryAfter { delay_milliseconds },
                None => DispatchDecision::Fail(EwsError::Protocol { detail }),
            }
        },
        AttemptOutcome::Decoded { first_unit_back_off_milliseconds } => {
            match first_unit_back_off_milliseconds {
                Some(delay_milliseconds) => DispatchDecision::RetryAfter { delay_milliseconds },
                None => DispatchDecision::Deliver,
            }
        },
    }
}

/// Whether an attempt's outcome is a throttling signal, i.e. one the
/// dispatcher answers with a retry rather than a verdict.
pub open spec fn spec_is_throttle(outcome: AttemptOutcome) -> bool {
    ||| outcome matches AttemptOutcome::DecodeFault { back_off_milliseconds: Some(_), .. }
    ||| outcome matches AttemptOutcome::Decoded { first_unit_back_off_milliseconds: Some(_) }
}

/// The delay a throttling outcome directs the client to sleep, in
/// milliseconds; zero for outcomes that settle.
pub open spec fn spec_retry_delay(outcome: AttemptOutcome) -> int {
    match outcome {
        AttemptOutcome::DecodeFault { back_off_milliseconds: Some(d), .. } => d as int,
        AttemptOutcome::Decoded { first_unit_back_off_milliseconds: Some(d) } => d as int,
        _ => 0,
    }
}

/// The index of the first outcome in a script that is not a throttling
/// signal, if any.
pub open spec fn spec_first_settled(script: Seq<AttemptOutcome>) -> Option<int>
    decreases script.len(),
{
    if script.len() == 0 {
        None
    } else if !spec_is_throttle(script[0]) {
        Some(0)
    } else {
        match spec_first_settled(script.drop_first()) {
            Some(i) => Some(i + 1),
            None => None,
        }
    }
}

/// The total delay, in milliseconds, that a run of throttling outcomes asks
/// the client to sleep.
pub open spec fn spec_total_delay(script: Seq<AttemptOutcome>) -> int
    decreases script.len(),
{
    if script.len() == 0 {
        0
    } else {
        spec_retry_delay(script[0]) + spec_total_delay(script.drop_first())
    }
}

/// How a scripted sequence of attempts plays out under the dispatcher.
#[derive(Debug, Clone, PartialEq, Eq)]
pub struct DispatchRun {
    /// How many attempts were made, the settling one included.
    pub attempts: usize,
    /// The sum of the server-directed delays slept before settling.
    pub total_delay_milliseconds: u128,
    /// The verdict of the settling attempt: a delivery or a failure.
    pub verdict: DispatchDecision,
}

/// Replays the dispatcher's retry loop over a script of attempt outcomes: one
/// attempt per outcome, retrying past every throttling signal, stopping at
/// the first outcome that settles.
///
/// Each throttling signal causes exactly one further attempt, after the
/// server-directed delay; the loop stops at the first non-throttling outcome.
/// Returns `None` when every scripted outcome throttles.
pub fn run_dispatch_script(
    options: &OperationRequestOptions,
    script: Vec<AttemptOutcome>,
) -> (r: Option<DispatchRun>)
    ensures
        match spec_first_settled(script@) {
            Some(i) => r matches Some(run) && run.attempts == i + 1
                && run.total_delay_milliseconds == spec_total_delay(script@.take(i))
                && spec_decision_on(script@[i], run.verdict) && (forall|j: int|
                0 <= j < i ==> spec_is_throttle(script@[j])),
            None => r is None,
        },
{
    let mut total_delay: u128 = 0;
    let mut attempt: usize = 0;
    let script_len = script.len();
    let ghost full = script@;
    proof {
        lemma_first_settled_bounds(full);
        assert(full.take(0) =~= Seq::<AttemptOutcome>::empty());
    }
    let mut remaining = script;
    while attempt < script_len
        invariant
            full == script@,
            full.len() == script_len,
            remaining@ == full.skip(attempt as int),
            attempt <= script_len,
            forall|j: int| 0 <= j < attempt ==> spec_is_throttle(full[j]),
            spec_first_settled(full) matches Some(i) ==> attempt <= i,
            total_delay == spec_total_delay(full.take(attempt as int)),
            total_delay <= attempt * 0xffff_ffff_ffff_ffffu64,
        decreases script_len - attempt,
    {
        let outcome = remaining.remove(0);
        proof {
            assert(outcome == full[attempt as int]);
            assert(full.skip(attempt as int).drop_first() =~= full.skip(attempt as int + 1));
        }
        let decision = dispatch_decision(options, outcome);
        match decision {
            DispatchDecision::RetryAfter { delay_milliseconds } => {
                proof {
                    lemma_first_settled_bounds(full);
                    lemma_total_delay_step(full, attempt as int);
                }
                total_delay = total_delay + delay_milliseconds as u128;
                attempt = attempt + 1;
            },
            _ => {
                proof {
                    lemma_first_settled_bounds(full);
                    assert(!spec_is_throttle(full[attempt as int]));
                    assert(spec_first_settled(full) == Some(attempt as int));
                }
                return Some(
                    DispatchRun {
                        attempts: attempt + 1,
                        total_delay_milliseconds: total_delay,
                        verdict: decision,
                    },
                );
            },
        }
    }
    proof {
        lemma_first_settled_bounds(full);
    }
    None
}

/// Where a script settles: the first settled index, when there is one, is in
/// range, does not throttle, and everything before it throttles; when there
/// is none, everything throttles.
proof fn lemma_first_settled_bounds(script: Seq<AttemptOutcome>)
    ensures
        match spec_first_settled(script) {
            Some(k) => 0 <= k < script.len() && !spec_is_throttle(script[k]) && (forall|j: int|
                0 <= j < k ==> spec_is_throttle(script[j])),
            None => forall|j: int| 0 <= j < script.len() ==> spec_is_throttle(script[j]),
        },
    decreases script.len(),
{
    if script.len() > 0 && spec_is_throttle(script[0]) {
        lemma_first_settled_bounds(script.drop_first());
        assert(forall|j: int| 1 <= j < script.len() ==> #[trigger] script[j] == script.drop_first()[
            j - 1
        ]);
    }
}

/// Extending a prefix by one throttling outcome adds that outcome's delay to
/// the prefix's total delay.
proof fn lemma_total_delay_step(script: Seq<AttemptOutcome>, i: int)
    requires
        0 <= i < script.len(),
    ensures
        spec_total_delay(script.take(i + 1)) == spec_total_delay(script.take(i))
            + spec_retry_delay(script[i]),
    decreases i,
{
    if i == 0 {
        assert(script.take(1).drop_first() =~= script.take(0));
        assert(script.take(1)[0] == script[0]);
        assert(spec_total_delay(script.take(0)) == 0);
    } else {
        assert(script.take(i + 1).drop_first() =~= script.drop_first().take(i));
        assert(script.take(i).drop_first() =~= script.drop_first().take(i - 1));
        lemma_total_delay_step(script.drop_first(), i - 1);
        assert(script.drop_first()[i - 1] == script[i]);
        assert(script.take(i + 1)[0] == script[0]);
        assert(script.take(i)[0] == script[0]);
    }
}

} // verus!
