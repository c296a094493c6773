//! The submission client: node endpoint configuration, request targets,
//! interpretation of node responses, and the submit-then-poll lifecycle
//! `Built -> Submitted -> {Committed-Success | Committed-Failure | TimedOut}`.
//!
//! All network traffic happens outside the library; callers fetch each URL
//! and hand the status code and body back to the functions here.
use vstd::prelude::*;

verus! {

use crate::errors::QueryError;
use crate::errors::RejectionKind;
use crate::errors::SubmitError;
use crate::jsonio::parse_json;
use crate::jsonio::json_str_field;
use crate::jsonio::json_bool_field;
use crate::jsonio::spec_json_ok;
use crate::jsonio::spec_json_str_at;
use crate::jsonio::spec_json_bool_at;
use crate::text::digits_value;
use crate::text::parse_u64;
use crate::text::spec_contains;
use crate::text::str_contains;
use crate::text::str_eq;
use crate::text::valid_u64_decimal;
use vstd::string::StringExecFns;

/// Node endpoint configuration, injected at construction.
pub struct RestClient {
    url: String,
}

impl Clone for RestClient {
    fn clone(&self) -> (r: Self)
        ensures
            r == *self,
    {
        RestClient { url: self.url.clone() }
    }
}

impl RestClient {
    /// The node's base URL.
    pub closed spec fn spec_url(&self) -> Seq<char> {
        self.url@
    }

    pub fn new(url: String) -> (r: Self)
        ensures
            r.spec_url() == url@,
    {
        RestClient { url }
    }

    /// The account query target for `address`.
    pub fn account_url(&self, address: &str) -> (r: String)
        ensures
            r@ == self.spec_url() + "/accounts/"@ + address@,
    {
        let mut u = self.url.clone();
        u.append("/accounts/");
        u.append(address);
        u
    }

    /// The resource query target for `address` and `resource_type`.
    pub fn account_resource_url(&self, address: &str, resource_type: &str) -> (r: String)
        ensures
            r@ == self.spec_url() + "/accounts/"@ + address@ + "/resource/"@ + resource_type@,
    {
        let mut u = self.url.clone();
        u.append("/accounts/");
        u.append(address);
        u.append("/resource/");
        u.append(resource_type);
        u
    }

    /// The submission target.
    pub fn transactions_url(&self) -> (r: String)
        ensures
            r@ == self.spec_url() + "/transactions"@,
    {
        let mut u = self.url.clone();
        u.append("/transactions");
        u
    }

    /// The status query target for a transaction hash.
    pub fn transaction_url(&self, hash: &str) -> (r: String)
        ensures
            r@ == self.spec_url() + "/transactions/"@ + hash@,
    {
        let mut u = self.url.clone();
        u.append("/transactions/");
        u.append(hash);
        u
    }
}

/// Interprets a resource query response. Absence (HTTP 404) is a valid
/// result, not an error; on a 200 the parsed resource comes back exactly
/// when the body is valid JSON, and only an unexpected status or an
/// unparseable body is an error.
pub fn resource_from_response(status: u16, body: &str) -> (r: Result<
    Option<serde_json::Value>,
    QueryError,
>)
    ensures
        match r {
            Ok(o) => (status == 404 && o is None) || (status == 200 && o is Some && spec_json_ok(
                body@,
            )),
            Err(e) => status != 404 && (e == QueryError::MalformedResponse ==> status == 200
                && !spec_json_ok(body@)) && (e == QueryError::UnexpectedStatus ==> status != 200)
                && e != QueryError::Transport,
        },
        status == 404 ==> (r matches Ok(o) && o is None),
        status == 200 && spec_json_ok(body@) ==> (r matches Ok(o) && o is Some),
{
    if status == 404 {
        return Ok(None);
    }
    if status != 200 {
        return Err(QueryError::UnexpectedStatus);
    }
    match parse_json(body) {
        Some(v) => Ok(Some(v)),
        None => Err(QueryError::MalformedResponse),
    }
}

/// Decodes one numeric field that the node renders as a decimal string.
/// Exact: accepted iff the text is a nonempty all-digit decimal that fits
/// in a `u64`, and then the value is that number.
pub fn decode_u64_field(field: &str) -> (r: Result<u64, QueryError>)
    ensures
        match r {
            Ok(n) => valid_u64_decimal(field@) && n == digits_value(field@),
            Err(e) => e == QueryError::MalformedResponse && !valid_u64_decimal(field@),
        },
{
    match parse_u64(field) {
        Some(n) => Ok(n),
        None => Err(QueryError::MalformedResponse),
    }
}

/// Interprets an account query response: the account's current expected
/// sequence number, from the body's `sequence_number` field. On a 200 the
/// result is fixed by the body: the field's decimal value when it is a
/// valid `u64` decimal, `MalformedResponse` exactly otherwise.
pub fn parse_sequence_number(status: u16, body: &str) -> (r: Result<u64, QueryError>)
    ensures
        status != 200 ==> r == Err::<u64, QueryError>(QueryError::UnexpectedStatus),
        status == 200 ==> match spec_json_str_at(body@, seq!["sequence_number"@]) {
            Some(s) => if valid_u64_decimal(s) {
                r matches Ok(n) && n == digits_value(s)
            } else {
                r == Err::<u64, QueryError>(QueryError::MalformedResponse)
            },
            None => r == Err::<u64, QueryError>(QueryError::MalformedResponse),
        },
        r != Err::<u64, QueryError>(QueryError::Transport),
{
    if status != 200 {
        return Err(QueryError::UnexpectedStatus);
    }
    let s = match json_str_field(body, "sequence_number") {
        Some(s) => s,
        None => {
            return Err(QueryError::MalformedResponse);
        },
    };
    match decode_u64_field(s.as_str()) {
        Ok(n) => Ok(n),
        Err(e) => Err(e),
    }
}

/// How a rejection message is classified into a rejection kind, by the
/// node's error codes.
pub open spec fn spec_classify_rejection(msg: Seq<char>) -> RejectionKind {
    if spec_contains(msg, "SEQUENCE_NUMBER_TOO_OLD"@) {
        RejectionKind::StaleSequenceNumber
    } else if spec_contains(msg, "INVALID_SIGNATURE"@) {
        RejectionKind::InvalidSignature
    } else if spec_contains(msg, "INSUFFICIENT_BALANCE"@) {
        RejectionKind::InsufficientFunds
    } else if spec_contains(msg, "MODULE"@) {
        RejectionKind::ModuleValidation
    } else {
        RejectionKind::Other
    }
}

/// Classifies a node rejection message, exactly as `spec_classify_rejection`
/// says.
pub fn classify_rejection(message: &str) -> (r: RejectionKind)
    ensures
        r == spec_classify_rejection(message@),
{
    if str_contains(message, "SEQUENCE_NUMBER_TOO_OLD") {
        RejectionKind::StaleSequenceNumber
    } else if str_contains(message, "INVALID_SIGNATURE") {
        RejectionKind::InvalidSignature
    } else if str_contains(message, "INSUFFICIENT_BALANCE") {
        RejectionKind::InsufficientFunds
    } else if str_contains(message, "MODULE") {
        RejectionKind::ModuleValidation
    } else {
        RejectionKind::Other
    }
}

/// Interprets the node's answer to a submission. An accepted transaction
/// (2xx) yields exactly the body's `hash` string; a client rejection (4xx)
/// yields exactly the classification of the body's `message` string;
/// anything else is a transport-level failure, retryable.
pub fn submit_response(status: u16, body: &str) -> (r: Result<String, SubmitError>)
    ensures
        r is Ok ==> 200 <= status < 300,
        (r matches Err(SubmitError::Rejected(_))) ==> 400 <= status < 500,
        r == Err::<String, SubmitError>(SubmitError::Transport) <==> (!(200 <= status < 300) && !(
        400 <= status < 500)),
        200 <= status < 300 ==> match spec_json_str_at(body@, seq!["hash"@]) {
            Some(h) => (r matches Ok(s) && s@ == h),
            None => r == Err::<String, SubmitError>(SubmitError::MalformedResponse),
        },
        400 <= status < 500 ==> match spec_json_str_at(body@, seq!["message"@]) {
            Some(m) => r == Err::<String, SubmitError>(
                SubmitError::Rejected(spec_classify_rejection(m)),
            ),
            None => r == Err::<String, SubmitError>(SubmitError::Rejected(RejectionKind::Other)),
        },
{
    if 200 <= status && status < 300 {
        match json_str_field(body, "hash") {
            Some(s) => Ok(s),
            None => Err(SubmitError::MalformedResponse),
        }
    } else if 400 <= status && status < 500 {
        match json_str_field(body, "message") {
            Some(m) => Err(SubmitError::Rejected(classify_rejection(m.as_str()))),
            None => Err(SubmitError::Rejected(RejectionKind::Other)),
        }
    } else {
        Err(SubmitError::Transport)
    }
}

/// The one anticipated race: a stale sequence number, rejected by the node,
/// is worth one automatic re-fetch-and-retry before the error surfaces.
/// True exactly for a stale-sequence rejection that has not been retried
/// yet.
pub fn should_refetch_and_retry(err: &SubmitError, already_retried: bool) -> (r: bool)
    ensures
        r == (!already_retried && err == SubmitError::Rejected(RejectionKind::StaleSequenceNumber)),
{
    if already_retried {
        return false;
    }
    match err {
        SubmitError::Rejected(RejectionKind::StaleSequenceNumber) => true,
        _ => false,
    }
}

/// One observation while polling a transaction's status.
#[derive(Debug, PartialEq, Eq)]
pub enum PollEvent {
    /// The node knows the transaction but has not finished it.
    Pending,
    /// The node does not know the hash (yet).
    NotFound,
    /// The node could not be reached for this attempt.
    TransportFailure,
    /// Terminal: executed successfully.
    CommittedSuccess,
    /// Terminal: executed and failed, with the node's reason.
    CommittedFailure { reason: String },
}

/// The terminal report for one submission.
#[derive(Debug, PartialEq, Eq)]
pub enum SubmissionOutcome {
    CommittedSuccess,
    CommittedFailure { reason: String },
    /// The retry budget ran out before the node reported a terminal state.
    /// Nothing is fabricated: the transaction may still commit later.
    TimedOut,
}

pub open spec fn is_terminal_event(e: PollEvent) -> bool {
    e is CommittedSuccess || e is CommittedFailure
}

pub open spec fn outcome_of_event(e: PollEvent) -> SubmissionOutcome {
    match e {
        PollEvent::CommittedSuccess => SubmissionOutcome::CommittedSuccess,
        PollEvent::CommittedFailure { reason } => SubmissionOutcome::CommittedFailure { reason },
        _ => SubmissionOutcome::TimedOut,
    }
}

/// What polling returns when the node's answers are `events`, one per
/// attempt, with at most `max_attempts` attempts: the first terminal
/// answer's outcome, or a timeout when the budget (or the answer supply)
/// runs out first. A non-terminal answer is never turned into a permanent
/// failure.
pub open spec fn spec_poll_outcome(events: Seq<PollEvent>, max_attempts: nat) -> SubmissionOutcome
    decreases max_attempts,
{
    if max_attempts == 0 || events.len() == 0 {
        SubmissionOutcome::TimedOut
    } else if is_terminal_event(events[0]) {
        outcome_of_event(events[0])
    } else {
        spec_poll_outcome(events.drop_first(), (max_attempts - 1) as nat)
    }
}

fn await_from(events: &Vec<PollEvent>, idx: usize, attempts: u64) -> (r: SubmissionOutcome)
    requires
        idx <= events@.len(),
    ensures
        r == spec_poll_outcome(
            events@.subrange(idx as int, events@.len() as int),
            attempts as nat,
        ),
    decreases attempts,
{
    let ghost tail = events@.subrange(idx as int, events@.len() as int);
    if attempts == 0 || idx == events.len() {
        SubmissionOutcome::TimedOut
    } else {
        proof {
            assert(tail[0] == events@[idx as int]);
            assert(tail.drop_first() =~= events@.subrange(idx as int + 1, events@.len() as int));
        }
        match &events[idx] {
            PollEvent::CommittedSuccess => SubmissionOutcome::CommittedSuccess,
            PollEvent::CommittedFailure { reason } => SubmissionOutcome::CommittedFailure {
                reason: reason.clone(),
            },
            _ => await_from(events, idx + 1, attempts - 1),
        }
    }
}

/// Polls for the transaction's terminal status: `events` are the node's
/// answers in order, one consumed per attempt. Returns the first terminal
/// status, or `TimedOut` once `max_attempts` are exhausted — with a budget
/// of zero it times out at once, before any answer is even looked at.
/// Read-only: safe to call any number of times.
pub fn await_completion(events: &Vec<PollEvent>, max_attempts: u64) -> (r: SubmissionOutcome)
    ensures
        r == spec_poll_outcome(events@, max_attempts as nat),
        max_attempts == 0 ==> r == SubmissionOutcome::TimedOut,
{
    let r = await_from(events, 0, max_attempts);
    proof {
        assert(events@.subrange(0, events@.len() as int) =~= events@);
    }
    r
}

/// Law: polling is idempotent once the transaction has reached a terminal
/// state. When the node's first answer reports that terminal event — as it
/// does on every later poll of a finished transaction — the outcome is that
/// event's outcome, whatever the positive attempt budget, so two such calls
/// agree.
pub proof fn lemma_await_completion_idempotent(
    events1: Seq<PollEvent>,
    events2: Seq<PollEvent>,
    n1: nat,
    n2: nat,
    t: PollEvent,
)
    requires
        is_terminal_event(t),
        n1 > 0,
        n2 > 0,
        events1.len() > 0,
        events2.len() > 0,
        events1[0] == t,
        events2[0] == t,
    ensures
        spec_poll_outcome(events1, n1) == outcome_of_event(t),
        spec_poll_outcome(events1, n1) == spec_poll_outcome(events2, n2),
{
}

/// Law: a zero attempt budget times out, whatever the node would have
/// answered; no answer is consumed, so no query is made.
pub proof fn lemma_zero_attempts_times_out(events: Seq<PollEvent>)
    ensures
        spec_poll_outcome(events, 0) == SubmissionOutcome::TimedOut,
{
}

/// The live polling state machine for one submission: the caller performs
/// one query per `should_query`, hands the observation to `observe`, and
/// takes the outcome with `finish`.
pub struct Poller {
    attempts_left: u64,
    outcome: Option<SubmissionOutcome>,
}

impl Poller {
    pub closed spec fn spec_attempts_left(&self) -> u64 {
        self.attempts_left
    }

    pub closed spec fn spec_outcome(&self) -> Option<SubmissionOutcome> {
        self.outcome
    }

    pub fn new(max_attempts: u64) -> (r: Self)
        ensures
            r.spec_attempts_left() == max_attempts,
            r.spec_outcome() is None,
    {
        Poller { attempts_left: max_attempts, outcome: None }
    }

    /// Whether another status query should be made. With a zero budget this
    /// is false from the start: no network call happens at all.
    pub fn should_query(&self) -> (r: bool)
        ensures
            r == (self.spec_outcome() is None && self.spec_attempts_left() > 0),
    {
        match self.outcome {
            Some(_) => false,
            None => self.attempts_left > 0,
        }
    }

    /// Records one observation: a terminal event fixes the outcome; any
    /// other event consumes one attempt.
    pub fn observe(&mut self, event: PollEvent)
        requires
            old(self).spec_outcome() is None,
            old(self).spec_attempts_left() > 0,
        ensures
            is_terminal_event(event) ==> final(self).spec_outcome() == Some(outcome_of_event(event))
                && final(self).spec_attempts_left() == old(self).spec_attempts_left(),
            !is_terminal_event(event) ==> final(self).spec_outcome() is None
                && final(self).spec_attempts_left() == old(self).spec_attempts_left() - 1,
    {
        match event {
            PollEvent::CommittedSuccess => {
                self.outcome = Some(SubmissionOutcome::CommittedSuccess);
            },
            PollEvent::CommittedFailure { reason } => {
                self.outcome = Some(SubmissionOutcome::CommittedFailure { reason });
            },
            _ => {
                self.attempts_left = self.attempts_left - 1;
            },
        }
    }

    /// The terminal report: the recorded outcome, or a timeout when the
    /// budget ran out without one.
    pub fn finish(self) -> (r: SubmissionOutcome)
        requires
            self.spec_outcome() is Some || self.spec_attempts_left() == 0,
        ensures
            match self.spec_outcome() {
                Some(o) => r == o,
                None => r == SubmissionOutcome::TimedOut,
            },
    {
        match self.outcome {
            Some(o) => o,
            None => SubmissionOutcome::TimedOut,
        }
    }
}

/// Interprets one status query response as a poll event, exactly: 404 is
/// "not yet known"; any other non-2xx is a transport failure for this
/// attempt; a 2xx body fixes the event through its `type`, `success` and
/// `vm_status` fields — pending while the node reports
/// `pending_transaction`, then terminal success or failure (the failure
/// carrying the node's `vm_status` reason).
pub fn poll_event_from_response(status: u16, body: &str) -> (r: PollEvent)
    ensures
        status == 404 ==> r == PollEvent::NotFound,
        !(200 <= status < 300) && status != 404 ==> r == PollEvent::TransportFailure,
        200 <= status < 300 ==> match spec_json_str_at(body@, seq!["type"@]) {
            None => r == PollEvent::TransportFailure,
            Some(t) => if t == "pending_transaction"@ {
                r == PollEvent::Pending
            } else {
                match spec_json_bool_at(body@, seq!["success"@]) {
                    Some(true) => r == PollEvent::CommittedSuccess,
                    Some(false) => (r matches PollEvent::CommittedFailure { reason } && reason@
                        == match spec_json_str_at(body@, seq!["vm_status"@]) {
                        Some(v) => v,
                        None => Seq::empty(),
                    }),
                    None => r == PollEvent::TransportFailure,
                }
            },
        },
{
    if status == 404 {
        return PollEvent::NotFound;
    }
    if !(200 <= status && status < 300) {
        return PollEvent::TransportFailure;
    }
    let ty = match json_str_field(body, "type") {
        Some(t) => t,
        None => {
            return PollEvent::TransportFailure;
        },
    };
    if str_eq(ty.as_str(), "pending_transaction") {
        return PollEvent::Pending;
    }
    match json_bool_field(body, "success") {
        Some(true) => PollEvent::CommittedSuccess,
        Some(false) => {
            let reason = match json_str_field(body, "vm_status") {
                Some(s) => s,
                None => String::new(),
            };
            PollEvent::CommittedFailure { reason }
        },
        None => PollEvent::TransportFailure,
    }
}

} // verus!
