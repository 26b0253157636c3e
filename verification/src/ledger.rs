use vstd::prelude::*;

use crate::error::{VcxError, VcxErrorKind};

verus! {

/// How many further attempts a submission is granted after the first.
pub const SUBMIT_RETRY_CNT: usize = 3;

/// The sequence number a ledger reply carries in its `result.seqNo` JSON
/// field, when the reply parses as JSON and the field holds one.
pub uninterp spec fn reply_seq_no(reply: Seq<char>) -> Option<u64>;

/// Relies on `serde_json::from_str` and `serde_json::Value::as_u64`:
/// reads the reply's `result.seqNo` field. The outcome is a function of
/// the reply text alone, named `reply_seq_no`.
#[verifier::external_body]
fn parse_reply_seq_no(reply: &str) -> (r: Option<u64>)
    ensures
        r == reply_seq_no(reply@),
{
    match serde_json::from_str::<serde_json::Value>(reply) {
        Ok(v) => v["result"]["seqNo"].as_u64(),
        Err(_) => None,
    }
}

/// The sequence number of a reply, needed as the freshness baseline for
/// a later submission; a reply without one is reported as malformed.
pub fn extract_seq_no_from_reply(reply: &str) -> (r: Result<u64, VcxError>)
    ensures
        match r {
            Ok(n) => reply_seq_no(reply@) == Some(n),
            Err(e) => reply_seq_no(reply@) is None && e.kind == VcxErrorKind::SerializationError,
        },
{
    match parse_reply_seq_no(reply) {
        Some(n) => Ok(n),
        None => Err(
            VcxError::from_msg(
                VcxErrorKind::SerializationError,
                "reply carries no sequence number",
            ),
        ),
    }
}

/// Whether `reply` postdates the baseline: it carries a sequence number
/// at least `baseline`.
pub open spec fn reply_postdates(reply: Seq<char>, baseline: u64) -> bool {
    match reply_seq_no(reply) {
        Some(n) => n >= baseline,
        None => false,
    }
}

/// What to do with the reply of one attempt: keep it, or submit again.
#[derive(Clone, Copy, PartialEq, Eq, Structural, Debug)]
pub enum SubmitDecision {
    Accept,
    Retry,
}

/// The retry rule: a reply that postdates the baseline is accepted at
/// once; a stale or unparsable reply is retried while attempts remain,
/// and once they are spent the last reply is accepted as it is.
pub open spec fn spec_submit_decision(attempt: int, reply: Seq<char>, baseline: u64) -> SubmitDecision {
    if reply_postdates(reply, baseline) || attempt >= SUBMIT_RETRY_CNT {
        SubmitDecision::Accept
    } else {
        SubmitDecision::Retry
    }
}

/// Decides the fate of `reply` on attempt number `attempt` (counted from
/// zero) against `baseline`.
pub fn submit_decision(attempt: usize, reply: &str, baseline: u64) -> (d: SubmitDecision)
    ensures
        d == spec_submit_decision(attempt as int, reply@, baseline),
{
    let fresh = match parse_reply_seq_no(reply) {
        Some(n) => n >= baseline,
        None => false,
    };
    if fresh || attempt >= SUBMIT_RETRY_CNT {
        SubmitDecision::Accept
    } else {
        SubmitDecision::Retry
    }
}

/// The submission collaborator: performs one attempt against the
/// ledger-like service and hands back its reply text. Implementations
/// live outside the library and may pace themselves between attempts.
pub trait LedgerSubmitter {
    fn submit(&mut self) -> Result<String, VcxError>;
}

/// Submits through `submitter` until the reply postdates the sequence
/// number of `previous_response`, retrying a stale or unparsable reply
/// at most `SUBMIT_RETRY_CNT` further times and then returning the last
/// reply as it is, rather than failing outright. A submission error is
/// fatal and returned unchanged; a previous response without a sequence
/// number is rejected as malformed before anything is submitted.
pub fn submit_request_with_retries<S: LedgerSubmitter>(
    submitter: &mut S,
    previous_response: &str,
) -> (r: Result<String, VcxError>)
    ensures
        reply_seq_no(previous_response@) is None ==> (r matches Err(e) && e.kind
            == VcxErrorKind::SerializationError),
        r matches Ok(reply) ==> reply_seq_no(previous_response@) is Some,
{
    let baseline = extract_seq_no_from_reply(previous_response)?;
    let mut attempt: usize = 0;
    loop
        invariant
            attempt <= SUBMIT_RETRY_CNT,
            reply_seq_no(previous_response@) == Some(baseline),
        decreases SUBMIT_RETRY_CNT - attempt,
    {
        let reply = match submitter.submit() {
            Ok(s) => s,
            Err(e) => {
                return Err(e);
            },
        };
        match submit_decision(attempt, reply.as_str(), baseline) {
            SubmitDecision::Accept => {
                return Ok(reply);
            },
            SubmitDecision::Retry => {
                proof {
                    assert(attempt < SUBMIT_RETRY_CNT);
                }
                attempt = attempt + 1;
            },
        }
    }
}

/// The retry rule in full: a reply that does not postdate the baseline
/// is retried on every attempt that remains below the cap, a reply that
/// postdates it is accepted at once, and once the cap is reached any
/// reply is accepted rather than reported as a failure.
pub proof fn lemma_stale_reply_retried(attempt: int, reply: Seq<char>, baseline: u64)
    ensures
        !reply_postdates(reply, baseline) && attempt < SUBMIT_RETRY_CNT ==> spec_submit_decision(
            attempt,
            reply,
            baseline,
        ) is Retry,
        !reply_postdates(reply, baseline) && attempt >= SUBMIT_RETRY_CNT ==> spec_submit_decision(
            attempt,
            reply,
            baseline,
        ) is Accept,
        reply_postdates(reply, baseline) ==> spec_submit_decision(attempt, reply, baseline)
            is Accept,
{
}

} // verus!
