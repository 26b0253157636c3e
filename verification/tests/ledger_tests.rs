use aries_connection::error::{VcxError, VcxErrorKind};
use aries_connection::ledger::{
    extract_seq_no_from_reply, submit_request_with_retries, LedgerSubmitter, SUBMIT_RETRY_CNT,
};

struct ScriptedSubmitter {
    replies: Vec<String>,
    calls: usize,
}

impl LedgerSubmitter for ScriptedSubmitter {
    fn submit(&mut self) -> Result<String, VcxError> {
        let i = if self.calls < self.replies.len() { self.calls } else { self.replies.len() - 1 };
        let r = self.replies[i].clone();
        self.calls += 1;
        Ok(r)
    }
}

struct BrokenSubmitter {
    calls: usize,
}

impl LedgerSubmitter for BrokenSubmitter {
    fn submit(&mut self) -> Result<String, VcxError> {
        self.calls += 1;
        Err(VcxError::from_msg(VcxErrorKind::IOError, "pool unreachable"))
    }
}

fn reply(seq: u64) -> String {
    format!("{{\"result\":{{\"seqNo\":{}}}}}", seq)
}

#[test]
fn extract_seq_no_reads_the_reply() {
    assert_eq!(extract_seq_no_from_reply(&reply(5)).unwrap(), 5);
    assert_eq!(extract_seq_no_from_reply(&reply(0)).unwrap(), 0);
}

#[test]
fn extract_seq_no_rejects_malformed_replies() {
    let e = extract_seq_no_from_reply("not json at all").unwrap_err();
    assert_eq!(e.kind, VcxErrorKind::SerializationError);
    let e = extract_seq_no_from_reply("{\"result\":{}}").unwrap_err();
    assert_eq!(e.kind, VcxErrorKind::SerializationError);
    let e = extract_seq_no_from_reply("{\"result\":{\"seqNo\":\"five\"}}").unwrap_err();
    assert_eq!(e.kind, VcxErrorKind::SerializationError);
}

#[test]
fn stale_replies_are_retried_up_to_the_cap_then_returned() {
    let mut s = ScriptedSubmitter { replies: vec![reply(3)], calls: 0 };
    let out = submit_request_with_retries(&mut s, &reply(10)).unwrap();
    assert_eq!(s.calls, SUBMIT_RETRY_CNT + 1);
    assert_eq!(out, reply(3));
}

#[test]
fn fresh_reply_is_accepted_at_once() {
    let mut s = ScriptedSubmitter { replies: vec![reply(10)], calls: 0 };
    let out = submit_request_with_retries(&mut s, &reply(10)).unwrap();
    assert_eq!(s.calls, 1);
    assert_eq!(out, reply(10));
}

#[test]
fn a_later_fresh_reply_stops_the_retrying() {
    let mut s = ScriptedSubmitter { replies: vec![reply(3), reply(12)], calls: 0 };
    let out = submit_request_with_retries(&mut s, &reply(10)).unwrap();
    assert_eq!(s.calls, 2);
    assert_eq!(out, reply(12));
}

#[test]
fn unparsable_replies_are_retried_like_stale_ones() {
    let mut s = ScriptedSubmitter { replies: vec!["garbage".to_string()], calls: 0 };
    let out = submit_request_with_retries(&mut s, &reply(10)).unwrap();
    assert_eq!(s.calls, SUBMIT_RETRY_CNT + 1);
    assert_eq!(out, "garbage".to_string());
}

#[test]
fn unparsable_baseline_is_rejected_before_submitting() {
    let mut s = ScriptedSubmitter { replies: vec![reply(3)], calls: 0 };
    let e = submit_request_with_retries(&mut s, "garbage").unwrap_err();
    assert_eq!(e.kind, VcxErrorKind::SerializationError);
    assert_eq!(s.calls, 0);
}

#[test]
fn a_submission_error_is_fatal() {
    let mut s = BrokenSubmitter { calls: 0 };
    let e = submit_request_with_retries(&mut s, &reply(10)).unwrap_err();
    assert_eq!(e.kind, VcxErrorKind::IOError);
    assert_eq!(s.calls, 1);
}
