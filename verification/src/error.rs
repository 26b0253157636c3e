use vstd::prelude::*;

verus! {

/// The kinds of failure a connection operation can report.
///
/// - `InvalidAction`: the operation does not match the connection's role or
///   current state; the connection value is unchanged and usable.
/// - `NotReady`: a required piece of peer information (such as the peer's
///   document) is absent.
/// - `VerificationFailed`: a signature check failed; the state machine did
///   not advance.
/// - `IOError`: delivery through the transport failed; the transition was
///   not applied and may be retried.
/// - `SerializationError`: an incoming message is malformed or does not
///   belong to this conversation; it is rejected before any state change.
#[derive(Clone, Copy, PartialEq, Eq, Structural, Debug)]
pub enum VcxErrorKind {
    InvalidAction,
    NotReady,
    VerificationFailed,
    IOError,
    SerializationError,
}

/// An error value: a kind from the taxonomy above plus a descriptive message.
#[derive(Debug)]
pub struct VcxError {
    pub kind: VcxErrorKind,
    pub msg: String,
}

impl VcxError {
    pub fn from_msg(kind: VcxErrorKind, msg: &str) -> (r: VcxError)
        ensures
            r.kind == kind,
            r.msg@ == msg@,
    {
        VcxError { kind, msg: msg.to_owned() }
    }
}

} // verus!
