use vstd::prelude::*;

use crate::collaborators::{Keystore, Transport};
use crate::did_doc::{strings_view, DidDoc, DidDocView};
use crate::error::{VcxError, VcxErrorKind};
use crate::messages::{
    A2AMessage, Ack, AckStatus, AckView, ConnectionData, ConnectionDataView, Invitation,
    InvitationKind, InvitationView, Request, RequestView, SignedResponse, SignedResponseView,
};
use crate::pairwise_info::{spec_own_doc, PairwiseInfo, PairwiseInfoView};
use crate::thread::{
    lemma_increment_receiver_bound, orders_unique, spec_increment_receiver, spec_thread_id, Thread,
    ThreadView,
};

verus! {

/// The stage an invitee connection is in.
#[derive(Clone, Copy, PartialEq, Eq, Structural, Debug)]
pub enum InviteeState {
    Initial,
    Invited,
    Requested,
    Responded,
    Completed,
}

/// The full state of the invitee machine: the stage tag together with the
/// data that belongs to that stage.
#[derive(Debug)]
pub enum InviteeFullState {
    Initial,
    Invited { invitation: Invitation },
    Requested { request: Request },
    Responded { response: SignedResponse },
    Completed { ack: Ack },
}

/// The mathematical image of an [`InviteeFullState`].
#[verifier::ext_equal]
pub enum InviteeFullStateView {
    Initial,
    Invited { invitation: InvitationView },
    Requested { request: RequestView },
    Responded { response: SignedResponseView },
    Completed { ack: AckView },
}

impl View for InviteeFullState {
    type V = InviteeFullStateView;

    open spec fn view(&self) -> InviteeFullStateView {
        match self {
            InviteeFullState::Initial => InviteeFullStateView::Initial,
            InviteeFullState::Invited { invitation } => InviteeFullStateView::Invited {
                invitation: invitation@,
            },
            InviteeFullState::Requested { request } => InviteeFullStateView::Requested {
                request: request@,
            },
            InviteeFullState::Responded { response } => InviteeFullStateView::Responded {
                response: response@,
            },
            InviteeFullState::Completed { ack } => InviteeFullStateView::Completed { ack: ack@ },
        }
    }
}

impl Clone for InviteeFullState {
    fn clone(&self) -> (r: Self)
        ensures
            r@ == self@,
    {
        match self {
            InviteeFullState::Initial => InviteeFullState::Initial,
            InviteeFullState::Invited { invitation } => InviteeFullState::Invited {
                invitation: invitation.clone(),
            },
            InviteeFullState::Requested { request } => InviteeFullState::Requested {
                request: request.clone(),
            },
            InviteeFullState::Responded { response } => InviteeFullState::Responded {
                response: response.clone(),
            },
            InviteeFullState::Completed { ack } => InviteeFullState::Completed { ack: ack.clone() },
        }
    }
}

/// The stage tag of a full invitee state.
pub open spec fn invitee_state_tag(s: InviteeFullStateView) -> InviteeState {
    match s {
        InviteeFullStateView::Initial => InviteeState::Initial,
        InviteeFullStateView::Invited { .. } => InviteeState::Invited,
        InviteeFullStateView::Requested { .. } => InviteeState::Requested,
        InviteeFullStateView::Responded { .. } => InviteeState::Responded,
        InviteeFullStateView::Completed { .. } => InviteeState::Completed,
    }
}

/// How many protocol messages an invitee has sent by this stage: the
/// request and, at the end, the acknowledgement.
pub open spec fn invitee_sends(s: InviteeFullStateView) -> u32 {
    match s {
        InviteeFullStateView::Initial => 0,
        InviteeFullStateView::Invited { .. } => 0,
        InviteeFullStateView::Requested { .. } => 1,
        InviteeFullStateView::Responded { .. } => 1,
        InviteeFullStateView::Completed { .. } => 2,
    }
}

/// How many inbound messages an invitee has recorded by this stage: only
/// the response travels inbound.
pub open spec fn invitee_recvs(s: InviteeFullStateView) -> u32 {
    match s {
        InviteeFullStateView::Initial => 0,
        InviteeFullStateView::Invited { .. } => 0,
        InviteeFullStateView::Requested { .. } => 0,
        InviteeFullStateView::Responded { .. } => 1,
        InviteeFullStateView::Completed { .. } => 1,
    }
}

/// The invitee's role state machine: its identity, the conversation
/// tracker, the peer's document as far as it is known, and the stage.
#[derive(Debug)]
pub struct SmConnectionInvitee {
    pub source_id: String,
    pub pairwise_info: PairwiseInfo,
    pub thread: Thread,
    pub did_doc: Option<DidDoc>,
    pub state: InviteeFullState,
}

/// The mathematical image of a [`SmConnectionInvitee`].
#[verifier::ext_equal]
pub struct SmConnectionInviteeView {
    pub source_id: Seq<char>,
    pub pairwise_info: PairwiseInfoView,
    pub thread: ThreadView,
    pub did_doc: Option<DidDocView>,
    pub state: InviteeFullStateView,
}

impl View for SmConnectionInvitee {
    type V = SmConnectionInviteeView;

    open spec fn view(&self) -> SmConnectionInviteeView {
        SmConnectionInviteeView {
            source_id: self.source_id@,
            pairwise_info: self.pairwise_info@,
            thread: self.thread@,
            did_doc: match self.did_doc {
                Some(d) => Some(d@),
                None => None,
            },
            state: self.state@,
        }
    }
}

impl Clone for SmConnectionInvitee {
    fn clone(&self) -> (r: Self)
        ensures
            r@ == self@,
    {
        SmConnectionInvitee {
            source_id: self.source_id.clone(),
            pairwise_info: self.pairwise_info.clone(),
            thread: self.thread.clone(),
            did_doc: match &self.did_doc {
                Some(d) => Some(d.clone()),
                None => None,
            },
            state: self.state.clone(),
        }
    }
}

/// Whether the counters of `v` are shaped as an invitee at this stage can
/// have produced them: distinct keys, the outbound counter bounded by the
/// messages the stage has sent, every inbound counter bounded by the
/// messages the stage has received.
pub open spec fn invitee_wf(v: SmConnectionInviteeView) -> bool {
    &&& orders_unique(v.thread.received_orders)
    &&& v.thread.sender_order <= invitee_sends(v.state)
    &&& forall|i: int|
        0 <= i < v.thread.received_orders.len() ==> (#[trigger] v.thread.received_orders[i]).1
            <= invitee_recvs(v.state)
}

/// The successor of `v` once it has ingested `invitation`.
pub open spec fn spec_handle_invitation(
    v: SmConnectionInviteeView,
    invitation: InvitationView,
) -> SmConnectionInviteeView {
    SmConnectionInviteeView {
        thread: ThreadView { thid: Some(invitation.id), ..v.thread },
        state: InviteeFullStateView::Invited { invitation },
        ..v
    }
}

/// The thread id a request adopts: its own fresh id under a Public
/// invitation, the invitation's id under a Pairwise one.
pub open spec fn spec_request_thread_id(
    invitation: InvitationView,
    request_id: Seq<char>,
) -> Seq<char> {
    if invitation.kind is Public {
        request_id
    } else {
        invitation.id
    }
}

/// The parent thread id a request carries: a Public invitation is
/// recorded as the parent; otherwise the tracker's parent is kept.
pub open spec fn spec_request_pthid(
    v: SmConnectionInviteeView,
    invitation: InvitationView,
) -> Option<Seq<char>> {
    if invitation.kind is Public {
        Some(invitation.id)
    } else {
        v.thread.pthid
    }
}

/// The request an invitee at `v` (stage Invited) sends: the fresh id, the
/// thread decorator per invitation-kind policy, and the invitee's own
/// document.
pub open spec fn spec_request_of(
    v: SmConnectionInviteeView,
    request_id: Seq<char>,
    routing_keys: Seq<Seq<char>>,
    service_endpoint: Seq<char>,
) -> RequestView {
    let invitation = v.state->Invited_invitation;
    RequestView {
        id: request_id,
        thread: ThreadView {
            thid: Some(spec_request_thread_id(invitation, request_id)),
            pthid: spec_request_pthid(v, invitation),
            sender_order: v.thread.sender_order,
            received_orders: Seq::empty(),
        },
        connection: ConnectionDataView {
            did: v.pairwise_info.pw_did,
            did_doc: spec_own_doc(v.pairwise_info, routing_keys, service_endpoint),
        },
    }
}

/// The successor of `v` (stage Invited) once its request is sent: the
/// thread id follows the invitation-kind policy, the outbound counter
/// advances by exactly 1, and the request is retained.
pub open spec fn spec_send_request(
    v: SmConnectionInviteeView,
    request_id: Seq<char>,
    routing_keys: Seq<Seq<char>>,
    service_endpoint: Seq<char>,
) -> SmConnectionInviteeView {
    let invitation = v.state->Invited_invitation;
    SmConnectionInviteeView {
        thread: ThreadView {
            thid: Some(spec_request_thread_id(invitation, request_id)),
            pthid: spec_request_pthid(v, invitation),
            sender_order: (v.thread.sender_order + 1) as u32,
            received_orders: v.thread.received_orders,
        },
        state: InviteeFullStateView::Requested {
            request: spec_request_of(v, request_id, routing_keys, service_endpoint),
        },
        ..v
    }
}

/// Whether the peer's document is present and declares at least one
/// recipient key, so a response can be verified against it.
pub open spec fn invitee_doc_ready(v: SmConnectionInviteeView) -> bool {
    v.did_doc matches Some(d) && d.recipient_keys.len() > 0
}

/// The key a response's signature must verify against: the first
/// recipient key the inviter declared.
pub open spec fn spec_expected_vk(v: SmConnectionInviteeView) -> Seq<char> {
    v.did_doc.unwrap().recipient_keys[0]
}

/// Whether `response` belongs to this conversation: a thread id is
/// assigned and the response names exactly it.
pub open spec fn response_thread_matches(
    v: SmConnectionInviteeView,
    response: SignedResponseView,
) -> bool {
    v.thread.thid is Some && response.thread.thid == v.thread.thid
}

/// The successor of `v` (stage Requested) once `response` has been
/// verified: the peer's fresh document replaces the known one, the
/// peer's inbound counter advances, the response is retained.
pub open spec fn spec_apply_response(
    v: SmConnectionInviteeView,
    response: SignedResponseView,
) -> SmConnectionInviteeView {
    SmConnectionInviteeView {
        did_doc: Some(response.connection.did_doc),
        thread: spec_increment_receiver(v.thread, response.connection.did),
        state: InviteeFullStateView::Responded { response },
        ..v
    }
}

/// The acknowledgement an invitee at `v` sends: it echoes the thread.
pub open spec fn spec_ack_of(v: SmConnectionInviteeView, ack_id: Seq<char>) -> AckView {
    AckView {
        id: ack_id,
        thread: ThreadView {
            thid: v.thread.thid,
            pthid: v.thread.pthid,
            sender_order: v.thread.sender_order,
            received_orders: Seq::empty(),
        },
        status: AckStatus::Accepted,
    }
}

/// The successor of `v` (stage Responded) once its acknowledgement is
/// sent: the outbound counter advances, the handshake is complete, and
/// the acknowledgement that went out — `spec_ack_of(v, ack_id)`, echoing
/// this conversation's thread — is retained.
pub open spec fn spec_send_ack(v: SmConnectionInviteeView, ack_id: Seq<char>) -> SmConnectionInviteeView {
    SmConnectionInviteeView {
        thread: ThreadView { sender_order: (v.thread.sender_order + 1) as u32, ..v.thread },
        state: InviteeFullStateView::Completed { ack: spec_ack_of(v, ack_id) },
        ..v
    }
}

impl SmConnectionInvitee {
    /// Well-formedness carried through every transition.
    pub open spec fn wf(self) -> bool {
        invitee_wf(self@)
    }

    /// A fresh invitee over the given identity and the inviter's document.
    pub fn new(source_id: String, pairwise_info: PairwiseInfo, did_doc: DidDoc) -> (r: Self)
        ensures
            r@.source_id == source_id@,
            r@.pairwise_info == pairwise_info@,
            r@.did_doc == Some(did_doc@),
            r@.state is Initial,
            r@.thread.thid is None,
            r@.thread.pthid is None,
            r@.thread.sender_order == 0,
            r@.thread.received_orders == Seq::<(Seq<char>, u32)>::empty(),
            r.wf(),
    {
        SmConnectionInvitee {
            source_id,
            pairwise_info,
            thread: Thread::new(),
            did_doc: Some(did_doc),
            state: InviteeFullState::Initial,
        }
    }

    /// The stage this machine is in.
    pub fn get_state(&self) -> (r: InviteeState)
        ensures
            r == invitee_state_tag(self@.state),
    {
        match &self.state {
            InviteeFullState::Initial => InviteeState::Initial,
            InviteeFullState::Invited { .. } => InviteeState::Invited,
            InviteeFullState::Requested { .. } => InviteeState::Requested,
            InviteeFullState::Responded { .. } => InviteeState::Responded,
            InviteeFullState::Completed { .. } => InviteeState::Completed,
        }
    }

    /// The conversation's thread id; empty until one is assigned.
    pub fn get_thread_id(&self) -> (r: String)
        ensures
            r@ == spec_thread_id(self@.thread),
    {
        match &self.thread.thid {
            Some(s) => s.clone(),
            None => String::new(),
        }
    }

    /// This connection's own pairwise identity.
    pub fn pairwise_info(&self) -> (r: &PairwiseInfo)
        ensures
            r@ == self@.pairwise_info,
    {
        &self.pairwise_info
    }

    /// The peer's document, as far as it is known.
    pub fn their_did_doc(&self) -> (r: Option<DidDoc>)
        ensures
            match r {
                Some(d) => self@.did_doc == Some(d@),
                None => self@.did_doc is None,
            },
    {
        match &self.did_doc {
            Some(d) => Some(d.clone()),
            None => None,
        }
    }

    /// The peer's DID; `NotReady` while no peer document is known.
    pub fn remote_did(&self) -> (r: Result<String, VcxError>)
        ensures
            match r {
                Ok(s) => self@.did_doc matches Some(d) && s@ == d.id,
                Err(e) => self@.did_doc is None && e.kind == VcxErrorKind::NotReady,
            },
    {
        match &self.did_doc {
            Some(d) => Ok(d.id.clone()),
            None => Err(
                VcxError::from_msg(
                    VcxErrorKind::NotReady,
                    "counterparty diddoc is not available",
                ),
            ),
        }
    }

    /// The peer's verification key; `NotReady` while no peer document
    /// with a recipient key is known.
    pub fn remote_vk(&self) -> (r: Result<String, VcxError>)
        ensures
            match r {
                Ok(s) => self@.did_doc matches Some(d) && d.recipient_keys.len() > 0 && s@
                    == d.recipient_keys[0],
                Err(e) => !invitee_doc_ready(self@) && e.kind == VcxErrorKind::NotReady,
            },
    {
        match &self.did_doc {
            Some(d) => {
                if d.recipient_keys.len() > 0 {
                    Ok(d.recipient_keys[0].clone())
                } else {
                    Err(
                        VcxError::from_msg(
                            VcxErrorKind::NotReady,
                            "counterparty diddoc declares no recipient key",
                        ),
                    )
                }
            },
            None => Err(
                VcxError::from_msg(
                    VcxErrorKind::NotReady,
                    "counterparty diddoc is not available",
                ),
            ),
        }
    }

    /// Ingests an invitation. Valid only in the Initial stage; any other
    /// stage reports `InvalidAction`. The invitation's id is provisionally
    /// adopted as the thread id; `send_connection_request` settles it per
    /// the invitation-kind policy.
    pub fn handle_invitation(self, invitation: Invitation) -> (r: Result<Self, VcxError>)
        requires
            self.wf(),
        ensures
            match r {
                Ok(next) => self@.state is Initial && next@ == spec_handle_invitation(
                    self@,
                    invitation@,
                ) && next.wf(),
                Err(e) => !(self@.state is Initial) && e.kind == VcxErrorKind::InvalidAction,
            },
    {
        let ghost v0 = self@;
        match &self.state {
            InviteeFullState::Initial => {
                let SmConnectionInvitee { source_id, pairwise_info, thread, did_doc, state: _ } =
                    self;
                let thread = thread.set_thid(invitation.id.clone());
                let next = SmConnectionInvitee {
                    source_id,
                    pairwise_info,
                    thread,
                    did_doc,
                    state: InviteeFullState::Invited { invitation },
                };
                proof {
                    assert(next@ =~~= spec_handle_invitation(v0, invitation@));
                }
                Ok(next)
            },
            _ => Err(
                VcxError::from_msg(
                    VcxErrorKind::InvalidAction,
                    "invalid action: only an initial invitee can ingest an invitation",
                ),
            ),
        }
    }

    /// Builds the connection request, delivers it through the transport,
    /// and advances Invited to Requested. The thread id follows the
    /// invitation-kind policy: a Public invitation yields a thread id
    /// equal to the fresh `request_id`, a Pairwise invitation keeps the
    /// invitation's id. Any other stage reports `InvalidAction`; a missing
    /// peer document reports `NotReady`; a failed delivery reports the
    /// transport's error and the transition is not applied.
    pub fn send_connection_request<Tp: Transport>(
        self,
        request_id: String,
        routing_keys: Vec<String>,
        service_endpoint: String,
        transport: &mut Tp,
    ) -> (r: Result<Self, VcxError>)
        requires
            self.wf(),
        ensures
            match r {
                Ok(next) => self@.state is Invited && self@.did_doc is Some && next@
                    == spec_send_request(
                    self@,
                    request_id@,
                    strings_view(routing_keys@),
                    service_endpoint@,
                ) && next.wf(),
                Err(e) => {
                    ||| !(self@.state is Invited) && e.kind == VcxErrorKind::InvalidAction
                    ||| self@.state is Invited && self@.did_doc is None && e.kind
                        == VcxErrorKind::NotReady
                    ||| self@.state is Invited && self@.did_doc is Some
                },
            },
    {
        let ghost v0 = self@;
        let SmConnectionInvitee { source_id, pairwise_info, thread, did_doc, state } = self;
        match state {
            InviteeFullState::Invited { invitation } => {
                let doc = match did_doc {
                    Some(d) => d,
                    None => {
                        return Err(
                            VcxError::from_msg(
                                VcxErrorKind::NotReady,
                                "counterparty diddoc is not available",
                            ),
                        );
                    },
                };
                let tid: String;
                let pthid_new: Option<String>;
                if invitation.kind == InvitationKind::Public {
                    tid = request_id.clone();
                    pthid_new = Some(invitation.id.clone());
                } else {
                    tid = invitation.id.clone();
                    pthid_new = thread.pthid.clone();
                }
                let own_doc = DidDoc {
                    id: pairwise_info.pw_did.clone(),
                    recipient_keys: vec![pairwise_info.pw_vk.clone()],
                    routing_keys,
                    service_endpoint,
                };
                let request = Request {
                    id: request_id,
                    thread: Thread {
                        thid: Some(tid.clone()),
                        pthid: pthid_new.clone(),
                        sender_order: thread.sender_order,
                        received_orders: Vec::new(),
                    },
                    connection: ConnectionData {
                        did: pairwise_info.pw_did.clone(),
                        did_doc: own_doc,
                    },
                };
                let msg = A2AMessage::ConnectionRequest(request.clone());
                match transport.send(&doc, &pairwise_info.pw_vk, &msg) {
                    Ok(_) => {},
                    Err(e) => {
                        return Err(e);
                    },
                }
                let new_thread = Thread {
                    thid: Some(tid),
                    pthid: pthid_new,
                    sender_order: thread.sender_order + 1,
                    received_orders: thread.received_orders,
                };
                let next = SmConnectionInvitee {
                    source_id,
                    pairwise_info,
                    thread: new_thread,
                    did_doc: Some(doc),
                    state: InviteeFullState::Requested { request },
                };
                proof {
                    assert(next@ =~~= spec_send_request(
                        v0,
                        request_id@,
                        strings_view(routing_keys@),
                        service_endpoint@,
                    ));
                }
                Ok(next)
            },
            _ => Err(
                VcxError::from_msg(
                    VcxErrorKind::InvalidAction,
                    "invalid action: only an invited invitee can send a request",
                ),
            ),
        }
    }

    /// Applies the outcome of the signature check to a pending response.
    /// Exactly when the stage is Requested, the peer document declares a
    /// key, the response belongs to this thread and `valid` holds, the
    /// machine advances to Responded; a failed check reports
    /// `VerificationFailed` and the stage does not advance.
    pub fn handle_response_verdict(self, response: SignedResponse, valid: bool) -> (r: Result<
        Self,
        VcxError,
    >)
        requires
            self.wf(),
        ensures
            ({
                let v = self@;
                if !(v.state is Requested) {
                    r matches Err(e) && e.kind == VcxErrorKind::InvalidAction
                } else if !invitee_doc_ready(v) {
                    r matches Err(e) && e.kind == VcxErrorKind::NotReady
                } else if !response_thread_matches(v, response@) {
                    r matches Err(e) && e.kind == VcxErrorKind::SerializationError
                } else if !valid {
                    r matches Err(e) && e.kind == VcxErrorKind::VerificationFailed
                } else {
                    r matches Ok(next) && next@ == spec_apply_response(v, response@) && next.wf()
                }
            }),
    {
        let ghost v0 = self@;
        match &self.state {
            InviteeFullState::Requested { .. } => {},
            _ => {
                return Err(
                    VcxError::from_msg(
                        VcxErrorKind::InvalidAction,
                        "invalid action: only a requested invitee can process a response",
                    ),
                );
            },
        }
        let doc_ready = match &self.did_doc {
            Some(d) => d.recipient_keys.len() > 0,
            None => false,
        };
        if !doc_ready {
            return Err(
                VcxError::from_msg(
                    VcxErrorKind::NotReady,
                    "counterparty diddoc declares no recipient key",
                ),
            );
        }
        let thread_ok = match (&self.thread.thid, &response.thread.thid) {
            (Some(a), Some(b)) => *a == *b,
            _ => false,
        };
        if !thread_ok {
            return Err(
                VcxError::from_msg(
                    VcxErrorKind::SerializationError,
                    "response does not belong to this conversation's thread",
                ),
            );
        }
        if !valid {
            return Err(
                VcxError::from_msg(
                    VcxErrorKind::VerificationFailed,
                    "response signature does not verify against the inviter's declared key",
                ),
            );
        }
        let SmConnectionInvitee { source_id, pairwise_info, mut thread, did_doc: _, state: _ } =
            self;
        proof {
            lemma_increment_receiver_bound(
                thread@,
                response.connection.did@,
                invitee_recvs(v0.state),
            );
        }
        thread.increment_receiver(response.connection.did.as_str());
        let new_doc = response.connection.did_doc.clone();
        let next = SmConnectionInvitee {
            source_id,
            pairwise_info,
            thread,
            did_doc: Some(new_doc),
            state: InviteeFullState::Responded { response },
        };
        proof {
            assert(next@ =~~= spec_apply_response(v0, response@));
        }
        Ok(next)
    }

    /// Verifies `response` against the inviter's declared key through the
    /// keystore and, on success, advances Requested to Responded. A failed
    /// check reports `VerificationFailed` and the stage does not advance,
    /// so the same response may be processed again.
    pub fn handle_connection_response<K: Keystore>(
        self,
        keystore: &mut K,
        response: SignedResponse,
    ) -> (r: Result<Self, VcxError>)
        requires
            self.wf(),
        ensures
            match r {
                Ok(next) => self@.state is Requested && invitee_doc_ready(self@)
                    && response_thread_matches(self@, response@) && next@ == spec_apply_response(
                    self@,
                    response@,
                ) && next.wf(),
                Err(e) => {
                    ||| !(self@.state is Requested) && e.kind == VcxErrorKind::InvalidAction
                    ||| self@.state is Requested && !invitee_doc_ready(self@) && e.kind
                        == VcxErrorKind::NotReady
                    ||| self@.state is Requested && invitee_doc_ready(self@)
                        && !response_thread_matches(self@, response@) && e.kind
                        == VcxErrorKind::SerializationError
                    ||| self@.state is Requested && invitee_doc_ready(self@)
                        && response_thread_matches(self@, response@)
                },
            },
    {
        match &self.state {
            InviteeFullState::Requested { .. } => {},
            _ => {
                return Err(
                    VcxError::from_msg(
                        VcxErrorKind::InvalidAction,
                        "invalid action: only a requested invitee can process a response",
                    ),
                );
            },
        }
        let expected_vk = match &self.did_doc {
            Some(d) => {
                if d.recipient_keys.len() > 0 {
                    d.recipient_keys[0].clone()
                } else {
                    return Err(
                        VcxError::from_msg(
                            VcxErrorKind::NotReady,
                            "counterparty diddoc declares no recipient key",
                        ),
                    );
                }
            },
            None => {
                return Err(
                    VcxError::from_msg(
                        VcxErrorKind::NotReady,
                        "counterparty diddoc is not available",
                    ),
                );
            },
        };
        let thread_ok = match (&self.thread.thid, &response.thread.thid) {
            (Some(a), Some(b)) => *a == *b,
            _ => false,
        };
        if !thread_ok {
            return Err(
                VcxError::from_msg(
                    VcxErrorKind::SerializationError,
                    "response does not belong to this conversation's thread",
                ),
            );
        }
        let valid = match keystore.verify_connection(
            &expected_vk,
            &response.connection,
            &response.signature,
        ) {
            Ok(b) => b,
            Err(e) => {
                return Err(e);
            },
        };
        self.handle_response_verdict(response, valid)
    }

    /// Builds the acknowledgement — `spec_ack_of`: it echoes this
    /// conversation's thread and reports success — delivers exactly that
    /// message through the transport, retains it in the Completed stage,
    /// and advances Responded to Completed. Any other stage reports
    /// `InvalidAction`; a missing peer document reports `NotReady`; a
    /// failed delivery reports the transport's error and the transition
    /// is not applied.
    pub fn handle_send_ack<Tp: Transport>(self, ack_id: String, transport: &mut Tp) -> (r: Result<
        Self,
        VcxError,
    >)
        requires
            self.wf(),
        ensures
            match r {
                Ok(next) => self@.state is Responded && self@.did_doc is Some && next@
                    == spec_send_ack(self@, ack_id@) && next.wf(),
                Err(e) => {
                    ||| !(self@.state is Responded) && e.kind == VcxErrorKind::InvalidAction
                    ||| self@.state is Responded && self@.did_doc is None && e.kind
                        == VcxErrorKind::NotReady
                    ||| self@.state is Responded && self@.did_doc is Some
                },
            },
    {
        let ghost v0 = self@;
        match &self.state {
            InviteeFullState::Responded { .. } => {},
            _ => {
                return Err(
                    VcxError::from_msg(
                        VcxErrorKind::InvalidAction,
                        "invalid action: only a responded invitee can send an acknowledgement",
                    ),
                );
            },
        }
        let SmConnectionInvitee { source_id, pairwise_info, thread, did_doc, state: _ } = self;
        let doc = match did_doc {
            Some(d) => d,
            None => {
                return Err(
                    VcxError::from_msg(
                        VcxErrorKind::NotReady,
                        "counterparty diddoc is not available",
                    ),
                );
            },
        };
        let ack = Ack {
            id: ack_id,
            thread: Thread {
                thid: thread.thid.clone(),
                pthid: thread.pthid.clone(),
                sender_order: thread.sender_order,
                received_orders: Vec::new(),
            },
            status: AckStatus::Accepted,
        };
        let msg = A2AMessage::Ack(ack.clone());
        match transport.send(&doc, &pairwise_info.pw_vk, &msg) {
            Ok(_) => {},
            Err(e) => {
                return Err(e);
            },
        }
        let new_thread = Thread { sender_order: thread.sender_order + 1, ..thread };
        let next = SmConnectionInvitee {
            source_id,
            pairwise_info,
            thread: new_thread,
            did_doc: Some(doc),
            state: InviteeFullState::Completed { ack },
        };
        proof {
            assert(next@ =~~= spec_send_ack(v0, ack_id@));
        }
        Ok(next)
    }
}

/// Once assigned, the thread id never changes: verifying a response and
/// sending the acknowledgement both preserve it.
pub proof fn lemma_invitee_thread_id_stable(
    v: SmConnectionInviteeView,
    response: SignedResponseView,
    ack_id: Seq<char>,
)
    ensures
        spec_thread_id(spec_apply_response(v, response).thread) == spec_thread_id(v.thread),
        spec_thread_id(spec_send_ack(v, ack_id).thread) == spec_thread_id(v.thread),
{
}

/// Pairwise-invitation policy: after the request is sent, the thread id
/// equals the originating invitation's id.
pub proof fn lemma_pairwise_thread_id(
    v: SmConnectionInviteeView,
    request_id: Seq<char>,
    routing_keys: Seq<Seq<char>>,
    service_endpoint: Seq<char>,
)
    requires
        v.state matches InviteeFullStateView::Invited { invitation } && invitation.kind
            is Pairwise,
    ensures
        spec_thread_id(spec_send_request(v, request_id, routing_keys, service_endpoint).thread)
            == v.state->Invited_invitation.id,
{
}

/// Public-invitation policy: after the request is sent, the thread id is
/// the request's own fresh id; for any fresh id other than the
/// invitation's id, the thread id therefore differs from the
/// invitation's id.
pub proof fn lemma_public_thread_id(
    v: SmConnectionInviteeView,
    request_id: Seq<char>,
    routing_keys: Seq<Seq<char>>,
    service_endpoint: Seq<char>,
)
    requires
        v.state matches InviteeFullStateView::Invited { invitation } && invitation.kind is Public,
        request_id != v.state->Invited_invitation.id,
    ensures
        spec_thread_id(spec_send_request(v, request_id, routing_keys, service_endpoint).thread)
            == request_id,
        spec_thread_id(spec_send_request(v, request_id, routing_keys, service_endpoint).thread)
            != v.state->Invited_invitation.id,
{
}

} // verus!
