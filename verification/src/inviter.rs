use vstd::prelude::*;

use crate::collaborators::{Keystore, Transport};
use crate::did_doc::{strings_view, DidDoc, DidDocView};
use crate::error::{VcxError, VcxErrorKind};
use crate::messages::{
    A2AMessage, A2AMessageView, AckView, ConnectionData, ConnectionDataView, Invitation,
    InvitationKind, InvitationView, Request, RequestView, SignedResponse, SignedResponseView,
};
use crate::pairwise_info::{spec_own_doc, PairwiseInfo, PairwiseInfoView};
use crate::thread::{
    lemma_increment_receiver_bound, orders_unique, spec_increment_receiver, spec_thread_id, Thread,
    ThreadView,
};

verus! {

/// The stage an inviter connection is in.
#[derive(Clone, Copy, PartialEq, Eq, Structural, Debug)]
pub enum InviterState {
    Initial,
    Invited,
    Requested,
    Responded,
    Completed,
}

/// The full state of the inviter machine: the stage tag together with the
/// data that belongs to that stage. The Requested stage keeps what the
/// response will be built from; the Responded stage keeps the signed
/// response itself.
#[derive(Debug)]
pub enum InviterFullState {
    Initial,
    Invited { invitation: Invitation },
    Requested { routing_keys: Vec<String>, service_endpoint: String, signing_key: String },
    Responded { signed_response: SignedResponse },
    Completed,
}

/// The mathematical image of an [`InviterFullState`].
#[verifier::ext_equal]
pub enum InviterFullStateView {
    Initial,
    Invited { invitation: InvitationView },
    Requested {
        routing_keys: Seq<Seq<char>>,
        service_endpoint: Seq<char>,
        signing_key: Seq<char>,
    },
    Responded { signed_response: SignedResponseView },
    Completed,
}

impl View for InviterFullState {
    type V = InviterFullStateView;

    open spec fn view(&self) -> InviterFullStateView {
        match self {
            InviterFullState::Initial => InviterFullStateView::Initial,
            InviterFullState::Invited { invitation } => InviterFullStateView::Invited {
                invitation: invitation@,
            },
            InviterFullState::Requested {
                routing_keys,
                service_endpoint,
                signing_key,
            } => InviterFullStateView::Requested {
                routing_keys: strings_view(routing_keys@),
                service_endpoint: service_endpoint@,
                signing_key: signing_key@,
            },
            InviterFullState::Responded { signed_response } => InviterFullStateView::Responded {
                signed_response: signed_response@,
            },
            InviterFullState::Completed => InviterFullStateView::Completed,
        }
    }
}

impl Clone for InviterFullState {
    fn clone(&self) -> (r: Self)
        ensures
            r@ == self@,
    {
        match self {
            InviterFullState::Initial => InviterFullState::Initial,
            InviterFullState::Invited { invitation } => InviterFullState::Invited {
                invitation: invitation.clone(),
            },
            InviterFullState::Requested {
                routing_keys,
                service_endpoint,
                signing_key,
            } => InviterFullState::Requested {
                routing_keys: crate::did_doc::clone_strings(routing_keys),
                service_endpoint: service_endpoint.clone(),
                signing_key: signing_key.clone(),
            },
            InviterFullState::Responded { signed_response } => InviterFullState::Responded {
                signed_response: signed_response.clone(),
            },
            InviterFullState::Completed => InviterFullState::Completed,
        }
    }
}

/// The stage tag of a full inviter state.
pub open spec fn inviter_state_tag(s: InviterFullStateView) -> InviterState {
    match s {
        InviterFullStateView::Initial => InviterState::Initial,
        InviterFullStateView::Invited { .. } => InviterState::Invited,
        InviterFullStateView::Requested { .. } => InviterState::Requested,
        InviterFullStateView::Responded { .. } => InviterState::Responded,
        InviterFullStateView::Completed => InviterState::Completed,
    }
}

/// How many protocol messages an inviter has sent by this stage: only the
/// signed response travels outbound through the thread tracker.
pub open spec fn inviter_sends(s: InviterFullStateView) -> u32 {
    match s {
        InviterFullStateView::Initial => 0,
        InviterFullStateView::Invited { .. } => 0,
        InviterFullStateView::Requested { .. } => 0,
        InviterFullStateView::Responded { .. } => 1,
        InviterFullStateView::Completed => 1,
    }
}

/// How many inbound messages an inviter has recorded by this stage: the
/// request, and finally the acknowledgement.
pub open spec fn inviter_recvs(s: InviterFullStateView) -> u32 {
    match s {
        InviterFullStateView::Initial => 0,
        InviterFullStateView::Invited { .. } => 0,
        InviterFullStateView::Requested { .. } => 1,
        InviterFullStateView::Responded { .. } => 1,
        InviterFullStateView::Completed => 2,
    }
}

/// The inviter's role state machine: its identity, the conversation
/// tracker, the peer's document once a request arrived, and the stage.
#[derive(Debug)]
pub struct SmConnectionInviter {
    pub source_id: String,
    pub pairwise_info: PairwiseInfo,
    pub thread: Thread,
    pub did_doc: Option<DidDoc>,
    pub state: InviterFullState,
}

/// The mathematical image of a [`SmConnectionInviter`].
#[verifier::ext_equal]
pub struct SmConnectionInviterView {
    pub source_id: Seq<char>,
    pub pairwise_info: PairwiseInfoView,
    pub thread: ThreadView,
    pub did_doc: Option<DidDocView>,
    pub state: InviterFullStateView,
}

impl View for SmConnectionInviter {
    type V = SmConnectionInviterView;

    open spec fn view(&self) -> SmConnectionInviterView {
        SmConnectionInviterView {
            source_id: self.source_id@,
            pairwise_info: self.pairwise_info@,
            thread: self.thread@,
            did_doc: match self.did_doc {
                Some(d) => Some(d@),
                None => None,
            },
            state: self.state@,
        }
    }
}

impl Clone for SmConnectionInviter {
    fn clone(&self) -> (r: Self)
        ensures
            r@ == self@,
    {
        SmConnectionInviter {
            source_id: self.source_id.clone(),
            pairwise_info: self.pairwise_info.clone(),
            thread: self.thread.clone(),
            did_doc: match &self.did_doc {
                Some(d) => Some(d.clone()),
                None => None,
            },
            state: self.state.clone(),
        }
    }
}

/// Whether the counters of `v` are shaped as an inviter at this stage can
/// have produced them.
pub open spec fn inviter_wf(v: SmConnectionInviterView) -> bool {
    &&& orders_unique(v.thread.received_orders)
    &&& v.thread.sender_order <= inviter_sends(v.state)
    &&& forall|i: int|
        0 <= i < v.thread.received_orders.len() ==> (#[trigger] v.thread.received_orders[i]).1
            <= inviter_recvs(v.state)
}

/// The invitation an inviter at `v` creates: a Pairwise invitation that
/// embeds the fresh id, the inviter's pairwise verification key, and the
/// given service information.
pub open spec fn spec_invitation_of(
    v: SmConnectionInviterView,
    invitation_id: Seq<char>,
    routing_keys: Seq<Seq<char>>,
    service_endpoint: Seq<char>,
) -> InvitationView {
    InvitationView {
        id: invitation_id,
        kind: InvitationKind::Pairwise,
        service_endpoint,
        routing_keys,
        recipient_key: v.pairwise_info.pw_vk,
    }
}

/// The successor of `v` (stage Initial) once its invitation exists: the
/// invitation's id becomes the thread id.
pub open spec fn spec_create_invitation(
    v: SmConnectionInviterView,
    invitation_id: Seq<char>,
    routing_keys: Seq<Seq<char>>,
    service_endpoint: Seq<char>,
) -> SmConnectionInviterView {
    SmConnectionInviterView {
        thread: ThreadView { thid: Some(invitation_id), ..v.thread },
        state: InviterFullStateView::Invited {
            invitation: spec_invitation_of(v, invitation_id, routing_keys, service_endpoint),
        },
        ..v
    }
}

/// Thread-id continuity: under a Pairwise invitation the request must
/// name the invitation's id as its thread id.
pub open spec fn request_thread_ok(invitation: InvitationView, request: RequestView) -> bool {
    invitation.kind is Pairwise ==> request.thread.thid == Some(invitation.id)
}

/// The thread id the conversation continues under: the invitation's id
/// under a Pairwise invitation, the request's fresh id otherwise.
pub open spec fn spec_inviter_thread_id(
    invitation: InvitationView,
    request: RequestView,
) -> Seq<char> {
    if invitation.kind is Pairwise {
        invitation.id
    } else {
        request.id
    }
}

/// The successor of `v` (stage Invited) once `request` is accepted: the
/// peer's document is stored, the peer's inbound counter advances, the
/// brand-new pairwise identity replaces the invitation-level one, and
/// what the response needs is retained, among it the invitation-level
/// verification key as the signing key.
pub open spec fn spec_handle_request(
    v: SmConnectionInviterView,
    request: RequestView,
    new_pairwise_info: PairwiseInfoView,
    routing_keys: Seq<Seq<char>>,
    service_endpoint: Seq<char>,
) -> SmConnectionInviterView {
    let invitation = v.state->Invited_invitation;
    SmConnectionInviterView {
        pairwise_info: new_pairwise_info,
        did_doc: Some(request.connection.did_doc),
        thread: ThreadView {
            thid: Some(spec_inviter_thread_id(invitation, request)),
            ..spec_increment_receiver(v.thread, request.connection.did)
        },
        state: InviterFullStateView::Requested {
            routing_keys,
            service_endpoint,
            signing_key: v.pairwise_info.pw_vk,
        },
        ..v
    }
}

/// The signed response an inviter at `v` (stage Requested) sends: its
/// fresh connection data, signed by the invitation-level key. The
/// signature bytes come from the keystore, so they are a parameter here.
pub open spec fn spec_response_of(
    v: SmConnectionInviterView,
    response_id: Seq<char>,
    signature: Seq<u8>,
) -> SignedResponseView {
    SignedResponseView {
        id: response_id,
        thread: ThreadView {
            thid: v.thread.thid,
            pthid: v.thread.pthid,
            sender_order: v.thread.sender_order,
            received_orders: Seq::empty(),
        },
        connection: ConnectionDataView {
            did: v.pairwise_info.pw_did,
            did_doc: spec_own_doc(
                v.pairwise_info,
                v.state->Requested_routing_keys,
                v.state->Requested_service_endpoint,
            ),
        },
        signature,
        signer_key: v.state->Requested_signing_key,
    }
}

/// The successor of `v` (stage Requested) once its response is sent.
pub open spec fn spec_send_response(
    v: SmConnectionInviterView,
    response_id: Seq<char>,
    signature: Seq<u8>,
) -> SmConnectionInviterView {
    SmConnectionInviterView {
        thread: ThreadView { sender_order: (v.thread.sender_order + 1) as u32, ..v.thread },
        state: InviterFullStateView::Responded {
            signed_response: spec_response_of(v, response_id, signature),
        },
        ..v
    }
}

/// Whether `ack` belongs to this conversation: a thread id is assigned
/// and the acknowledgement names exactly it.
pub open spec fn ack_thread_matches(v: SmConnectionInviterView, ack: AckView) -> bool {
    v.thread.thid is Some && ack.thread.thid == v.thread.thid
}

/// The successor of `v` (stage Responded) once the acknowledgement is
/// consumed: the peer's inbound counter advances and the handshake is
/// complete.
pub open spec fn spec_handle_ack(v: SmConnectionInviterView) -> SmConnectionInviterView {
    SmConnectionInviterView {
        thread: spec_increment_receiver(v.thread, v.did_doc.unwrap().id),
        state: InviterFullStateView::Completed,
        ..v
    }
}

/// Once assigned, the thread id never changes: sending the signed
/// response and consuming the acknowledgement both preserve it.
pub proof fn lemma_inviter_thread_id_stable(
    v: SmConnectionInviterView,
    response_id: Seq<char>,
    signature: Seq<u8>,
)
    ensures
        spec_thread_id(spec_send_response(v, response_id, signature).thread) == spec_thread_id(
            v.thread,
        ),
        spec_thread_id(spec_handle_ack(v).thread) == spec_thread_id(v.thread),
{
}

impl SmConnectionInviter {
    /// Well-formedness carried through every transition.
    pub open spec fn wf(self) -> bool {
        inviter_wf(self@)
    }

    /// A fresh inviter over the given identity; no peer is known yet.
    pub fn new(source_id: String, pairwise_info: PairwiseInfo) -> (r: Self)
        ensures
            r@.source_id == source_id@,
            r@.pairwise_info == pairwise_info@,
            r@.did_doc is None,
            r@.state is Initial,
            r@.thread.thid is None,
            r@.thread.pthid is None,
            r@.thread.sender_order == 0,
            r@.thread.received_orders == Seq::<(Seq<char>, u32)>::empty(),
            r.wf(),
    {
        SmConnectionInviter {
            source_id,
            pairwise_info,
            thread: Thread::new(),
            did_doc: None,
            state: InviterFullState::Initial,
        }
    }

    /// The stage this machine is in.
    pub fn get_state(&self) -> (r: InviterState)
        ensures
            r == inviter_state_tag(self@.state),
    {
        match &self.state {
            InviterFullState::Initial => InviterState::Initial,
            InviterFullState::Invited { .. } => InviterState::Invited,
            InviterFullState::Requested { .. } => InviterState::Requested,
            InviterFullState::Responded { .. } => InviterState::Responded,
            InviterFullState::Completed => InviterState::Completed,
        }
    }

    /// The conversation's thread id; empty until one is assigned.
    pub fn get_thread_id(&self) -> (r: String)
        ensures
            r@ == spec_thread_id(self@.thread),
    {
        match &self.thread.thid {
            Some(s) => s.clone(),
            None => String::new(),
        }
    }

    /// This connection's own pairwise identity.
    pub fn pairwise_info(&self) -> (r: &PairwiseInfo)
        ensures
            r@ == self@.pairwise_info,
    {
        &self.pairwise_info
    }

    /// The peer's document, as far as it is known.
    pub fn their_did_doc(&self) -> (r: Option<DidDoc>)
        ensures
            match r {
                Some(d) => self@.did_doc == Some(d@),
                None => self@.did_doc is None,
            },
    {
        match &self.did_doc {
            Some(d) => Some(d.clone()),
            None => None,
        }
    }

    /// The peer's DID; `NotReady` while no request has arrived.
    pub fn remote_did(&self) -> (r: Result<String, VcxError>)
        ensures
            match r {
                Ok(s) => self@.did_doc matches Some(d) && s@ == d.id,
                Err(e) => self@.did_doc is None && e.kind == VcxErrorKind::NotReady,
            },
    {
        match &self.did_doc {
            Some(d) => Ok(d.id.clone()),
            None => Err(
                VcxError::from_msg(
                    VcxErrorKind::NotReady,
                    "counterparty diddoc is not available",
                ),
            ),
        }
    }

    /// The peer's verification key; `NotReady` while no peer document
    /// with a recipient key is known.
    pub fn remote_vk(&self) -> (r: Result<String, VcxError>)
        ensures
            match r {
                Ok(s) => self@.did_doc matches Some(d) && d.recipient_keys.len() > 0 && s@
                    == d.recipient_keys[0],
                Err(e) => !(self@.did_doc matches Some(d) && d.recipient_keys.len() > 0) && e.kind
                    == VcxErrorKind::NotReady,
            },
    {
        match &self.did_doc {
            Some(d) => {
                if d.recipient_keys.len() > 0 {
                    Ok(d.recipient_keys[0].clone())
                } else {
                    Err(
                        VcxError::from_msg(
                            VcxErrorKind::NotReady,
                            "counterparty diddoc declares no recipient key",
                        ),
                    )
                }
            },
            None => Err(
                VcxError::from_msg(
                    VcxErrorKind::NotReady,
                    "counterparty diddoc is not available",
                ),
            ),
        }
    }

    /// The created invitation, while the machine waits for a request.
    pub fn get_invitation(&self) -> (r: Option<&Invitation>)
        ensures
            match r {
                Some(inv) => self@.state matches InviterFullStateView::Invited { invitation }
                    && inv@ == invitation,
                None => !(self@.state is Invited),
            },
    {
        match &self.state {
            InviterFullState::Invited { invitation } => Some(invitation),
            _ => None,
        }
    }

    /// Creates the Pairwise invitation and advances Initial to Invited;
    /// the invitation's fresh id becomes the thread id. Any other stage
    /// reports `InvalidAction`.
    pub fn create_invitation(
        self,
        invitation_id: String,
        routing_keys: Vec<String>,
        service_endpoint: String,
    ) -> (r: Result<Self, VcxError>)
        requires
            self.wf(),
        ensures
            match r {
                Ok(next) => self@.state is Initial && next@ == spec_create_invitation(
                    self@,
                    invitation_id@,
                    strings_view(routing_keys@),
                    service_endpoint@,
                ) && next.wf(),
                Err(e) => !(self@.state is Initial) && e.kind == VcxErrorKind::InvalidAction,
            },
    {
        let ghost v0 = self@;
        match &self.state {
            InviterFullState::Initial => {
                let SmConnectionInviter { source_id, pairwise_info, thread, did_doc, state: _ } =
                    self;
                let invitation = Invitation {
                    id: invitation_id.clone(),
                    kind: InvitationKind::Pairwise,
                    service_endpoint,
                    routing_keys,
                    recipient_key: pairwise_info.pw_vk.clone(),
                };
                let thread = thread.set_thid(invitation_id);
                let next = SmConnectionInviter {
                    source_id,
                    pairwise_info,
                    thread,
                    did_doc,
                    state: InviterFullState::Invited { invitation },
                };
                proof {
                    assert(next@ =~~= spec_create_invitation(
                        v0,
                        invitation_id@,
                        strings_view(routing_keys@),
                        service_endpoint@,
                    ));
                }
                Ok(next)
            },
            _ => Err(
                VcxError::from_msg(
                    VcxErrorKind::InvalidAction,
                    "invalid action: only an initial inviter can create an invitation",
                ),
            ),
        }
    }

    /// Accepts the invitee's request and advances Invited to Requested.
    /// Under a Pairwise invitation the request must name the invitation's
    /// id as its thread id, else `SerializationError`; the brand-new
    /// pairwise identity replaces the invitation-level one so the
    /// invitation key is never reused as the session key; the peer's
    /// document and counter are recorded. Any other stage reports
    /// `InvalidAction`.
    pub fn handle_connection_request(
        self,
        request: Request,
        new_pairwise_info: PairwiseInfo,
        routing_keys: Vec<String>,
        service_endpoint: String,
    ) -> (r: Result<Self, VcxError>)
        requires
            self.wf(),
        ensures
            match r {
                Ok(next) => self@.state matches InviterFullStateView::Invited { invitation }
                    && request_thread_ok(invitation, request@) && next@ == spec_handle_request(
                    self@,
                    request@,
                    new_pairwise_info@,
                    strings_view(routing_keys@),
                    service_endpoint@,
                ) && next.wf(),
                Err(e) => {
                    ||| !(self@.state is Invited) && e.kind == VcxErrorKind::InvalidAction
                    ||| self@.state matches InviterFullStateView::Invited { invitation }
                        && !request_thread_ok(invitation, request@) && e.kind
                        == VcxErrorKind::SerializationError
                },
            },
    {
        let ghost v0 = self@;
        let SmConnectionInviter { source_id, pairwise_info, mut thread, did_doc: _, state } = self;
        match state {
            InviterFullState::Invited { invitation } => {
                let tid: String;
                if invitation.kind == InvitationKind::Pairwise {
                    let thread_ok = match &request.thread.thid {
                        Some(t) => *t == invitation.id,
                        None => false,
                    };
                    if !thread_ok {
                        return Err(
                            VcxError::from_msg(
                                VcxErrorKind::SerializationError,
                                "request does not continue the invitation's thread",
                            ),
                        );
                    }
                    tid = invitation.id.clone();
                } else {
                    tid = request.id.clone();
                }
                proof {
                    lemma_increment_receiver_bound(
                        thread@,
                        request.connection.did@,
                        inviter_recvs(v0.state),
                    );
                }
                thread.increment_receiver(request.connection.did.as_str());
                let thread = thread.set_thid(tid);
                let next = SmConnectionInviter {
                    source_id,
                    pairwise_info: new_pairwise_info,
                    thread,
                    did_doc: Some(request.connection.did_doc),
                    state: InviterFullState::Requested {
                        routing_keys,
                        service_endpoint,
                        signing_key: pairwise_info.pw_vk,
                    },
                };
                proof {
                    assert(next@ =~~= spec_handle_request(
                        v0,
                        request@,
                        new_pairwise_info@,
                        strings_view(routing_keys@),
                        service_endpoint@,
                    ));
                }
                Ok(next)
            },
            _ => Err(
                VcxError::from_msg(
                    VcxErrorKind::InvalidAction,
                    "invalid action: only an invited inviter can accept a request",
                ),
            ),
        }
    }

    /// Builds the response from what the Requested stage retained, signs
    /// it with the invitation-level key through the keystore, delivers it
    /// through the transport, and advances Requested to Responded. Any
    /// other stage reports `InvalidAction`; a missing peer document
    /// reports `NotReady`; a failed signing or delivery reports that
    /// collaborator's error and the transition is not applied.
    pub fn handle_send_response<K: Keystore, Tp: Transport>(
        self,
        keystore: &mut K,
        response_id: String,
        transport: &mut Tp,
    ) -> (r: Result<Self, VcxError>)
        requires
            self.wf(),
        ensures
            match r {
                Ok(next) => self@.state is Requested && self@.did_doc is Some && next.wf()
                    && exists|sig: Seq<u8>| next@ == spec_send_response(self@, response_id@, sig),
                Err(e) => {
                    ||| !(self@.state is Requested) && e.kind == VcxErrorKind::InvalidAction
                    ||| self@.state is Requested && self@.did_doc is None && e.kind
                        == VcxErrorKind::NotReady
                    ||| self@.state is Requested && self@.did_doc is Some
                },
            },
    {
        let ghost v0 = self@;
        let SmConnectionInviter { source_id, pairwise_info, thread, did_doc, state } = self;
        match state {
            InviterFullState::Requested { routing_keys, service_endpoint, signing_key } => {
                let doc = match did_doc {
                    Some(d) => d,
                    None => {
                        return Err(
                            VcxError::from_msg(
                                VcxErrorKind::NotReady,
                                "counterparty diddoc is not available",
                            ),
                        );
                    },
                };
                let own_doc = DidDoc {
                    id: pairwise_info.pw_did.clone(),
                    recipient_keys: vec![pairwise_info.pw_vk.clone()],
                    routing_keys,
                    service_endpoint,
                };
                let content = ConnectionData { did: pairwise_info.pw_did.clone(), did_doc: own_doc };
                let signature = match keystore.sign_connection(&signing_key, &content) {
                    Ok(s) => s,
                    Err(e) => {
                        return Err(e);
                    },
                };
                let ghost sig = signature@;
                let response = SignedResponse {
                    id: response_id,
                    thread: Thread {
                        thid: thread.thid.clone(),
                        pthid: thread.pthid.clone(),
                        sender_order: thread.sender_order,
                        received_orders: Vec::new(),
                    },
                    connection: content,
                    signature,
                    signer_key: signing_key,
                };
                let msg = A2AMessage::ConnectionResponse(response.clone());
                match transport.send(&doc, &pairwise_info.pw_vk, &msg) {
                    Ok(_) => {},
                    Err(e) => {
                        return Err(e);
                    },
                }
                let new_thread = Thread { sender_order: thread.sender_order + 1, ..thread };
                let next = SmConnectionInviter {
                    source_id,
                    pairwise_info,
                    thread: new_thread,
                    did_doc: Some(doc),
                    state: InviterFullState::Responded { signed_response: response },
                };
                proof {
                    assert(next@ =~~= spec_send_response(v0, response_id@, sig));
                }
                Ok(next)
            },
            _ => Err(
                VcxError::from_msg(
                    VcxErrorKind::InvalidAction,
                    "invalid action: only a requested inviter can send a response",
                ),
            ),
        }
    }

    /// Consumes the acknowledgement and advances Responded to Completed.
    /// Exactly when the stage is Responded, the peer is known, the
    /// message is an acknowledgement and it names this conversation's
    /// thread id, the handshake completes; nothing else changes the
    /// machine.
    pub fn handle_confirmation_message(self, message: &A2AMessage) -> (r: Result<Self, VcxError>)
        requires
            self.wf(),
        ensures
            ({
                let v = self@;
                if !(v.state is Responded) {
                    r matches Err(e) && e.kind == VcxErrorKind::InvalidAction
                } else if v.did_doc is None {
                    r matches Err(e) && e.kind == VcxErrorKind::NotReady
                } else if !(message@ matches A2AMessageView::Ack(ack)
                    && ack_thread_matches(v, ack)) {
                    r matches Err(e) && e.kind == VcxErrorKind::SerializationError
                } else {
                    r matches Ok(next) && next@ == spec_handle_ack(v) && next.wf()
                }
            }),
    {
        let ghost v0 = self@;
        match &self.state {
            InviterFullState::Responded { .. } => {},
            _ => {
                return Err(
                    VcxError::from_msg(
                        VcxErrorKind::InvalidAction,
                        "invalid action: only a responded inviter can consume an acknowledgement",
                    ),
                );
            },
        }
        let peer_did = match &self.did_doc {
            Some(d) => d.id.clone(),
            None => {
                return Err(
                    VcxError::from_msg(
                        VcxErrorKind::NotReady,
                        "counterparty diddoc is not available",
                    ),
                );
            },
        };
        let ack = match message {
            A2AMessage::Ack(a) => a,
            _ => {
                return Err(
                    VcxError::from_msg(
                        VcxErrorKind::SerializationError,
                        "expected an acknowledgement message",
                    ),
                );
            },
        };
        let thread_ok = match (&self.thread.thid, &ack.thread.thid) {
            (Some(a), Some(b)) => *a == *b,
            _ => false,
        };
        if !thread_ok {
            return Err(
                VcxError::from_msg(
                    VcxErrorKind::SerializationError,
                    "acknowledgement does not belong to this conversation's thread",
                ),
            );
        }
        let SmConnectionInviter { source_id, pairwise_info, mut thread, did_doc, state: _ } = self;
        proof {
            lemma_increment_receiver_bound(thread@, peer_did@, inviter_recvs(v0.state));
        }
        thread.increment_receiver(peer_did.as_str());
        let next = SmConnectionInviter {
            source_id,
            pairwise_info,
            thread,
            did_doc,
            state: InviterFullState::Completed,
        };
        proof {
            assert(next@ =~~= spec_handle_ack(v0));
        }
        Ok(next)
    }
}

} // verus!
