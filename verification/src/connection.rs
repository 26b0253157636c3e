use vstd::prelude::*;

use crate::collaborators::{Keystore, Transport};
use crate::did_doc::{strings_view, DidDoc};
use crate::error::{VcxError, VcxErrorKind};
use crate::ids::new_id;
use crate::invitee::{
    invitee_doc_ready, invitee_state_tag, invitee_wf, response_thread_matches,
    spec_apply_response, spec_handle_invitation, spec_send_ack, spec_send_request, InviteeState,
    SmConnectionInvitee, SmConnectionInviteeView,
};
use crate::inviter::{
    inviter_recvs, inviter_sends, inviter_state_tag, inviter_wf, request_thread_ok,
    spec_create_invitation, spec_handle_ack, spec_handle_request, spec_send_response,
    InviterFullState, InviterState, SmConnectionInviter, SmConnectionInviterView,
};
use crate::messages::{
    A2AMessage, A2AMessageView, Invitation, InvitationKind, Request, SignedResponse,
};
use crate::pairwise_info::{PairwiseInfo, PairwiseInfoView};
use crate::thread::{orders_unique, spec_thread_id, Thread};

verus! {

/// The role-specific machine a connection holds: exactly one of the two.
#[derive(Debug)]
pub enum SmConnection {
    Inviter(SmConnectionInviter),
    Invitee(SmConnectionInvitee),
}

/// The serializable image of a connection for persistence: the full state
/// of whichever role machine it holds. Rehydrating it reproduces the
/// connection.
#[derive(Debug)]
pub enum SmConnectionState {
    Inviter(SmConnectionInviter),
    Invitee(SmConnectionInvitee),
}

/// The mathematical image of a connection (and of its snapshot).
#[verifier::ext_equal]
pub enum SmConnectionView {
    Inviter(SmConnectionInviterView),
    Invitee(SmConnectionInviteeView),
}

impl View for SmConnection {
    type V = SmConnectionView;

    open spec fn view(&self) -> SmConnectionView {
        match self {
            SmConnection::Inviter(sm) => SmConnectionView::Inviter(sm@),
            SmConnection::Invitee(sm) => SmConnectionView::Invitee(sm@),
        }
    }
}

impl View for SmConnectionState {
    type V = SmConnectionView;

    open spec fn view(&self) -> SmConnectionView {
        match self {
            SmConnectionState::Inviter(sm) => SmConnectionView::Inviter(sm@),
            SmConnectionState::Invitee(sm) => SmConnectionView::Invitee(sm@),
        }
    }
}

/// The stage a connection is in, tagged by its role.
#[derive(Clone, Copy, PartialEq, Eq, Structural, Debug)]
pub enum ConnectionState {
    Inviter(InviterState),
    Invitee(InviteeState),
}

/// One end of a pairwise connection: holds exactly one role machine and
/// dispatches every operation to it. The role is fixed for the value's
/// lifetime; every mutating operation consumes the value and returns the
/// successor, so an error leaves the caller's previous value as the
/// current durable state.
#[derive(Debug)]
pub struct Connection {
    connection_sm: SmConnection,
}

impl View for Connection {
    type V = SmConnectionView;

    closed spec fn view(&self) -> SmConnectionView {
        self.connection_sm@
    }
}

/// Well-formedness of a connection image, whichever role it holds.
pub open spec fn sm_wf(v: SmConnectionView) -> bool {
    match v {
        SmConnectionView::Inviter(sm) => inviter_wf(sm),
        SmConnectionView::Invitee(sm) => invitee_wf(sm),
    }
}

/// The stage of a connection image, tagged by its role.
pub open spec fn spec_connection_state(v: SmConnectionView) -> ConnectionState {
    match v {
        SmConnectionView::Inviter(sm) => ConnectionState::Inviter(inviter_state_tag(sm.state)),
        SmConnectionView::Invitee(sm) => ConnectionState::Invitee(invitee_state_tag(sm.state)),
    }
}

/// The thread id of a connection image; empty until one is assigned.
pub open spec fn spec_connection_thread_id(v: SmConnectionView) -> Seq<char> {
    match v {
        SmConnectionView::Inviter(sm) => spec_thread_id(sm.thread),
        SmConnectionView::Invitee(sm) => spec_thread_id(sm.thread),
    }
}

/// The pairwise identity of a connection image.
pub open spec fn spec_connection_pairwise(v: SmConnectionView) -> PairwiseInfoView {
    match v {
        SmConnectionView::Inviter(sm) => sm.pairwise_info,
        SmConnectionView::Invitee(sm) => sm.pairwise_info,
    }
}

/// Rehydration as a mathematical function: a well-formed image is
/// reproduced exactly, any other is rejected.
pub open spec fn spec_rehydrate(v: SmConnectionView) -> Option<SmConnectionView> {
    if sm_wf(v) {
        Some(v)
    } else {
        None
    }
}

/// Checks that a tracker's counters fit the given bounds: distinct keys,
/// the outbound counter at most `max_send`, every inbound counter at most
/// `max_recv`.
fn thread_bounds_ok(thread: &Thread, max_send: u32, max_recv: u32) -> (r: bool)
    ensures
        r == (orders_unique(thread@.received_orders) && thread@.sender_order <= max_send && (
        forall|i: int|
            0 <= i < thread@.received_orders.len() ==> (#[trigger] thread@.received_orders[i]).1
                <= max_recv)),
{
    if thread.sender_order > max_send {
        return false;
    }
    let n = thread.received_orders.len();
    let mut i: usize = 0;
    while i < n
        invariant
            0 <= i <= n,
            n == thread.received_orders.len(),
            thread@.sender_order <= max_send,
            forall|k: int| 0 <= k < i ==> (#[trigger] thread@.received_orders[k]).1 <= max_recv,
            forall|p: int, q: int|
                0 <= p < q < i ==> thread@.received_orders[p].0 != thread@.received_orders[q].0,
        decreases n - i,
    {
        if thread.received_orders[i].1 > max_recv {
            proof {
                assert(thread@.received_orders[i as int].1 == thread.received_orders@[i as int].1);
            }
            return false;
        }
        let mut j: usize = 0;
        while j < i
            invariant
                0 <= j <= i < n,
                n == thread.received_orders.len(),
                forall|k: int|
                    0 <= k < j ==> thread@.received_orders[k].0 != thread@.received_orders[
                        i as int
                    ].0,
            decreases i - j,
        {
            if thread.received_orders[j].0 == thread.received_orders[i].0 {
                proof {
                    assert(thread@.received_orders[j as int].0 == thread.received_orders@[j as int].0@);
                    assert(thread@.received_orders[i as int].0 == thread.received_orders@[i as int].0@);
                    assert(!orders_unique(thread@.received_orders));
                }
                return false;
            }
            proof {
                assert(thread@.received_orders[j as int].0 == thread.received_orders@[j as int].0@);
                assert(thread@.received_orders[i as int].0 == thread.received_orders@[i as int].0@);
            }
            j = j + 1;
        }
        proof {
            assert(thread@.received_orders[i as int].1 == thread.received_orders@[i as int].1);
        }
        i = i + 1;
    }
    true
}

impl Clone for SmConnection {
    fn clone(&self) -> (r: Self)
        ensures
            r@ == self@,
    {
        match self {
            SmConnection::Inviter(sm) => SmConnection::Inviter(sm.clone()),
            SmConnection::Invitee(sm) => SmConnection::Invitee(sm.clone()),
        }
    }
}

impl Clone for SmConnectionState {
    fn clone(&self) -> (r: Self)
        ensures
            r@ == self@,
    {
        match self {
            SmConnectionState::Inviter(sm) => SmConnectionState::Inviter(sm.clone()),
            SmConnectionState::Invitee(sm) => SmConnectionState::Invitee(sm.clone()),
        }
    }
}

impl Clone for Connection {
    fn clone(&self) -> (r: Self)
        ensures
            r@ == self@,
    {
        Connection { connection_sm: self.connection_sm.clone() }
    }
}

impl Connection {
    /// Well-formedness carried through every operation.
    pub open spec fn wf(self) -> bool {
        sm_wf(self@)
    }

    /// Creates an inviter-role connection over a fresh pairwise identity
    /// from the keystore. Fails only if the keystore cannot provision the
    /// identity; then its error is returned.
    pub fn create_inviter<K: Keystore>(keystore: &mut K) -> (r: Result<Connection, VcxError>)
        ensures
            r matches Ok(c) ==> {
                &&& c@ matches SmConnectionView::Inviter(v)
                &&& v.state is Initial
                &&& v.did_doc is None
                &&& v.thread.thid is None
                &&& v.thread.pthid is None
                &&& v.thread.sender_order == 0
                &&& v.thread.received_orders == Seq::<(Seq<char>, u32)>::empty()
                &&& v.source_id == Seq::<char>::empty()
                &&& c.wf()
            },
    {
        let pairwise_info = match keystore.create_pairwise_identity() {
            Ok(pi) => pi,
            Err(e) => {
                return Err(e);
            },
        };
        Ok(
            Connection {
                connection_sm: SmConnection::Inviter(
                    SmConnectionInviter::new(String::new(), pairwise_info),
                ),
            },
        )
    }

    /// Creates an invitee-role connection over a fresh pairwise identity
    /// from the keystore, holding the inviter's document. Fails only if
    /// the keystore cannot provision the identity; then its error is
    /// returned.
    pub fn create_invitee<K: Keystore>(keystore: &mut K, did_doc: DidDoc) -> (r: Result<
        Connection,
        VcxError,
    >)
        ensures
            r matches Ok(c) ==> {
                &&& c@ matches SmConnectionView::Invitee(v)
                &&& v.state is Initial
                &&& v.did_doc == Some(did_doc@)
                &&& v.thread.thid is None
                &&& v.thread.pthid is None
                &&& v.thread.sender_order == 0
                &&& v.thread.received_orders == Seq::<(Seq<char>, u32)>::empty()
                &&& v.source_id == Seq::<char>::empty()
                &&& c.wf()
            },
    {
        let pairwise_info = match keystore.create_pairwise_identity() {
            Ok(pi) => pi,
            Err(e) => {
                return Err(e);
            },
        };
        Ok(
            Connection {
                connection_sm: SmConnection::Invitee(
                    SmConnectionInvitee::new(String::new(), pairwise_info, did_doc),
                ),
            },
        )
    }

    /// The conversation's thread id; empty until one is assigned.
    pub fn get_thread_id(&self) -> (r: String)
        ensures
            r@ == spec_connection_thread_id(self@),
    {
        match &self.connection_sm {
            SmConnection::Inviter(sm) => sm.get_thread_id(),
            SmConnection::Invitee(sm) => sm.get_thread_id(),
        }
    }

    /// The stage this connection is in, tagged by its role.
    pub fn get_state(&self) -> (r: ConnectionState)
        ensures
            r == spec_connection_state(self@),
    {
        match &self.connection_sm {
            SmConnection::Inviter(sm) => ConnectionState::Inviter(sm.get_state()),
            SmConnection::Invitee(sm) => ConnectionState::Invitee(sm.get_state()),
        }
    }

    /// This connection's own pairwise identity.
    pub fn pairwise_info(&self) -> (r: &PairwiseInfo)
        ensures
            r@ == spec_connection_pairwise(self@),
    {
        match &self.connection_sm {
            SmConnection::Inviter(sm) => sm.pairwise_info(),
            SmConnection::Invitee(sm) => sm.pairwise_info(),
        }
    }

    /// The peer's DID; `NotReady` while no peer document is known.
    pub fn remote_did(&self) -> (r: Result<String, VcxError>)
        ensures
            match r {
                Ok(s) => match self@ {
                    SmConnectionView::Inviter(v) => v.did_doc matches Some(d) && s@ == d.id,
                    SmConnectionView::Invitee(v) => v.did_doc matches Some(d) && s@ == d.id,
                },
                Err(e) => e.kind == VcxErrorKind::NotReady && match self@ {
                    SmConnectionView::Inviter(v) => v.did_doc is None,
                    SmConnectionView::Invitee(v) => v.did_doc is None,
                },
            },
    {
        match &self.connection_sm {
            SmConnection::Inviter(sm) => sm.remote_did(),
            SmConnection::Invitee(sm) => sm.remote_did(),
        }
    }

    /// The peer's verification key; `NotReady` while no peer document
    /// with a recipient key is known.
    pub fn remote_vk(&self) -> (r: Result<String, VcxError>)
        ensures
            match r {
                Ok(s) => match self@ {
                    SmConnectionView::Inviter(v) => v.did_doc matches Some(d)
                        && d.recipient_keys.len() > 0 && s@ == d.recipient_keys[0],
                    SmConnectionView::Invitee(v) => v.did_doc matches Some(d)
                        && d.recipient_keys.len() > 0 && s@ == d.recipient_keys[0],
                },
                Err(e) => e.kind == VcxErrorKind::NotReady && match self@ {
                    SmConnectionView::Inviter(v) => !(v.did_doc matches Some(d)
                        && d.recipient_keys.len() > 0),
                    SmConnectionView::Invitee(v) => !invitee_doc_ready(v),
                },
            },
    {
        match &self.connection_sm {
            SmConnection::Inviter(sm) => sm.remote_vk(),
            SmConnection::Invitee(sm) => sm.remote_vk(),
        }
    }

    /// The serializable snapshot of this connection: the full state of
    /// its role machine, preserving every semantic field.
    pub fn state_object(&self) -> (r: SmConnectionState)
        ensures
            r@ == self@,
    {
        match &self.connection_sm {
            SmConnection::Inviter(sm) => SmConnectionState::Inviter(sm.clone()),
            SmConnection::Invitee(sm) => SmConnectionState::Invitee(sm.clone()),
        }
    }

    /// Rebuilds a connection from a snapshot. A well-formed snapshot is
    /// reproduced exactly; a snapshot whose counters no connection could
    /// have produced is rejected with `SerializationError` before any
    /// state exists.
    pub fn rehydrate(state: SmConnectionState) -> (r: Result<Connection, VcxError>)
        ensures
            match r {
                Ok(c) => sm_wf(state@) && c@ == state@ && c.wf() && spec_rehydrate(state@)
                    == Some(c@),
                Err(e) => !sm_wf(state@) && e.kind == VcxErrorKind::SerializationError
                    && spec_rehydrate(state@) is None,
            },
    {
        let ok: bool = match &state {
            SmConnectionState::Inviter(sm) => {
                let max_send: u32;
                let max_recv: u32;
                match &sm.state {
                    InviterFullState::Initial => {
                        max_send = 0;
                        max_recv = 0;
                    },
                    InviterFullState::Invited { .. } => {
                        max_send = 0;
                        max_recv = 0;
                    },
                    InviterFullState::Requested { .. } => {
                        max_send = 0;
                        max_recv = 1;
                    },
                    InviterFullState::Responded { .. } => {
                        max_send = 1;
                        max_recv = 1;
                    },
                    InviterFullState::Completed => {
                        max_send = 1;
                        max_recv = 2;
                    },
                }
                proof {
                    assert(max_send == inviter_sends(sm@.state));
                    assert(max_recv == inviter_recvs(sm@.state));
                }
                thread_bounds_ok(&sm.thread, max_send, max_recv)
            },
            SmConnectionState::Invitee(sm) => {
                let max_send: u32;
                let max_recv: u32;
                match &sm.state {
                    crate::invitee::InviteeFullState::Initial => {
                        max_send = 0;
                        max_recv = 0;
                    },
                    crate::invitee::InviteeFullState::Invited { .. } => {
                        max_send = 0;
                        max_recv = 0;
                    },
                    crate::invitee::InviteeFullState::Requested { .. } => {
                        max_send = 1;
                        max_recv = 0;
                    },
                    crate::invitee::InviteeFullState::Responded { .. } => {
                        max_send = 1;
                        max_recv = 1;
                    },
                    crate::invitee::InviteeFullState::Completed { .. } => {
                        max_send = 2;
                        max_recv = 1;
                    },
                }
                proof {
                    assert(max_send == crate::invitee::invitee_sends(sm@.state));
                    assert(max_recv == crate::invitee::invitee_recvs(sm@.state));
                }
                thread_bounds_ok(&sm.thread, max_send, max_recv)
            },
        };
        if !ok {
            return Err(
                VcxError::from_msg(
                    VcxErrorKind::SerializationError,
                    "snapshot holds counters no connection could have produced",
                ),
            );
        }
        match state {
            SmConnectionState::Inviter(sm) => Ok(
                Connection { connection_sm: SmConnection::Inviter(sm) },
            ),
            SmConnectionState::Invitee(sm) => Ok(
                Connection { connection_sm: SmConnection::Invitee(sm) },
            ),
        }
    }

    /// The peer's document, as far as it is known.
    pub fn their_did_doc(&self) -> (r: Option<DidDoc>)
        ensures
            match r {
                Some(d) => match self@ {
                    SmConnectionView::Inviter(v) => v.did_doc == Some(d@),
                    SmConnectionView::Invitee(v) => v.did_doc == Some(d@),
                },
                None => match self@ {
                    SmConnectionView::Inviter(v) => v.did_doc is None,
                    SmConnectionView::Invitee(v) => v.did_doc is None,
                },
            },
    {
        match &self.connection_sm {
            SmConnection::Inviter(sm) => sm.their_did_doc(),
            SmConnection::Invitee(sm) => sm.their_did_doc(),
        }
    }

    /// The created invitation: populated only for an inviter that has
    /// created one and still waits for the request.
    pub fn get_invite_details(&self) -> (r: Option<&Invitation>)
        ensures
            match r {
                Some(inv) => self@ matches SmConnectionView::Inviter(v) && v.state matches
                    crate::inviter::InviterFullStateView::Invited { invitation } && inv@
                    == invitation,
                None => match self@ {
                    SmConnectionView::Inviter(v) => !(v.state is Invited),
                    SmConnectionView::Invitee(_) => true,
                },
            },
    {
        match &self.connection_sm {
            SmConnection::Inviter(sm) => sm.get_invitation(),
            SmConnection::Invitee(_) => None,
        }
    }

    /// Ingests an invitation: an invitee in the Initial stage records it
    /// and provisionally adopts its id as the thread id; anything else
    /// reports `InvalidAction`.
    pub fn process_invite(self, invitation: Invitation) -> (r: Result<Connection, VcxError>)
        requires
            self.wf(),
        ensures
            match r {
                Ok(c) => {
                    &&& self@ matches SmConnectionView::Invitee(v)
                    &&& v.state is Initial
                    &&& c@ == SmConnectionView::Invitee(spec_handle_invitation(v, invitation@))
                    &&& c.wf()
                },
                Err(e) => {
                    &&& e.kind == VcxErrorKind::InvalidAction
                    &&& match self@ {
                        SmConnectionView::Inviter(_) => true,
                        SmConnectionView::Invitee(v) => !(v.state is Initial),
                    }
                },
            },
    {
        match self.connection_sm {
            SmConnection::Invitee(sm) => {
                let next = sm.handle_invitation(invitation)?;
                Ok(Connection { connection_sm: SmConnection::Invitee(next) })
            },
            SmConnection::Inviter(_) => Err(
                VcxError::from_msg(
                    VcxErrorKind::InvalidAction,
                    "invalid action: an inviter cannot ingest an invitation",
                ),
            ),
        }
    }

    /// Creates the invitation with a freshly generated id: an inviter in
    /// the Initial stage advances to Invited; anything else reports
    /// `InvalidAction`.
    pub fn create_invite(self, service_endpoint: String, routing_keys: Vec<String>) -> (r: Result<
        Connection,
        VcxError,
    >)
        requires
            self.wf(),
        ensures
            match r {
                Ok(c) => {
                    &&& self@ matches SmConnectionView::Inviter(v)
                    &&& v.state is Initial
                    &&& c.wf()
                    &&& exists|id: Seq<char>|
                        id.len() == 36 && c@ == SmConnectionView::Inviter(
                            spec_create_invitation(
                                v,
                                id,
                                strings_view(routing_keys@),
                                service_endpoint@,
                            ),
                        )
                },
                Err(e) => {
                    &&& e.kind == VcxErrorKind::InvalidAction
                    &&& match self@ {
                        SmConnectionView::Invitee(_) => true,
                        SmConnectionView::Inviter(v) => !(v.state is Initial),
                    }
                },
            },
    {
        match self.connection_sm {
            SmConnection::Inviter(sm) => {
                let ghost v0 = sm@;
                let id = new_id();
                let ghost id_view = id@;
                let next = sm.create_invitation(id, routing_keys, service_endpoint)?;
                proof {
                    assert(id_view.len() == 36 && next@ == spec_create_invitation(
                        v0,
                        id_view,
                        strings_view(routing_keys@),
                        service_endpoint@,
                    ));
                }
                Ok(Connection { connection_sm: SmConnection::Inviter(next) })
            },
            SmConnection::Invitee(_) => Err(
                VcxError::from_msg(
                    VcxErrorKind::InvalidAction,
                    "invalid action: an invitee cannot create an invitation",
                ),
            ),
        }
    }

    /// Builds and delivers the connection request under a freshly
    /// generated request id: an invitee in the Invited stage advances to
    /// Requested, with the thread id set by the invitation-kind policy.
    pub fn send_request<Tp: Transport>(
        self,
        service_endpoint: String,
        routing_keys: Vec<String>,
        transport: &mut Tp,
    ) -> (r: Result<Connection, VcxError>)
        requires
            self.wf(),
        ensures
            match r {
                Ok(c) => {
                    &&& self@ matches SmConnectionView::Invitee(v)
                    &&& v.state is Invited
                    &&& v.did_doc is Some
                    &&& c.wf()
                    &&& exists|id: Seq<char>|
                        id.len() == 36 && c@ == SmConnectionView::Invitee(
                            spec_send_request(
                                v,
                                id,
                                strings_view(routing_keys@),
                                service_endpoint@,
                            ),
                        )
                },
                Err(e) => match self@ {
                    SmConnectionView::Inviter(_) => e.kind == VcxErrorKind::InvalidAction,
                    SmConnectionView::Invitee(v) => {
                        ||| !(v.state is Invited) && e.kind == VcxErrorKind::InvalidAction
                        ||| v.state is Invited && v.did_doc is None && e.kind
                            == VcxErrorKind::NotReady
                        ||| v.state is Invited && v.did_doc is Some
                    },
                },
            },
    {
        match self.connection_sm {
            SmConnection::Invitee(sm) => {
                let ghost v0 = sm@;
                let id = new_id();
                let ghost id_view = id@;
                let next = sm.send_connection_request(
                    id,
                    routing_keys,
                    service_endpoint,
                    transport,
                )?;
                proof {
                    assert(id_view.len() == 36 && next@ == spec_send_request(
                        v0,
                        id_view,
                        strings_view(routing_keys@),
                        service_endpoint@,
                    ));
                }
                Ok(Connection { connection_sm: SmConnection::Invitee(next) })
            },
            SmConnection::Inviter(_) => Err(
                VcxError::from_msg(
                    VcxErrorKind::InvalidAction,
                    "invalid action: an inviter cannot send a connection request",
                ),
            ),
        }
    }

    /// Accepts the invitee's request: an inviter in the Invited stage
    /// provisions a brand-new pairwise identity through the keystore,
    /// validates thread-id continuity for a Pairwise invitation, stores
    /// the peer's document, and advances to Requested.
    pub fn process_request<K: Keystore>(
        self,
        keystore: &mut K,
        request: Request,
        routing_keys: Vec<String>,
        service_endpoint: String,
    ) -> (r: Result<Connection, VcxError>)
        requires
            self.wf(),
        ensures
            match r {
                Ok(c) => {
                    &&& self@ matches SmConnectionView::Inviter(v)
                    &&& v.state matches crate::inviter::InviterFullStateView::Invited {
                        invitation,
                    }
                    &&& request_thread_ok(invitation, request@)
                    &&& c.wf()
                    &&& exists|pi: PairwiseInfoView|
                        c@ == SmConnectionView::Inviter(
                            spec_handle_request(
                                v,
                                request@,
                                pi,
                                strings_view(routing_keys@),
                                service_endpoint@,
                            ),
                        )
                },
                Err(e) => match self@ {
                    SmConnectionView::Invitee(_) => e.kind == VcxErrorKind::InvalidAction,
                    SmConnectionView::Inviter(v) => {
                        ||| !(v.state is Invited) && e.kind == VcxErrorKind::InvalidAction
                        ||| v.state matches crate::inviter::InviterFullStateView::Invited {
                            invitation,
                        } && !request_thread_ok(invitation, request@) && e.kind
                            == VcxErrorKind::SerializationError
                        ||| v.state matches crate::inviter::InviterFullStateView::Invited {
                            invitation,
                        } && request_thread_ok(invitation, request@)
                    },
                },
            },
    {
        match self.connection_sm {
            SmConnection::Inviter(sm) => {
                // Settle thread-id continuity before provisioning the new
                // identity, so a foreign request costs no keypair.
                let thread_ok: bool;
                match &sm.state {
                    InviterFullState::Invited { invitation } => {
                        if invitation.kind == InvitationKind::Pairwise {
                            thread_ok = match &request.thread.thid {
                                Some(t) => *t == invitation.id,
                                None => false,
                            };
                        } else {
                            thread_ok = true;
                        }
                        proof {
                            assert(sm@.state->Invited_invitation == invitation@);
                            assert(thread_ok == request_thread_ok(
                                sm@.state->Invited_invitation,
                                request@,
                            ));
                        }
                    },
                    _ => {
                        return Err(
                            VcxError::from_msg(
                                VcxErrorKind::InvalidAction,
                                "invalid action: only an invited inviter can accept a request",
                            ),
                        );
                    },
                }
                if !thread_ok {
                    return Err(
                        VcxError::from_msg(
                            VcxErrorKind::SerializationError,
                            "request does not continue the invitation's thread",
                        ),
                    );
                }
                let new_pairwise_info = match keystore.create_pairwise_identity() {
                    Ok(pi) => pi,
                    Err(e) => {
                        return Err(e);
                    },
                };
                let ghost v0 = sm@;
                let ghost pi_view = new_pairwise_info@;
                let next = sm.handle_connection_request(
                    request,
                    new_pairwise_info,
                    routing_keys,
                    service_endpoint,
                )?;
                proof {
                    assert(next@ == spec_handle_request(
                        v0,
                        request@,
                        pi_view,
                        strings_view(routing_keys@),
                        service_endpoint@,
                    ));
                }
                Ok(Connection { connection_sm: SmConnection::Inviter(next) })
            },
            SmConnection::Invitee(_) => Err(
                VcxError::from_msg(
                    VcxErrorKind::InvalidAction,
                    "invalid action: an invitee cannot accept a connection request",
                ),
            ),
        }
    }

    /// Builds, signs and delivers the response under a freshly generated
    /// id: an inviter in the Requested stage advances to Responded.
    pub fn send_response<K: Keystore, Tp: Transport>(
        self,
        keystore: &mut K,
        transport: &mut Tp,
    ) -> (r: Result<Connection, VcxError>)
        requires
            self.wf(),
        ensures
            match r {
                Ok(c) => {
                    &&& self@ matches SmConnectionView::Inviter(v)
                    &&& v.state is Requested
                    &&& v.did_doc is Some
                    &&& c.wf()
                    &&& exists|id: Seq<char>, sig: Seq<u8>|
                        c@ == SmConnectionView::Inviter(spec_send_response(v, id, sig))
                },
                Err(e) => match self@ {
                    SmConnectionView::Invitee(_) => e.kind == VcxErrorKind::InvalidAction,
                    SmConnectionView::Inviter(v) => {
                        ||| !(v.state is Requested) && e.kind == VcxErrorKind::InvalidAction
                        ||| v.state is Requested && v.did_doc is None && e.kind
                            == VcxErrorKind::NotReady
                        ||| v.state is Requested && v.did_doc is Some
                    },
                },
            },
    {
        match self.connection_sm {
            SmConnection::Inviter(sm) => {
                let ghost v0 = sm@;
                let id = new_id();
                let ghost id_view = id@;
                let next = sm.handle_send_response(keystore, id, transport)?;
                proof {
                    let sig = choose|sig: Seq<u8>| next@ == spec_send_response(v0, id_view, sig);
                    assert(next@ == spec_send_response(v0, id_view, sig));
                }
                Ok(Connection { connection_sm: SmConnection::Inviter(next) })
            },
            SmConnection::Invitee(_) => Err(
                VcxError::from_msg(
                    VcxErrorKind::InvalidAction,
                    "invalid action: an invitee cannot send a connection response",
                ),
            ),
        }
    }

    /// Verifies the response against the inviter's declared key and, on
    /// success, advances an invitee in the Requested stage to Responded.
    /// A failed signature check reports `VerificationFailed` and the
    /// stage does not advance.
    pub fn process_response<K: Keystore>(
        self,
        keystore: &mut K,
        response: SignedResponse,
    ) -> (r: Result<Connection, VcxError>)
        requires
            self.wf(),
        ensures
            match r {
                Ok(c) => {
                    &&& self@ matches SmConnectionView::Invitee(v)
                    &&& v.state is Requested
                    &&& invitee_doc_ready(v)
                    &&& response_thread_matches(v, response@)
                    &&& c@ == SmConnectionView::Invitee(spec_apply_response(v, response@))
                    &&& c.wf()
                },
                Err(e) => match self@ {
                    SmConnectionView::Inviter(_) => e.kind == VcxErrorKind::InvalidAction,
                    SmConnectionView::Invitee(v) => {
                        ||| !(v.state is Requested) && e.kind == VcxErrorKind::InvalidAction
                        ||| v.state is Requested && !invitee_doc_ready(v) && e.kind
                            == VcxErrorKind::NotReady
                        ||| v.state is Requested && invitee_doc_ready(v)
                            && !response_thread_matches(v, response@) && e.kind
                            == VcxErrorKind::SerializationError
                        ||| v.state is Requested && invitee_doc_ready(v)
                            && response_thread_matches(v, response@)
                    },
                },
            },
    {
        match self.connection_sm {
            SmConnection::Invitee(sm) => {
                let next = sm.handle_connection_response(keystore, response)?;
                Ok(Connection { connection_sm: SmConnection::Invitee(next) })
            },
            SmConnection::Inviter(_) => Err(
                VcxError::from_msg(
                    VcxErrorKind::InvalidAction,
                    "invalid action: an inviter cannot process a connection response",
                ),
            ),
        }
    }

    /// Builds and delivers the acknowledgement under a freshly generated
    /// id: an invitee in the Responded stage advances to Completed.
    pub fn send_ack<Tp: Transport>(self, transport: &mut Tp) -> (r: Result<Connection, VcxError>)
        requires
            self.wf(),
        ensures
            match r {
                Ok(c) => {
                    &&& self@ matches SmConnectionView::Invitee(v)
                    &&& v.state is Responded
                    &&& v.did_doc is Some
                    &&& c.wf()
                    &&& exists|id: Seq<char>|
                        id.len() == 36 && c@ == SmConnectionView::Invitee(spec_send_ack(v, id))
                },
                Err(e) => match self@ {
                    SmConnectionView::Inviter(_) => e.kind == VcxErrorKind::InvalidAction,
                    SmConnectionView::Invitee(v) => {
                        ||| !(v.state is Responded) && e.kind == VcxErrorKind::InvalidAction
                        ||| v.state is Responded && v.did_doc is None && e.kind
                            == VcxErrorKind::NotReady
                        ||| v.state is Responded && v.did_doc is Some
                    },
                },
            },
    {
        match self.connection_sm {
            SmConnection::Invitee(sm) => {
                let ghost v0 = sm@;
                let id = new_id();
                let ghost id_view = id@;
                let next = sm.handle_send_ack(id, transport)?;
                proof {
                    assert(id_view.len() == 36 && next@ == spec_send_ack(v0, id_view));
                }
                Ok(Connection { connection_sm: SmConnection::Invitee(next) })
            },
            SmConnection::Inviter(_) => Err(
                VcxError::from_msg(
                    VcxErrorKind::InvalidAction,
                    "invalid action: an inviter cannot send an acknowledgement",
                ),
            ),
        }
    }

    /// Consumes the acknowledgement: an inviter in the Responded stage,
    /// handed an acknowledgement naming this conversation's thread,
    /// advances to Completed.
    pub fn process_ack(self, message: A2AMessage) -> (r: Result<Connection, VcxError>)
        requires
            self.wf(),
        ensures
            match r {
                Ok(c) => {
                    &&& self@ matches SmConnectionView::Inviter(v)
                    &&& v.state is Responded
                    &&& v.did_doc is Some
                    &&& message@ matches A2AMessageView::Ack(ack)
                    &&& crate::inviter::ack_thread_matches(v, ack)
                    &&& c@ == SmConnectionView::Inviter(spec_handle_ack(v))
                    &&& c.wf()
                },
                Err(e) => match self@ {
                    SmConnectionView::Invitee(_) => e.kind == VcxErrorKind::InvalidAction,
                    SmConnectionView::Inviter(v) => {
                        ||| !(v.state is Responded) && e.kind == VcxErrorKind::InvalidAction
                        ||| v.state is Responded && v.did_doc is None && e.kind
                            == VcxErrorKind::NotReady
                        ||| v.state is Responded && v.did_doc is Some && !(message@ matches
                            A2AMessageView::Ack(ack) && crate::inviter::ack_thread_matches(
                            v,
                            ack,
                        )) && e.kind == VcxErrorKind::SerializationError
                    },
                },
            },
    {
        match self.connection_sm {
            SmConnection::Inviter(sm) => {
                let next = sm.handle_confirmation_message(&message)?;
                Ok(Connection { connection_sm: SmConnection::Inviter(next) })
            },
            SmConnection::Invitee(_) => Err(
                VcxError::from_msg(
                    VcxErrorKind::InvalidAction,
                    "invalid action: an invitee cannot consume an acknowledgement",
                ),
            ),
        }
    }
}

/// Snapshot round-trip: a well-formed connection image is accepted by
/// rehydration and reproduced exactly, so the rehydrated connection has
/// the same state, the same thread id and the same pairwise identity as
/// the one the snapshot was taken from.
pub proof fn lemma_snapshot_round_trip(v: SmConnectionView)
    requires
        sm_wf(v),
    ensures
        spec_rehydrate(v) == Some(v),
        spec_connection_state(spec_rehydrate(v).unwrap()) == spec_connection_state(v),
        spec_connection_thread_id(spec_rehydrate(v).unwrap()) == spec_connection_thread_id(v),
        spec_connection_pairwise(spec_rehydrate(v).unwrap()) == spec_connection_pairwise(v),
{
}

} // verus!
