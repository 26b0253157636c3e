use vstd::prelude::*;

use crate::did_doc::{clone_strings, DidDoc, DidDocView};
use crate::thread::{Thread, ThreadView};

verus! {

/// The kind of an invitation. A `Public` invitation stems from a
/// long-lived, externally registered identity; a `Pairwise` invitation
/// from a one-time, connection-specific identity. The kind decides how the
/// invitee derives the conversation's thread id.
#[derive(Clone, Copy, PartialEq, Eq, Structural, Debug)]
pub enum InvitationKind {
    Public,
    Pairwise,
}

/// The out-of-band invitation the inviter publishes: its id, its kind, and
/// the service information a request must be delivered to.
#[derive(Debug)]
pub struct Invitation {
    pub id: String,
    pub kind: InvitationKind,
    pub service_endpoint: String,
    pub routing_keys: Vec<String>,
    pub recipient_key: String,
}

/// The mathematical image of an [`Invitation`].
#[verifier::ext_equal]
pub struct InvitationView {
    pub id: Seq<char>,
    pub kind: InvitationKind,
    pub service_endpoint: Seq<char>,
    pub routing_keys: Seq<Seq<char>>,
    pub recipient_key: Seq<char>,
}

impl View for Invitation {
    type V = InvitationView;

    open spec fn view(&self) -> InvitationView {
        InvitationView {
            id: self.id@,
            kind: self.kind,
            service_endpoint: self.service_endpoint@,
            routing_keys: crate::did_doc::strings_view(self.routing_keys@),
            recipient_key: self.recipient_key@,
        }
    }
}

impl Clone for Invitation {
    fn clone(&self) -> (r: Self)
        ensures
            r@ == self@,
    {
        Invitation {
            id: self.id.clone(),
            kind: self.kind,
            service_endpoint: self.service_endpoint.clone(),
            routing_keys: clone_strings(&self.routing_keys),
            recipient_key: self.recipient_key.clone(),
        }
    }
}

/// A party's DID together with its service document, as carried inside a
/// request or a response.
#[derive(Debug)]
pub struct ConnectionData {
    pub did: String,
    pub did_doc: DidDoc,
}

/// The mathematical image of a [`ConnectionData`].
#[verifier::ext_equal]
pub struct ConnectionDataView {
    pub did: Seq<char>,
    pub did_doc: DidDocView,
}

impl View for ConnectionData {
    type V = ConnectionDataView;

    open spec fn view(&self) -> ConnectionDataView {
        ConnectionDataView { did: self.did@, did_doc: self.did_doc@ }
    }
}

impl Clone for ConnectionData {
    fn clone(&self) -> (r: Self)
        ensures
            r@ == self@,
    {
        ConnectionData { did: self.did.clone(), did_doc: self.did_doc.clone() }
    }
}

/// The connection request the invitee sends: its own id, the thread
/// decorator, and the invitee's DID with its document.
#[derive(Debug)]
pub struct Request {
    pub id: String,
    pub thread: Thread,
    pub connection: ConnectionData,
}

/// The mathematical image of a [`Request`].
#[verifier::ext_equal]
pub struct RequestView {
    pub id: Seq<char>,
    pub thread: ThreadView,
    pub connection: ConnectionDataView,
}

impl View for Request {
    type V = RequestView;

    open spec fn view(&self) -> RequestView {
        RequestView { id: self.id@, thread: self.thread@, connection: self.connection@ }
    }
}

impl Clone for Request {
    fn clone(&self) -> (r: Self)
        ensures
            r@ == self@,
    {
        Request {
            id: self.id.clone(),
            thread: self.thread.clone(),
            connection: self.connection.clone(),
        }
    }
}

/// The signed connection response the inviter sends: the inviter's fresh
/// connection data, a signature over that content, and the key that
/// claims to have produced the signature.
#[derive(Debug)]
pub struct SignedResponse {
    pub id: String,
    pub thread: Thread,
    pub connection: ConnectionData,
    pub signature: Vec<u8>,
    pub signer_key: String,
}

/// The mathematical image of a [`SignedResponse`].
#[verifier::ext_equal]
pub struct SignedResponseView {
    pub id: Seq<char>,
    pub thread: ThreadView,
    pub connection: ConnectionDataView,
    pub signature: Seq<u8>,
    pub signer_key: Seq<char>,
}

impl View for SignedResponse {
    type V = SignedResponseView;

    open spec fn view(&self) -> SignedResponseView {
        SignedResponseView {
            id: self.id@,
            thread: self.thread@,
            connection: self.connection@,
            signature: self.signature@,
            signer_key: self.signer_key@,
        }
    }
}

impl Clone for SignedResponse {
    fn clone(&self) -> (r: Self)
        ensures
            r@ == self@,
    {
        SignedResponse {
            id: self.id.clone(),
            thread: self.thread.clone(),
            connection: self.connection.clone(),
            signature: self.signature.clone(),
            signer_key: self.signer_key.clone(),
        }
    }
}

/// The status an acknowledgement reports.
#[derive(Clone, Copy, PartialEq, Eq, Structural, Debug)]
pub enum AckStatus {
    Accepted,
    Pending,
    Failed,
}

/// The acknowledgement the invitee sends to finish the handshake.
#[derive(Debug)]
pub struct Ack {
    pub id: String,
    pub thread: Thread,
    pub status: AckStatus,
}

/// The mathematical image of an [`Ack`].
#[verifier::ext_equal]
pub struct AckView {
    pub id: Seq<char>,
    pub thread: ThreadView,
    pub status: AckStatus,
}

impl View for Ack {
    type V = AckView;

    open spec fn view(&self) -> AckView {
        AckView { id: self.id@, thread: self.thread@, status: self.status }
    }
}

impl Clone for Ack {
    fn clone(&self) -> (r: Self)
        ensures
            r@ == self@,
    {
        Ack { id: self.id.clone(), thread: self.thread.clone(), status: self.status }
    }
}

/// Any protocol message that can travel between the two agents.
#[derive(Debug)]
pub enum A2AMessage {
    ConnectionRequest(Request),
    ConnectionResponse(SignedResponse),
    Ack(Ack),
}

/// The mathematical image of an [`A2AMessage`].
#[verifier::ext_equal]
pub enum A2AMessageView {
    ConnectionRequest(RequestView),
    ConnectionResponse(SignedResponseView),
    Ack(AckView),
}

impl View for A2AMessage {
    type V = A2AMessageView;

    open spec fn view(&self) -> A2AMessageView {
        match self {
            A2AMessage::ConnectionRequest(r) => A2AMessageView::ConnectionRequest(r@),
            A2AMessage::ConnectionResponse(r) => A2AMessageView::ConnectionResponse(r@),
            A2AMessage::Ack(a) => A2AMessageView::Ack(a@),
        }
    }
}

impl Clone for A2AMessage {
    fn clone(&self) -> (r: Self)
        ensures
            r@ == self@,
    {
        match self {
            A2AMessage::ConnectionRequest(m) => A2AMessage::ConnectionRequest(m.clone()),
            A2AMessage::ConnectionResponse(m) => A2AMessage::ConnectionResponse(m.clone()),
            A2AMessage::Ack(m) => A2AMessage::Ack(m.clone()),
        }
    }
}

} // verus!
