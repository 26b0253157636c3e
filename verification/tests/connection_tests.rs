use aries_connection::collaborators::{Keystore, Transport};
use aries_connection::connection::{Connection, ConnectionState, SmConnectionState};
use aries_connection::did_doc::DidDoc;
use aries_connection::error::{VcxError, VcxErrorKind};
use aries_connection::invitee::InviteeState;
use aries_connection::inviter::{InviterFullState, InviterState, SmConnectionInviter};
use aries_connection::messages::{
    A2AMessage, Ack, AckStatus, ConnectionData, Invitation, InvitationKind, Request,
};
use aries_connection::pairwise_info::PairwiseInfo;
use aries_connection::thread::Thread;

struct MockKeystore {
    counter: u32,
}

fn sig_bytes(key: &str, content: &ConnectionData) -> Vec<u8> {
    let mut v = Vec::new();
    v.extend_from_slice(key.as_bytes());
    v.push(b'|');
    v.extend_from_slice(content.did.as_bytes());
    v.push(b'|');
    v.extend_from_slice(content.did_doc.id.as_bytes());
    v.push(b'|');
    v.extend_from_slice(content.did_doc.service_endpoint.as_bytes());
    for k in &content.did_doc.recipient_keys {
        v.push(b'|');
        v.extend_from_slice(k.as_bytes());
    }
    v
}

impl Keystore for MockKeystore {
    fn create_pairwise_identity(&mut self) -> Result<PairwiseInfo, VcxError> {
        self.counter += 1;
        Ok(PairwiseInfo {
            pw_did: format!("did:mock:{}", self.counter),
            pw_vk: format!("vk{}", self.counter),
        })
    }

    fn sign_connection(&mut self, key: &String, content: &ConnectionData) -> Result<Vec<u8>, VcxError> {
        Ok(sig_bytes(key, content))
    }

    fn verify_connection(
        &mut self,
        key: &String,
        content: &ConnectionData,
        signature: &Vec<u8>,
    ) -> Result<bool, VcxError> {
        Ok(*signature == sig_bytes(key, content))
    }
}

struct BrokenKeystore;

impl Keystore for BrokenKeystore {
    fn create_pairwise_identity(&mut self) -> Result<PairwiseInfo, VcxError> {
        Err(VcxError::from_msg(VcxErrorKind::IOError, "wallet unavailable"))
    }

    fn sign_connection(&mut self, _key: &String, _content: &ConnectionData) -> Result<Vec<u8>, VcxError> {
        Err(VcxError::from_msg(VcxErrorKind::IOError, "wallet unavailable"))
    }

    fn verify_connection(
        &mut self,
        _key: &String,
        _content: &ConnectionData,
        _signature: &Vec<u8>,
    ) -> Result<bool, VcxError> {
        Err(VcxError::from_msg(VcxErrorKind::IOError, "wallet unavailable"))
    }
}

struct RecordingTransport {
    sent: Vec<A2AMessage>,
}

impl Transport for RecordingTransport {
    fn send(
        &mut self,
        _did_doc: &DidDoc,
        _sender_vk: &String,
        message: &A2AMessage,
    ) -> Result<(), VcxError> {
        self.sent.push(message.clone());
        Ok(())
    }
}

struct FailingTransport;

impl Transport for FailingTransport {
    fn send(
        &mut self,
        _did_doc: &DidDoc,
        _sender_vk: &String,
        _message: &A2AMessage,
    ) -> Result<(), VcxError> {
        Err(VcxError::from_msg(VcxErrorKind::IOError, "transport down"))
    }
}

fn service_endpoint() -> String {
    "https://service-endpoint.org".to_string()
}

fn pairwise_invitation(id: &str) -> Invitation {
    Invitation {
        id: id.to_string(),
        kind: InvitationKind::Pairwise,
        service_endpoint: service_endpoint(),
        routing_keys: vec![],
        recipient_key: "inviter-invite-vk".to_string(),
    }
}

fn public_invitation(id: &str) -> Invitation {
    Invitation {
        id: id.to_string(),
        kind: InvitationKind::Public,
        service_endpoint: service_endpoint(),
        routing_keys: vec![],
        recipient_key: "inviter-public-vk".to_string(),
    }
}

fn doc_from_invitation(invitation: &Invitation) -> DidDoc {
    DidDoc {
        id: "did:inviter".to_string(),
        recipient_keys: vec![invitation.recipient_key.clone()],
        routing_keys: invitation.routing_keys.clone(),
        service_endpoint: invitation.service_endpoint.clone(),
    }
}

fn invitee_doc() -> DidDoc {
    DidDoc {
        id: "did:invitee".to_string(),
        recipient_keys: vec!["invitee-vk".to_string()],
        routing_keys: vec![],
        service_endpoint: service_endpoint(),
    }
}

#[test]
fn test_create_with_pairwise_invite() {
    let mut ks = MockKeystore { counter: 0 };
    let invite = pairwise_invitation("pw-invite-1");
    let connection = Connection::create_invitee(&mut ks, doc_from_invitation(&invite))
        .unwrap()
        .process_invite(invite)
        .unwrap();
    assert_eq!(connection.get_state(), ConnectionState::Invitee(InviteeState::Invited));
}

#[test]
fn test_create_with_public_invite() {
    let mut ks = MockKeystore { counter: 0 };
    let invite = public_invitation("pub-invite-1");
    let connection = Connection::create_invitee(&mut ks, doc_from_invitation(&invite))
        .unwrap()
        .process_invite(invite)
        .unwrap();
    assert_eq!(connection.get_state(), ConnectionState::Invitee(InviteeState::Invited));
}

#[test]
fn test_connect_sets_correct_thread_id_based_on_invitation_type() {
    let mut ks = MockKeystore { counter: 0 };
    let mut tp = RecordingTransport { sent: vec![] };

    let invite = public_invitation("pub-invite-2");
    let connection = Connection::create_invitee(&mut ks, doc_from_invitation(&invite))
        .unwrap()
        .process_invite(invite.clone())
        .unwrap()
        .send_request(service_endpoint(), vec![], &mut tp)
        .unwrap();
    assert_eq!(connection.get_state(), ConnectionState::Invitee(InviteeState::Requested));
    assert_ne!(connection.get_thread_id(), invite.id);

    let invite = pairwise_invitation("pw-invite-2");
    let connection = Connection::create_invitee(&mut ks, doc_from_invitation(&invite))
        .unwrap()
        .process_invite(invite.clone())
        .unwrap()
        .send_request(service_endpoint(), vec![], &mut tp)
        .unwrap();
    assert_eq!(connection.get_state(), ConnectionState::Invitee(InviteeState::Requested));
    assert_eq!(connection.get_thread_id(), invite.id);
}

#[test]
fn test_create_with_request() {
    let mut ks = MockKeystore { counter: 0 };
    let inviter = Connection::create_inviter(&mut ks)
        .unwrap()
        .create_invite(service_endpoint(), vec![])
        .unwrap();
    let invitation = inviter.get_invite_details().unwrap().clone();
    let request = Request {
        id: "request-1".to_string(),
        thread: Thread::new().set_thid(invitation.id.clone()),
        connection: ConnectionData { did: "did:invitee".to_string(), did_doc: invitee_doc() },
    };
    let inviter = inviter
        .process_request(&mut ks, request, vec![], service_endpoint())
        .unwrap();
    assert_eq!(inviter.get_state(), ConnectionState::Inviter(InviterState::Requested));
}

#[test]
fn test_connection_e2e() {
    let mut ks = MockKeystore { counter: 0 };
    let mut tp = RecordingTransport { sent: vec![] };

    // Inviter creates the connection and the invitation.
    let inviter = Connection::create_inviter(&mut ks)
        .unwrap()
        .create_invite(service_endpoint(), vec![])
        .unwrap();
    assert_eq!(inviter.get_state(), ConnectionState::Inviter(InviterState::Invited));
    let invitation = match inviter.get_invite_details() {
        Some(inv) => inv.clone(),
        None => panic!("Invalid invitation type"),
    };
    assert_eq!(invitation.kind, InvitationKind::Pairwise);
    assert_eq!(invitation.id.len(), 36);

    // Invitee ingests the invitation and sends the request.
    let invitee = Connection::create_invitee(&mut ks, doc_from_invitation(&invitation))
        .unwrap()
        .process_invite(invitation.clone())
        .unwrap();
    assert_eq!(invitee.get_state(), ConnectionState::Invitee(InviteeState::Invited));
    let invitee = invitee
        .send_request(service_endpoint(), vec![], &mut tp)
        .unwrap();
    assert_eq!(invitee.get_state(), ConnectionState::Invitee(InviteeState::Requested));
    assert_eq!(tp.sent.len(), 1);

    // Inviter receives the request and sends the signed response.
    let request = match &tp.sent[0] {
        A2AMessage::ConnectionRequest(r) => r.clone(),
        _ => panic!("Received invalid message type"),
    };
    let inviter = inviter
        .process_request(&mut ks, request, vec![], service_endpoint())
        .unwrap();
    assert_eq!(inviter.get_state(), ConnectionState::Inviter(InviterState::Requested));
    assert_eq!(tp.sent.len(), 1);
    let inviter = inviter.send_response(&mut ks, &mut tp).unwrap();
    assert_eq!(inviter.get_state(), ConnectionState::Inviter(InviterState::Responded));
    assert_eq!(tp.sent.len(), 2);

    // Invitee verifies the response and sends the acknowledgement.
    let response = match &tp.sent[1] {
        A2AMessage::ConnectionResponse(r) => r.clone(),
        _ => panic!("Received invalid message type"),
    };
    let invitee = invitee.process_response(&mut ks, response).unwrap();
    assert_eq!(invitee.get_state(), ConnectionState::Invitee(InviteeState::Responded));
    assert_eq!(tp.sent.len(), 2);
    let invitee = invitee.send_ack(&mut tp).unwrap();
    assert_eq!(invitee.get_state(), ConnectionState::Invitee(InviteeState::Completed));
    assert_eq!(tp.sent.len(), 3);

    // Inviter consumes the acknowledgement, which references the
    // conversation's thread id and reports success.
    let ack_message = match &tp.sent[2] {
        A2AMessage::Ack(a) => {
            assert_eq!(a.thread.thid, Some(invitation.id.clone()));
            assert_eq!(a.status, AckStatus::Accepted);
            tp.sent[2].clone()
        },
        _ => panic!("Received invalid message type"),
    };
    let inviter = inviter.process_ack(ack_message).unwrap();
    assert_eq!(inviter.get_state(), ConnectionState::Inviter(InviterState::Completed));

    // Both ends settled on the invitation's thread id.
    assert_eq!(inviter.get_thread_id(), invitation.id);
    assert_eq!(invitee.get_thread_id(), invitation.id);
    // The inviter rotated to a session identity distinct from the invitation key,
    // and the invitee learned that fresh identity from the response.
    assert_ne!(inviter.pairwise_info().pw_vk, invitation.recipient_key);
    assert_eq!(invitee.remote_did().unwrap(), inviter.pairwise_info().pw_did);
    assert_eq!(invitee.remote_vk().unwrap(), inviter.pairwise_info().pw_vk);
    // The inviter knows the invitee by its pairwise DID.
    assert_eq!(inviter.remote_did().unwrap(), invitee.pairwise_info().pw_did);
}

#[test]
fn invalid_role_operations_return_invalid_action() {
    let mut ks = MockKeystore { counter: 0 };
    let mut tp = RecordingTransport { sent: vec![] };
    let inviter = Connection::create_inviter(&mut ks).unwrap();
    let invite = pairwise_invitation("pw-invite-3");
    let invitee = Connection::create_invitee(&mut ks, doc_from_invitation(&invite)).unwrap();

    let e = inviter.clone().process_invite(invite.clone()).unwrap_err();
    assert_eq!(e.kind, VcxErrorKind::InvalidAction);
    let e = inviter
        .clone()
        .send_request(service_endpoint(), vec![], &mut tp)
        .unwrap_err();
    assert_eq!(e.kind, VcxErrorKind::InvalidAction);
    let e = inviter.clone().send_ack(&mut tp).unwrap_err();
    assert_eq!(e.kind, VcxErrorKind::InvalidAction);

    let e = invitee
        .clone()
        .create_invite(service_endpoint(), vec![])
        .unwrap_err();
    assert_eq!(e.kind, VcxErrorKind::InvalidAction);
    let request = Request {
        id: "request-2".to_string(),
        thread: Thread::new(),
        connection: ConnectionData { did: "did:invitee".to_string(), did_doc: invitee_doc() },
    };
    let e = invitee
        .clone()
        .process_request(&mut ks, request, vec![], service_endpoint())
        .unwrap_err();
    assert_eq!(e.kind, VcxErrorKind::InvalidAction);
    let e = invitee.clone().send_response(&mut ks, &mut tp).unwrap_err();
    assert_eq!(e.kind, VcxErrorKind::InvalidAction);
    let ack = A2AMessage::Ack(Ack {
        id: "ack-1".to_string(),
        thread: Thread::new(),
        status: AckStatus::Accepted,
    });
    let e = invitee.clone().process_ack(ack).unwrap_err();
    assert_eq!(e.kind, VcxErrorKind::InvalidAction);

    // The retained values are untouched: no transition was applied.
    assert_eq!(inviter.get_state(), ConnectionState::Inviter(InviterState::Initial));
    assert_eq!(invitee.get_state(), ConnectionState::Invitee(InviteeState::Initial));
    assert_eq!(tp.sent.len(), 0);
}

#[test]
fn invalid_stage_operations_return_invalid_action() {
    let mut ks = MockKeystore { counter: 0 };
    let mut tp = RecordingTransport { sent: vec![] };
    let inviter = Connection::create_inviter(&mut ks).unwrap();
    let invite = pairwise_invitation("pw-invite-4");
    let invitee = Connection::create_invitee(&mut ks, doc_from_invitation(&invite)).unwrap();

    // The inviter is Initial: it cannot respond or consume an acknowledgement.
    let e = inviter.clone().send_response(&mut ks, &mut tp).unwrap_err();
    assert_eq!(e.kind, VcxErrorKind::InvalidAction);
    let ack = A2AMessage::Ack(Ack {
        id: "ack-2".to_string(),
        thread: Thread::new(),
        status: AckStatus::Accepted,
    });
    let e = inviter.clone().process_ack(ack).unwrap_err();
    assert_eq!(e.kind, VcxErrorKind::InvalidAction);
    let request = Request {
        id: "request-3".to_string(),
        thread: Thread::new(),
        connection: ConnectionData { did: "did:invitee".to_string(), did_doc: invitee_doc() },
    };
    let e = inviter
        .clone()
        .process_request(&mut ks, request, vec![], service_endpoint())
        .unwrap_err();
    assert_eq!(e.kind, VcxErrorKind::InvalidAction);

    // The invitee is Initial: it cannot send a request or an acknowledgement yet.
    let e = invitee
        .clone()
        .send_request(service_endpoint(), vec![], &mut tp)
        .unwrap_err();
    assert_eq!(e.kind, VcxErrorKind::InvalidAction);
    let e = invitee.clone().send_ack(&mut tp).unwrap_err();
    assert_eq!(e.kind, VcxErrorKind::InvalidAction);

    // An invited invitee cannot ingest a second invitation.
    let invited = invitee.clone().process_invite(invite.clone()).unwrap();
    let e = invited.clone().process_invite(invite.clone()).unwrap_err();
    assert_eq!(e.kind, VcxErrorKind::InvalidAction);

    assert_eq!(inviter.get_state(), ConnectionState::Inviter(InviterState::Initial));
    assert_eq!(invitee.get_state(), ConnectionState::Invitee(InviteeState::Initial));
    assert_eq!(invited.get_state(), ConnectionState::Invitee(InviteeState::Invited));
    assert_eq!(tp.sent.len(), 0);
}

#[test]
fn snapshot_round_trip_reproduces_the_connection() {
    let mut ks = MockKeystore { counter: 0 };
    let mut tp = RecordingTransport { sent: vec![] };
    let invite = pairwise_invitation("pw-invite-5");
    let invitee = Connection::create_invitee(&mut ks, doc_from_invitation(&invite))
        .unwrap()
        .process_invite(invite)
        .unwrap()
        .send_request(service_endpoint(), vec![], &mut tp)
        .unwrap();

    let snapshot = invitee.state_object();
    let restored = Connection::rehydrate(snapshot).unwrap();
    assert_eq!(restored.get_state(), invitee.get_state());
    assert_eq!(restored.get_thread_id(), invitee.get_thread_id());
    assert_eq!(restored.pairwise_info().pw_did, invitee.pairwise_info().pw_did);
    assert_eq!(restored.pairwise_info().pw_vk, invitee.pairwise_info().pw_vk);
}

#[test]
fn rehydrate_rejects_counters_no_connection_produced() {
    let snapshot = SmConnectionState::Inviter(SmConnectionInviter {
        source_id: String::new(),
        pairwise_info: PairwiseInfo {
            pw_did: "did:mock:1".to_string(),
            pw_vk: "vk1".to_string(),
        },
        thread: Thread {
            thid: None,
            pthid: None,
            sender_order: 9,
            received_orders: vec![],
        },
        did_doc: None,
        state: InviterFullState::Initial,
    });
    let e = Connection::rehydrate(snapshot).unwrap_err();
    assert_eq!(e.kind, VcxErrorKind::SerializationError);
}

#[test]
fn process_response_with_bad_signature_fails_verification() {
    let mut ks = MockKeystore { counter: 0 };
    let mut tp = RecordingTransport { sent: vec![] };
    let inviter = Connection::create_inviter(&mut ks)
        .unwrap()
        .create_invite(service_endpoint(), vec![])
        .unwrap();
    let invitation = inviter.get_invite_details().unwrap().clone();
    let invitee = Connection::create_invitee(&mut ks, doc_from_invitation(&invitation))
        .unwrap()
        .process_invite(invitation.clone())
        .unwrap()
        .send_request(service_endpoint(), vec![], &mut tp)
        .unwrap();
    let request = match &tp.sent[0] {
        A2AMessage::ConnectionRequest(r) => r.clone(),
        _ => panic!("Received invalid message type"),
    };
    let _inviter = inviter
        .process_request(&mut ks, request, vec![], service_endpoint())
        .unwrap()
        .send_response(&mut ks, &mut tp)
        .unwrap();
    let response = match &tp.sent[1] {
        A2AMessage::ConnectionResponse(r) => r.clone(),
        _ => panic!("Received invalid message type"),
    };

    let mut tampered = response.clone();
    tampered.signature[0] = tampered.signature[0].wrapping_add(1);
    let e = invitee.clone().process_response(&mut ks, tampered).unwrap_err();
    assert_eq!(e.kind, VcxErrorKind::VerificationFailed);
    // The retained value still waits in Requested.
    assert_eq!(invitee.get_state(), ConnectionState::Invitee(InviteeState::Requested));

    // Processing the genuine response afterwards still succeeds.
    let invitee = invitee.process_response(&mut ks, response).unwrap();
    assert_eq!(invitee.get_state(), ConnectionState::Invitee(InviteeState::Responded));
}

#[test]
fn process_request_rejects_a_foreign_thread() {
    let mut ks = MockKeystore { counter: 0 };
    let inviter = Connection::create_inviter(&mut ks)
        .unwrap()
        .create_invite(service_endpoint(), vec![])
        .unwrap();
    let request = Request {
        id: "request-4".to_string(),
        thread: Thread::new().set_thid("some-other-thread".to_string()),
        connection: ConnectionData { did: "did:invitee".to_string(), did_doc: invitee_doc() },
    };
    let e = inviter
        .clone()
        .process_request(&mut ks, request, vec![], service_endpoint())
        .unwrap_err();
    assert_eq!(e.kind, VcxErrorKind::SerializationError);
    assert_eq!(inviter.get_state(), ConnectionState::Inviter(InviterState::Invited));
}

#[test]
fn process_ack_rejects_foreign_messages() {
    let mut ks = MockKeystore { counter: 0 };
    let mut tp = RecordingTransport { sent: vec![] };
    let inviter = Connection::create_inviter(&mut ks)
        .unwrap()
        .create_invite(service_endpoint(), vec![])
        .unwrap();
    let invitation = inviter.get_invite_details().unwrap().clone();
    let request = Request {
        id: "request-5".to_string(),
        thread: Thread::new().set_thid(invitation.id.clone()),
        connection: ConnectionData { did: "did:invitee".to_string(), did_doc: invitee_doc() },
    };
    let inviter = inviter
        .process_request(&mut ks, request.clone(), vec![], service_endpoint())
        .unwrap()
        .send_response(&mut ks, &mut tp)
        .unwrap();

    // A non-acknowledgement message is rejected.
    let e = inviter
        .clone()
        .process_ack(A2AMessage::ConnectionRequest(request))
        .unwrap_err();
    assert_eq!(e.kind, VcxErrorKind::SerializationError);

    // An acknowledgement for another thread is rejected.
    let foreign = A2AMessage::Ack(Ack {
        id: "ack-3".to_string(),
        thread: Thread::new().set_thid("some-other-thread".to_string()),
        status: AckStatus::Accepted,
    });
    let e = inviter.clone().process_ack(foreign).unwrap_err();
    assert_eq!(e.kind, VcxErrorKind::SerializationError);
    assert_eq!(inviter.get_state(), ConnectionState::Inviter(InviterState::Responded));
}

#[test]
fn transport_failure_leaves_the_transition_unapplied() {
    let mut ks = MockKeystore { counter: 0 };
    let invite = pairwise_invitation("pw-invite-6");
    let invitee = Connection::create_invitee(&mut ks, doc_from_invitation(&invite))
        .unwrap()
        .process_invite(invite)
        .unwrap();

    let mut down = FailingTransport;
    let e = invitee
        .clone()
        .send_request(service_endpoint(), vec![], &mut down)
        .unwrap_err();
    assert_eq!(e.kind, VcxErrorKind::IOError);
    assert_eq!(invitee.get_state(), ConnectionState::Invitee(InviteeState::Invited));

    // The same operation succeeds once delivery works again.
    let mut tp = RecordingTransport { sent: vec![] };
    let invitee = invitee.send_request(service_endpoint(), vec![], &mut tp).unwrap();
    assert_eq!(invitee.get_state(), ConnectionState::Invitee(InviteeState::Requested));
    assert_eq!(tp.sent.len(), 1);
}

#[test]
fn keystore_failure_surfaces_from_the_constructors() {
    let mut broken = BrokenKeystore;
    let e = Connection::create_inviter(&mut broken).unwrap_err();
    assert_eq!(e.kind, VcxErrorKind::IOError);
    let e = Connection::create_invitee(&mut broken, invitee_doc()).unwrap_err();
    assert_eq!(e.kind, VcxErrorKind::IOError);
}

#[test]
fn remote_accessors_require_the_peer_document() {
    let mut ks = MockKeystore { counter: 0 };
    let inviter = Connection::create_inviter(&mut ks).unwrap();
    assert_eq!(inviter.remote_did().unwrap_err().kind, VcxErrorKind::NotReady);
    assert_eq!(inviter.remote_vk().unwrap_err().kind, VcxErrorKind::NotReady);
    assert!(inviter.their_did_doc().is_none());
    assert!(inviter.get_invite_details().is_none());

    let invite = pairwise_invitation("pw-invite-7");
    let invitee = Connection::create_invitee(&mut ks, doc_from_invitation(&invite)).unwrap();
    assert_eq!(invitee.remote_did().unwrap(), "did:inviter".to_string());
    assert_eq!(invitee.remote_vk().unwrap(), invite.recipient_key);
    assert!(invitee.their_did_doc().is_some());
    assert!(invitee.get_invite_details().is_none());
}

#[test]
fn fresh_invitation_ids_are_generated() {
    let mut ks = MockKeystore { counter: 0 };
    let first = Connection::create_inviter(&mut ks)
        .unwrap()
        .create_invite(service_endpoint(), vec![])
        .unwrap();
    let second = Connection::create_inviter(&mut ks)
        .unwrap()
        .create_invite(service_endpoint(), vec![])
        .unwrap();
    let a = first.get_invite_details().unwrap().clone();
    let b = second.get_invite_details().unwrap().clone();
    assert_eq!(a.id.len(), 36);
    assert_eq!(b.id.len(), 36);
    assert_ne!(a.id, b.id);
    assert_eq!(first.get_thread_id(), a.id);
}
