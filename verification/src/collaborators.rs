use vstd::prelude::*;

use crate::did_doc::DidDoc;
use crate::error::VcxError;
use crate::messages::{A2AMessage, ConnectionData};
use crate::pairwise_info::PairwiseInfo;

verus! {

/// The keystore collaborator: provisions connection-scoped identities and
/// signs or verifies connection content. Implementations live outside the
/// library; nothing is assumed of their results beyond their types, so
/// every caller states what it does for each possible outcome.
pub trait Keystore {
    /// Creates a fresh DID and verification key for one connection.
    fn create_pairwise_identity(&mut self) -> Result<PairwiseInfo, VcxError>;

    /// Serializes the given connection content and signs it with the key
    /// named by `key`.
    fn sign_connection(&mut self, key: &String, content: &ConnectionData) -> Result<
        Vec<u8>,
        VcxError,
    >;

    /// Checks `signature` over the given connection content against the
    /// key named by `key`.
    fn verify_connection(
        &mut self,
        key: &String,
        content: &ConnectionData,
        signature: &Vec<u8>,
    ) -> Result<bool, VcxError>;
}

/// The transport collaborator: delivers one protocol message to the peer
/// described by `did_doc`, sent from the key `sender_vk`. The library
/// never embeds a concrete transport; a failed delivery surfaces as the
/// implementation's error and the calling transition is not applied.
pub trait Transport {
    fn send(&mut self, did_doc: &DidDoc, sender_vk: &String, message: &A2AMessage) -> Result<
        (),
        VcxError,
    >;
}

} // verus!
