use vstd::prelude::*;

use crate::did_doc::DidDocView;

verus! {

/// A connection-scoped identity: a DID and the verification key created for
/// exactly one connection. Provisioned by the keystore collaborator and
/// immutable afterwards.
#[derive(Debug)]
pub struct PairwiseInfo {
    pub pw_did: String,
    pub pw_vk: String,
}

/// The mathematical image of a [`PairwiseInfo`].
#[verifier::ext_equal]
pub struct PairwiseInfoView {
    pub pw_did: Seq<char>,
    pub pw_vk: Seq<char>,
}

impl View for PairwiseInfo {
    type V = PairwiseInfoView;

    open spec fn view(&self) -> PairwiseInfoView {
        PairwiseInfoView { pw_did: self.pw_did@, pw_vk: self.pw_vk@ }
    }
}

/// The service document a party builds for its own pairwise identity:
/// the pairwise DID, the pairwise verification key as the only recipient
/// key, and the given mediator keys and endpoint.
pub open spec fn spec_own_doc(
    pairwise_info: PairwiseInfoView,
    routing_keys: Seq<Seq<char>>,
    service_endpoint: Seq<char>,
) -> DidDocView {
    DidDocView {
        id: pairwise_info.pw_did,
        recipient_keys: seq![pairwise_info.pw_vk],
        routing_keys,
        service_endpoint,
    }
}

impl Clone for PairwiseInfo {
    fn clone(&self) -> (r: Self)
        ensures
            r@ == self@,
    {
        PairwiseInfo { pw_did: self.pw_did.clone(), pw_vk: self.pw_vk.clone() }
    }
}

} // verus!
