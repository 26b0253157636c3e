use vstd::prelude::*;

verus! {

/// A party's service document: its DID, the keys a message for it must be
/// encrypted to, the routing keys of its mediators, and its service
/// endpoint.
#[derive(Debug)]
pub struct DidDoc {
    pub id: String,
    pub recipient_keys: Vec<String>,
    pub routing_keys: Vec<String>,
    pub service_endpoint: String,
}

/// The mathematical image of a [`DidDoc`].
#[verifier::ext_equal]
pub struct DidDocView {
    pub id: Seq<char>,
    pub recipient_keys: Seq<Seq<char>>,
    pub routing_keys: Seq<Seq<char>>,
    pub service_endpoint: Seq<char>,
}

/// The views of a vector of strings, in order.
pub open spec fn strings_view(v: Seq<String>) -> Seq<Seq<char>> {
    v.map_values(|s: String| s@)
}

/// Clones a vector of strings; the result holds the same string values.
pub fn clone_strings(v: &Vec<String>) -> (r: Vec<String>)
    ensures
        r@ == v@,
{
    let r = v.clone();
    proof {
        assert forall|i: int| 0 <= i < v@.len() implies r@[i] == v@[i] by {
            assert(vstd::pervasive::cloned::<String>(v@[i], r@[i]));
        }
        assert(r@ =~= v@);
    }
    r
}

impl View for DidDoc {
    type V = DidDocView;

    open spec fn view(&self) -> DidDocView {
        DidDocView {
            id: self.id@,
            recipient_keys: strings_view(self.recipient_keys@),
            routing_keys: strings_view(self.routing_keys@),
            service_endpoint: self.service_endpoint@,
        }
    }
}

impl Clone for DidDoc {
    fn clone(&self) -> (r: Self)
        ensures
            r@ == self@,
    {
        DidDoc {
            id: self.id.clone(),
            recipient_keys: clone_strings(&self.recipient_keys),
            routing_keys: clone_strings(&self.routing_keys),
            service_endpoint: self.service_endpoint.clone(),
        }
    }
}

} // verus!
