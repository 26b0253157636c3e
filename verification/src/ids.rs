use vstd::prelude::*;

verus! {

/// Relies on `uuid::Uuid::new_v4` and the hyphenated text form of a UUID:
/// a freshly drawn random identifier, rendered as 36 characters. The draw
/// is random, so nothing relates two results; callers state what holds of
/// every outcome.
#[verifier::external_body]
pub(crate) fn new_id() -> (r: String)
    ensures
        r@.len() == 36,
{
    uuid::Uuid::new_v4().hyphenated().to_string()
}

} // verus!
