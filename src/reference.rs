//! Generation of the reference that correlates the calls of one flow.

use vstd::prelude::*;

verus! {

/// Relies on `uuid::Uuid::new_v4` and its `Display`, the hyphenated form:
/// 32 lowercase hex digits and four hyphens, 36 characters in all.
#[verifier::external_body]
pub(crate) fn new_reference() -> (r: String)
    ensures
        r@.len() == 36,
{
    uuid::Uuid::new_v4().to_string()
}

} // verus!
