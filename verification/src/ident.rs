//! Fresh identifiers for new records.

use vstd::prelude::*;

verus! {

/// The number of characters of an identifier: thirty-two digits in five
/// groups, with a hyphen between them.
pub const ID_LENGTH: usize = 36;

/// Calls `uuid::Uuid::new_v4` and writes the id out with its `Display`: a
/// random identifier. All that is claimed of it is its length, that of the
/// hyphenated form which `Display` writes.
#[verifier::external_body]
pub(crate) fn fresh_id() -> (id: String)
    ensures
        id@.len() == ID_LENGTH,
{
    uuid::Uuid::new_v4().to_string()
}

} // verus!
