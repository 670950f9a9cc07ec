use vstd::prelude::*;

verus! {

/// The length of an identifier in its hyphenated form: 32 hexadecimal digits
/// and 4 hyphens.
pub const ID_LENGTH: usize = 36;

/// A fresh random identifier from `uuid::Uuid::new_v4`, printed in the
/// hyphenated lower-case form. Which identifier comes back is left open; its
/// printed length is fixed.
#[verifier::external_body]
pub(crate) fn random_uuid() -> (id: String)
    ensures
        id@.len() == ID_LENGTH,
{
    uuid::Uuid::new_v4().to_string()
}

/// A fresh identifier for a record.
pub fn generate_id() -> (id: String)
    ensures
        id@.len() == ID_LENGTH,
{
    random_uuid()
}

} // verus!
