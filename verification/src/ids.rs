use vstd::prelude::*;
use uuid::Uuid;

verus! {

/// `uuid::Uuid`, an opaque 128-bit identifier of a card, column or sprint.
#[verifier::external_type_specification]
#[verifier::external_body]
pub struct ExUuid(uuid::Uuid);

/// `==` of `uuid::Uuid`. The type derives `PartialEq` over its sixteen bytes,
/// so two ids compare equal exactly when they are the same id.
#[verifier::external_body]
pub(crate) fn same_id(a: &Uuid, b: &Uuid) -> (r: bool)
    ensures
        r == (*a == *b),
{
    a == b
}

} // verus!
