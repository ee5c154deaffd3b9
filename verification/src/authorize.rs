//! Authorization: a pure equality comparison of identities that fails
//! closed.

use vstd::prelude::*;

use crate::msg::RegistryError;
use crate::state::HumanAddr;

verus! {

/// Succeeds exactly when the acting identity is the required one; any
/// mismatch is `Unauthorized`, never a default-allow.
pub fn authorize(acting: &HumanAddr, required: &HumanAddr) -> (r: Result<(), RegistryError>)
    ensures
        r is Ok <==> acting@ == required@,
        r is Err ==> r == Err::<(), RegistryError>(RegistryError::Unauthorized),
{
    if acting.0 == required.0 {
        Ok(())
    } else {
        Err(RegistryError::Unauthorized)
    }
}

} // verus!
