use vstd::prelude::*;

verus! {

/// Errors that the contracts report to their callers.
#[derive(Clone, Copy, Debug, PartialEq, Eq, Structural)]
pub enum ContractError {
    /// The caller is not the owner recorded at instantiation.
    Unauthorized,
    /// No aggregate has been stored yet.
    NotFound,
}

/// Admits a mutation only when the caller is the stored owner.
pub fn authorize(sender: &String, owner: &String) -> (r: Result<(), ContractError>)
    ensures
        sender@ == owner@ <==> r is Ok,
        sender@ != owner@ ==> r == Err::<(), ContractError>(ContractError::Unauthorized),
{
    if *sender == *owner {
        Ok(())
    } else {
        Err(ContractError::Unauthorized)
    }
}

} // verus!
