use vstd::prelude::*;
use crate::address::{Address, AddressView};
use crate::error::HandlerError;
use super::{Action, Operation};

verus! {

/// What the secure-copy backend does for an operation: fetch and push go through a staging
/// file; it has no other operation.
pub open spec fn scp_plans(url: AddressView, op: Operation, r: Result<Action, HandlerError>) -> bool {
    match op {
        Operation::Fetch => r matches Ok(Action::Download(a)) && a@ == url,
        Operation::Push(s) => r matches Ok(Action::Upload(a, c)) && a@ == url && c@ == s@,
        _ => r == Err::<Action, HandlerError>(HandlerError::UnsupportedOperation),
    }
}

/// The secure-copy backend.
#[derive(Debug, Clone, Copy, PartialEq, Eq, Structural)]
pub struct SCPProtocolHandler {}

impl SCPProtocolHandler {
    /// The transfer that performs an operation on an address.
    pub fn plan(&self, url: &Address, op: Operation) -> (r: Result<Action, HandlerError>)
        ensures
            scp_plans(url@, op, r),
    {
        match op {
            Operation::Fetch => Ok(Action::Download(url.duplicate())),
            Operation::Push(s) => Ok(Action::Upload(url.duplicate(), s)),
            _ => Err(HandlerError::UnsupportedOperation),
        }
    }
}

} // verus!
