use vstd::prelude::*;
use crate::errors::HostError;

verus! {

/// Which of the guest's required entry points resolved at instantiation:
/// the two-argument initialization entry point, the zero-argument step
/// function, and the two-argument input-submission function.
#[derive(Clone, Copy, Debug, PartialEq, Eq, Structural)]
pub struct GuestExports {
    pub has_init: bool,
    pub has_step: bool,
    pub has_submit_input: bool,
}

/// No guest without the full contract may run: a missing export is a fatal
/// `ModuleError` at startup, before any loop iteration executes.
pub fn check_exports(exports: GuestExports) -> (r: Result<(), HostError>)
    ensures
        r is Ok <==> exports.has_init && exports.has_step && exports.has_submit_input,
        r is Err ==> r->Err_0 == HostError::Module,
{
    if exports.has_init && exports.has_step && exports.has_submit_input {
        Ok(())
    } else {
        Err(HostError::Module)
    }
}

} // verus!
