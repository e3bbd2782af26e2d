//! The sync command: set up a synchronization run for the current stack.

use vstd::prelude::*;

use crate::persistence::{read_current_stack_branches, stack_position};
use crate::sync_machine::SyncMachine;
use crate::sync_model::PhaseV;
use crate::types::FileData;

verus! {

/// Why a synchronization run could not be set up.
#[derive(Clone, Copy, PartialEq, Eq, Structural, Debug)]
pub enum SyncSetupError {
    /// The picture names no existing stack as the current one.
    NotOnStack,
    /// The bearer credential for the remote API is missing from the
    /// environment: a configuration error, reported before any action is
    /// taken.
    MissingCredential,
}

/// Set up a synchronization run for the current stack: a fresh engine over
/// the stack's branch chain, based on the trunk `main`.  Refused before
/// anything is done when the credential for the remote API is missing or
/// when no stack carries the name the picture records as current.
pub fn handler(data: &FileData, credential: Option<&String>) -> (r: Result<
    SyncMachine,
    SyncSetupError,
>)
    ensures
        r is Ok <==> credential is Some && stack_position(
            data@.stacks,
            data@.current_stack,
        ) is Some,
        r matches Ok(m) ==> m@.trunk == "main"@ && m@.chain == data@.stacks[stack_position(
            data@.stacks,
            data@.current_stack,
        ).unwrap()].branches && m@.phase == PhaseV::TrunkCheckout && m.wf(),
        r matches Err(e) ==> (e == SyncSetupError::MissingCredential <==> credential is None),
{
    if credential.is_none() {
        return Err(SyncSetupError::MissingCredential);
    }
    let branches = match read_current_stack_branches(data) {
        Ok(branches) => branches,
        Err(_) => {
            return Err(SyncSetupError::NotOnStack);
        },
    };
    let trunk = "main".to_owned();
    proof {
        reveal_strlit("main");
    }
    Ok(SyncMachine::new(trunk, branches))
}

} // verus!
