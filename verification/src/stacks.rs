//! Stack-level operations, named as the commands use them.

use vstd::prelude::*;

use crate::persistence::{save_current_stack, save_stack, stack_position, StackError};
use crate::types::{FileData, StackV};

verus! {

/// Create a new, empty stack under the given name.  Refused with
/// `StackAlreadyExists`, and the picture left unchanged, exactly when a
/// stack of that name is already there.
pub fn create_stack(data: &mut FileData, stack_name: &String) -> (r: Result<(), StackError>)
    ensures
        r is Ok <==> stack_position(old(data)@.stacks, stack_name@) is None,
        r matches Err(e) ==> e == StackError::StackAlreadyExists && final(data)@ == old(data)@,
        r is Ok ==> final(data)@.stacks == old(data)@.stacks.push(
            StackV { name: stack_name@, branches: Seq::empty() },
        ),
        final(data)@.current_stack == old(data)@.current_stack,
        old(data)@.stacks_unique() && r is Ok ==> final(data)@.stacks_unique(),
{
    save_stack(data, stack_name)
}

/// Make the named stack the current one.  Refused with `StackNotFound`,
/// and the picture left unchanged, exactly when no stack has that name.
pub fn checkout_stack(data: &mut FileData, stack_name: &String) -> (r: Result<(), StackError>)
    ensures
        r is Ok <==> stack_position(old(data)@.stacks, stack_name@) is Some,
        r matches Err(e) ==> e == StackError::StackNotFound && final(data)@ == old(data)@,
        final(data)@.stacks == old(data)@.stacks,
        r is Ok ==> final(data)@.current_stack == stack_name@,
{
    save_current_stack(data, stack_name)
}

} // verus!
