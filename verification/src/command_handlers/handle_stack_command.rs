//! The stack command: show the current stack, or switch to a stack,
//! creating it first when asked to.

use vstd::prelude::*;

use crate::handle_stack_command::{extract_create_option, extract_stack_name};
use crate::options::{first_plain_option, has_option, option_views};

verus! {

/// What the stack command decided to do.
#[derive(PartialEq, Eq, Debug)]
pub enum StackCommand {
    /// No stack name was given: show the current stack.
    ShowCurrent,
    /// Switch to the named stack, creating it first when `create` holds.
    Switch { name: String, create: bool },
}

/// Decide what the stack command does: with no non-flag option it shows the
/// current stack; otherwise it switches to the first non-flag option,
/// creating the stack first exactly when `--create` was given.
pub fn handler(options: &[String]) -> (r: StackCommand)
    ensures
        r is ShowCurrent <==> first_plain_option(option_views(options@)) is None,
        r matches StackCommand::Switch { name, create } ==> (first_plain_option(
            option_views(options@),
        ) matches Some(i) && name@ == option_views(options@)[i] && create == has_option(
            option_views(options@),
            "--create"@,
        )),
{
    match extract_stack_name(options) {
        None => StackCommand::ShowCurrent,
        Some(name) => {
            let create = match extract_create_option(options) {
                Some(_) => true,
                None => false,
            };
            StackCommand::Switch { name: name.clone(), create }
        },
    }
}

} // verus!
