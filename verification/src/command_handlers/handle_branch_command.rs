//! The branch command: check a branch out, creating it first when asked
//! to.

use vstd::prelude::*;

use crate::handle_branch_command::{extract_branch_name, extract_create_option};
use crate::options::{first_plain_option, has_option, option_views};

verus! {

/// What the branch command decided to do: check the named branch out,
/// creating it first when `create` holds.
#[derive(PartialEq, Eq, Debug)]
pub struct BranchCommand {
    pub name: String,
    pub create: bool,
}

/// Decide what the branch command does: it needs a branch name (the first
/// non-flag option) and checks that branch out, creating it first exactly
/// when `--create` was given.
pub fn handler(options: &[String]) -> (r: Result<BranchCommand, &'static str>)
    ensures
        r is Ok <==> first_plain_option(option_views(options@)) is Some,
        r matches Ok(cmd) ==> (first_plain_option(option_views(options@)) matches Some(i)
            && cmd.name@ == option_views(options@)[i] && cmd.create == has_option(
            option_views(options@),
            "--create"@,
        )),
        r matches Err(m) ==> m@ == "Missing branch name"@,
{
    let name = match extract_branch_name(options) {
        Some(name) => name,
        None => {
            return Err("Missing branch name");
        },
    };
    let create = match extract_create_option(options) {
        Some(_) => true,
        None => false,
    };
    Ok(BranchCommand { name: name.clone(), create })
}

} // verus!
