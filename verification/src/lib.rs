//! A stack of dependent version-control branches, kept in step with a remote.
//!
//! A stack is an ordered chain of branches: the first depends on a trunk
//! reference, each later branch on its predecessor.  The synchronization
//! engine walks the chain in order, deciding which version-control operation
//! comes next (checkout, pull, rebase, force-push) and reconciling one pull
//! request per branch against its computed base.  The engine itself performs
//! no I/O: it is a state machine that hands out the next action and consumes
//! the outcome, so a driver performs each action against the real working
//! copy and remote.

use vstd::prelude::*;

pub mod command_handlers;
pub mod git;
pub mod handle_branch_command;
pub mod handle_stack_command;
pub mod options;
pub mod persistence;
pub mod stacks;
pub mod sync_laws;
pub mod sync_machine;
pub mod sync_model;
pub mod text;
pub mod types;

use crate::command_handlers::handle_branch_command::BranchCommand;
use crate::command_handlers::handle_stack_command::StackCommand;
use crate::options::{first_plain_option, has_option, option_views};
use crate::text::{count_char, first_char_position, lemma_count_char_push,
    lemma_first_char_position, trim_suffix, trim_suffix_str};

verus! {

/// The repository owner and name read off a remote URL of the form
/// `https://github.com/<owner>/<name>`, as `git remote -v` prints it: the
/// first nineteen characters (the scheme and host) are dropped, what
/// remains must be an owner and a name separated by a single `/`, and the
/// trailing `.git (fetch)\norigin` that the remote listing appends to the
/// name is trimmed off.  Anything shorter than the dropped prefix, or with
/// any other number of separators, yields nothing.
pub fn extract_owner_and_name_from_url(url: String) -> (r: Option<(String, String)>)
    ensures
        r is Some <==> url@.len() >= 19 && count_char(url@.skip(19), '/') == 1,
        r matches Some(pair) ==> (first_char_position(url@.skip(19), '/') matches Some(i)
            && pair.0@ == url@.skip(19).take(i) && pair.1@ == trim_suffix(
            url@.skip(19).skip(i + 1),
            ".git (fetch)\norigin"@,
        )),
{
    let s = url.as_str();
    let n = s.unicode_len();
    if n < 19 {
        return None;
    }
    let cleaned = s.substring_char(19, n);
    proof {
        assert(cleaned@ =~= url@.skip(19));
    }
    let m = cleaned.unicode_len();
    let mut i: usize = 0;
    let mut slash: Option<usize> = None;
    let mut slashes: usize = 0;
    while i < m
        invariant
            i <= m,
            m == cleaned@.len(),
            slashes == count_char(cleaned@.take(i as int), '/'),
            slashes <= i,
            match slash {
                Some(k) => k < i && cleaned@[k as int] == '/' && (forall|j: int|
                    0 <= j < k ==> cleaned@[j] != '/'),
                None => forall|j: int| 0 <= j < i ==> cleaned@[j] != '/',
            },
            slash is None <==> slashes == 0,
        decreases m - i,
    {
        let c = cleaned.get_char(i);
        proof {
            assert(cleaned@.take(i as int + 1) =~= cleaned@.take(i as int).push(
                cleaned@[i as int],
            ));
            lemma_count_char_push(cleaned@.take(i as int), cleaned@[i as int], '/');
        }
        if c == '/' {
            if slashes == 0 {
                slash = Some(i);
            }
            slashes = slashes + 1;
        }
        i = i + 1;
    }
    proof {
        assert(cleaned@.take(m as int) =~= cleaned@);
    }
    if slashes != 1 {
        return None;
    }
    let k = match slash {
        Some(k) => k,
        None => {
            return None;
        },
    };
    proof {
        lemma_first_char_position(cleaned@, '/');
    }
    let owner = cleaned.substring_char(0, k);
    let rest = cleaned.substring_char(k + 1, m);
    let name = trim_suffix_str(rest, ".git (fetch)\norigin");
    proof {
        assert(owner@ =~= url@.skip(19).take(k as int));
        assert(rest@ =~= url@.skip(19).skip(k as int + 1));
    }
    Some((owner.to_owned(), name.to_owned()))
}

/// Decide what the stack command does: with no non-flag option it shows the
/// current stack; otherwise it switches to the first non-flag option,
/// creating the stack first exactly when `--create` was given.
pub fn handle_stack_command(options: &[String]) -> (r: StackCommand)
    ensures
        r is ShowCurrent <==> first_plain_option(option_views(options@)) is None,
        r matches StackCommand::Switch { name, create } ==> (first_plain_option(
            option_views(options@),
        ) matches Some(i) && name@ == option_views(options@)[i] && create == has_option(
            option_views(options@),
            "--create"@,
        )),
{
    crate::command_handlers::handle_stack_command::handler(options)
}

/// Decide what the branch command does: it needs a branch name (the first
/// non-flag option) and checks that branch out, creating it first exactly
/// when `--create` was given.
pub fn handle_branch_command(options: &[String]) -> (r: Result<BranchCommand, &'static str>)
    ensures
        r is Ok <==> first_plain_option(option_views(options@)) is Some,
        r matches Ok(cmd) ==> (first_plain_option(option_views(options@)) matches Some(i)
            && cmd.name@ == option_views(options@)[i] && cmd.create == has_option(
            option_views(options@),
            "--create"@,
        )),
        r matches Err(m) ==> m@ == "Missing branch name"@,
{
    crate::command_handlers::handle_branch_command::handler(options)
}

} // verus!
