//! How the stack command reads its options.

use vstd::prelude::*;

use crate::options::{
    find_flag_option, find_plain_option, first_plain_option, has_option, option_views,
};

verus! {

/// The name the stack command was given: the first option that is not a
/// flag.
pub fn extract_stack_name(options: &[String]) -> (r: Option<&String>)
    ensures
        r is Some <==> first_plain_option(option_views(options@)) is Some,
        r matches Some(name) ==> (first_plain_option(option_views(options@)) matches Some(i)
            && name@ == option_views(options@)[i]),
{
    find_plain_option(options)
}

/// The `--create` flag, when the stack command was given it.
pub fn extract_create_option(options: &[String]) -> (r: Option<&String>)
    ensures
        r is Some <==> has_option(option_views(options@), "--create"@),
        r matches Some(s) ==> s@ == "--create"@,
{
    find_flag_option(options, "--create")
}

} // verus!
