//! Command-line options, as the command handlers read them.
//!
//! An option either names something (a stack, a branch) or is a flag of the
//! form `--word`.  The handlers take the first non-flag option as the name
//! and test for the flags they know.

use vstd::prelude::*;

verus! {

/// A flag option: it starts with two dashes.
pub open spec fn is_option_flag(s: Seq<char>) -> bool {
    s.len() >= 2 && s[0] == '-' && s[1] == '-'
}

/// The options as character sequences, in order.
pub open spec fn option_views(options: Seq<String>) -> Seq<Seq<char>> {
    options.map_values(|s: String| s@)
}

/// The index of the first option that is not a flag, if any.
pub open spec fn first_plain_option(options: Seq<Seq<char>>) -> Option<int>
    decreases options.len(),
{
    if options.len() == 0 {
        None
    } else if !is_option_flag(options[0]) {
        Some(0)
    } else {
        match first_plain_option(options.drop_first()) {
            None => None,
            Some(i) => Some(i + 1),
        }
    }
}

/// Whether the given flag occurs among the options.
pub open spec fn has_option(options: Seq<Seq<char>>, flag: Seq<char>) -> bool {
    exists|i: int| 0 <= i < options.len() && options[i] == flag
}

/// What `first_plain_option` means: it is the first index holding a
/// non-flag option, and it is `None` exactly when every option is a flag.
pub proof fn lemma_first_plain_option(options: Seq<Seq<char>>)
    ensures
        match first_plain_option(options) {
            Some(i) => 0 <= i < options.len() && !is_option_flag(options[i]) && (forall|j: int|
                0 <= j < i ==> is_option_flag(options[j])),
            None => forall|j: int| 0 <= j < options.len() ==> is_option_flag(options[j]),
        },
    decreases options.len(),
{
    if options.len() != 0 && is_option_flag(options[0]) {
        lemma_first_plain_option(options.drop_first());
        assert forall|j: int| 1 <= j < options.len() implies options[j]
            == options.drop_first()[j - 1] by {}
    }
}

/// Whether the option is a flag, read off its first two characters.
fn is_flag(s: &String) -> (r: bool)
    ensures
        r == is_option_flag(s@),
{
    let st = s.as_str();
    if st.unicode_len() >= 2 {
        st.get_char(0) == '-' && st.get_char(1) == '-'
    } else {
        false
    }
}

/// The first option that is not a flag, as `first_plain_option` says, found
/// by a scan.
pub(crate) fn find_plain_option(options: &[String]) -> (r: Option<&String>)
    ensures
        r is Some <==> first_plain_option(option_views(options@)) is Some,
        r matches Some(name) ==> (first_plain_option(option_views(options@)) matches Some(i)
            && name@ == option_views(options@)[i]),
{
    let n = options.len();
    let mut i: usize = 0;
    while i < n
        invariant
            i <= n,
            n == options@.len(),
            forall|j: int| 0 <= j < i ==> is_option_flag(option_views(options@)[j]),
        decreases n - i,
    {
        if !is_flag(&options[i]) {
            proof {
                assert(option_views(options@)[i as int] == options@[i as int]@);
                lemma_first_plain_option(option_views(options@));
            }
            return Some(&options[i]);
        }
        i = i + 1;
    }
    proof {
        lemma_first_plain_option(option_views(options@));
    }
    None
}

/// The first option equal to the given flag, if any occurs.
pub(crate) fn find_flag_option<'a>(options: &'a [String], flag: &str) -> (r: Option<&'a String>)
    ensures
        r is Some <==> has_option(option_views(options@), flag@),
        r matches Some(s) ==> s@ == flag@,
{
    let target = flag.to_owned();
    let n = options.len();
    let mut i: usize = 0;
    while i < n
        invariant
            i <= n,
            n == options@.len(),
            target@ == flag@,
            forall|j: int| 0 <= j < i ==> option_views(options@)[j] != flag@,
        decreases n - i,
    {
        if options[i] == target {
            proof {
                assert(option_views(options@)[i as int] == flag@);
            }
            return Some(&options[i]);
        }
        i = i + 1;
    }
    None
}

} // verus!
