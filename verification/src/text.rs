//! Character-sequence helpers: counting and locating a character, and
//! repeatedly trimming a suffix.

use vstd::prelude::*;

verus! {

/// How often `c` occurs in `s`.
pub open spec fn count_char(s: Seq<char>, c: char) -> nat
    decreases s.len(),
{
    if s.len() == 0 {
        0
    } else {
        (if s[0] == c {
            1nat
        } else {
            0nat
        }) + count_char(s.drop_first(), c)
    }
}

/// The index of the first occurrence of `c` in `s`, if any.
pub open spec fn first_char_position(s: Seq<char>, c: char) -> Option<int>
    decreases s.len(),
{
    if s.len() == 0 {
        None
    } else if s[0] == c {
        Some(0)
    } else {
        match first_char_position(s.drop_first(), c) {
            None => None,
            Some(i) => Some(i + 1),
        }
    }
}

/// `s` ends with `sfx`.
pub open spec fn ends_with(s: Seq<char>, sfx: Seq<char>) -> bool {
    s.len() >= sfx.len() && s.subrange(s.len() - sfx.len(), s.len() as int) == sfx
}

/// `s` with every trailing copy of `sfx` removed.
pub open spec fn trim_suffix(s: Seq<char>, sfx: Seq<char>) -> Seq<char>
    decreases s.len(),
{
    if sfx.len() > 0 && ends_with(s, sfx) {
        trim_suffix(s.take(s.len() - sfx.len()), sfx)
    } else {
        s
    }
}

/// Extending a sequence by one character extends the count by whether that
/// character is the counted one.
pub proof fn lemma_count_char_push(s: Seq<char>, x: char, c: char)
    ensures
        count_char(s.push(x), c) == count_char(s, c) + (if x == c {
            1nat
        } else {
            0nat
        }),
    decreases s.len(),
{
    if s.len() == 0 {
        assert(s.push(x)[0] == x);
        assert(s.push(x).drop_first() =~= Seq::<char>::empty());
        assert(count_char(Seq::<char>::empty(), c) == 0);
    } else {
        assert(s.push(x)[0] == s[0]);
        assert(s.push(x).drop_first() =~= s.drop_first().push(x));
        lemma_count_char_push(s.drop_first(), x, c);
    }
}

/// What `first_char_position` means: it is the first index holding `c`,
/// and it is `None` exactly when `c` does not occur.
pub proof fn lemma_first_char_position(s: Seq<char>, c: char)
    ensures
        match first_char_position(s, c) {
            Some(i) => 0 <= i < s.len() && s[i] == c && (forall|j: int| 0 <= j < i ==> s[j] != c),
            None => forall|j: int| 0 <= j < s.len() ==> s[j] != c,
        },
    decreases s.len(),
{
    if s.len() != 0 && s[0] != c {
        lemma_first_char_position(s.drop_first(), c);
        assert forall|j: int| 1 <= j < s.len() implies s[j] == s.drop_first()[j - 1] by {}
    }
}

/// Whether two string slices hold the same characters.
pub fn chars_equal(a: &str, b: &str) -> (r: bool)
    ensures
        r == (a@ == b@),
{
    let n = a.unicode_len();
    if n != b.unicode_len() {
        return false;
    }
    let mut i: usize = 0;
    while i < n
        invariant
            i <= n,
            n == a@.len(),
            n == b@.len(),
            forall|j: int| 0 <= j < i ==> a@[j] == b@[j],
        decreases n - i,
    {
        if a.get_char(i) != b.get_char(i) {
            return false;
        }
        i = i + 1;
    }
    proof {
        assert(a@ =~= b@);
    }
    true
}

/// Whether `s` ends with `sfx`, read off the last characters.
pub fn ends_with_str(s: &str, sfx: &str) -> (r: bool)
    ensures
        r == ends_with(s@, sfx@),
{
    let n = s.unicode_len();
    let m = sfx.unicode_len();
    if n < m {
        return false;
    }
    let tail = s.substring_char(n - m, n);
    chars_equal(tail, sfx)
}

/// `s` with every trailing copy of `sfx` removed, as `trim_suffix` says.
pub fn trim_suffix_str<'a>(s: &'a str, sfx: &str) -> (r: &'a str)
    ensures
        r@ == trim_suffix(s@, sfx@),
{
    let m = sfx.unicode_len();
    if m == 0 {
        return s;
    }
    let mut cur = s;
    let mut cur_len = s.unicode_len();
    while ends_with_str(cur, sfx)
        invariant
            m == sfx@.len(),
            m >= 1,
            cur_len == cur@.len(),
            trim_suffix(cur@, sfx@) == trim_suffix(s@, sfx@),
        decreases cur_len,
    {
        cur = cur.substring_char(0, cur_len - m);
        cur_len = cur_len - m;
    }
    cur
}

} // verus!
