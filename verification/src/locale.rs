//! Reduction of locale strings such as `ja_JP.UTF-8` to a bare language code.

use vstd::prelude::*;

verus! {

/// Position of the first occurrence of `c` in `s`, or `s.len()` when `c` does not occur.
pub open spec fn first_index_of(s: Seq<char>, c: char) -> int
    decreases s.len(),
{
    if s.len() == 0 {
        0
    } else if s[0] == c {
        0
    } else {
        1 + first_index_of(s.drop_first(), c)
    }
}

/// The longest prefix of `s` that does not contain `c`.
pub open spec fn prefix_before(s: Seq<char>, c: char) -> Seq<char> {
    s.subrange(0, first_index_of(s, c))
}

/// The language code of a locale string: what stands before the first `_`,
/// and of that what stands before the first `.`.
pub open spec fn language_code(value: Seq<char>) -> Seq<char> {
    prefix_before(prefix_before(value, '_'), '.')
}

/// `first_index_of` is the least position that holds `c`, or the length of `s`.
pub proof fn lemma_first_index_of(s: Seq<char>, c: char)
    ensures
        0 <= first_index_of(s, c) <= s.len(),
        forall|j: int| 0 <= j < first_index_of(s, c) ==> s[j] != c,
        first_index_of(s, c) < s.len() ==> s[first_index_of(s, c)] == c,
    decreases s.len(),
{
    if s.len() > 0 && s[0] != c {
        let rest = s.drop_first();
        lemma_first_index_of(rest, c);
        assert forall|j: int| 0 <= j < first_index_of(s, c) implies s[j] != c by {
            if j > 0 {
                assert(rest[j - 1] == s[j]);
            }
        }
    }
}

/// Any position that bounds a `c`-free prefix and either ends `s` or holds `c`
/// is the first index of `c`.
pub proof fn lemma_first_index_of_unique(s: Seq<char>, c: char, i: int)
    requires
        0 <= i <= s.len(),
        forall|j: int| 0 <= j < i ==> s[j] != c,
        i < s.len() ==> s[i] == c,
    ensures
        first_index_of(s, c) == i,
{
    lemma_first_index_of(s, c);
}

/// Cuts `value` before its first `c`; the whole of `value` when it holds no `c`.
pub fn cut_before<'a>(value: &'a str, c: char) -> (r: &'a str)
    ensures
        r@ == prefix_before(value@, c),
{
    let n: usize = value.unicode_len();
    let mut index: usize = 0;
    for ch in it: value.chars()
        invariant
            it.seq() == value@,
            n == value@.len(),
            index == it.index(),
            forall|j: int| 0 <= j < index ==> value@[j] != c,
    {
        if ch == c {
            proof {
                lemma_first_index_of_unique(value@, c, index as int);
            }
            return value.substring_char(0, index);
        }
        index += 1;
    }
    proof {
        lemma_first_index_of_unique(value@, c, n as int);
        assert(value@.subrange(0, n as int) =~= value@);
    }
    value
}

/// Extracts the language code from a locale string, e.g. `ja` from `ja_JP.UTF-8`.
pub fn normalize_locale(value: &str) -> (r: String)
    ensures
        r@ == language_code(value@),
{
    let head = cut_before(value, '_');
    let code = cut_before(head, '.');
    code.to_owned()
}

} // verus!
