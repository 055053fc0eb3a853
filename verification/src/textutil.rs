//! Small text utilities: string equality for contracts, the
//! extension-based nature fallback, and `key=value` parsing.

use vstd::prelude::*;
use vstd::string::StrSliceExecFns;

verus! {

/// Whether two string slices hold the same character sequence.
pub fn str_eq(a: &str, b: &str) -> (r: bool)
    ensures
        r == (a@ == b@),
{
    let alen = a.unicode_len();
    let blen = b.unicode_len();
    if alen != blen {
        proof {
            assert(a@.len() != b@.len());
        }
        return false;
    }
    let mut i: usize = 0;
    while i < alen
        invariant
            0 <= i <= alen,
            alen == a@.len(),
            alen == b@.len(),
            forall|k: int| 0 <= k < i ==> a@[k] == b@[k],
        decreases alen - i,
    {
        if a.get_char(i) != b.get_char(i) {
            proof {
                assert(a@[i as int] != b@[i as int]);
            }
            return false;
        }
        i = i + 1;
    }
    proof {
        assert(a@ =~= b@);
    }
    true
}

/// Whether the Unicode `White_Space` property holds of `c`.
pub uninterp spec fn spec_is_whitespace(c: char) -> bool;

/// Relies on `char::is_whitespace`: the Unicode `White_Space` property
/// of the character, a pure function of the character alone.
pub assume_specification[ char::is_whitespace ](c: char) -> (r: bool)
    ensures
        r == spec_is_whitespace(c),
;

/// The nature a URI's extension suggests: the substring after the final
/// `.`, nothing when the URI holds no `.` at all.
pub open spec fn spec_nature_from_uri(s: Seq<char>) -> Option<Seq<char>>
    decreases s.len(),
{
    if s.len() == 0 {
        None
    } else if s.last() == '.' {
        Some(Seq::empty())
    } else {
        match spec_nature_from_uri(s.drop_last()) {
            Some(n) => Some(n.push(s.last())),
            None => None,
        }
    }
}

proof fn lemma_nature_from_uri_at(s: Seq<char>, j: int)
    requires
        0 <= j < s.len(),
        s[j] == '.',
        forall|k: int| j < k < s.len() ==> s[k] != '.',
    ensures
        spec_nature_from_uri(s) == Some(s.subrange(j + 1, s.len() as int)),
    decreases s.len(),
{
    if j == s.len() - 1 {
        assert(s.subrange(j + 1, s.len() as int) =~= Seq::<char>::empty());
    } else {
        lemma_nature_from_uri_at(s.drop_last(), j);
        assert(s.drop_last().subrange(j + 1, s.len() - 1).push(s.last()) =~= s.subrange(
            j + 1,
            s.len() as int,
        ));
    }
}

proof fn lemma_nature_from_uri_none(s: Seq<char>)
    requires
        forall|k: int| 0 <= k < s.len() ==> s[k] != '.',
    ensures
        spec_nature_from_uri(s) is None,
    decreases s.len(),
{
    if s.len() > 0 {
        lemma_nature_from_uri_none(s.drop_last());
    }
}

/// The nature fallback from a URI's extension: the substring after the
/// final `.`, nothing when the URI holds none.
pub fn nature_from_uri(uri: &str) -> (r: Option<String>)
    ensures
        r.deep_view() == spec_nature_from_uri(uri@),
{
    let len = uri.unicode_len();
    let mut i: usize = len;
    while i > 0
        invariant
            0 <= i <= len,
            len == uri@.len(),
            forall|k: int| i <= k < uri@.len() ==> uri@[k] != '.',
        decreases i,
    {
        if uri.get_char(i - 1) == '.' {
            let ext = uri.substring_char(i, len).to_owned();
            proof {
                lemma_nature_from_uri_at(uri@, i - 1);
            }
            return Some(ext);
        }
        i = i - 1;
    }
    proof {
        lemma_nature_from_uri_none(uri@);
    }
    None
}

/// What `key=value` parsing yields: the text before the first `=` and
/// the whole text after it, or nothing when the text holds no `=`.
pub open spec fn spec_key_val(s: Seq<char>) -> Option<(Seq<char>, Seq<char>)> {
    if exists|i: int| 0 <= i < s.len() && s[i] == '=' {
        let i = first_index_of(s, '=');
        Some((s.subrange(0, i), s.subrange(i + 1, s.len() as int)))
    } else {
        None
    }
}

/// The least index at which `c` occurs in `s`.
pub open spec fn first_index_of(s: Seq<char>, c: char) -> int
    decreases s.len(),
{
    if s.len() == 0 {
        0
    } else if s[0] == c {
        0
    } else {
        1 + first_index_of(s.drop_first(), c)
    }
}

proof fn lemma_first_index_of_at(s: Seq<char>, c: char, i: int)
    requires
        0 <= i < s.len(),
        s[i] == c,
        forall|k: int| 0 <= k < i ==> s[k] != c,
    ensures
        first_index_of(s, c) == i,
    decreases i,
{
    if i > 0 {
        lemma_first_index_of_at(s.drop_first(), c, i - 1);
    }
}

/// Parses a `key=value` pair: the text before the first `=` is the key,
/// everything after it the value. A text without `=` is rejected with an
/// error naming it.
pub fn parse_key_val(s: &str) -> (r: Result<(String, String), String>)
    ensures
        r matches Ok(kv) ==> spec_key_val(s@) == Some((kv.0@, kv.1@)),
        r is Err ==> spec_key_val(s@) is None,
{
    let len = s.unicode_len();
    let mut i: usize = 0;
    while i < len
        invariant
            0 <= i <= len,
            len == s@.len(),
            forall|k: int| 0 <= k < i ==> s@[k] != '=',
        decreases len - i,
    {
        if s.get_char(i) == '=' {
            let key = s.substring_char(0, i).to_owned();
            let value = s.substring_char(i + 1, len).to_owned();
            proof {
                lemma_first_index_of_at(s@, '=', i as int);
            }
            return Ok((key, value));
        }
        i = i + 1;
    }
    let mut message = "Invalid key-value pair: ".to_owned();
    message.append(s);
    Err(message)
}

} // verus!
