//! Path text utilities: splitting an entry path into its absolute form,
//! parent, root-relative part, basename and extension.
//!
//! Paths are plain `/`-separated text here; the documented string
//! semantics of each part stand in the spec functions below.

use vstd::prelude::*;
use vstd::string::StrSliceExecFns;

use crate::fsio::canonicalize_path;

verus! {

/// The last index at which `c` occurs in `s`; `-1` when it does not
/// occur.
pub open spec fn last_index_of(s: Seq<char>, c: char) -> int
    decreases s.len(),
{
    if s.len() == 0 {
        -1
    } else if s.last() == c {
        s.len() - 1
    } else {
        last_index_of(s.drop_last(), c)
    }
}

proof fn lemma_last_index_at(s: Seq<char>, c: char, j: int)
    requires
        0 <= j < s.len(),
        s[j] == c,
        forall|k: int| j < k < s.len() ==> s[k] != c,
    ensures
        last_index_of(s, c) == j,
    decreases s.len(),
{
    if j < s.len() - 1 {
        lemma_last_index_at(s.drop_last(), c, j);
    }
}

proof fn lemma_last_index_none(s: Seq<char>, c: char)
    requires
        forall|k: int| 0 <= k < s.len() ==> s[k] != c,
    ensures
        last_index_of(s, c) == -1,
    decreases s.len(),
{
    if s.len() > 0 {
        lemma_last_index_none(s.drop_last(), c);
    }
}

/// Finds the last occurrence of `c` in `s`.
fn find_last_char(s: &str, c: char) -> (r: Option<usize>)
    ensures
        r matches Some(j) ==> 0 <= j < s@.len() && last_index_of(s@, c) == j,
        r is None ==> last_index_of(s@, c) == -1,
{
    let len = s.unicode_len();
    let mut i: usize = len;
    while i > 0
        invariant
            0 <= i <= len,
            len == s@.len(),
            forall|k: int| i <= k < s@.len() ==> s@[k] != c,
        decreases i,
    {
        if s.get_char(i - 1) == c {
            proof {
                lemma_last_index_at(s@, c, i - 1);
            }
            return Some(i - 1);
        }
        i = i - 1;
    }
    proof {
        lemma_last_index_none(s@, c);
    }
    None
}

/// `p` is a prefix of `s` as plain text.
pub open spec fn spec_is_prefix(p: Seq<char>, s: Seq<char>) -> bool {
    p.len() <= s.len() && s.subrange(0, p.len() as int) == p
}

/// Whether `p` is a prefix of `s`.
fn is_text_prefix(p: &str, s: &str) -> (r: bool)
    ensures
        r == spec_is_prefix(p@, s@),
{
    let plen = p.unicode_len();
    let slen = s.unicode_len();
    if plen > slen {
        proof {
            assert(!spec_is_prefix(p@, s@));
        }
        return false;
    }
    let mut i: usize = 0;
    while i < plen
        invariant
            0 <= i <= plen,
            plen == p@.len(),
            slen == s@.len(),
            plen <= slen,
            forall|k: int| 0 <= k < i ==> p@[k] == s@[k],
        decreases plen - i,
    {
        if p.get_char(i) != s.get_char(i) {
            proof {
                assert(s@.subrange(0, p@.len() as int)[i as int] == s@[i as int]);
            }
            return false;
        }
        i = i + 1;
    }
    proof {
        assert(s@.subrange(0, p@.len() as int) =~= p@);
    }
    true
}

/// The parent of a path: the text before its final separator (the lone
/// separator for top-level entries, the empty text for paths without
/// one); the root `/` and the empty text have no parent.
pub open spec fn spec_parent(s: Seq<char>) -> Option<Seq<char>> {
    if s.len() == 0 || s == seq!['/'] {
        None
    } else {
        let j = last_index_of(s, '/');
        if j == -1 {
            Some(Seq::empty())
        } else if j == 0 {
            Some(seq!['/'])
        } else {
            Some(s.subrange(0, j))
        }
    }
}

/// The basename of a path: the text after its final separator (the
/// whole path without one); nothing when that text is empty.
pub open spec fn spec_basename(s: Seq<char>) -> Option<Seq<char>> {
    let rest = s.subrange(last_index_of(s, '/') + 1, s.len() as int);
    if rest.len() == 0 {
        None
    } else {
        Some(rest)
    }
}

/// The path relative to `root`: the remainder after the prefix `root`,
/// with one leading separator removed. An empty root leaves the path
/// unchanged; a nonempty root must be a prefix ending at a separator
/// boundary, else there is nothing.
pub open spec fn spec_strip_prefix(root: Seq<char>, s: Seq<char>) -> Option<Seq<char>> {
    if spec_is_prefix(root, s) {
        let rest = s.subrange(root.len() as int, s.len() as int);
        if root.len() == 0 {
            Some(rest)
        } else if rest.len() == 0 {
            Some(rest)
        } else if rest[0] == '/' {
            Some(rest.drop_first())
        } else if root.last() == '/' {
            Some(rest)
        } else {
            None
        }
    } else {
        None
    }
}

/// The extension of a basename: the text after its final `.`, when that
/// `.` stands past the first position; a name without one, or one only
/// starting with `.`, has none.
pub open spec fn spec_extension(basename: Seq<char>) -> Option<Seq<char>> {
    let j = last_index_of(basename, '.');
    if j <= 0 {
        None
    } else {
        Some(basename.subrange(j + 1, basename.len() as int))
    }
}

/// Extracts path information from a root path and an entry below it:
/// the entry's canonical absolute form (from the OS), its parent, its
/// root-relative part, its basename, and the basename's extension.
/// Nothing when canonicalization fails, the entry has no parent or
/// basename, or the entry does not lie below the root. Paths are plain
/// `/`-separated text here and entries are expected without a trailing
/// separator: an entry ending in one has no basename and yields nothing.
pub fn extract_path_info(root_path: &str, root_path_entry: &str) -> (r: Option<
    (String, String, String, String, Option<String>),
>)
    ensures
        r matches Some(t) ==> {
            &&& spec_parent(root_path_entry@) == Some(t.1@)
            &&& spec_strip_prefix(root_path@, root_path_entry@) == Some(t.2@)
            &&& spec_basename(root_path_entry@) == Some(t.3@)
            &&& t.4.deep_view() == spec_extension(t.3@)
        },
        spec_parent(root_path_entry@) is None ==> r is None,
        spec_strip_prefix(root_path@, root_path_entry@) is None ==> r is None,
        spec_basename(root_path_entry@) is None ==> r is None,
{
    let entry = root_path_entry;
    let len = entry.unicode_len();
    let file_path_abs = match canonicalize_path(entry) {
        Some(abs) => abs,
        None => {
            return None;
        },
    };
    if len == 0 {
        return None;
    }
    let last_slash = find_last_char(entry, '/');
    if len == 1 && entry.get_char(0) == '/' {
        proof {
            assert(entry@ =~= seq!['/']);
        }
        return None;
    }
    proof {
        assert(entry@ != seq!['/']) by {
            if entry@ == seq!['/'] {
                assert(entry@.len() == 1 && entry@[0] == '/');
            }
        }
    }
    let file_path_rel_parent: String = match last_slash {
        None => String::new(),
        Some(j) => {
            if j == 0 {
                "/".to_owned()
            } else {
                entry.substring_char(0, j).to_owned()
            }
        },
    };
    proof {
        assert(spec_parent(entry@) == Some(file_path_rel_parent@)) by {
            if last_slash matches Some(j) && j == 0 {
                reveal_strlit("/");
                assert("/"@ =~= seq!['/']);
            }
        }
    }
    let basename_start: usize = match last_slash {
        None => 0,
        Some(j) => j + 1,
    };
    if basename_start == len {
        return None;
    }
    let file_basename = entry.substring_char(basename_start, len).to_owned();
    let rlen = root_path.unicode_len();
    if !is_text_prefix(root_path, entry) {
        return None;
    }
    let rest_len = len - rlen;
    let file_path_rel: String = if rlen == 0 {
        entry.substring_char(0, len).to_owned()
    } else if rest_len == 0 {
        entry.substring_char(rlen, len).to_owned()
    } else if entry.get_char(rlen) == '/' {
        let rel = entry.substring_char(rlen + 1, len).to_owned();
        proof {
            assert(entry@.subrange(rlen as int, len as int).drop_first() =~= entry@.subrange(
                rlen + 1,
                len as int,
            ));
        }
        rel
    } else if root_path.get_char(rlen - 1) == '/' {
        proof {
            assert(root_path@.last() == root_path@[rlen - 1]);
        }
        entry.substring_char(rlen, len).to_owned()
    } else {
        return None;
    };
    proof {
        assert(spec_strip_prefix(root_path@, entry@) == Some(file_path_rel@));
    }
    let blen = file_basename.unicode_len();
    let file_extn: Option<String> = match find_last_char(file_basename.as_str(), '.') {
        None => None,
        Some(j) => {
            if j == 0 {
                None
            } else {
                Some(file_basename.as_str().substring_char(j + 1, blen).to_owned())
            }
        },
    };
    proof {
        assert(file_extn.deep_view() == spec_extension(file_basename@));
    }
    Some((file_path_abs, file_path_rel_parent, file_path_rel, file_basename, file_extn))
}

} // verus!
