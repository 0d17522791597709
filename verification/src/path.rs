//! Reading paths as text: final component, extension, and the test for HTML.
//!
//! A path is a sequence of characters whose components are separated by `/`.

use vstd::prelude::*;
use vstd::string::*;

verus! {

/// Position just behind the last occurrence of `c` in `s`; zero where `c`
/// does not occur.
pub open spec fn after_last(s: Seq<char>, c: char) -> int
    decreases s.len(),
{
    if s.len() == 0 {
        0
    } else if s.last() == c {
        s.len() as int
    } else {
        after_last(s.drop_last(), c)
    }
}

/// `after_last` lies within the sequence, stands behind an occurrence of `c`
/// unless it is zero, and no `c` follows it.
pub proof fn lemma_after_last_bounds(s: Seq<char>, c: char)
    ensures
        0 <= after_last(s, c) <= s.len(),
        after_last(s, c) > 0 ==> s[after_last(s, c) - 1] == c,
        forall|j: int| after_last(s, c) <= j < s.len() ==> s[j] != c,
    decreases s.len(),
{
    if s.len() != 0 && s.last() != c {
        let t = s.drop_last();
        lemma_after_last_bounds(t, c);
        assert forall|j: int| after_last(s, c) <= j < s.len() implies s[j] != c by {
            if j < t.len() {
                assert(t[j] == s[j]);
            }
        }
    }
}

/// A position that stands behind a `c` (or is zero) and that no `c` follows
/// is `after_last`.
pub proof fn lemma_after_last_unique(s: Seq<char>, c: char, k: int)
    requires
        0 <= k <= s.len(),
        k > 0 ==> s[k - 1] == c,
        forall|j: int| k <= j < s.len() ==> s[j] != c,
    ensures
        after_last(s, c) == k,
    decreases s.len(),
{
    if s.len() != 0 && s.last() != c {
        let t = s.drop_last();
        assert forall|j: int| k <= j < t.len() implies t[j] != c by {
            assert(t[j] == s[j]);
        }
        lemma_after_last_unique(t, c, k);
    }
}

/// The text behind the last `/` of a path.
pub open spec fn final_component(p: Seq<char>) -> Seq<char> {
    p.subrange(after_last(p, '/'), p.len() as int)
}

/// A final component that names no file: empty, `.` or `..`.
pub open spec fn names_no_file(name: Seq<char>) -> bool {
    ||| name.len() == 0
    ||| (name.len() == 1 && name[0] == '.')
    ||| (name.len() == 2 && name[0] == '.' && name[1] == '.')
}

/// The file name of a path: its final component, unless that names no file.
pub open spec fn spec_file_name(p: Seq<char>) -> Option<Seq<char>> {
    if names_no_file(final_component(p)) {
        None
    } else {
        Some(final_component(p))
    }
}

/// The extension of a file name: the text behind its last `.`, unless the
/// name holds no `.` or its only `.` is its first character.
pub open spec fn extension_of_name(name: Seq<char>) -> Option<Seq<char>> {
    if after_last(name, '.') <= 1 {
        None
    } else {
        Some(name.subrange(after_last(name, '.'), name.len() as int))
    }
}

/// The extension of a path: that of its file name, where it has one.
pub open spec fn spec_extension(p: Seq<char>) -> Option<Seq<char>> {
    match spec_file_name(p) {
        Some(name) => extension_of_name(name),
        None => None,
    }
}

/// An extension counts as HTML where it ends in `html`, in either case of
/// each letter. The match is on the end of the extension, so `HTML`, `xhtml`
/// and `shtml` count as well.
pub open spec fn spec_is_html_extension(ext: Seq<char>) -> bool {
    let n = ext.len() as int;
    &&& n >= 4
    &&& (ext[n - 4] == 'h' || ext[n - 4] == 'H')
    &&& (ext[n - 3] == 't' || ext[n - 3] == 'T')
    &&& (ext[n - 2] == 'm' || ext[n - 2] == 'M')
    &&& (ext[n - 1] == 'l' || ext[n - 1] == 'L')
}

/// A path is taken in where it has an extension that counts as HTML.
pub open spec fn spec_has_html_extension(p: Seq<char>) -> bool {
    match spec_extension(p) {
        Some(ext) => spec_is_html_extension(ext),
        None => false,
    }
}

/// Finds the position just behind the last occurrence of `c`.
pub fn find_after_last(s: &str, c: char) -> (r: usize)
    ensures
        r as int == after_last(s@, c),
{
    let n: usize = s.unicode_len();
    let mut i: usize = n;
    while i > 0
        invariant
            i <= n,
            n == s@.len(),
            forall|j: int| i <= j < n ==> s@[j] != c,
        decreases i,
    {
        if s.get_char(i - 1) == c {
            proof {
                lemma_after_last_unique(s@, c, i as int);
            }
            return i;
        }
        i -= 1;
    }
    proof {
        lemma_after_last_unique(s@, c, 0);
    }
    0
}

/// The file name of `path`, or `None` where its final component is empty,
/// `.` or `..`.
pub fn file_name(path: &str) -> (r: Option<String>)
    ensures
        r.is_some() == spec_file_name(path@).is_some(),
        r.is_some() ==> r.unwrap()@ == spec_file_name(path@).unwrap(),
{
    let n: usize = path.unicode_len();
    let k: usize = find_after_last(path, '/');
    proof {
        lemma_after_last_bounds(path@, '/');
    }
    let name = path.substring_char(k, n);
    let m: usize = n - k;
    if m == 0 {
        return None;
    }
    if m == 1 && name.get_char(0) == '.' {
        return None;
    }
    if m == 2 && name.get_char(0) == '.' && name.get_char(1) == '.' {
        return None;
    }
    Some(name.to_owned())
}

/// The extension of the file name `name`.
pub fn name_extension(name: &str) -> (r: Option<String>)
    ensures
        r.is_some() == extension_of_name(name@).is_some(),
        r.is_some() ==> r.unwrap()@ == extension_of_name(name@).unwrap(),
{
    let n: usize = name.unicode_len();
    let d: usize = find_after_last(name, '.');
    proof {
        lemma_after_last_bounds(name@, '.');
    }
    if d <= 1 {
        None
    } else {
        Some(name.substring_char(d, n).to_owned())
    }
}

/// The extension of `path`, without the dot; `None` where the path has no
/// file name, or the name has no extension.
pub fn extension(path: &str) -> (r: Option<String>)
    ensures
        r.is_some() == spec_extension(path@).is_some(),
        r.is_some() ==> r.unwrap()@ == spec_extension(path@).unwrap(),
{
    match file_name(path) {
        Some(name) => name_extension(name.as_str()),
        None => None,
    }
}

/// Whether the extension `ext` counts as HTML.
pub fn is_html_extension(ext: &str) -> (r: bool)
    ensures
        r == spec_is_html_extension(ext@),
{
    let n: usize = ext.unicode_len();
    if n < 4 {
        return false;
    }
    let h: char = ext.get_char(n - 4);
    let t: char = ext.get_char(n - 3);
    let m: char = ext.get_char(n - 2);
    let l: char = ext.get_char(n - 1);
    (h == 'h' || h == 'H') && (t == 't' || t == 'T') && (m == 'm' || m == 'M') && (l == 'l'
        || l == 'L')
}

/// Whether `path` has an extension that counts as HTML.
pub fn has_html_extension(path: &str) -> (r: bool)
    ensures
        r == spec_has_html_extension(path@),
{
    match extension(path) {
        Some(ext) => is_html_extension(ext.as_str()),
        None => false,
    }
}

} // verus!
