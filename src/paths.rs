//! File names of '/'-separated paths.
use vstd::prelude::*;

use crate::text::{ends_with, str_ends_with};

verus! {

/// Whether `s` ends with a '/' or with a "." component after a '/'.
pub open spec fn has_trailing_noise(s: Seq<char>) -> bool {
    (s.len() > 0 && s.last() == '/') || (s.len() >= 2 && s.last() == '.' && s[s.len() - 2] == '/')
}

/// `s` without its trailing '/' characters and "." components, which name
/// nothing of their own.
pub open spec fn trim_trailing(s: Seq<char>) -> Seq<char>
    decreases s.len(),
{
    if has_trailing_noise(s) {
        trim_trailing(s.drop_last())
    } else {
        s
    }
}

/// The position of the last `c` in `s`, if any.
pub open spec fn rfind(s: Seq<char>, c: char) -> Option<int>
    decreases s.len(),
{
    if s.len() == 0 {
        None
    } else if s.last() == c {
        Some(s.len() - 1)
    } else {
        rfind(s.drop_last(), c)
    }
}

/// The last component of a path: what follows its last '/' once trailing
/// '/'s and "." components are dropped; none when that is empty, "." or "..".
pub open spec fn file_name_of(p: Seq<char>) -> Option<Seq<char>> {
    let t = trim_trailing(p);
    let last = match rfind(t, '/') {
        Some(i) => t.subrange(i + 1, t.len() as int),
        None => t,
    };
    if last.len() == 0 || last == "."@ || last == ".."@ {
        None
    } else {
        Some(last)
    }
}

/// The extension of a file name: what follows its last '.', when that '.'
/// is not the first character.
pub open spec fn extension_of(name: Seq<char>) -> Option<Seq<char>> {
    match rfind(name, '.') {
        Some(i) if i > 0 => Some(name.subrange(i + 1, name.len() as int)),
        _ => None,
    }
}

/// The stem of a file name: what precedes its last '.', when that '.' is not
/// the first character; otherwise the whole name.
pub open spec fn stem_of(name: Seq<char>) -> Seq<char> {
    match rfind(name, '.') {
        Some(i) if i > 0 => name.subrange(0, i),
        _ => name,
    }
}

/// The extension of the path's file name, if any.
pub open spec fn path_extension(p: Seq<char>) -> Option<Seq<char>> {
    match file_name_of(p) {
        Some(n) => extension_of(n),
        None => None,
    }
}

/// Whether a path names a high-density "retina" image: its file stem ends with "@2x".
pub open spec fn retina(p: Seq<char>) -> bool {
    match file_name_of(p) {
        Some(n) => ends_with(stem_of(n), "@2x"@),
        None => false,
    }
}

proof fn lemma_rfind_prefix(s: Seq<char>, c: char, i: int)
    requires
        0 <= i <= s.len(),
        forall|j: int| i <= j < s.len() ==> s[j] != c,
    ensures
        rfind(s, c) == rfind(s.subrange(0, i), c),
    decreases s.len() - i,
{
    if i < s.len() {
        assert(s.drop_last() =~= s.subrange(0, s.len() - 1));
        lemma_rfind_prefix(s.drop_last(), c, i);
        assert(s.drop_last().subrange(0, i) =~= s.subrange(0, i));
    } else {
        assert(s.subrange(0, i) =~= s);
    }
}

proof fn lemma_rfind_found(s: Seq<char>, c: char, i: int)
    requires
        0 < i <= s.len(),
        s[i - 1] == c,
    ensures
        rfind(s.subrange(0, i), c) == Some(i - 1),
{
    assert(s.subrange(0, i).last() == c);
}

proof fn lemma_rfind_range(s: Seq<char>, c: char)
    ensures
        rfind(s, c) matches Some(i) ==> 0 <= i < s.len() && s[i] == c,
    decreases s.len(),
{
    if s.len() > 0 && s.last() != c {
        lemma_rfind_range(s.drop_last(), c);
    }
}

/// The position of the last `c` in the first `len` characters of `s`.
fn rfind_exec(s: &str, len: usize, c: char) -> (r: Option<usize>)
    requires
        len <= s@.len(),
    ensures
        match r {
            Some(i) => i < len && rfind(s@.subrange(0, len as int), c) == Some(i as int),
            None => rfind(s@.subrange(0, len as int), c) is None,
        },
{
    let mut i = len;
    while i > 0 && s.get_char(i - 1) != c
        invariant
            i <= len <= s@.len(),
            forall|j: int| i <= j < len ==> s@[j] != c,
        decreases i,
    {
        i = i - 1;
    }
    proof {
        let t = s@.subrange(0, len as int);
        lemma_rfind_prefix(t, c, i as int);
        assert(t.subrange(0, i as int) =~= s@.subrange(0, i as int));
        if i > 0 {
            lemma_rfind_found(t, c, i as int);
        } else {
            assert(s@.subrange(0, 0) =~= Seq::<char>::empty());
        }
    }
    if i > 0 {
        Some(i - 1)
    } else {
        None
    }
}

/// The file name of a path (see `file_name_of`).
pub fn file_name(p: &str) -> (r: Option<&str>)
    ensures
        match r {
            Some(n) => file_name_of(p@) == Some(n@),
            None => file_name_of(p@) is None,
        },
{
    let mut n = p.unicode_len();
    assert(p@.subrange(0, n as int) =~= p@);
    while n > 0 && (p.get_char(n - 1) == '/' || (n >= 2 && p.get_char(n - 1) == '.'
        && p.get_char(n - 2) == '/'))
        invariant
            n <= p@.len(),
            trim_trailing(p@) == trim_trailing(p@.subrange(0, n as int)),
        decreases n,
    {
        assert(p@.subrange(0, n as int).drop_last() =~= p@.subrange(0, n - 1));
        n = n - 1;
    }
    assert(!has_trailing_noise(p@.subrange(0, n as int)));
    let start = match rfind_exec(p, n, '/') {
        Some(i) => i + 1,
        None => 0,
    };
    proof {
        lemma_rfind_range(p@.subrange(0, n as int), '/');
        let t = p@.subrange(0, n as int);
        if start == 0 {
            assert(t.subrange(0, n as int) =~= t);
        }
        assert(t.subrange(start as int, n as int) =~= p@.subrange(start as int, n as int));
    }
    let last = p.substring_char(start, n);
    proof {
        reveal_strlit(".");
        reveal_strlit("..");
    }
    if last.unicode_len() == 0 || crate::text::str_eq(last, ".") || crate::text::str_eq(last, "..") {
        None
    } else {
        Some(last)
    }
}

/// The extension of a file name (see `extension_of`).
pub fn extension(name: &str) -> (r: Option<&str>)
    ensures
        match r {
            Some(e) => extension_of(name@) == Some(e@),
            None => extension_of(name@) is None,
        },
{
    let n = name.unicode_len();
    assert(name@.subrange(0, n as int) =~= name@);
    proof {
        lemma_rfind_range(name@, '.');
    }
    match rfind_exec(name, n, '.') {
        Some(i) => {
            if i > 0 {
                Some(name.substring_char(i + 1, n))
            } else {
                None
            }
        },
        None => None,
    }
}

/// The stem of a file name (see `stem_of`).
pub fn stem(name: &str) -> (r: &str)
    ensures
        r@ == stem_of(name@),
{
    let n = name.unicode_len();
    assert(name@.subrange(0, n as int) =~= name@);
    proof {
        lemma_rfind_range(name@, '.');
    }
    match rfind_exec(name, n, '.') {
        Some(i) => {
            if i > 0 {
                name.substring_char(0, i)
            } else {
                name
            }
        },
        None => name,
    }
}

/// Returns true if the path has a file name indicating that it is a
/// high-density "retina" icon: its file stem ends with "@2x".
pub fn is_retina(path: &str) -> (r: bool)
    ensures
        r == retina(path@),
{
    match file_name(path) {
        Some(n) => str_ends_with(stem(n), "@2x"),
        None => false,
    }
}

} // verus!
