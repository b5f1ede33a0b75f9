//! String operations on character sequences, with their specifications.
//! Paths are handled as '/'-separated strings.
use vstd::prelude::*;

verus! {

/// Whether `s` begins with `prefix`.
pub open spec fn starts_with(s: Seq<char>, prefix: Seq<char>) -> bool {
    prefix.len() <= s.len() && s.subrange(0, prefix.len() as int) == prefix
}

/// Whether `s` ends with `suffix`.
pub open spec fn ends_with(s: Seq<char>, suffix: Seq<char>) -> bool {
    suffix.len() <= s.len() && s.subrange(s.len() - suffix.len(), s.len() as int) == suffix
}

/// The characters of `s` before its first `sep` (all of `s` if there is none).
pub open spec fn head_until(s: Seq<char>, sep: char) -> Seq<char>
    decreases s.len(),
{
    if s.len() == 0 {
        s
    } else if s[0] == sep {
        Seq::empty()
    } else {
        seq![s[0]] + head_until(s.drop_first(), sep)
    }
}

/// The characters of `s` after its first `sep`, if it has one.
pub open spec fn after_first(s: Seq<char>, sep: char) -> Option<Seq<char>>
    decreases s.len(),
{
    if s.len() == 0 {
        None
    } else if s[0] == sep {
        Some(s.drop_first())
    } else {
        after_first(s.drop_first(), sep)
    }
}

/// Field `n` (from 0) of `s` split at every `sep`, if `s` has that many fields.
pub open spec fn field(s: Seq<char>, sep: char, n: nat) -> Option<Seq<char>>
    decreases n,
{
    if n == 0 {
        Some(head_until(s, sep))
    } else {
        match after_first(s, sep) {
            Some(rest) => field(rest, sep, (n - 1) as nat),
            None => None,
        }
    }
}

/// `s` with every non-overlapping occurrence of `pat`, from the left,
/// replaced by `rep`.
pub open spec fn replace_all(s: Seq<char>, pat: Seq<char>, rep: Seq<char>) -> Seq<char>
    decreases s.len(),
{
    if pat.len() == 0 || s.len() < pat.len() {
        s
    } else if s.subrange(0, pat.len() as int) == pat {
        rep + replace_all(s.subrange(pat.len() as int, s.len() as int), pat, rep)
    } else {
        seq![s[0]] + replace_all(s.drop_first(), pat, rep)
    }
}

/// The items of `items` joined with `sep` between each two.
pub open spec fn join(items: Seq<Seq<char>>, sep: Seq<char>) -> Seq<char>
    decreases items.len(),
{
    if items.len() == 0 {
        Seq::empty()
    } else if items.len() == 1 {
        items[0]
    } else {
        join(items.drop_last(), sep) + sep + items.last()
    }
}

/// `rel` appended to the path `base`: an absolute `rel` replaces `base`, and a
/// '/' is put between the two where `base` does not end with one.
pub open spec fn join_path(base: Seq<char>, rel: Seq<char>) -> Seq<char> {
    if rel.len() > 0 && rel[0] == '/' {
        rel
    } else if base.len() == 0 || base.last() == '/' {
        base + rel
    } else {
        base + seq!['/'] + rel
    }
}

/// Whether two strings hold the same characters.
pub fn str_eq(a: &str, b: &str) -> (r: bool)
    ensures
        r == (a@ == b@),
{
    let n = a.unicode_len();
    if n != b.unicode_len() {
        return false;
    }
    let mut i: usize = 0;
    while i < n
        invariant
            n == a@.len(),
            n == b@.len(),
            i <= n,
            forall|j: int| 0 <= j < i ==> a@[j] == b@[j],
        decreases n - i,
    {
        if a.get_char(i) != b.get_char(i) {
            return false;
        }
        i = i + 1;
    }
    assert(a@ =~= b@);
    true
}

/// Whether `s` holds `pat` at character position `at`.
fn matches_at(s: &str, at: usize, pat: &str) -> (r: bool)
    requires
        at <= s@.len(),
    ensures
        r == (at + pat@.len() <= s@.len() && s@.subrange(at as int, at + pat@.len()) == pat@),
{
    let n = s.unicode_len();
    let m = pat.unicode_len();
    if m > n - at {
        return false;
    }
    let mut j: usize = 0;
    while j < m
        invariant
            n == s@.len(),
            m == pat@.len(),
            at + m <= n,
            j <= m,
            forall|k: int| 0 <= k < j ==> s@[at + k] == pat@[k],
        decreases m - j,
    {
        if s.get_char(at + j) != pat.get_char(j) {
            assert(s@.subrange(at as int, at + m)[j as int] != pat@[j as int]);
            return false;
        }
        j = j + 1;
    }
    assert(s@.subrange(at as int, at + m) =~= pat@);
    true
}

/// Whether `s` begins with `prefix`.
pub fn str_starts_with(s: &str, prefix: &str) -> (r: bool)
    ensures
        r == starts_with(s@, prefix@),
{
    matches_at(s, 0, prefix)
}

/// Whether `s` ends with `suffix`.
pub fn str_ends_with(s: &str, suffix: &str) -> (r: bool)
    ensures
        r == ends_with(s@, suffix@),
{
    let n = s.unicode_len();
    let m = suffix.unicode_len();
    if m > n {
        false
    } else {
        matches_at(s, n - m, suffix)
    }
}

proof fn lemma_scan(s: Seq<char>, sep: char, start: int, j: int)
    requires
        0 <= start <= j <= s.len(),
        forall|t: int| start <= t < j ==> s[t] != sep,
        j == s.len() || s[j] == sep,
    ensures
        head_until(s.subrange(start, s.len() as int), sep) == s.subrange(start, j),
        after_first(s.subrange(start, s.len() as int), sep) == (if j == s.len() {
            None
        } else {
            Some(s.subrange(j + 1, s.len() as int))
        }),
    decreases j - start,
{
    let sub = s.subrange(start, s.len() as int);
    if start == j {
        if j < s.len() {
            assert(sub[0] == sep);
            assert(sub.drop_first() =~= s.subrange(j + 1, s.len() as int));
        }
        assert(s.subrange(start, j) =~= Seq::<char>::empty());
    } else {
        assert(sub.drop_first() =~= s.subrange(start + 1, s.len() as int));
        lemma_scan(s, sep, start + 1, j);
        assert(seq![sub[0]] + s.subrange(start + 1, j) =~= s.subrange(start, j));
    }
}

/// The first position at or after `from` that holds `sep`, or the length.
fn scan_to(s: &str, len: usize, from: usize, sep: char) -> (j: usize)
    requires
        len == s@.len(),
        from <= len,
    ensures
        from <= j <= len,
        forall|t: int| from <= t < j ==> s@[t] != sep,
        j == len || s@[j as int] == sep,
{
    let mut j = from;
    while j < len && s.get_char(j) != sep
        invariant
            len == s@.len(),
            from <= j <= len,
            forall|t: int| from <= t < j ==> s@[t] != sep,
        decreases len - j,
    {
        j = j + 1;
    }
    j
}

/// Field `n` (from 0) of `s` split at every `sep`, if `s` has that many fields.
pub fn str_field(s: &str, sep: char, n: usize) -> (r: Option<&str>)
    ensures
        match r {
            Some(f) => field(s@, sep, n as nat) == Some(f@),
            None => field(s@, sep, n as nat) is None,
        },
{
    let len = s.unicode_len();
    let mut start: usize = 0;
    let mut k: usize = 0;
    assert(s@.subrange(0, len as int) =~= s@);
    while k < n
        invariant
            len == s@.len(),
            start <= len,
            k <= n,
            field(s@, sep, n as nat) == field(s@.subrange(start as int, len as int), sep, (n - k) as nat),
        decreases n - k,
    {
        let j = scan_to(s, len, start, sep);
        proof {
            lemma_scan(s@, sep, start as int, j as int);
        }
        if j == len {
            return None;
        }
        start = j + 1;
        k = k + 1;
    }
    let j = scan_to(s, len, start, sep);
    proof {
        lemma_scan(s@, sep, start as int, j as int);
    }
    Some(s.substring_char(start, j))
}

proof fn lemma_replace_step(s: Seq<char>, pat: Seq<char>, rep: Seq<char>, i: int)
    requires
        0 <= i < s.len(),
        pat.len() > 0,
        !(i + pat.len() <= s.len() && s.subrange(i, i + pat.len()) == pat),
    ensures
        replace_all(s.subrange(i, s.len() as int), pat, rep) == seq![s[i]] + replace_all(
            s.subrange(i + 1, s.len() as int),
            pat,
            rep,
        ),
{
    let sub = s.subrange(i, s.len() as int);
    assert(sub.drop_first() =~= s.subrange(i + 1, s.len() as int));
    if sub.len() >= pat.len() {
        assert(sub.subrange(0, pat.len() as int) =~= s.subrange(i, i + pat.len()));
    } else {
        assert(s.subrange(i + 1, s.len() as int).len() < pat.len());
        assert(sub =~= seq![s[i]] + s.subrange(i + 1, s.len() as int));
    }
}

/// `s` with every non-overlapping occurrence of `pat`, from the left,
/// replaced by `rep`.
pub fn str_replace_all(s: &str, pat: &str, rep: &str) -> (r: String)
    requires
        pat@.len() > 0,
    ensures
        r@ == replace_all(s@, pat@, rep@),
{
    let n = s.unicode_len();
    let m = pat.unicode_len();
    let mut out = String::new();
    let mut i: usize = 0;
    let mut chunk: usize = 0;
    assert(s@.subrange(0, n as int) =~= s@);
    while i < n
        invariant
            n == s@.len(),
            m == pat@.len(),
            m > 0,
            chunk <= i <= n,
            replace_all(s@, pat@, rep@) == out@ + s@.subrange(chunk as int, i as int) + replace_all(
                s@.subrange(i as int, n as int),
                pat@,
                rep@,
            ),
        decreases n - i,
    {
        if matches_at(s, i, pat) {
            let piece = s.substring_char(chunk, i);
            proof {
                let sub = s@.subrange(i as int, n as int);
                assert(sub.subrange(0, m as int) =~= s@.subrange(i as int, i + m));
                assert(sub.subrange(m as int, sub.len() as int) =~= s@.subrange(i + m, n as int));
                assert(s@.subrange((i + m) as int, (i + m) as int) =~= Seq::<char>::empty());
            }
            out.append(piece);
            out.append(rep);
            i = i + m;
            chunk = i;
        } else {
            proof {
                lemma_replace_step(s@, pat@, rep@, i as int);
                assert(s@.subrange(chunk as int, i as int) + seq![s@[i as int]] =~= s@.subrange(
                    chunk as int,
                    i + 1,
                ));
            }
            i = i + 1;
        }
    }
    let piece = s.substring_char(chunk, n);
    out.append(piece);
    proof {
        assert(s@.subrange(n as int, n as int) =~= Seq::<char>::empty());
        assert(replace_all(Seq::<char>::empty(), pat@, rep@) == Seq::<char>::empty());
        assert(out@ =~= replace_all(s@, pat@, rep@));
    }
    out
}

/// The views of a list of strings.
pub open spec fn views(items: Seq<String>) -> Seq<Seq<char>> {
    items.map_values(|x: String| x@)
}

/// The strings of `items` joined with `sep` between each two.
pub fn str_join(items: &Vec<String>, sep: &str) -> (r: String)
    ensures
        r@ == join(views(items@), sep@),
{
    let mut out = String::new();
    let mut i: usize = 0;
    while i < items.len()
        invariant
            i <= items@.len(),
            out@ == join(views(items@).take(i as int), sep@),
        decreases items@.len() - i,
    {
        proof {
            let t = views(items@).take(i + 1);
            assert(t.drop_last() =~= views(items@).take(i as int));
            assert(t.last() == items@[i as int]@);
        }
        if i > 0 {
            out.append(sep);
        }
        out.append(items[i].as_str());
        proof {
            if i == 0 {
                assert(views(items@).take(0) =~= Seq::<Seq<char>>::empty());
            }
        }
        i = i + 1;
    }
    assert(views(items@).take(items@.len() as int) =~= views(items@));
    out
}

/// `rel` appended to the path `base` (see `join_path`).
pub fn str_join_path(base: &str, rel: &str) -> (r: String)
    ensures
        r@ == join_path(base@, rel@),
{
    let n = base.unicode_len();
    if rel.unicode_len() > 0 && rel.get_char(0) == '/' {
        return rel.to_string();
    }
    let mut out = base.to_string();
    if n > 0 && base.get_char(n - 1) != '/' {
        out.append("/");
        proof {
            reveal_strlit("/");
        }
    }
    out.append(rel);
    out
}

} // verus!
