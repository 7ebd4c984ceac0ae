//! Character-level text primitives.
//!
//! Every contract in this crate speaks of text as a `Seq<char>`. This module
//! defines the sequence-level vocabulary (trimming, matching, replacing) and
//! the executable functions that compute it on `&str`, `String` and
//! `Vec<char>`.

use vstd::prelude::*;
use vstd::std_specs::iter::IteratorSpec;

verus! {

/// The text of an optional owned string.
pub open spec fn opt_text(o: Option<String>) -> Option<Seq<char>> {
    match o {
        Some(s) => Some(s@),
        None => None,
    }
}

/// The texts of a vector of optional strings.
pub open spec fn opt_texts(v: Seq<Option<String>>) -> Seq<Option<Seq<char>>> {
    v.map_values(|e: Option<String>| opt_text(e))
}

/// The texts of a vector of strings.
pub open spec fn texts(v: Seq<String>) -> Seq<Seq<char>> {
    v.map_values(|e: String| e@)
}

/// The text of an optional string slice.
pub open spec fn opt_str(o: Option<&str>) -> Option<Seq<char>> {
    match o {
        Some(s) => Some(s@),
        None => None,
    }
}

/// The characters of a string slice, in order.
pub fn chars_of(s: &str) -> (v: Vec<char>)
    ensures
        v@ == s@,
{
    let mut v: Vec<char> = Vec::new();
    let mut it = s.chars();
    loop
        invariant
            it.obeys_prophetic_iter_laws(),
            it.decrease() is Some,
            v@ + it.remaining() == s@,
        ensures
            it.remaining().len() == 0,
        decreases it.decrease()->0,
    {
        match it.next() {
            Some(c) => {
                v.push(c);
            },
            None => {
                break ;
            },
        }
    }
    assert(v@ =~= v@ + it.remaining());
    v
}

/// Appends the characters `v[from..to]` to `out`.
pub(crate) fn push_range(out: &mut String, v: &Vec<char>, from: usize, to: usize)
    requires
        from <= to <= v.len(),
    ensures
        final(out)@ == old(out)@ + v@.subrange(from as int, to as int),
{
    let mut i: usize = from;
    while i < to
        invariant
            from <= i <= to <= v.len(),
            out@ == old(out)@ + v@.subrange(from as int, i as int),
        decreases to - i,
    {
        out.push(v[i]);
        i = i + 1;
        assert(out@ =~= old(out)@ + v@.subrange(from as int, i as int));
    }
}

/// The string made of the characters `v[from..to]`.
pub(crate) fn string_of_range(v: &Vec<char>, from: usize, to: usize) -> (s: String)
    requires
        from <= to <= v.len(),
    ensures
        s@ == v@.subrange(from as int, to as int),
{
    let mut s = String::new();
    push_range(&mut s, v, from, to);
    assert(s@ =~= v@.subrange(from as int, to as int));
    s
}

/// The string made of the characters of `v`.
pub fn string_of(v: &Vec<char>) -> (s: String)
    ensures
        s@ == v@,
{
    let s = string_of_range(v, 0, v.len());
    assert(v@.subrange(0, v.len() as int) =~= v@);
    s
}

/// An owned copy of a string slice.
pub fn owned(s: &str) -> (r: String)
    ensures
        r@ == s@,
{
    s.to_owned()
}

/// Whether two character vectors hold the same text.
pub fn chars_equal(a: &Vec<char>, b: &Vec<char>) -> (r: bool)
    ensures
        r == (a@ == b@),
{
    if a.len() != b.len() {
        return false;
    }
    let mut i: usize = 0;
    while i < a.len()
        invariant
            a.len() == b.len(),
            i <= a.len(),
            a@.take(i as int) == b@.take(i as int),
        decreases a.len() - i,
    {
        if a[i] != b[i] {
            return false;
        }
        i = i + 1;
        assert(a@.take(i as int) =~= a@.take(i - 1).push(a@[i - 1]));
        assert(b@.take(i as int) =~= b@.take(i - 1).push(b@[i - 1]));
    }
    assert(a@ =~= a@.take(i as int));
    assert(b@ =~= b@.take(i as int));
    true
}

/// Whether two string slices hold the same text.
pub fn text_equal(a: &str, b: &str) -> (r: bool)
    ensures
        r == (a@ == b@),
{
    let x = chars_of(a);
    let y = chars_of(b);
    chars_equal(&x, &y)
}

/// Control code points: U+0000..=U+001F and U+007F..=U+009F.
pub open spec fn is_control(c: char) -> bool {
    c as u32 <= 0x1f || 0x7f <= c as u32 <= 0x9f
}

/// Whether `c` is a control code point.
pub fn char_is_control(c: char) -> (r: bool)
    ensures
        r == is_control(c),
{
    let n: u32 = c as u32;
    n <= 0x1f || (0x7f <= n && n <= 0x9f)
}

/// White space code points: the characters that end or pad a line.
pub open spec fn is_whitespace(c: char) -> bool {
    let n = c as u32;
    ||| 0x09 <= n <= 0x0d
    ||| n == 0x20
    ||| n == 0x85
    ||| n == 0xa0
    ||| n == 0x1680
    ||| 0x2000 <= n <= 0x200a
    ||| n == 0x2028
    ||| n == 0x2029
    ||| n == 0x202f
    ||| n == 0x205f
    ||| n == 0x3000
}

/// Whether `c` is a white space code point.
pub fn char_is_whitespace(c: char) -> (r: bool)
    ensures
        r == is_whitespace(c),
{
    let n: u32 = c as u32;
    (0x09 <= n && n <= 0x0d) || n == 0x20 || n == 0x85 || n == 0xa0 || n == 0x1680 || (0x2000 <= n
        && n <= 0x200a) || n == 0x2028 || n == 0x2029 || n == 0x202f || n == 0x205f || n == 0x3000
}

/// `s` without its trailing white space.
pub open spec fn trim_end(s: Seq<char>) -> Seq<char>
    decreases s.len(),
{
    if s.len() > 0 && is_whitespace(s.last()) {
        trim_end(s.drop_last())
    } else {
        s
    }
}

/// `s` without its leading white space.
pub open spec fn trim_start(s: Seq<char>) -> Seq<char>
    decreases s.len(),
{
    if s.len() > 0 && is_whitespace(s.first()) {
        trim_start(s.drop_first())
    } else {
        s
    }
}

/// `s` without leading and trailing white space.
pub open spec fn trim(s: Seq<char>) -> Seq<char> {
    trim_start(trim_end(s))
}

/// Trimming at the end yields a prefix that does not end in white space.
pub proof fn lemma_trim_end_is_prefix(s: Seq<char>)
    ensures
        trim_end(s).len() <= s.len(),
        trim_end(s) == s.take(trim_end(s).len() as int),
        trim_end(s).len() > 0 ==> !is_whitespace(trim_end(s).last()),
        forall|i: int| trim_end(s).len() <= i < s.len() ==> is_whitespace(#[trigger] s[i]),
    decreases s.len(),
{
    if s.len() > 0 && is_whitespace(s.last()) {
        lemma_trim_end_is_prefix(s.drop_last());
        let t = trim_end(s.drop_last());
        assert(t =~= s.take(t.len() as int));
        assert forall|i: int| trim_end(s).len() <= i < s.len() implies is_whitespace(
            #[trigger] s[i],
        ) by {
            if i < s.len() - 1 {
                assert(s.drop_last()[i] == s[i]);
            }
        }
    } else {
        assert(s =~= s.take(s.len() as int));
    }
}

/// Trimming at the start yields a suffix that does not start with white space.
pub proof fn lemma_trim_start_is_suffix(s: Seq<char>)
    ensures
        trim_start(s).len() <= s.len(),
        trim_start(s) == s.skip(s.len() - trim_start(s).len()),
        trim_start(s).len() > 0 ==> !is_whitespace(trim_start(s).first()),
        forall|i: int| 0 <= i < s.len() - trim_start(s).len() ==> is_whitespace(#[trigger] s[i]),
    decreases s.len(),
{
    if s.len() > 0 && is_whitespace(s.first()) {
        lemma_trim_start_is_suffix(s.drop_first());
        let t = trim_start(s.drop_first());
        assert(t =~= s.skip(s.len() - t.len()));
        assert forall|i: int| 0 <= i < s.len() - trim_start(s).len() implies is_whitespace(
            #[trigger] s[i],
        ) by {
            if i > 0 {
                assert(s.drop_first()[i - 1] == s[i]);
            }
        }
    } else {
        assert(s =~= s.skip(0));
    }
}

/// Text that neither starts nor ends with white space is its own trimming.
pub proof fn lemma_trim_fixed(s: Seq<char>)
    requires
        s.len() > 0 ==> !is_whitespace(s.first()) && !is_whitespace(s.last()),
    ensures
        trim(s) == s,
        trim_end(s) == s,
        trim_start(s) == s,
{
}

/// Trimming is idempotent.
pub proof fn lemma_trim_idempotent(s: Seq<char>)
    ensures
        trim(trim(s)) == trim(s),
{
    lemma_trim_end_is_prefix(s);
    let e = trim_end(s);
    lemma_trim_start_is_suffix(e);
    let t = trim_start(e);
    if t.len() > 0 {
        assert(t.last() == e.last());
    }
    lemma_trim_fixed(t);
}

/// The length of `v` without its trailing white space, never below `from`.
pub(crate) fn trim_end_bound(v: &Vec<char>, from: usize, to: usize) -> (n: usize)
    requires
        from <= to <= v.len(),
    ensures
        from <= n <= to,
        v@.subrange(from as int, n as int) == trim_end(v@.subrange(from as int, to as int)),
{
    let mut n: usize = to;
    while n > from && char_is_whitespace(v[n - 1])
        invariant
            from <= n <= to <= v.len(),
            trim_end(v@.subrange(from as int, n as int)) == trim_end(
                v@.subrange(from as int, to as int),
            ),
        decreases n,
    {
        assert(v@.subrange(from as int, n as int).drop_last() =~= v@.subrange(
            from as int,
            n - 1,
        ));
        n = n - 1;
    }
    n
}

/// The index of the first character of `v[from..to]` that is not white space.
pub(crate) fn trim_start_bound(v: &Vec<char>, from: usize, to: usize) -> (n: usize)
    requires
        from <= to <= v.len(),
    ensures
        from <= n <= to,
        v@.subrange(n as int, to as int) == trim_start(v@.subrange(from as int, to as int)),
{
    let mut n: usize = from;
    while n < to && char_is_whitespace(v[n])
        invariant
            from <= n <= to <= v.len(),
            trim_start(v@.subrange(n as int, to as int)) == trim_start(
                v@.subrange(from as int, to as int),
            ),
        decreases to - n,
    {
        assert(v@.subrange(n as int, to as int).drop_first() =~= v@.subrange(n + 1, to as int));
        n = n + 1;
    }
    n
}

/// The text of `s` without leading and trailing white space.
pub fn trimmed(s: &str) -> (r: String)
    ensures
        r@ == trim(s@),
{
    let v = chars_of(s);
    let end = trim_end_bound(&v, 0, v.len());
    let start = trim_start_bound(&v, 0, end);
    proof {
        assert(v@.subrange(0, v.len() as int) =~= v@);
    }
    string_of_range(&v, start, end)
}

/// Whether `p` occurs in `s` at index `i`.
pub open spec fn matches_at(s: Seq<char>, i: int, p: Seq<char>) -> bool {
    0 <= i && i + p.len() <= s.len() && s.subrange(i, i + p.len()) == p
}

/// Whether `s` begins with `p`.
pub open spec fn starts_with(s: Seq<char>, p: Seq<char>) -> bool {
    matches_at(s, 0, p)
}

/// Whether `p` occurs somewhere in `s`.
pub open spec fn contains(s: Seq<char>, p: Seq<char>) -> bool {
    exists|i: int| matches_at(s, i, p)
}

/// Whether `p` occurs in `v` at index `i`.
pub(crate) fn chars_match_at(v: &Vec<char>, i: usize, p: &Vec<char>) -> (r: bool)
    requires
        i <= v.len(),
    ensures
        r == matches_at(v@, i as int, p@),
{
    if p.len() > v.len() - i {
        return false;
    }
    let mut k: usize = 0;
    while k < p.len()
        invariant
            i + p.len() <= v.len(),
            k <= p.len(),
            v@.subrange(i as int, i + k) == p@.take(k as int),
        decreases p.len() - k,
    {
        if v[i + k] != p[k] {
            proof {
                if v@.subrange(i as int, i + p.len()) == p@ {
                    assert(v@.subrange(i as int, i + p.len())[k as int] == v@[i + k]);
                }
            }
            return false;
        }
        k = k + 1;
        assert(v@.subrange(i as int, i + k) =~= v@.subrange(i as int, i + k - 1).push(
            v@[i + k - 1],
        ));
        assert(p@.take(k as int) =~= p@.take(k - 1).push(p@[k - 1]));
    }
    assert(p@.take(k as int) =~= p@);
    true
}

/// Whether `p` occurs somewhere in `v`.
pub(crate) fn chars_contain(v: &Vec<char>, p: &Vec<char>) -> (r: bool)
    ensures
        r == contains(v@, p@),
{
    let mut i: usize = 0;
    while i < v.len()
        invariant
            i <= v.len(),
            forall|j: int| 0 <= j < i ==> !matches_at(v@, j, p@),
        decreases v.len() - i,
    {
        if chars_match_at(v, i, p) {
            return true;
        }
        i = i + 1;
    }
    chars_match_at(v, i, p)
}

/// `s` with every occurrence of `pattern`, found from left to right and not
/// overlapping, replaced by `with`. An empty pattern occurs nowhere.
pub open spec fn replace_all(s: Seq<char>, pattern: Seq<char>, with: Seq<char>) -> Seq<char>
    decreases s.len(),
{
    if pattern.len() == 0 || s.len() < pattern.len() {
        s
    } else if s.subrange(0, pattern.len() as int) == pattern {
        with + replace_all(s.skip(pattern.len() as int), pattern, with)
    } else {
        seq![s[0]] + replace_all(s.skip(1), pattern, with)
    }
}

/// Text in which the pattern does not occur is left as it is.
pub proof fn lemma_replace_all_absent(s: Seq<char>, pattern: Seq<char>, with: Seq<char>)
    requires
        !contains(s, pattern),
    ensures
        replace_all(s, pattern, with) == s,
    decreases s.len(),
{
    if pattern.len() == 0 || s.len() < pattern.len() {
    } else {
        assert(!matches_at(s, 0, pattern));
        assert forall|i: int| !matches_at(s.skip(1), i, pattern) by {
            if matches_at(s.skip(1), i, pattern) {
                assert(s.skip(1).subrange(i, i + pattern.len()) =~= s.subrange(
                    i + 1,
                    i + 1 + pattern.len(),
                ));
                assert(matches_at(s, i + 1, pattern));
            }
        }
        lemma_replace_all_absent(s.skip(1), pattern, with);
        assert(seq![s[0]] + s.skip(1) =~= s);
    }
}

/// `v` with every occurrence of `pattern` replaced by `with`.
pub(crate) fn replace_chars(v: &Vec<char>, pattern: &Vec<char>, with: &Vec<char>) -> (r: String)
    ensures
        r@ == replace_all(v@, pattern@, with@),
{
    let mut out = String::new();
    if pattern.len() == 0 {
        push_range(&mut out, v, 0, v.len());
        assert(out@ =~= v@);
        return out;
    }
    let mut i: usize = 0;
    assert(out@ + replace_all(v@.skip(0), pattern@, with@) =~= replace_all(v@, pattern@, with@)) by {
        assert(v@.skip(0) =~= v@);
    }
    while i < v.len()
        invariant
            pattern.len() > 0,
            i <= v.len(),
            out@ + replace_all(v@.skip(i as int), pattern@, with@) == replace_all(
                v@,
                pattern@,
                with@,
            ),
        decreases v.len() - i,
    {
        let ghost rest = v@.skip(i as int);
        let ghost before = out@;
        if chars_match_at(v, i, pattern) {
            push_range(&mut out, with, 0, with.len());
            proof {
                assert(with@.subrange(0, with.len() as int) =~= with@);
                assert(rest.subrange(0, pattern.len() as int) =~= v@.subrange(
                    i as int,
                    i + pattern.len(),
                ));
                assert(rest.skip(pattern.len() as int) =~= v@.skip(i + pattern.len()));
                assert(out@ + replace_all(v@.skip(i + pattern.len()), pattern@, with@) =~= before
                    + replace_all(rest, pattern@, with@));
            }
            i = i + pattern.len();
        } else {
            out.push(v[i]);
            proof {
                if rest.len() >= pattern.len() {
                    assert(rest.subrange(0, pattern.len() as int) =~= v@.subrange(
                        i as int,
                        i + pattern.len(),
                    ));
                    assert(rest.skip(1) =~= v@.skip(i + 1));
                    assert(out@ + replace_all(v@.skip(i + 1), pattern@, with@) =~= before
                        + replace_all(rest, pattern@, with@));
                } else {
                    lemma_replace_short(rest, pattern@, with@);
                    lemma_replace_short(v@.skip(i + 1), pattern@, with@);
                    assert(out@ + v@.skip(i + 1) =~= before + rest);
                }
            }
            i = i + 1;
        }
    }
    assert(out@ + v@.skip(i as int) =~= out@);
    out
}

/// Text shorter than the pattern is left as it is.
pub proof fn lemma_replace_short(s: Seq<char>, pattern: Seq<char>, with: Seq<char>)
    requires
        s.len() < pattern.len(),
    ensures
        replace_all(s, pattern, with) == s,
{
}

/// `s` with every occurrence of `pattern` replaced by `with`.
pub fn replaced(s: &str, pattern: &str, with: &str) -> (r: String)
    ensures
        r@ == replace_all(s@, pattern@, with@),
{
    let v = chars_of(s);
    let p = chars_of(pattern);
    let w = chars_of(with);
    replace_chars(&v, &p, &w)
}

/// Whether `pattern` occurs in `s`.
pub fn text_contains(s: &str, pattern: &str) -> (r: bool)
    ensures
        r == contains(s@, pattern@),
{
    let v = chars_of(s);
    let p = chars_of(pattern);
    chars_contain(&v, &p)
}

/// Whether `s` begins with `prefix`.
pub fn text_starts_with(s: &str, prefix: &str) -> (r: bool)
    ensures
        r == starts_with(s@, prefix@),
{
    let v = chars_of(s);
    let p = chars_of(prefix);
    chars_match_at(&v, 0, &p)
}

} // verus!
