//! File-system-safe names.

use crate::text::{char_is_control, chars_of, is_control, string_of_range};
use vstd::prelude::*;

verus! {

/// Characters that may not stand in a file name.
pub open spec fn is_reserved(c: char) -> bool {
    c == '/' || c == '\\' || c == '\0' || c == ':' || c == '*' || c == '?' || c == '"' || c == '<'
        || c == '>' || c == '|'
}

/// A reserved or control character becomes `_`; every other character stays.
pub open spec fn sanitize_char(c: char) -> char {
    if is_reserved(c) || is_control(c) {
        '_'
    } else {
        c
    }
}

/// Characters that may not end a file name.
pub open spec fn is_trailing_junk(c: char) -> bool {
    c == '.' || c == ' '
}

/// `s` without its trailing periods and spaces.
pub open spec fn strip_trailing(s: Seq<char>) -> Seq<char>
    decreases s.len(),
{
    if s.len() > 0 && is_trailing_junk(s.last()) {
        strip_trailing(s.drop_last())
    } else {
        s
    }
}

/// The file-system-safe form of `name`: each character sanitized, trailing
/// periods and spaces removed, and `_` if nothing is left.
pub open spec fn sanitized(name: Seq<char>) -> Seq<char> {
    let kept = strip_trailing(name.map_values(|c: char| sanitize_char(c)));
    if kept.len() == 0 {
        seq!['_']
    } else {
        kept
    }
}

/// Whether `s` can stand as a file name as it is.
pub open spec fn is_safe_name(s: Seq<char>) -> bool {
    &&& s.len() > 0
    &&& !is_trailing_junk(s.last())
    &&& forall|i: int| 0 <= i < s.len() ==> !is_reserved(#[trigger] s[i]) && !is_control(s[i])
}

/// What `strip_trailing` leaves is a prefix that ends in neither a period
/// nor a space.
pub proof fn lemma_strip_trailing(s: Seq<char>)
    ensures
        strip_trailing(s).len() <= s.len(),
        strip_trailing(s) == s.take(strip_trailing(s).len() as int),
        strip_trailing(s).len() > 0 ==> !is_trailing_junk(strip_trailing(s).last()),
    decreases s.len(),
{
    if s.len() > 0 && is_trailing_junk(s.last()) {
        lemma_strip_trailing(s.drop_last());
        let t = strip_trailing(s.drop_last());
        assert(t =~= s.take(t.len() as int));
    } else {
        assert(s =~= s.take(s.len() as int));
    }
}

/// Every sanitized name is safe.
pub proof fn lemma_sanitized_is_safe(name: Seq<char>)
    ensures
        is_safe_name(sanitized(name)),
{
    let mapped = name.map_values(|c: char| sanitize_char(c));
    lemma_strip_trailing(mapped);
    let kept = strip_trailing(mapped);
    if kept.len() > 0 {
        assert forall|i: int| 0 <= i < kept.len() implies !is_reserved(#[trigger] kept[i])
            && !is_control(kept[i]) by {
            assert(kept[i] == mapped[i]);
            assert(mapped[i] == sanitize_char(name[i]));
        }
    }
}

/// A safe name is its own sanitized form.
pub proof fn lemma_safe_name_unchanged(s: Seq<char>)
    requires
        is_safe_name(s),
    ensures
        sanitized(s) == s,
{
    let mapped = s.map_values(|c: char| sanitize_char(c));
    assert(mapped =~= s);
}

/// Sanitizing twice gives what sanitizing once gives.
pub proof fn lemma_sanitized_idempotent(name: Seq<char>)
    ensures
        sanitized(sanitized(name)) == sanitized(name),
{
    lemma_sanitized_is_safe(name);
    lemma_safe_name_unchanged(sanitized(name));
}

/// Whether `c` may not stand in a file name.
pub fn char_is_reserved(c: char) -> (r: bool)
    ensures
        r == is_reserved(c),
{
    c == '/' || c == '\\' || c == '\0' || c == ':' || c == '*' || c == '?' || c == '"' || c == '<'
        || c == '>' || c == '|'
}

/// Maps an arbitrary title to a name that is safe as a path component.
pub fn sanitize_name(name: &str) -> (r: String)
    ensures
        r@ == sanitized(name@),
        is_safe_name(r@),
{
    let v = chars_of(name);
    let mut m: Vec<char> = Vec::new();
    let mut i: usize = 0;
    while i < v.len()
        invariant
            i <= v.len(),
            m@.len() == i,
            forall|j: int| 0 <= j < i ==> m@[j] == sanitize_char(#[trigger] v@[j]),
        decreases v.len() - i,
    {
        let c = v[i];
        if char_is_reserved(c) || char_is_control(c) {
            m.push('_');
        } else {
            m.push(c);
        }
        i = i + 1;
    }
    assert(m@ =~= name@.map_values(|c: char| sanitize_char(c)));
    let mut n: usize = m.len();
    assert(m@.take(n as int) =~= m@);
    while n > 0 && (m[n - 1] == '.' || m[n - 1] == ' ')
        invariant
            n <= m.len(),
            strip_trailing(m@.take(n as int)) == strip_trailing(m@),
        decreases n,
    {
        assert(m@.take(n as int).drop_last() =~= m@.take(n - 1));
        n = n - 1;
    }
    proof {
        assert(m@.take(m.len() as int) =~= m@);
        assert(m@.subrange(0, n as int) =~= m@.take(n as int));
        lemma_sanitized_is_safe(name@);
    }
    if n == 0 {
        let mut r = String::new();
        r.push('_');
        assert(r@ =~= seq!['_']);
        r
    } else {
        string_of_range(&m, 0, n)
    }
}

} // verus!
