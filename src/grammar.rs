//! The three text grammars, stated over sequences of characters.

use vstd::prelude::*;

verus! {

/// A wrapped expression spanning the whole value: `${{`, anything (line
/// breaks included), then `}}`.
pub const IN_BRACE_PATTERN: &'static str = r#"^\$\{\{(.|[\r\n])*\}\}$"#;

/// Text holding a wrapped expression somewhere inside it.
pub const IN_STRING_PATTERN: &'static str = r#"^.*\$\{\{(.|[\r\n])*\}\}.*$"#;

/// The characters that open an expression.
pub open spec fn marker() -> Seq<char> {
    seq!['$', '{', '{']
}

/// The characters that close an expression.
pub open spec fn closer() -> Seq<char> {
    seq!['}', '}']
}

/// `p` occurs in `s` starting at position `i`.
pub open spec fn occurs_at(s: Seq<char>, p: Seq<char>, i: int) -> bool {
    0 <= i && i + p.len() <= s.len() && s.subrange(i, i + p.len()) == p
}

/// `s` contains the opening marker somewhere.
pub open spec fn has_marker(s: Seq<char>) -> bool {
    exists|i: int| occurs_at(s, marker(), i)
}

/// No character of `s` is a line feed.
pub open spec fn single_line(s: Seq<char>) -> bool {
    forall|k: int| 0 <= k < s.len() ==> s[k] != '\n'
}

/// `s` is matched by [`IN_BRACE_PATTERN`]: it opens with the marker and closes
/// with the closer, the two not overlapping.
pub open spec fn is_full_wrap(s: Seq<char>) -> bool {
    s.len() >= 5 && occurs_at(s, marker(), 0) && occurs_at(s, closer(), s.len() - 2)
}

/// A marker at `i` and a later closer at `j`, with no line feed before the
/// marker nor after the closer.
pub open spec fn embeds_at(s: Seq<char>, i: int, j: int) -> bool {
    &&& occurs_at(s, marker(), i)
    &&& i + 3 <= j
    &&& occurs_at(s, closer(), j)
    &&& single_line(s.subrange(0, i))
    &&& single_line(s.subrange(j + 2, s.len() as int))
}

/// `s` is matched by [`IN_STRING_PATTERN`].
pub open spec fn is_embedded(s: Seq<char>) -> bool {
    exists|i: int, j: int| embeds_at(s, i, j)
}

/// A full wrap holds its marker at the start.
pub proof fn lemma_full_wrap_has_marker(s: Seq<char>)
    requires
        is_full_wrap(s),
    ensures
        has_marker(s),
{
    assert(occurs_at(s, marker(), 0));
}

/// Relies on `regex::Regex::new` and `Regex::is_match` for the two patterns of
/// this module: `.` is any character but a line feed, `[\r\n]` adds the line
/// breaks, `^` and `$` anchor at the ends of the haystack.
#[verifier::external_body]
fn pattern_matches(pattern: &str, haystack: &str) -> (r: bool)
    requires
        pattern@ == IN_BRACE_PATTERN@ || pattern@ == IN_STRING_PATTERN@,
    ensures
        pattern@ == IN_BRACE_PATTERN@ ==> r == is_full_wrap(haystack@),
        pattern@ == IN_STRING_PATTERN@ ==> r == is_embedded(haystack@),
{
    regex::Regex::new(pattern).unwrap().is_match(haystack)
}

/// Whether `s` is a fully wrapped expression.
pub fn matches_full_wrap(s: &str) -> (r: bool)
    ensures
        r == is_full_wrap(s@),
{
    pattern_matches(IN_BRACE_PATTERN, s)
}

/// Whether `s` holds an embedded expression.
pub fn matches_embedded(s: &str) -> (r: bool)
    ensures
        r == is_embedded(s@),
{
    pattern_matches(IN_STRING_PATTERN, s)
}

/// Whether `s` contains the opening marker `${{`.
pub fn contains_marker(s: &str) -> (r: bool)
    ensures
        r == has_marker(s@),
{
    let n = s.unicode_len();
    let mut i: usize = 0;
    while n >= 3 && i <= n - 3
        invariant
            n == s@.len(),
            i <= n,
            forall|k: int| 0 <= k < i ==> !occurs_at(s@, marker(), k),
        decreases n - i,
    {
        if s.get_char(i) == '$' && s.get_char(i + 1) == '{' && s.get_char(i + 2) == '{' {
            assert(s@.subrange(i as int, i + 3) =~= marker());
            assert(occurs_at(s@, marker(), i as int));
            return true;
        }
        assert(!occurs_at(s@, marker(), i as int)) by {
            if occurs_at(s@, marker(), i as int) {
                assert(s@.subrange(i as int, i + 3)[0] == s@[i as int]);
                assert(s@.subrange(i as int, i + 3)[1] == s@[i + 1]);
                assert(s@.subrange(i as int, i + 3)[2] == s@[i + 2]);
            }
        }
        i += 1;
    }
    assert forall|k: int| !occurs_at(s@, marker(), k) by {
        if 0 <= k < i {
        } else if occurs_at(s@, marker(), k) {
            assert(k + 3 <= n && k >= i);
        }
    }
    false
}

} // verus!
