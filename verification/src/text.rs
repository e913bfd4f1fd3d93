//! Filling a caller script's placeholder with the digest of the procedure it calls.

use vstd::prelude::*;
use vstd::string::*;

verus! {

/// Whether `pattern` stands in `text` at position `at`.
pub open spec fn occurs_at(text: Seq<char>, pattern: Seq<char>, at: int) -> bool {
    &&& 0 <= at
    &&& at + pattern.len() <= text.len()
    &&& text.subrange(at, at + pattern.len()) == pattern
}

/// Whether `pattern` stands in `text` somewhere.
pub open spec fn contains_text(text: Seq<char>, pattern: Seq<char>) -> bool {
    exists|at: int| occurs_at(text, pattern, at)
}

/// Whether no character of `s` is `c`.
pub open spec fn lacks(s: Seq<char>, c: char) -> bool {
    forall|i: int| 0 <= i < s.len() ==> s[i] != c
}

/// `text` with every occurrence of `pattern` replaced by `with`. Occurrences are found from the
/// left and do not overlap; what has been put in is not searched again. An empty pattern
/// occurs nowhere.
pub open spec fn replace_all(text: Seq<char>, pattern: Seq<char>, with: Seq<char>) -> Seq<char>
    decreases text.len(),
{
    if pattern.len() == 0 || text.len() < pattern.len() {
        text
    } else if occurs_at(text, pattern, 0) {
        with + replace_all(text.skip(pattern.len() as int), pattern, with)
    } else {
        seq![text[0]] + replace_all(text.skip(1), pattern, with)
    }
}

/// The token that a caller script holds in place of a procedure's digest: the procedure's name
/// in braces.
pub open spec fn placeholder(procedure: Seq<char>) -> Seq<char> {
    seq!['{'] + procedure + seq!['}']
}

/// A caller script with its placeholder filled in.
pub open spec fn filled(script: Seq<char>, procedure: Seq<char>, digest: Seq<char>) -> Seq<char> {
    replace_all(script, placeholder(procedure), digest)
}

/// Whether `c` is one of `0`..`9`, `a`..`f`.
pub open spec fn is_lower_hex(c: char) -> bool {
    ('0' <= c && c <= '9') || ('a' <= c && c <= 'f')
}

/// The shape of a digest in text: `0x`, then 64 lower-case hexadecimal digits.
pub open spec fn is_digest_hex(s: Seq<char>) -> bool {
    &&& s.len() == 66
    &&& s[0] == '0'
    &&& s[1] == 'x'
    &&& forall|i: int| 2 <= i < 66 ==> is_lower_hex(#[trigger] s[i])
}

/// An occurrence in a suffix is an occurrence in the whole text, and the other way round.
proof fn lemma_occurs_in_suffix(text: Seq<char>, pattern: Seq<char>, cut: int, at: int)
    requires
        0 <= cut <= text.len(),
        0 <= at,
    ensures
        occurs_at(text.skip(cut), pattern, at) <==> occurs_at(text, pattern, cut + at),
{
    if at + pattern.len() <= text.len() - cut {
        assert(text.skip(cut).subrange(at, at + pattern.len()) =~= text.subrange(
            cut + at,
            cut + at + pattern.len(),
        ));
    }
}

/// An occurrence behind a prefix is an occurrence in what follows the prefix.
proof fn lemma_occurs_behind_prefix(head: Seq<char>, tail: Seq<char>, pattern: Seq<char>, at: int)
    requires
        head.len() <= at,
    ensures
        occurs_at(head + tail, pattern, at) <==> occurs_at(tail, pattern, at - head.len()),
{
    if at + pattern.len() <= head.len() + tail.len() {
        assert((head + tail).subrange(at, at + pattern.len()) =~= tail.subrange(
            at - head.len(),
            at - head.len() + pattern.len(),
        ));
    }
}

/// A text in which the pattern does not occur is left as it is.
pub proof fn lemma_without_pattern_unchanged(text: Seq<char>, pattern: Seq<char>, with: Seq<char>)
    requires
        !contains_text(text, pattern),
    ensures
        replace_all(text, pattern, with) == text,
    decreases text.len(),
{
    if pattern.len() != 0 && text.len() >= pattern.len() {
        assert(!occurs_at(text, pattern, 0));
        assert forall|at: int| !occurs_at(text.skip(1), pattern, at) by {
            if 0 <= at {
                lemma_occurs_in_suffix(text, pattern, 1, at);
            }
        }
        lemma_without_pattern_unchanged(text.skip(1), pattern, with);
        assert(seq![text[0]] + text.skip(1) =~= text);
    }
}

/// Up to the first occurrence the text is kept; there the replacement stands; what follows the
/// occurrence is treated in the same way.
pub proof fn lemma_first_occurrence(
    text: Seq<char>,
    pattern: Seq<char>,
    with: Seq<char>,
    first: int,
)
    requires
        pattern.len() > 0,
        occurs_at(text, pattern, first),
        forall|at: int| 0 <= at < first ==> !occurs_at(text, pattern, at),
    ensures
        replace_all(text, pattern, with) == text.subrange(0, first) + with + replace_all(
            text.skip(first + pattern.len()),
            pattern,
            with,
        ),
    decreases first,
{
    if first == 0 {
        assert(text.subrange(0, 0) + with =~= with);
    } else {
        assert(!occurs_at(text, pattern, 0));
        let rest = text.skip(1);
        lemma_occurs_in_suffix(text, pattern, 1, first - 1);
        assert forall|at: int| 0 <= at < first - 1 implies !occurs_at(rest, pattern, at) by {
            lemma_occurs_in_suffix(text, pattern, 1, at);
        }
        lemma_first_occurrence(rest, pattern, with, first - 1);
        assert(rest.skip(first - 1 + pattern.len()) =~= text.skip(first + pattern.len()));
        assert(seq![text[0]] + rest.subrange(0, first - 1) =~= text.subrange(0, first));
        assert(seq![text[0]] + (rest.subrange(0, first - 1) + with + replace_all(
            text.skip(first + pattern.len()),
            pattern,
            with,
        )) =~= text.subrange(0, first) + with + replace_all(
            text.skip(first + pattern.len()),
            pattern,
            with,
        ));
    }
}

/// Where the pattern occurs in the text, the replacement occurs in the result.
pub proof fn lemma_replacement_appears(text: Seq<char>, pattern: Seq<char>, with: Seq<char>)
    requires
        pattern.len() > 0,
        contains_text(text, pattern),
    ensures
        contains_text(replace_all(text, pattern, with), with),
    decreases text.len(),
{
    let at = choose|at: int| occurs_at(text, pattern, at);
    let out = replace_all(text, pattern, with);
    if occurs_at(text, pattern, 0) {
        assert(out.subrange(0, with.len() as int) =~= with);
        assert(occurs_at(out, with, 0));
    } else {
        let rest = text.skip(1);
        lemma_occurs_in_suffix(text, pattern, 1, at - 1);
        assert(occurs_at(rest, pattern, at - 1));
        lemma_replacement_appears(rest, pattern, with);
        let inner = replace_all(rest, pattern, with);
        let found = choose|found: int| occurs_at(inner, with, found);
        lemma_occurs_behind_prefix(seq![text[0]], inner, with, found + 1);
        assert(occurs_at(out, with, found + 1));
    }
}

/// A stretch at the front of the result that ends in the pattern's last character, and is
/// shorter than the pattern, was copied from the front of the text: no replacement lies in it.
proof fn lemma_front_is_copied(text: Seq<char>, pattern: Seq<char>, with: Seq<char>, m: int)
    requires
        pattern.len() >= 2,
        lacks(with, pattern.last()),
        with.len() + 1 >= pattern.len(),
        1 <= m < pattern.len(),
        m <= replace_all(text, pattern, with).len(),
        replace_all(text, pattern, with)[m - 1] == pattern.last(),
    ensures
        m <= text.len(),
        text.subrange(0, m) == replace_all(text, pattern, with).subrange(0, m),
    decreases m,
{
    let out = replace_all(text, pattern, with);
    if text.len() < pattern.len() {
    } else if occurs_at(text, pattern, 0) {
        assert(out[m - 1] == with[m - 1]);
        assert(false);
    } else {
        let rest = text.skip(1);
        let inner = replace_all(rest, pattern, with);
        assert(out == seq![text[0]] + inner);
        if m == 1 {
            assert(text.subrange(0, 1) =~= out.subrange(0, 1));
        } else {
            assert(inner[m - 2] == out[m - 1]);
            lemma_front_is_copied(rest, pattern, with, m - 1);
            assert forall|i: int| 0 <= i < m implies text.subrange(0, m)[i] == out.subrange(
                0,
                m,
            )[i] by {
                if i > 0 {
                    assert(text[i] == rest.subrange(0, m - 1)[i - 1]);
                    assert(out[i] == inner.subrange(0, m - 1)[i - 1]);
                }
            }
            assert(text.subrange(0, m) =~= out.subrange(0, m));
        }
    }
}

/// Where the replacement holds neither the first nor the last character of the pattern, and is
/// too long to lie inside one, the pattern does not occur in the result.
pub proof fn lemma_pattern_is_gone(text: Seq<char>, pattern: Seq<char>, with: Seq<char>)
    requires
        pattern.len() >= 2,
        lacks(with, pattern[0]),
        lacks(with, pattern.last()),
        with.len() + 1 >= pattern.len(),
    ensures
        !contains_text(replace_all(text, pattern, with), pattern),
    decreases text.len(),
{
    let out = replace_all(text, pattern, with);
    let len = pattern.len() as int;
    if text.len() < pattern.len() {
    } else if occurs_at(text, pattern, 0) {
        let inner = replace_all(text.skip(len), pattern, with);
        lemma_pattern_is_gone(text.skip(len), pattern, with);
        assert forall|at: int| !occurs_at(out, pattern, at) by {
            if occurs_at(out, pattern, at) {
                if at < with.len() {
                    assert(out.subrange(at, at + len)[0] == with[at]);
                    assert(false);
                } else {
                    lemma_occurs_behind_prefix(with, inner, pattern, at);
                    assert(false);
                }
            }
        }
    } else {
        let rest = text.skip(1);
        let inner = replace_all(rest, pattern, with);
        lemma_pattern_is_gone(rest, pattern, with);
        assert forall|at: int| !occurs_at(out, pattern, at) by {
            if occurs_at(out, pattern, at) {
                if at >= 1 {
                    lemma_occurs_behind_prefix(seq![text[0]], inner, pattern, at);
                    assert(false);
                } else {
                    assert(out.subrange(0, len)[len - 1] == pattern[len - 1]);
                    assert(inner[len - 2] == out[len - 1]);
                    lemma_front_is_copied(rest, pattern, with, len - 1);
                    assert forall|i: int| 0 <= i < len implies text.subrange(0, len)[i]
                        == pattern[i] by {
                        assert(out.subrange(0, len)[i] == pattern[i]);
                        if i > 0 {
                            assert(text[i] == rest.subrange(0, len - 1)[i - 1]);
                            assert(out[i] == inner.subrange(0, len - 1)[i - 1]);
                        }
                    }
                    assert(text.subrange(0, len) =~= pattern);
                    assert(false);
                }
            }
        }
    }
}

/// Whether `pattern` stands in `text` at the character position `at`.
fn matches_at(text: &str, pattern: &str, at: usize, text_len: usize, pattern_len: usize) -> (found:
    bool)
    requires
        text_len == text@.len(),
        pattern_len == pattern@.len(),
        at + pattern_len <= text_len,
    ensures
        found == occurs_at(text@, pattern@, at as int),
{
    let mut j: usize = 0;
    while j < pattern_len
        invariant
            text_len == text@.len(),
            pattern_len == pattern@.len(),
            at + pattern_len <= text_len,
            j <= pattern_len,
            forall|k: int| 0 <= k < j ==> text@[at + k] == pattern@[k],
        decreases pattern_len - j,
    {
        if text.get_char(at + j) != pattern.get_char(j) {
            assert(text@.subrange(at as int, at + pattern_len)[j as int] != pattern@[j as int]);
            return false;
        }
        j = j + 1;
    }
    assert(text@.subrange(at as int, at + pattern_len) =~= pattern@);
    true
}

/// Replaces every occurrence of `pattern` in `text` by `with`. An empty pattern occurs nowhere.
pub fn replace_all_in(text: &str, pattern: &str, with: &str) -> (out: String)
    ensures
        out@ == replace_all(text@, pattern@, with@),
{
    let n = text.unicode_len();
    let len = pattern.unicode_len();
    if len == 0 {
        return String::from_str(text);
    }
    let mut out = String::new();
    let mut copied: usize = 0;
    let mut at: usize = 0;
    assert(text@.skip(0) =~= text@);
    assert(out@ + text@.subrange(0, 0) =~= Seq::<char>::empty());
    assert(Seq::<char>::empty() + replace_all(text@, pattern@, with@) =~= replace_all(
        text@,
        pattern@,
        with@,
    ));
    while len <= n && at <= n - len
        invariant
            n == text@.len(),
            len == pattern@.len(),
            len > 0,
            copied <= at <= n,
            out@ + text@.subrange(copied as int, at as int) + replace_all(
                text@.skip(at as int),
                pattern@,
                with@,
            ) == replace_all(text@, pattern@, with@),
        decreases n - at,
    {
        let ghost rest = text@.skip(at as int);
        proof {
            lemma_occurs_in_suffix(text@, pattern@, at as int, 0);
        }
        if matches_at(text, pattern, at, n, len) {
            let ghost before = out@;
            out.append(text.substring_char(copied, at));
            out.append(with);
            proof {
                assert(rest.skip(len as int) =~= text@.skip(at + len));
                assert(out@ + text@.subrange(at + len, at + len) + replace_all(
                    text@.skip(at + len),
                    pattern@,
                    with@,
                ) =~= before + text@.subrange(copied as int, at as int) + replace_all(
                    rest,
                    pattern@,
                    with@,
                ));
            }
            at = at + len;
            copied = at;
        } else {
            proof {
                assert(rest.skip(1) =~= text@.skip(at + 1));
                assert(out@ + text@.subrange(copied as int, at + 1) + replace_all(
                    text@.skip(at + 1),
                    pattern@,
                    with@,
                ) =~= out@ + text@.subrange(copied as int, at as int) + replace_all(
                    rest,
                    pattern@,
                    with@,
                ));
            }
            at = at + 1;
        }
    }
    proof {
        assert(out@ + text@.subrange(copied as int, n as int) =~= out@ + text@.subrange(
            copied as int,
            at as int,
        ) + text@.skip(at as int));
    }
    out.append(text.substring_char(copied, n));
    out
}

/// Builds the placeholder for a procedure: its name in braces.
pub fn placeholder_for(procedure: &str) -> (token: String)
    ensures
        token@ == placeholder(procedure@),
{
    proof {
        reveal_strlit("{");
        reveal_strlit("}");
    }
    let mut token = String::from_str("{");
    token.append(procedure);
    token.append("}");
    assert(token@ =~= placeholder(procedure@));
    token
}

/// Fills the placeholder of a caller script: every occurrence of the procedure's name in braces
/// becomes the digest.
pub fn fill_placeholder(script: &str, procedure: &str, digest: &str) -> (out: String)
    ensures
        out@ == filled(script@, procedure@, digest@),
{
    let token = placeholder_for(procedure);
    replace_all_in(script, token.as_str(), digest)
}

/// A digest in text holds no brace.
pub proof fn lemma_digest_has_no_brace(digest: Seq<char>)
    requires
        is_digest_hex(digest),
    ensures
        lacks(digest, '{'),
        lacks(digest, '}'),
{
    assert forall|i: int| 0 <= i < digest.len() implies digest[i] != '{' && digest[i] != '}' by {
        if i >= 2 {
            assert(is_lower_hex(digest[i]));
        }
    }
}

/// A script that holds the placeholder holds the digest once it is filled.
pub proof fn lemma_filled_holds_digest(script: Seq<char>, procedure: Seq<char>, digest: Seq<char>)
    requires
        contains_text(script, placeholder(procedure)),
    ensures
        contains_text(filled(script, procedure, digest), digest),
{
    lemma_replacement_appears(script, placeholder(procedure), digest);
}

/// No placeholder is left in a filled script, where the digest holds no brace and is longer
/// than the procedure's name. This holds of every digest that the SDK writes and every name of
/// fewer than 66 characters.
pub proof fn lemma_filled_holds_no_placeholder(
    script: Seq<char>,
    procedure: Seq<char>,
    digest: Seq<char>,
)
    requires
        lacks(digest, '{'),
        lacks(digest, '}'),
        digest.len() > procedure.len(),
    ensures
        !contains_text(filled(script, procedure, digest), placeholder(procedure)),
{
    lemma_pattern_is_gone(script, placeholder(procedure), digest);
}

/// A script that holds the placeholder exactly once is cut there, and the digest is put in.
pub proof fn lemma_single_placeholder(
    script: Seq<char>,
    procedure: Seq<char>,
    digest: Seq<char>,
    at: int,
)
    requires
        occurs_at(script, placeholder(procedure), at),
        forall|other: int| other != at ==> !occurs_at(script, placeholder(procedure), other),
    ensures
        filled(script, procedure, digest) == script.subrange(0, at) + digest + script.skip(
            at + procedure.len() + 2,
        ),
{
    let token = placeholder(procedure);
    let tail = script.skip(at + token.len());
    lemma_first_occurrence(script, token, digest, at);
    assert forall|other: int| !occurs_at(tail, token, other) by {
        if 0 <= other {
            lemma_occurs_in_suffix(script, token, at + token.len(), other);
        }
    }
    lemma_without_pattern_unchanged(tail, token, digest);
}

} // verus!

