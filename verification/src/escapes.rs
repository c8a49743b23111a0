//! Quoted-string literal handling: resolving backslash escapes and removing
//! the outer quotes.
//!
//! Single-quoted text knows two escapes, `\\` and `\'`; every other
//! backslash stays as written.  Double-quoted text additionally resolves the
//! usual control-character escapes; an unrecognised escape keeps both the
//! backslash and the character that follows it.

use vstd::prelude::*;
use vstd::string::StrSliceExecFns;

verus! {

/// The single-quote escape rules applied to `s`.
pub open spec fn unescape_single_chars(s: Seq<char>) -> Seq<char>
    decreases s.len(),
{
    if s.len() == 0 {
        Seq::empty()
    } else if s[0] == '\\' && s.len() >= 2 && (s[1] == '\\' || s[1] == '\'') {
        seq![s[1]] + unescape_single_chars(s.skip(2))
    } else {
        seq![s[0]] + unescape_single_chars(s.skip(1))
    }
}

/// Whether `c` is one of the characters a double-quoted escape resolves.
pub open spec fn is_double_escape(c: char) -> bool {
    c == '\\' || c == '"' || c == 'n' || c == 'r' || c == 't' || c == 'v' || c == 'f' || c == 'e'
        || c == '$' || c == '`'
}

/// What a recognised double-quoted escape `\c` resolves to.
pub open spec fn double_escape_char(c: char) -> char {
    if c == 'n' {
        '\n'
    } else if c == 'r' {
        '\r'
    } else if c == 't' {
        '\t'
    } else if c == 'v' {
        '\u{000B}'
    } else if c == 'f' {
        '\u{000C}'
    } else if c == 'e' {
        '\u{001B}'
    } else {
        c
    }
}

/// The double-quote escape rules applied to `s`.
pub open spec fn unescape_double_chars(s: Seq<char>) -> Seq<char>
    decreases s.len(),
{
    if s.len() == 0 {
        Seq::empty()
    } else if s[0] == '\\' && s.len() >= 2 {
        if is_double_escape(s[1]) {
            seq![double_escape_char(s[1])] + unescape_double_chars(s.skip(2))
        } else {
            seq![s[0], s[1]] + unescape_double_chars(s.skip(2))
        }
    } else {
        seq![s[0]] + unescape_double_chars(s.skip(1))
    }
}

/// Whether `c` can open and close a quoted literal.
pub open spec fn is_quote_char(c: char) -> bool {
    c == '\'' || c == '"'
}

/// `s` with its outer quotes removed, when it has matching ones.
pub open spec fn strip_quotes_chars(s: Seq<char>) -> Seq<char> {
    if s.len() >= 2 && is_quote_char(s[0]) && s[s.len() - 1] == s[0] {
        s.subrange(1, s.len() - 1)
    } else {
        s
    }
}

/// The content of a single-quoted literal token: escapes resolved, then the
/// outer quotes removed.
pub open spec fn single_quoted_value(s: Seq<char>) -> Seq<char> {
    strip_quotes_chars(unescape_single_chars(s))
}

/// The content of a double-quoted literal token: escapes resolved, then the
/// outer quotes removed.
pub open spec fn double_quoted_value(s: Seq<char>) -> Seq<char> {
    strip_quotes_chars(unescape_double_chars(s))
}

/// Resolves single-quote escapes in `s`.
pub fn unescape_single(s: &str) -> (r: String)
    ensures
        r@ == unescape_single_chars(s@),
{
    let len = s.unicode_len();
    let mut out = String::new();
    let mut i: usize = 0;
    proof {
        assert(s@.skip(0) =~= s@);
    }
    while i < len
        invariant
            i <= len,
            len == s@.len(),
            unescape_single_chars(s@) == out@ + unescape_single_chars(s@.skip(i as int)),
        decreases len - i,
    {
        let ghost rest = s@.skip(i as int);
        let ghost out0 = out@;
        let c = s.get_char(i);
        if c == '\\' && i + 1 < len {
            let c2 = s.get_char(i + 1);
            if c2 == '\\' || c2 == '\'' {
                out.push(c2);
                proof {
                    assert(rest.skip(2) =~= s@.skip(i + 2));
                    assert(unescape_single_chars(rest) == seq![c2] + unescape_single_chars(
                        s@.skip(i + 2),
                    ));
                    assert(out0 + (seq![c2] + unescape_single_chars(s@.skip(i + 2))) =~= out0.push(
                        c2,
                    ) + unescape_single_chars(s@.skip(i + 2)));
                }
                i = i + 2;
                continue;
            }
        }
        out.push(c);
        proof {
            assert(rest.skip(1) =~= s@.skip(i + 1));
            assert(unescape_single_chars(rest) == seq![c] + unescape_single_chars(s@.skip(i + 1)));
            assert(out0 + (seq![c] + unescape_single_chars(s@.skip(i + 1))) =~= out0.push(c)
                + unescape_single_chars(s@.skip(i + 1)));
        }
        i = i + 1;
    }
    proof {
        assert(s@.skip(len as int) =~= Seq::<char>::empty());
        assert(out@ + Seq::<char>::empty() =~= out@);
    }
    out
}

/// Resolves double-quote escapes in `s`.
pub fn unescape_double(s: &str) -> (r: String)
    ensures
        r@ == unescape_double_chars(s@),
{
    let len = s.unicode_len();
    let mut out = String::new();
    let mut i: usize = 0;
    proof {
        assert(s@.skip(0) =~= s@);
    }
    while i < len
        invariant
            i <= len,
            len == s@.len(),
            unescape_double_chars(s@) == out@ + unescape_double_chars(s@.skip(i as int)),
        decreases len - i,
    {
        let ghost rest = s@.skip(i as int);
        let ghost out0 = out@;
        let c = s.get_char(i);
        if c == '\\' && i + 1 < len {
            let c2 = s.get_char(i + 1);
            if is_double_escape_exec(c2) {
                let mapped = double_escape_char_exec(c2);
                out.push(mapped);
                proof {
                    assert(rest.skip(2) =~= s@.skip(i + 2));
                    assert(unescape_double_chars(rest) == seq![double_escape_char(c2)]
                        + unescape_double_chars(s@.skip(i + 2)));
                    assert(out0 + (seq![mapped] + unescape_double_chars(s@.skip(i + 2)))
                        =~= out0.push(mapped) + unescape_double_chars(s@.skip(i + 2)));
                }
            } else {
                out.push(c);
                out.push(c2);
                proof {
                    assert(rest.skip(2) =~= s@.skip(i + 2));
                    assert(unescape_double_chars(rest) == seq![c, c2] + unescape_double_chars(
                        s@.skip(i + 2),
                    ));
                    assert(out0 + (seq![c, c2] + unescape_double_chars(s@.skip(i + 2)))
                        =~= out0.push(c).push(c2) + unescape_double_chars(s@.skip(i + 2)));
                }
            }
            i = i + 2;
        } else {
            out.push(c);
            proof {
                assert(rest.skip(1) =~= s@.skip(i + 1));
                assert(unescape_double_chars(rest) == seq![c] + unescape_double_chars(
                    s@.skip(i + 1),
                ));
                assert(out0 + (seq![c] + unescape_double_chars(s@.skip(i + 1))) =~= out0.push(c)
                    + unescape_double_chars(s@.skip(i + 1)));
            }
            i = i + 1;
        }
    }
    proof {
        assert(s@.skip(len as int) =~= Seq::<char>::empty());
        assert(out@ + Seq::<char>::empty() =~= out@);
    }
    out
}

fn is_double_escape_exec(c: char) -> (r: bool)
    ensures
        r == is_double_escape(c),
{
    c == '\\' || c == '"' || c == 'n' || c == 'r' || c == 't' || c == 'v' || c == 'f' || c == 'e'
        || c == '$' || c == '`'
}

fn double_escape_char_exec(c: char) -> (r: char)
    ensures
        r == double_escape_char(c),
{
    if c == 'n' {
        '\n'
    } else if c == 'r' {
        '\r'
    } else if c == 't' {
        '\t'
    } else if c == 'v' {
        '\u{000B}'
    } else if c == 'f' {
        '\u{000C}'
    } else if c == 'e' {
        '\u{001B}'
    } else {
        c
    }
}

/// Removes matching outer quotes from `s`, when it has them.
pub fn strip_quotes(s: &str) -> (r: String)
    ensures
        r@ == strip_quotes_chars(s@),
{
    let len = s.unicode_len();
    if len >= 2 {
        let first = s.get_char(0);
        let last = s.get_char(len - 1);
        if (first == '\'' || first == '"') && last == first {
            let inner = s.substring_char(1, len - 1);
            return inner.to_owned();
        }
    }
    s.to_owned()
}

} // verus!
