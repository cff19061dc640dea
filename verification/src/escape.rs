//! Escaping of free text embedded in presentation commands.
//!
//! Every free-text argument handed to the presentation layer is embedded in
//! a single-quoted literal; quote, backslash, newline, carriage-return and
//! tab characters are escaped first, so the text cannot break out of its
//! literal context.

use vstd::prelude::*;

verus! {

/// How one character is rendered inside a quoted literal: the five
/// characters that could break the literal are escaped, every other
/// character stands as itself.
pub open spec fn escape_char(c: char) -> Seq<char> {
    if c == '\'' {
        seq!['\\', '\'']
    } else if c == '"' {
        seq!['\\', '"']
    } else if c == '\\' {
        seq!['\\', '\\']
    } else if c == '\n' {
        seq!['\\', 'n']
    } else if c == '\r' {
        seq!['\\', 'r']
    } else if c == '\t' {
        seq!['\\', 't']
    } else {
        seq![c]
    }
}

/// The escaped form of a text: each character's rendering, in order.
pub open spec fn spec_escaped(s: Seq<char>) -> Seq<char>
    decreases s.len(),
{
    if s.len() == 0 {
        Seq::<char>::empty()
    } else {
        escape_char(s[0]) + spec_escaped(s.drop_first())
    }
}

/// Escaping a text one character longer escapes the prefix and appends the
/// last character's rendering.
pub proof fn lemma_escaped_snoc(s: Seq<char>, c: char)
    ensures
        spec_escaped(s.push(c)) == spec_escaped(s) + escape_char(c),
    decreases s.len(),
{
    if s.len() == 0 {
        assert(s.push(c)[0] == c);
        assert(s.push(c).drop_first() =~= s);
        assert(spec_escaped(s.push(c)) =~= spec_escaped(s) + escape_char(c));
    } else {
        assert(s.push(c)[0] == s[0]);
        assert(s.push(c).drop_first() =~= s.drop_first().push(c));
        lemma_escaped_snoc(s.drop_first(), c);
        assert(spec_escaped(s.push(c)) =~= spec_escaped(s) + escape_char(c));
    }
}

/// Relies on std's `String::push`: appends exactly the one character.
#[verifier::external_body]
fn push_char(s: &mut String, c: char)
    ensures
        final(s)@ == old(s)@ + seq![c],
{
    s.push(c);
}

/// The single-quoted literal embedding `s` in a presentation command:
/// `s` with quote, backslash, newline, carriage-return and tab escaped,
/// wrapped in single quotes.
pub fn escape_js_string(s: &str) -> (r: String)
    ensures
        r@ == seq!['\''] + spec_escaped(s@) + seq!['\''],
{
    let mut out = String::new();
    push_char(&mut out, '\'');
    proof {
        assert(out@ =~= seq!['\''] + spec_escaped(s@.take(0)));
    }
    for c in it: s.chars()
        invariant
            it.seq() == s@,
            out@ == seq!['\''] + spec_escaped(s@.take(it.index() as int)),
    {
        let ghost i: int = it.index() as int;
        proof {
            assert(s@.take(i + 1) =~= s@.take(i).push(s@[i]));
            lemma_escaped_snoc(s@.take(i), s@[i]);
        }
        if c == '\'' {
            push_char(&mut out, '\\');
            push_char(&mut out, '\'');
        } else if c == '"' {
            push_char(&mut out, '\\');
            push_char(&mut out, '"');
        } else if c == '\\' {
            push_char(&mut out, '\\');
            push_char(&mut out, '\\');
        } else if c == '\n' {
            push_char(&mut out, '\\');
            push_char(&mut out, 'n');
        } else if c == '\r' {
            push_char(&mut out, '\\');
            push_char(&mut out, 'r');
        } else if c == '\t' {
            push_char(&mut out, '\\');
            push_char(&mut out, 't');
        } else {
            push_char(&mut out, c);
        }
        proof {
            assert(out@ =~= seq!['\''] + spec_escaped(s@.take(i + 1)));
        }
    }
    proof {
        assert(s@.take(s@.len() as int) =~= s@);
    }
    push_char(&mut out, '\'');
    proof {
        assert(out@ =~= seq!['\''] + spec_escaped(s@) + seq!['\'']);
    }
    out
}

} // verus!
