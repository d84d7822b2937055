//! Escaping a text for the protocol's markup.
//!
//! The visible text of a display unit travels inside markup in which the
//! ampersand, the angle brackets and the apostrophe are meaningful, so each
//! is replaced by its entity; every other character passes through
//! unchanged. The escaped form is defined character by character as a spec
//! function, and the executable function is proved to produce exactly it.

use vstd::prelude::*;
use vstd::string::*;

verus! {

/// What one character contributes to the escaped text.
pub open spec fn escaped_char(c: char) -> Seq<char> {
    if c == '&' {
        "&amp;"@
    } else if c == '<' {
        "&lt;"@
    } else if c == '>' {
        "&gt;"@
    } else if c == '\'' {
        "&#39;"@
    } else {
        seq![c]
    }
}

/// The escaped form of a text: each character's contribution, in order.
pub open spec fn escaped_of(s: Seq<char>) -> Seq<char>
    decreases s.len(),
{
    if s.len() == 0 {
        Seq::empty()
    } else {
        escaped_char(s[0]) + escaped_of(s.skip(1))
    }
}

/// Extending the input by one character appends that character's
/// contribution to the escaped form.
proof fn lemma_escaped_snoc(s: Seq<char>, i: int)
    requires
        0 <= i < s.len(),
    ensures
        escaped_of(s.take(i + 1)) == escaped_of(s.take(i)) + escaped_char(s[i]),
    decreases i,
{
    let a = s.take(i + 1);
    let b = s.take(i);
    assert(a.len() == i + 1);
    assert(a[0] == s[0]);
    if i == 0 {
        assert(a.skip(1) =~= Seq::<char>::empty());
        assert(escaped_of(a) == escaped_char(s[0]) + escaped_of(a.skip(1)));
        assert(b.len() == 0);
        assert(escaped_of(a) =~= escaped_of(b) + escaped_char(s[0]));
    } else {
        let t = s.skip(1);
        lemma_escaped_snoc(t, i - 1);
        assert(t[i - 1] == s[i]);
        assert(a.skip(1) =~= t.take(i));
        assert(b.skip(1) =~= t.take(i - 1));
        assert(b[0] == s[0]);
        assert(escaped_of(a) == escaped_char(s[0]) + escaped_of(t.take(i)));
        assert(escaped_of(b) == escaped_char(s[0]) + escaped_of(t.take(i - 1)));
        assert(escaped_char(s[0]) + (escaped_of(t.take(i - 1)) + escaped_char(s[i])) =~= (
        escaped_char(s[0]) + escaped_of(t.take(i - 1))) + escaped_char(s[i]));
    }
}

/// Relies on String::push: append one character to the buffer.
#[verifier::external_body]
fn push_char(s: &mut String, c: char)
    ensures
        final(s)@ == old(s)@.push(c),
{
    s.push(c);
}

/// Escape a text for the protocol's markup.
pub fn pango_escape(text: &str) -> (r: String)
    ensures
        r@ == escaped_of(text@),
{
    let n = text.unicode_len();
    let mut out = String::new();
    let mut i: usize = 0;
    while i < n
        invariant
            i <= n,
            n == text@.len(),
            out@ == escaped_of(text@.take(i as int)),
        decreases n - i,
    {
        let c = text.get_char(i);
        if c == '&' {
            out.append("&amp;");
        } else if c == '<' {
            out.append("&lt;");
        } else if c == '>' {
            out.append("&gt;");
        } else if c == '\'' {
            out.append("&#39;");
        } else {
            push_char(&mut out, c);
            proof {
                assert(out@ =~= escaped_of(text@.take(i as int)) + escaped_char(c));
            }
        }
        proof {
            lemma_escaped_snoc(text@, i as int);
        }
        i = i + 1;
    }
    proof {
        assert(text@.take(n as int) =~= text@);
    }
    out
}

} // verus!
