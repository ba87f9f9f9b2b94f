//! Escaping of free text for the `key = 'value'` markup.
use vstd::prelude::*;
use vstd::string::*;

verus! {

/// The escape token that stands for a line break in the markup.
pub const NEWLINE_CHAR: &'static str = "\\r\\n";

/// What one character of free text becomes in the markup: a single quote is
/// preceded by a backslash and a line feed becomes the escaped CRLF token.
pub open spec fn escape_char(c: char) -> Seq<char> {
    if c == '\'' {
        seq!['\\', '\'']
    } else if c == '\n' {
        seq!['\\', 'r', '\\', 'n']
    } else {
        seq![c]
    }
}

/// Free text with every character escaped in turn.
pub open spec fn escape_text(s: Seq<char>) -> Seq<char>
    decreases s.len(),
{
    if s.len() == 0 {
        Seq::empty()
    } else {
        escape_text(s.drop_last()) + escape_char(s.last())
    }
}

/// Text is safe for a quoted value when it holds no line feed and each single
/// quote in it follows a backslash.
pub open spec fn markup_safe(s: Seq<char>) -> bool {
    &&& forall|i: int| 0 <= i < s.len() ==> s[i] != '\n'
    &&& forall|i: int| 0 <= i < s.len() && #[trigger] s[i] == '\'' ==> i > 0 && s[i - 1] == '\\'
}

/// Escapes a description so that it can stand between single quotes on one
/// line of the markup.
pub fn parse_description(content: &str) -> (r: String)
    ensures
        r@ == escape_text(content@),
        markup_safe(r@),
{
    let mut r = String::new();
    let mut it = content.chars();
    for c in iter: it
        invariant
            iter.seq() == content@,
            r@ == escape_text(iter.seq().take(iter.index())),
    {
        assert(iter.seq().take(iter.index() + 1).drop_last() == iter.seq().take(iter.index()));
        proof {
            reveal_strlit("\\'");
            reveal_strlit("\\r\\n");
        }
        if c == '\'' {
            r.append("\\'");
        } else if c == '\n' {
            r.append("\\r\\n");
        } else {
            push_char(&mut r, c);
        }
    }
    assert(content@.take(content@.len() as int) == content@);
    proof {
        lemma_escaped_is_markup_safe(content@);
    }
    r
}

/// Escaped text is safe for a quoted value: it holds no line feed, and each
/// single quote in it follows a backslash.
pub proof fn lemma_escaped_is_markup_safe(s: Seq<char>)
    ensures
        markup_safe(escape_text(s)),
    decreases s.len(),
{
    if s.len() > 0 {
        lemma_escaped_is_markup_safe(s.drop_last());
        let a = escape_text(s.drop_last());
        let b = escape_char(s.last());
        let r = escape_text(s);
        assert(r == a + b);
        assert forall|i: int| 0 <= i < r.len() implies r[i] != '\n' by {
            if i >= a.len() {
                assert(r[i] == b[i - a.len()]);
            } else {
                assert(r[i] == a[i]);
            }
        }
        assert forall|i: int| 0 <= i < r.len() && #[trigger] r[i] == '\'' implies i > 0 && r[i
            - 1] == '\\' by {
            if i >= a.len() {
                assert(r[i] == b[i - a.len()]);
                if i > a.len() {
                    assert(r[i - 1] == b[i - 1 - a.len()]);
                } else {
                    assert(b[0] == '\'');
                }
            } else {
                assert(r[i] == a[i]);
                assert(r[i - 1] == a[i - 1]);
            }
        }
    }
}

/// Relies on String::push: the character is added at the end.
#[verifier::external_body]
fn push_char(s: &mut String, c: char)
    ensures
        final(s)@ == old(s)@.push(c),
{
    s.push(c)
}

} // verus!
