use vstd::prelude::*;
use crate::text::{chars_of, push_char, push_chars};

verus! {

/// What a character becomes inside html text: the five characters that html
/// gives a meaning (`&`, `<`, `>`, `"`, `'`) become character references,
/// every other character stays as it is.
pub open spec fn escape_char(c: char) -> Seq<char> {
    if c == '&' {
        "&amp;"@
    } else if c == '<' {
        "&lt;"@
    } else if c == '>' {
        "&gt;"@
    } else if c == '"' {
        "&quot;"@
    } else if c == '\'' {
        "&#39;"@
    } else {
        seq![c]
    }
}

/// `s` written as html text.
pub open spec fn escaped(s: Seq<char>) -> Seq<char>
    decreases s.len(),
{
    if s.len() == 0 {
        Seq::empty()
    } else {
        escaped(s.drop_last()) + escape_char(s.last())
    }
}

/// The html characters that an escaped text never holds raw.
pub open spec fn is_markup_char(c: char) -> bool {
    c == '<' || c == '>' || c == '"' || c == '\''
}

fn push_escaped_char(out: &mut String, c: char)
    ensures
        final(out)@ == old(out)@ + escape_char(c),
{
    proof {
        reveal_strlit("&amp;");
        reveal_strlit("&lt;");
        reveal_strlit("&gt;");
        reveal_strlit("&quot;");
        reveal_strlit("&#39;");
    }
    if c == '&' {
        push_chars(out, &chars_of("&amp;"));
    } else if c == '<' {
        push_chars(out, &chars_of("&lt;"));
    } else if c == '>' {
        push_chars(out, &chars_of("&gt;"));
    } else if c == '"' {
        push_chars(out, &chars_of("&quot;"));
    } else if c == '\'' {
        push_chars(out, &chars_of("&#39;"));
    } else {
        push_char(out, c);
        assert(old(out)@.push(c) =~= old(out)@ + seq![c]);
    }
}

/// Appends `text` to `out`, written as html text.
pub fn push_escaped(out: &mut String, text: &str)
    ensures
        final(out)@ == old(out)@ + escaped(text@),
{
    let ghost start = out@;
    for c in it: text.chars()
        invariant
            it.seq() == text@,
            out@ == start + escaped(text@.take(it.index() as int)),
    {
        proof {
            let t = text@.take(it.index() + 1);
            assert(t.drop_last() =~= text@.take(it.index() as int));
            assert(t.last() == c);
        }
        push_escaped_char(out, c);
        proof {
            let t = text@.take(it.index() + 1);
            assert(start + escaped(t) =~= start + escaped(text@.take(it.index() as int))
                + escape_char(c));
        }
    }
    proof {
        assert(text@.take(text@.len() as int) =~= text@);
    }
}

/// `text` written as html text, with `&`, `<`, `>`, `"` and `'` turned into
/// character references.
///
/// Which characters are escaped, and into which references, is a choice of
/// this function: these five are the ones html gives a meaning in text and
/// in quoted attributes; an escaper that left quotes alone would be as safe
/// inside `<pre>`.
pub fn escape(text: &str) -> (s: String)
    ensures
        s@ == escaped(text@),
{
    let mut s = String::new();
    push_escaped(&mut s, text);
    proof {
        assert(s@ =~= escaped(text@));
    }
    s
}

/// An escaped text holds no raw `<`, `>`, `"` or `'`: nothing in it can open
/// or close a tag or an attribute.
pub proof fn lemma_escaped_has_no_markup(s: Seq<char>)
    ensures
        forall|i: int| 0 <= i < escaped(s).len() ==> !is_markup_char(#[trigger] escaped(s)[i]),
    decreases s.len(),
{
    reveal_strlit("&amp;");
    reveal_strlit("&lt;");
    reveal_strlit("&gt;");
    reveal_strlit("&quot;");
    reveal_strlit("&#39;");
    if s.len() > 0 {
        lemma_escaped_has_no_markup(s.drop_last());
        let a = escaped(s.drop_last());
        let b = escape_char(s.last());
        assert forall|i: int| 0 <= i < escaped(s).len() implies !is_markup_char(
            #[trigger] escaped(s)[i],
        ) by {
            if i < a.len() {
                assert(escaped(s)[i] == a[i]);
            } else {
                assert(escaped(s)[i] == b[i - a.len()]);
            }
        }
    }
}

/// Text that holds none of the five characters is written as it is.
pub proof fn lemma_plain_text_unchanged(s: Seq<char>)
    requires
        forall|i: int| 0 <= i < s.len() ==> !is_markup_char(#[trigger] s[i]) && s[i] != '&',
    ensures
        escaped(s) == s,
    decreases s.len(),
{
    if s.len() > 0 {
        lemma_plain_text_unchanged(s.drop_last());
        assert(s.drop_last().push(s.last()) =~= s);
        assert(escaped(s) =~= s);
    }
}

/// Escaping goes character by character: the escape of two texts put
/// together is the two escapes put together.
pub proof fn lemma_escaped_append(a: Seq<char>, b: Seq<char>)
    ensures
        escaped(a + b) == escaped(a) + escaped(b),
    decreases b.len(),
{
    if b.len() == 0 {
        assert(a + b =~= a);
        assert(escaped(a) + escaped(b) =~= escaped(a));
    } else {
        lemma_escaped_append(a, b.drop_last());
        assert((a + b).drop_last() =~= a + b.drop_last());
        assert((a + b).last() == b.last());
        assert(escaped(a + b) =~= escaped(a) + escaped(b));
    }
}

/// What each character becomes: `&` becomes `&amp;`, `<` becomes `&lt;`,
/// `>` becomes `&gt;`, `"` becomes `&quot;`, `'` becomes `&#39;`, and any
/// other character stays itself.
pub proof fn lemma_escaped_char(c: char)
    ensures
        c == '&' ==> escaped(seq![c]) == seq!['&', 'a', 'm', 'p', ';'],
        c == '<' ==> escaped(seq![c]) == seq!['&', 'l', 't', ';'],
        c == '>' ==> escaped(seq![c]) == seq!['&', 'g', 't', ';'],
        c == '"' ==> escaped(seq![c]) == seq!['&', 'q', 'u', 'o', 't', ';'],
        c == '\'' ==> escaped(seq![c]) == seq!['&', '#', '3', '9', ';'],
        c != '&' && c != '<' && c != '>' && c != '"' && c != '\'' ==> escaped(seq![c]) == seq![c],
{
    reveal_strlit("&amp;");
    reveal_strlit("&lt;");
    reveal_strlit("&gt;");
    reveal_strlit("&quot;");
    reveal_strlit("&#39;");
    let s = seq![c];
    assert(s.drop_last() =~= Seq::<char>::empty());
    assert(s.len() == 1 && s.last() == c);
    assert(escaped(s.drop_last()) =~= Seq::<char>::empty());
    assert(escaped(s) == escaped(s.drop_last()) + escape_char(c));
    assert(escaped(s) =~= escape_char(c));
}

/// Every `&` of a text becomes exactly `&amp;`, whatever stands around it.
pub proof fn lemma_ampersand_escaped_once(a: Seq<char>, b: Seq<char>)
    ensures
        escaped(a + seq!['&'] + b) == escaped(a) + seq!['&', 'a', 'm', 'p', ';'] + escaped(b),
{
    lemma_escaped_append(a + seq!['&'], b);
    lemma_escaped_append(a, seq!['&']);
    lemma_escaped_char('&');
}

} // verus!
