use vstd::prelude::*;
use crate::text::{from_chars, to_chars};

verus! {

/// Characters that the destination's markup dialect reserves.
pub open spec fn is_reserved(c: char) -> bool {
    c == '\\' || c == '_' || c == '*' || c == '[' || c == ']' || c == '(' || c == ')'
        || c == '~' || c == '`' || c == '>' || c == '#' || c == '+' || c == '-' || c == '='
        || c == '|' || c == '{' || c == '}' || c == '.' || c == '!'
}

/// Every reserved character prefixed by a backslash.
pub open spec fn escape_reserved(s: Seq<char>) -> Seq<char>
    decreases s.len(),
{
    if s.len() == 0 {
        Seq::empty()
    } else if is_reserved(s[0]) {
        seq!['\\', s[0]] + escape_reserved(s.skip(1))
    } else {
        seq![s[0]] + escape_reserved(s.skip(1))
    }
}

/// How the destination's parser reads backslash escapes: a backslash makes the
/// next character literal.
pub open spec fn unescape_markup(s: Seq<char>) -> Seq<char>
    decreases s.len(),
{
    if s.len() == 0 {
        Seq::empty()
    } else if s[0] == '\\' && s.len() >= 2 {
        seq![s[1]] + unescape_markup(s.skip(2))
    } else {
        seq![s[0]] + unescape_markup(s.skip(1))
    }
}

pub open spec fn starts_with_br(s: Seq<char>) -> bool {
    s.len() >= 4 && s[0] == '<' && s[1] == 'b' && s[2] == 'r' && s[3] == '>'
}

/// Each `<br>`, read left to right, turned into a newline.
pub open spec fn replace_br(s: Seq<char>) -> Seq<char>
    decreases s.len(),
{
    if s.len() == 0 {
        Seq::empty()
    } else if starts_with_br(s) {
        seq!['\n'] + replace_br(s.skip(4))
    } else {
        seq![s[0]] + replace_br(s.skip(1))
    }
}

/// Each line after the first prefixed by a `>`, as a quoted block continues.
pub open spec fn quote_lines(s: Seq<char>) -> Seq<char>
    decreases s.len(),
{
    if s.len() == 0 {
        Seq::empty()
    } else if s[0] == '\n' {
        seq!['\n', '>'] + quote_lines(s.skip(1))
    } else {
        seq![s[0]] + quote_lines(s.skip(1))
    }
}

/// `c` does not occur in `s`.
pub open spec fn free_of(s: Seq<char>, c: char) -> bool {
    forall|i: int| 0 <= i < s.len() ==> s[i] != c
}

/// What HTML entity decoding makes of a text.
pub uninterp spec fn html_decoded(s: Seq<char>) -> Seq<char>;

/// Source text made safe for the destination: line breaks decoded, entities
/// decoded, then reserved characters escaped.
pub open spec fn sanitized(s: Seq<char>) -> Seq<char> {
    escape_reserved(html_decoded(replace_br(s)))
}

/// Relies on `html_escape::decode_html_entities`: the result depends on the
/// text alone, and a text without `&` comes back unchanged.
#[verifier::external_body]
fn decode_entities(s: &str) -> (r: String)
    ensures
        r@ == html_decoded(s@),
        free_of(s@, '&') ==> r@ == s@,
{
    html_escape::decode_html_entities(s).into_owned()
}

/// Escaping and then reading the escapes back gives the text unchanged.
pub proof fn lemma_escape_round_trip(s: Seq<char>)
    ensures
        unescape_markup(escape_reserved(s)) == s,
    decreases s.len(),
{
    if s.len() > 0 {
        lemma_escape_round_trip(s.skip(1));
        let e = escape_reserved(s);
        let rest = escape_reserved(s.skip(1));
        if is_reserved(s[0]) {
            assert(e.skip(2) =~= rest);
        } else {
            assert(e.skip(1) =~= rest);
        }
        assert(s =~= seq![s[0]] + s.skip(1));
    }
}

/// What the destination shows for sanitized text is the decoded source text,
/// character for character.
pub proof fn lemma_sanitized_reads_as_decoded(s: Seq<char>)
    ensures
        unescape_markup(sanitized(s)) == html_decoded(replace_br(s)),
{
    lemma_escape_round_trip(html_decoded(replace_br(s)));
}

/// A text without `<` holds no line-break marker.
pub proof fn lemma_no_line_breaks(s: Seq<char>)
    requires
        free_of(s, '<'),
    ensures
        replace_br(s) == s,
    decreases s.len(),
{
    if s.len() > 0 {
        assert(free_of(s.skip(1), '<'));
        lemma_no_line_breaks(s.skip(1));
        assert(s =~= seq![s[0]] + s.skip(1));
    }
}

/// Decoding line breaks adds no character but newlines.
pub proof fn lemma_line_breaks_keep_free(s: Seq<char>, c: char)
    requires
        free_of(s, c),
        c != '\n',
    ensures
        free_of(replace_br(s), c),
    decreases s.len(),
{
    if s.len() > 0 {
        if starts_with_br(s) {
            assert(free_of(s.skip(4), c));
            lemma_line_breaks_keep_free(s.skip(4), c);
        } else {
            assert(free_of(s.skip(1), c));
            lemma_line_breaks_keep_free(s.skip(1), c);
        }
        let r = replace_br(s);
        assert forall|i: int| 0 <= i < r.len() implies r[i] != c by {
            if i > 0 {
                if starts_with_br(s) {
                    assert(r[i] == replace_br(s.skip(4))[i - 1]);
                } else {
                    assert(r[i] == replace_br(s.skip(1))[i - 1]);
                }
            }
        }
    }
}

/// Escapes the reserved characters of `s`.
pub fn escape_markup(s: &str) -> (r: String)
    ensures
        r@ == escape_reserved(s@),
{
    let cs = to_chars(s);
    let mut out: Vec<char> = Vec::new();
    let mut i: usize = 0;
    assert(cs@.skip(0) =~= cs@);
    assert(out@ + cs@ =~= cs@);
    while i < cs.len()
        invariant
            cs@ == s@,
            i <= cs.len(),
            out@ + escape_reserved(cs@.skip(i as int)) == escape_reserved(cs@),
        decreases cs.len() - i,
    {
        let c = cs[i];
        assert(cs@.skip(i as int).skip(1) =~= cs@.skip(i + 1));
        if c == '\\' || c == '_' || c == '*' || c == '[' || c == ']' || c == '(' || c == ')'
            || c == '~' || c == '`' || c == '>' || c == '#' || c == '+' || c == '-' || c == '='
            || c == '|' || c == '{' || c == '}' || c == '.' || c == '!' {
            out.push('\\');
        }
        out.push(c);
        i = i + 1;
    }
    assert(cs@.skip(i as int) =~= Seq::<char>::empty());
    assert(out@ =~= escape_reserved(s@));
    from_chars(&out)
}

/// Turns each `<br>` of `s` into a newline.
pub fn decode_line_breaks(s: &str) -> (r: String)
    ensures
        r@ == replace_br(s@),
{
    let cs = to_chars(s);
    let mut out: Vec<char> = Vec::new();
    let mut i: usize = 0;
    assert(cs@.skip(0) =~= cs@);
    assert(out@ + cs@ =~= cs@);
    while i < cs.len()
        invariant
            cs@ == s@,
            i <= cs.len(),
            out@ + replace_br(cs@.skip(i as int)) == replace_br(cs@),
        decreases cs.len() - i,
    {
        if cs.len() - i >= 4 && cs[i] == '<' && cs[i + 1] == 'b' && cs[i + 2] == 'r'
            && cs[i + 3] == '>' {
            assert(cs@.skip(i as int).skip(4) =~= cs@.skip(i + 4));
            out.push('\n');
            i = i + 4;
        } else {
            assert(cs@.skip(i as int).skip(1) =~= cs@.skip(i + 1));
            out.push(cs[i]);
            i = i + 1;
        }
    }
    assert(cs@.skip(i as int) =~= Seq::<char>::empty());
    assert(out@ =~= replace_br(s@));
    from_chars(&out)
}

/// Continues a quoted block over every line of `s`.
pub fn quote_block(s: &str) -> (r: String)
    ensures
        r@ == quote_lines(s@),
{
    let cs = to_chars(s);
    let mut out: Vec<char> = Vec::new();
    let mut i: usize = 0;
    assert(cs@.skip(0) =~= cs@);
    assert(out@ + cs@ =~= cs@);
    while i < cs.len()
        invariant
            cs@ == s@,
            i <= cs.len(),
            out@ + quote_lines(cs@.skip(i as int)) == quote_lines(cs@),
        decreases cs.len() - i,
    {
        let c = cs[i];
        assert(cs@.skip(i as int).skip(1) =~= cs@.skip(i + 1));
        out.push(c);
        if c == '\n' {
            out.push('>');
        }
        i = i + 1;
    }
    assert(cs@.skip(i as int) =~= Seq::<char>::empty());
    assert(out@ =~= quote_lines(s@));
    from_chars(&out)
}

/// Makes source text safe for the destination's markup: line breaks and HTML
/// entities decoded, then every reserved character escaped.
pub fn markdown_escape(s: &str) -> (r: String)
    ensures
        r@ == sanitized(s@),
        free_of(s@, '&') ==> r@ == escape_reserved(replace_br(s@)),
        free_of(s@, '&') && free_of(s@, '<') ==> r@ == escape_reserved(s@),
{
    let lines = decode_line_breaks(s);
    proof {
        if free_of(s@, '<') {
            lemma_no_line_breaks(s@);
        }
        if free_of(s@, '&') {
            lemma_line_breaks_keep_free(s@, '&');
        }
    }
    let decoded = decode_entities(lines.as_str());
    escape_markup(decoded.as_str())
}

} // verus!
