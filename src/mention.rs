use vstd::prelude::*;
use crate::markup::{escape_reserved, free_of, markdown_escape, replace_br, sanitized};
use crate::text::all_digits;

verus! {

/// A mention target: `id` or `club` followed by the numeric id.
pub open spec fn is_mention_target(t: Seq<char>) -> bool {
    (t.len() > 2 && t[0] == 'i' && t[1] == 'd' && all_digits(t.skip(2)))
        || (t.len() > 4 && t[0] == 'c' && t[1] == 'l' && t[2] == 'u' && t[3] == 'b'
        && all_digits(t.skip(4)))
}

/// A mention label: not empty, without `]` or a line break.
pub open spec fn is_mention_label(l: Seq<char>) -> bool {
    l.len() > 0 && free_of(l, ']') && free_of(l, '\n')
}

/// `p` holds a whole mention somewhere.
pub open spec fn holds_mention(p: Seq<char>) -> bool {
    exists|i: int, t: Seq<char>, l: Seq<char>|
        is_mention_target(t) && is_mention_label(l) && 0 <= i && i + mention_source(t, l).len()
            <= p.len() && #[trigger] p.subrange(i, i + mention_source(t, l).len())
            == mention_source(t, l)
}

/// Text that the formatter only escapes: no mention can start in it, and it
/// has no entity and no line-break marker.
pub open spec fn plain_text(s: Seq<char>) -> bool {
    free_of(s, '[') && free_of(s, '&') && free_of(s, '<')
}

/// What the splitter guarantees of its result for `s`.
pub open spec fn well_split(
    s: Seq<char>,
    plain: Seq<Seq<char>>,
    links: Seq<(Seq<char>, Seq<char>)>,
) -> bool {
    &&& plain.len() == links.len() + 1
    &&& rejoined(plain, links) == s
    &&& forall|i: int|
        0 <= i < links.len() ==> is_mention_target(#[trigger] links[i].0) && is_mention_label(
            links[i].1,
        )
    &&& forall|k: int| 0 <= k < plain.len() ==> !holds_mention(#[trigger] plain[k])
    &&& free_of(s, '[') ==> links.len() == 0
}

/// The source syntax of a mention: `[target|label]`.
pub open spec fn mention_source(target: Seq<char>, label: Seq<char>) -> Seq<char> {
    seq!['['] + target + seq!['|'] + label + seq![']']
}

/// The destination link for a mention: `[label](https://vk.com/target)`.
pub open spec fn mention_link(target: Seq<char>, label: Seq<char>) -> Seq<char> {
    seq!['['] + label + "](https://vk.com/"@ + target + seq![')']
}

/// Text pieces and the mentions between them, put back together.
pub open spec fn rejoined(plain: Seq<Seq<char>>, links: Seq<(Seq<char>, Seq<char>)>) -> Seq<char>
    decreases links.len(),
{
    if plain.len() == 0 {
        Seq::empty()
    } else if links.len() == 0 {
        plain[0]
    } else {
        plain[0] + mention_source(links[0].0, links[0].1) + rejoined(plain.skip(1), links.skip(1))
    }
}

/// Text pieces sanitized, with each mention turned into a destination link.
pub open spec fn rendered(plain: Seq<Seq<char>>, links: Seq<(Seq<char>, Seq<char>)>) -> Seq<char>
    decreases links.len(),
{
    if plain.len() == 0 {
        Seq::empty()
    } else if links.len() == 0 {
        sanitized(plain[0])
    } else {
        sanitized(plain[0]) + mention_link(links[0].0, links[0].1) + rendered(
            plain.skip(1),
            links.skip(1),
        )
    }
}

/// The rendering of pieces that hold no entity: each piece only has its line
/// breaks decoded and its reserved characters escaped.
pub open spec fn rendered_plain(plain: Seq<Seq<char>>, links: Seq<(Seq<char>, Seq<char>)>) -> Seq<
    char,
>
    decreases links.len(),
{
    if plain.len() == 0 {
        Seq::empty()
    } else if links.len() == 0 {
        escape_reserved(replace_br(plain[0]))
    } else {
        escape_reserved(replace_br(plain[0])) + mention_link(links[0].0, links[0].1)
            + rendered_plain(plain.skip(1), links.skip(1))
    }
}

pub open spec fn pieces_free_of(plain: Seq<Seq<char>>, c: char) -> bool {
    forall|k: int| 0 <= k < plain.len() ==> free_of(#[trigger] plain[k], c)
}

proof fn lemma_free_of_concat(a: Seq<char>, b: Seq<char>, c: char)
    requires
        free_of(a + b, c),
    ensures
        free_of(a, c),
        free_of(b, c),
{
    assert forall|i: int| 0 <= i < a.len() implies a[i] != c by {
        assert((a + b)[i] == a[i]);
    }
    assert forall|i: int| 0 <= i < b.len() implies b[i] != c by {
        assert((a + b)[a.len() + i] == b[i]);
    }
}

/// A character missing from a text is missing from every piece of its split.
pub proof fn lemma_pieces_free_of(
    plain: Seq<Seq<char>>,
    links: Seq<(Seq<char>, Seq<char>)>,
    c: char,
)
    requires
        plain.len() == links.len() + 1,
        free_of(rejoined(plain, links), c),
    ensures
        pieces_free_of(plain, c),
    decreases links.len(),
{
    if links.len() > 0 {
        let head = plain[0] + mention_source(links[0].0, links[0].1);
        let rest = rejoined(plain.skip(1), links.skip(1));
        assert(rejoined(plain, links) == head + rest);
        lemma_free_of_concat(head, rest, c);
        lemma_free_of_concat(plain[0], mention_source(links[0].0, links[0].1), c);
        lemma_pieces_free_of(plain.skip(1), links.skip(1), c);
        assert forall|k: int| 0 <= k < plain.len() implies free_of(#[trigger] plain[k], c) by {
            if k > 0 {
                assert(plain[k] == plain.skip(1)[k - 1]);
            }
        }
    }
}

pub open spec fn pieces_view(v: Seq<String>) -> Seq<Seq<char>> {
    v.map_values(|p: String| p@)
}

pub open spec fn links_view(v: Seq<(String, String)>) -> Seq<(Seq<char>, Seq<char>)> {
    v.map_values(|l: (String, String)| (l.0@, l.1@))
}

/// How the mention pattern splits a text: the pieces between matches and
/// the (target, label) of each match.
pub uninterp spec fn mention_split(s: Seq<char>) -> (Seq<Seq<char>>, Seq<(Seq<char>, Seq<char>)>);

/// Relies on `regex::Regex::captures_iter` with the pattern
/// `\[(id[0-9]+|club[0-9]+)\|([^\]\n]+)]`: every match, left to right and
/// without overlap, each spanning `[`, the target, `|`, a label without `]`
/// or line break, and `]`; what lies between matches holds no further match.
#[verifier::external_body]
fn split_mentions(s: &str) -> (r: (Vec<String>, Vec<(String, String)>))
    ensures
        (pieces_view(r.0@), links_view(r.1@)) == mention_split(s@),
        well_split(s@, pieces_view(r.0@), links_view(r.1@)),
{
    let re = regex::Regex::new(r"\[(id[0-9]+|club[0-9]+)\|([^\]\n]+)]").unwrap();
    let (mut plain, mut links, mut last) = (Vec::new(), Vec::new(), 0);
    for c in re.captures_iter(s) {
        let m = c.get(0).unwrap();
        plain.push(s[last..m.start()].to_string());
        links.push((c[1].to_string(), c[2].to_string()));
        last = m.end();
    }
    plain.push(s[last..].to_string());
    (plain, links)
}

/// Builds the destination link for one mention.
pub fn link_for(target: &str, label: &str) -> (r: String)
    ensures
        r@ == mention_link(target@, label@),
{
    let mut r = String::from_str("[");
    r.append(label);
    r.append("](https://vk.com/");
    r.append(target);
    r.append(")");
    proof {
        reveal_strlit("[");
        reveal_strlit(")");
    }
    assert(r@ =~= mention_link(target@, label@));
    r
}

/// Sanitizes the text pieces and puts a destination link where each mention
/// stood; the links themselves are not escaped.
pub fn render_mentions(plain: &Vec<String>, links: &Vec<(String, String)>) -> (r: String)
    requires
        plain.len() == links.len() + 1,
    ensures
        r@ == rendered(pieces_view(plain@), links_view(links@)),
        pieces_free_of(pieces_view(plain@), '&') ==> r@ == rendered_plain(
            pieces_view(plain@),
            links_view(links@),
        ),
        links.len() == 0 && free_of(plain@[0]@, '&') && free_of(plain@[0]@, '<') ==> r@
            == escape_reserved(plain@[0]@),
{
    let ghost pv = pieces_view(plain@);
    let ghost lv = links_view(links@);
    let ghost no_amp = pieces_free_of(pv, '&');
    let mut out = String::new();
    let mut i: usize = 0;
    assert(pv.skip(0) =~= pv);
    assert(lv.skip(0) =~= lv);
    while i < links.len()
        invariant
            pv == pieces_view(plain@),
            lv == links_view(links@),
            plain.len() == links.len() + 1,
            i <= links.len(),
            out@ + rendered(pv.skip(i as int), lv.skip(i as int)) == rendered(pv, lv),
            no_amp == pieces_free_of(pv, '&'),
            no_amp ==> out@ + rendered_plain(pv.skip(i as int), lv.skip(i as int))
                == rendered_plain(pv, lv),
        decreases links.len() - i,
    {
        let piece = markdown_escape(plain[i].as_str());
        assert(pv[i as int] == plain@[i as int]@);
        let link = link_for(links[i].0.as_str(), links[i].1.as_str());
        assert(pv.skip(i as int).skip(1) =~= pv.skip(i + 1));
        assert(lv.skip(i as int).skip(1) =~= lv.skip(i + 1));
        let ghost before = out@;
        out.append(piece.as_str());
        out.append(link.as_str());
        assert(before + rendered(pv.skip(i as int), lv.skip(i as int)) == out@ + rendered(
            pv.skip(i + 1),
            lv.skip(i + 1),
        ));
        assert(no_amp ==> before + rendered_plain(pv.skip(i as int), lv.skip(i as int)) == out@
            + rendered_plain(pv.skip(i + 1), lv.skip(i + 1)));
        i = i + 1;
    }
    let last = markdown_escape(plain[i].as_str());
    assert(pv[i as int] == plain@[i as int]@);
    let ghost before = out@;
    out.append(last.as_str());
    proof {
        if links.len() == 0 {
            assert(before =~= Seq::<char>::empty());
            assert(out@ =~= last@);
        }
    }
    out
}

/// The body text of a message: mentions become destination links, everything
/// else is sanitized.
pub fn format_text(text: &str) -> (r: String)
    ensures
        r@ == rendered(mention_split(text@).0, mention_split(text@).1),
        well_split(text@, mention_split(text@).0, mention_split(text@).1),
        free_of(text@, '&') ==> r@ == rendered_plain(mention_split(text@).0, mention_split(text@).1),
        plain_text(text@) ==> r@ == escape_reserved(text@),
{
    let (plain, links) = split_mentions(text);
    proof {
        if free_of(text@, '&') {
            lemma_pieces_free_of(pieces_view(plain@), links_view(links@), '&');
        }
    }
    assert(pieces_view(plain@).len() == plain.len());
    assert(links_view(links@).len() == links.len());
    proof {
        if plain_text(text@) {
            assert(links.len() == 0);
            assert(pieces_view(plain@)[0] == plain@[0]@);
        }
    }
    render_mentions(&plain, &links)
}

/// Mentions keep their order: the link of the i-th mention comes right after
/// the rendering of everything before it, and the rest follows it.
pub proof fn lemma_mentions_in_order(
    plain: Seq<Seq<char>>,
    links: Seq<(Seq<char>, Seq<char>)>,
    i: int,
)
    requires
        plain.len() == links.len() + 1,
        0 <= i < links.len(),
    ensures
        rendered(plain, links) == rendered(plain.take(i + 1), links.take(i)) + mention_link(
            links[i].0,
            links[i].1,
        ) + rendered(plain.skip(i + 1), links.skip(i + 1)),
    decreases i,
{
    if i == 0 {
        assert(links.take(0).len() == 0);
        assert(plain.take(1)[0] == plain[0]);
    } else {
        lemma_mentions_in_order(plain.skip(1), links.skip(1), i - 1);
        let pt = plain.take(i + 1);
        let lt = links.take(i);
        assert(pt.skip(1) =~= plain.skip(1).take(i));
        assert(lt.skip(1) =~= links.skip(1).take(i - 1));
        assert(plain.skip(1).skip(i) =~= plain.skip(i + 1));
        assert(links.skip(1).skip(i) =~= links.skip(i + 1));
        assert(pt[0] == plain[0]);
        assert(lt[0] == links[0]);
        assert(links.skip(1)[i - 1] == links[i]);
        let a = sanitized(plain[0]) + mention_link(links[0].0, links[0].1);
        let b = rendered(pt.skip(1), lt.skip(1));
        let c = mention_link(links[i].0, links[i].1);
        let d = rendered(plain.skip(i + 1), links.skip(i + 1));
        assert(a + (b + c + d) =~= (a + b) + c + d);
    }
}

} // verus!
