//! The HTML the scrapers query: the elements a CSS selector picks in a
//! document or a fragment, and the attributes read from them.

use vstd::prelude::*;
use crate::text::{eq_ic, eq_ignore_ascii_case, join, views, chars_of, join_chars, string_of};

verus! {

/// What `scraper` gives of one element picked by a selector: its text
/// nodes in document order, its inner HTML, and its attributes as
/// name-value pairs.
pub type RawElement = (Vec<String>, String, Vec<(String, String)>);

/// The fields of a picked element.
pub open spec fn raw_view(e: RawElement) -> (Seq<Seq<char>>, Seq<char>, Seq<(Seq<char>, Seq<char>)>) {
    (e.0@.map_values(|s: String| s@), e.1@, e.2@.map_values(|p: (String, String)| (p.0@, p.1@)))
}

/// What `scraper` picks in a document: the elements that `selector`
/// matches in `html` parsed as a whole document, in document order; `None`
/// where the selector does not parse.
pub uninterp spec fn document_selection(html: Seq<char>, selector: Seq<char>) -> Option<
    Seq<(Seq<Seq<char>>, Seq<char>, Seq<(Seq<char>, Seq<char>)>)>,
>;

/// What `scraper` picks in a fragment: as `document_selection`, with
/// `html` parsed as a fragment (such as an element's inner HTML).
pub uninterp spec fn fragment_selection(html: Seq<char>, selector: Seq<char>) -> Option<
    Seq<(Seq<Seq<char>>, Seq<char>, Seq<(Seq<char>, Seq<char>)>)>,
>;

/// What `scraper` picks, in a document or in a fragment.
pub open spec fn selected_elements(html: Seq<char>, fragment: bool, selector: Seq<char>) -> Option<
    Seq<(Seq<Seq<char>>, Seq<char>, Seq<(Seq<char>, Seq<char>)>)>,
> {
    if fragment {
        fragment_selection(html, selector)
    } else {
        document_selection(html, selector)
    }
}

/// Parses `html` with `scraper::Html::parse_document` and the selector
/// with `Selector::parse`, and gives each matching element's text nodes,
/// inner HTML and attributes. Claimed: the result is `document_selection`
/// of the arguments.
#[verifier::external_body]
fn select_in_document(html: &str, selector: &str) -> (r: Option<Vec<RawElement>>)
    ensures
        match r {
            Some(v) => document_selection(html@, selector@) == Some(v@.map_values(|e: RawElement| raw_view(e))),
            None => document_selection(html@, selector@) is None,
        },
{
    let doc = scraper::Html::parse_document(html);
    let sel = scraper::Selector::parse(selector).ok()?;
    let picked = doc.select(&sel).map(|el| {
        let attrs = el.value().attrs().map(|(k, v)| (k.to_string(), v.to_string())).collect();
        (el.text().map(|t| t.to_string()).collect(), el.inner_html(), attrs)
    });
    Some(picked.collect())
}

/// As `select_in_document`, with `html` parsed by
/// `scraper::Html::parse_fragment`. Claimed: the result is
/// `fragment_selection` of the arguments.
#[verifier::external_body]
fn select_in_fragment(html: &str, selector: &str) -> (r: Option<Vec<RawElement>>)
    ensures
        match r {
            Some(v) => fragment_selection(html@, selector@) == Some(v@.map_values(|e: RawElement| raw_view(e))),
            None => fragment_selection(html@, selector@) is None,
        },
{
    let doc = scraper::Html::parse_fragment(html);
    let sel = scraper::Selector::parse(selector).ok()?;
    let picked = doc.select(&sel).map(|el| {
        let attrs = el.value().attrs().map(|(k, v)| (k.to_string(), v.to_string())).collect();
        (el.text().map(|t| t.to_string()).collect(), el.inner_html(), attrs)
    });
    Some(picked.collect())
}

/// An element a scraper reads: its text (the text nodes joined by a
/// space), its inner HTML and its attributes.
pub struct HtmlElement {
    pub text: String,
    pub inner_html: String,
    pub attrs: Vec<(String, String)>,
}

/// The fields of an element.
pub open spec fn element_view(e: HtmlElement) -> (Seq<char>, Seq<char>, Seq<(Seq<char>, Seq<char>)>) {
    (e.text@, e.inner_html@, e.attrs@.map_values(|p: (String, String)| (p.0@, p.1@)))
}

/// The element a scraper reads of a picked one.
pub open spec fn element_of(raw: (Seq<Seq<char>>, Seq<char>, Seq<(Seq<char>, Seq<char>)>)) -> (Seq<char>, Seq<char>, Seq<(Seq<char>, Seq<char>)>) {
    (join(raw.0, " "@), raw.1, raw.2)
}

/// The elements a query gives: those picked, read as elements; none where
/// the selector does not parse.
pub open spec fn query_result(html: Seq<char>, fragment: bool, selector: Seq<char>) -> Seq<
    (Seq<char>, Seq<char>, Seq<(Seq<char>, Seq<char>)>),
> {
    match selected_elements(html, fragment, selector) {
        Some(es) => es.map_values(|e: (Seq<Seq<char>>, Seq<char>, Seq<(Seq<char>, Seq<char>)>)| element_of(e)),
        None => Seq::empty(),
    }
}

/// The value of the first attribute whose name matches `name` up to ASCII
/// case; empty where none does.
pub open spec fn attribute_value(attrs: Seq<(Seq<char>, Seq<char>)>, name: Seq<char>) -> Seq<char>
    decreases attrs.len(),
{
    if attrs.len() == 0 {
        Seq::empty()
    } else if eq_ic(attrs[0].0, name) {
        attrs[0].1
    } else {
        attribute_value(attrs.drop_first(), name)
    }
}

/// The elements that `selector` picks in `html` (a whole document, or a
/// fragment such as an element's inner HTML), in document order; none
/// where the selector does not parse.
pub fn select_elements(html: &str, fragment: bool, selector: &str) -> (r: Vec<HtmlElement>)
    ensures
        r@.map_values(|e: HtmlElement| element_view(e)) == query_result(html@, fragment, selector@),
{
    let picked = if fragment { select_in_fragment(html, selector) } else { select_in_document(html, selector) };
    let raw = match picked {
        Some(v) => v,
        None => {
            let r: Vec<HtmlElement> = Vec::new();
            assert(r@.map_values(|e: HtmlElement| element_view(e)) =~= query_result(html@, fragment, selector@));
            return r;
        },
    };
    let ghost es = raw@.map_values(|e: RawElement| raw_view(e));
    let space = chars_of(" ");
    proof {
        reveal_strlit(" ");
    }
    let mut out: Vec<HtmlElement> = Vec::new();
    let mut i: usize = 0;
    while i < raw.len()
        invariant
            i <= raw@.len(),
            es == raw@.map_values(|e: RawElement| raw_view(e)),
            space@ == " "@,
            out@.len() == i,
            forall|k: int| 0 <= k < i ==> #[trigger] element_view(out@[k]) == element_of(es[k]),
        decreases raw@.len() - i,
    {
        let (nodes, inner, attrs) = &raw[i];
        let mut ws: Vec<Vec<char>> = Vec::new();
        let mut j: usize = 0;
        while j < nodes.len()
            invariant
                j <= nodes@.len(),
                views(ws@) == nodes@.map_values(|s: String| s@).subrange(0, j as int),
            decreases nodes@.len() - j,
        {
            let c = chars_of(nodes[j].as_str());
            let ghost prev = ws@;
            ws.push(c);
            j = j + 1;
            assert(views(ws@) =~= views(prev).push(c@));
            assert(views(ws@) =~= nodes@.map_values(|s: String| s@).subrange(0, j as int));
        }
        assert(nodes@.map_values(|s: String| s@).subrange(0, j as int) =~= nodes@.map_values(|s: String| s@));
        let text = string_of(join_chars(&ws, &space).as_slice());
        let mut copied: Vec<(String, String)> = Vec::new();
        let mut k: usize = 0;
        while k < attrs.len()
            invariant
                k <= attrs@.len(),
                copied@.map_values(|p: (String, String)| (p.0@, p.1@)) == attrs@.map_values(
                    |p: (String, String)| (p.0@, p.1@),
                ).subrange(0, k as int),
            decreases attrs@.len() - k,
        {
            let (n, v) = &attrs[k];
            let ghost prev = copied@;
            copied.push((n.clone(), v.clone()));
            k = k + 1;
            assert(copied@.map_values(|p: (String, String)| (p.0@, p.1@)) =~= prev.map_values(
                |p: (String, String)| (p.0@, p.1@),
            ).push((n@, v@)));
            assert(copied@.map_values(|p: (String, String)| (p.0@, p.1@)) =~= attrs@.map_values(
                |p: (String, String)| (p.0@, p.1@),
            ).subrange(0, k as int));
        }
        assert(attrs@.map_values(|p: (String, String)| (p.0@, p.1@)).subrange(0, k as int) =~= attrs@.map_values(
            |p: (String, String)| (p.0@, p.1@),
        ));
        let el = HtmlElement { text, inner_html: inner.clone(), attrs: copied };
        assert(element_view(el) == element_of(es[i as int]));
        let ghost prev = out@;
        out.push(el);
        proof {
            assert forall|m: int| 0 <= m < i + 1 implies #[trigger] element_view(out@[m]) == element_of(es[m]) by {
                if m < i {
                    assert(out@[m] == prev[m]);
                }
            }
        }
        i = i + 1;
    }
    assert(out@.map_values(|e: HtmlElement| element_view(e)) =~= query_result(html@, fragment, selector@));
    out
}

impl HtmlElement {
    /// The value of the first attribute whose name matches `name` up to
    /// ASCII case; empty where none does.
    pub fn attribute(&self, name: &str) -> (r: String)
        ensures
            r@ == attribute_value(self.attrs@.map_values(|p: (String, String)| (p.0@, p.1@)), name@),
    {
        let ghost all = self.attrs@.map_values(|p: (String, String)| (p.0@, p.1@));
        let mut i: usize = 0;
        assert(all.subrange(0, all.len() as int) =~= all);
        while i < self.attrs.len()
            invariant
                i <= self.attrs@.len(),
                all == self.attrs@.map_values(|p: (String, String)| (p.0@, p.1@)),
                attribute_value(all, name@) == attribute_value(all.subrange(i as int, all.len() as int), name@),
            decreases self.attrs@.len() - i,
        {
            let ghost rest = all.subrange(i as int, all.len() as int);
            assert(rest.drop_first() =~= all.subrange(i + 1, all.len() as int));
            assert(rest[0] == all[i as int]);
            if eq_ignore_ascii_case(self.attrs[i].0.as_str(), name) {
                return self.attrs[i].1.clone();
            }
            i = i + 1;
        }
        assert(all.subrange(i as int, all.len() as int) =~= Seq::<(Seq<char>, Seq<char>)>::empty());
        String::new()
    }
}

} // verus!
