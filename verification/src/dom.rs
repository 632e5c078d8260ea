//! Trusted bridge to the HTML parser. The walk needs six fixed queries
//! against a fetched page; each is wrapped here as a call that hands back
//! plain values, named by an uninterpreted function of the page text, since
//! what an HTML parse yields is far beyond stating. Document order of the
//! matched elements is preserved.

use vstd::prelude::*;

verus! {

/// Views of raw anchors: each anchor's optional `href` attribute and its
/// inner markup, as character sequences.
pub open spec fn anchor_views(raws: Seq<(Option<String>, String)>) -> Seq<
    (Option<Seq<char>>, Seq<char>),
> {
    raws.map_values(
        |p: (Option<String>, String)|
            (
                match p.0 {
                    Some(s) => Some(s@),
                    None => None,
                },
                p.1@,
            ),
    )
}

/// View of one optional element's optional reference attribute.
pub open spec fn attr_views(raw: Option<Option<String>>) -> Option<Option<Seq<char>>> {
    match raw {
        None => None,
        Some(None) => Some(None),
        Some(Some(s)) => Some(Some(s@)),
    }
}

/// The page's top-level anchor list: for each `body > a` element, in
/// document order, its `href` attribute and its inner HTML.
pub uninterp spec fn body_anchors_of(html: Seq<char>) -> Seq<(Option<Seq<char>>, Seq<char>)>;

/// The page's main-content anchor list: likewise, for `body > main > a`.
pub uninterp spec fn main_anchors_of(html: Seq<char>) -> Seq<(Option<Seq<char>>, Seq<char>)>;

/// The head's stylesheet link, if any: `None` when no such element exists,
/// otherwise its optional `href` attribute.
pub uninterp spec fn stylesheet_of(html: Seq<char>) -> Option<Option<Seq<char>>>;

/// The header's banner image, if any: `None` when no such element exists,
/// otherwise its optional `src` attribute.
pub uninterp spec fn banner_img_of(html: Seq<char>) -> Option<Option<Seq<char>>>;

/// The main content's image, if any: `None` when no such element exists,
/// otherwise its optional `src` attribute.
pub uninterp spec fn profile_img_of(html: Seq<char>) -> Option<Option<Seq<char>>>;

/// The main content's first top-level heading, if any: its inner HTML.
pub uninterp spec fn heading_of(html: Seq<char>) -> Option<Seq<char>>;

/// What `str::trim` returns: the text without leading and trailing
/// whitespace; a function of the characters alone.
pub uninterp spec fn trim_of(s: Seq<char>) -> Seq<char>;

/// Relies on scraper's `Html::parse_document` and the selector `body > a`:
/// each matched anchor's `href` attribute and inner HTML, in document order.
#[verifier::external_body]
pub(crate) fn scrape_body_anchors(html: &str) -> (r: Vec<(Option<String>, String)>)
    ensures
        anchor_views(r@) == body_anchors_of(html@),
{
    let sel = scraper::Selector::parse("body > a").unwrap();
    let doc = scraper::Html::parse_document(html);
    doc.select(&sel).map(
        |e| (e.value().attr("href").map(|s| s.to_string()), e.inner_html()),
    ).collect()
}

/// Relies on scraper's `Html::parse_document` and the selector
/// `body > main > a`: each matched anchor's `href` attribute and inner HTML,
/// in document order.
#[verifier::external_body]
pub(crate) fn scrape_main_anchors(html: &str) -> (r: Vec<(Option<String>, String)>)
    ensures
        anchor_views(r@) == main_anchors_of(html@),
{
    let sel = scraper::Selector::parse("body > main > a").unwrap();
    let doc = scraper::Html::parse_document(html);
    doc.select(&sel).map(
        |e| (e.value().attr("href").map(|s| s.to_string()), e.inner_html()),
    ).collect()
}

/// Relies on scraper's `Html::parse_document` and the selector
/// `head > link[rel='stylesheet']`: the first match's `href` attribute.
#[verifier::external_body]
pub(crate) fn scrape_stylesheet_ref(html: &str) -> (r: Option<Option<String>>)
    ensures
        attr_views(r) == stylesheet_of(html@),
{
    let sel = scraper::Selector::parse("head > link[rel='stylesheet']").unwrap();
    let doc = scraper::Html::parse_document(html);
    doc.select(&sel).next().map(|e| e.value().attr("href").map(|s| s.to_string()))
}

/// Relies on scraper's `Html::parse_document` and the selector
/// `body > header > img`: the first match's `src` attribute.
#[verifier::external_body]
pub(crate) fn scrape_banner_img(html: &str) -> (r: Option<Option<String>>)
    ensures
        attr_views(r) == banner_img_of(html@),
{
    let sel = scraper::Selector::parse("body > header > img").unwrap();
    let doc = scraper::Html::parse_document(html);
    doc.select(&sel).next().map(|e| e.value().attr("src").map(|s| s.to_string()))
}

/// Relies on scraper's `Html::parse_document` and the selector
/// `body > main > img`: the first match's `src` attribute.
#[verifier::external_body]
pub(crate) fn scrape_profile_img(html: &str) -> (r: Option<Option<String>>)
    ensures
        attr_views(r) == profile_img_of(html@),
{
    let sel = scraper::Selector::parse("body > main > img").unwrap();
    let doc = scraper::Html::parse_document(html);
    doc.select(&sel).next().map(|e| e.value().attr("src").map(|s| s.to_string()))
}

/// Relies on scraper's `Html::parse_document` and the selector
/// `body > main > h1`: the first match's inner HTML.
#[verifier::external_body]
pub(crate) fn scrape_heading(html: &str) -> (r: Option<String>)
    ensures
        match r {
            Some(t) => heading_of(html@) == Some(t@),
            None => heading_of(html@) is None,
        },
{
    let sel = scraper::Selector::parse("body > main > h1").unwrap();
    let doc = scraper::Html::parse_document(html);
    doc.select(&sel).next().map(|e| e.inner_html())
}

/// Relies on `str::trim`: the result depends on the characters alone.
#[verifier::external_body]
pub(crate) fn trim_str(s: &str) -> (r: String)
    ensures
        r@ == trim_of(s@),
{
    s.trim().to_string()
}

} // verus!
