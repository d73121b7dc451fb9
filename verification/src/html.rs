//! HTML pages, read and queried with the scraper crate.
use vstd::prelude::*;

verus! {

/// For each element of the HTML page `page` that the CSS selector `outer` matches, in
/// document order, the inner HTML of each of its descendants that `inner` matches, in
/// document order, as scraper finds them; `None` where either selector is not valid CSS.
pub uninterp spec fn scraper_matches(page: Seq<char>, outer: Seq<char>, inner: Seq<char>) -> Option<Seq<Seq<Seq<char>>>>;

/// The texts of a list of lists of strings.
pub open spec fn nested_texts(groups: Seq<Vec<String>>) -> Seq<Seq<Seq<char>>> {
    groups.map_values(|group: Vec<String>| group@.map_values(|s: String| s@))
}

/// Reads `page` with `scraper::Html::parse_document` and the selectors with
/// `scraper::Selector::parse`; for each element that `outer_css` matches
/// (`Html::select`), hands out the `inner_html` of each of its descendants that
/// `inner_css` matches (`ElementRef::select`), all in document order. `None` where a
/// selector is not valid CSS. The result is named.
#[verifier::external_body]
pub fn select_inner_html(page: &str, outer_css: &str, inner_css: &str) -> (found: Option<Vec<Vec<String>>>)
    ensures
        match found {
            Some(groups) => scraper_matches(page@, outer_css@, inner_css@) == Some(nested_texts(groups@)),
            None => scraper_matches(page@, outer_css@, inner_css@) is None,
        },
{
    let document = scraper::Html::parse_document(page);
    let outer = scraper::Selector::parse(outer_css).ok()?;
    let inner = scraper::Selector::parse(inner_css).ok()?;
    Some(document.select(&outer).map(|e| e.select(&inner).map(|p| p.inner_html()).collect()).collect())
}

} // verus!
