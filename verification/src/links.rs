//! The link resolver: the ordered per-year schedule links of a department's
//! schedule page, and the URLs around them.

use vstd::prelude::*;
use vstd::string::StringExecFns;

use crate::errors::Error;

verus! {

/// The fixed structural path that year links occupy on the schedule page:
/// table body, first row, first cell, paragraph, anchor.  It encodes the
/// external site's presentation markup, not a stable interface, and is
/// brittle by construction.
pub const YEAR_LINK_SELECTOR: &'static str =
    ".table > tbody:nth-child(2) > tr:nth-child(1) > td:nth-child(1) > p > a";

/// What selecting over a parsed HTML document returns for a document and a
/// selector string: `None` when the selector string itself does not parse,
/// otherwise one entry per matched element in document order, each holding
/// the element's `href` attribute (or `None` where the element has none).
pub uninterp spec fn anchor_hrefs(document: Seq<char>, selector: Seq<char>) -> Option<
    Seq<Option<Seq<char>>>,
>;

/// Relies on scraper's `Selector::parse`, `Html::parse_document`,
/// `Html::select` and `Element::attr`: parses the document, matches the
/// selector against it, and hands back each matched element's `href`
/// attribute in document order.  Parsing and selection are pure functions of
/// the two strings.
#[verifier::external_body]
fn select_anchor_hrefs(document: &str, selector: &str) -> (r: Option<Vec<Option<String>>>)
    ensures
        r.deep_view() == anchor_hrefs(document@, selector@),
{
    let parsed = match scraper::Selector::parse(selector) {
        Ok(s) => s,
        Err(_) => return None,
    };
    Some(
        scraper::Html::parse_document(document)
            .select(&parsed)
            .map(|element| element.value().attr("href").map(|href| href.to_string()))
            .collect(),
    )
}

/// Whether every matched anchor carries a link attribute.
pub open spec fn all_have_href(hrefs: Seq<Option<Seq<char>>>) -> bool {
    forall|i: int| 0 <= i < hrefs.len() ==> hrefs[i] is Some
}

/// The year links of a selection in which every anchor has one.
pub open spec fn links_of(hrefs: Seq<Option<Seq<char>>>) -> Seq<Seq<char>> {
    hrefs.map_values(|h: Option<Seq<char>>| h->0)
}

/// Resolves the ordered list of per-year schedule links out of the page.
///
/// Returns each matched anchor's link attribute in document order — the index
/// of a link is the year index used later.  A page with no matching anchors
/// yields an empty list, not an error.  Fails with [`Error::Resolution`]
/// exactly when the markup violates the expected structure: a matched anchor
/// without a link attribute (or a selector that does not parse, which the
/// fixed selector never does).
pub fn schedule_puppy(document: &str) -> (r: Result<Vec<String>, Error>)
    ensures
        ({
            let sel = anchor_hrefs(document@, YEAR_LINK_SELECTOR@);
            match r {
                Ok(links) => sel matches Some(hrefs) && all_have_href(hrefs)
                    && links.deep_view() == links_of(hrefs),
                Err(e) => e == Error::Resolution && (sel is None || !all_have_href(sel->0)),
            }
        }),
{
    let hrefs = match select_anchor_hrefs(document, YEAR_LINK_SELECTOR) {
        Some(h) => h,
        None => {
            return Err(Error::Resolution);
        },
    };
    let mut links: Vec<String> = Vec::new();
    let mut i: usize = 0;
    while i < hrefs.len()
        invariant
            i <= hrefs@.len(),
            anchor_hrefs(document@, YEAR_LINK_SELECTOR@) == Some(hrefs.deep_view()),
            links@.len() == i as int,
            forall|j: int| 0 <= j < i as int ==> hrefs@[j] is Some,
            forall|j: int| 0 <= j < i as int ==> links@[j]@ == hrefs.deep_view()[j]->0,
        decreases hrefs@.len() - i,
    {
        match &hrefs[i] {
            Some(href) => {
                links.push(href.clone());
            },
            None => {
                proof {
                    assert(hrefs.deep_view()[i as int] is None);
                }
                return Err(Error::Resolution);
            },
        }
        i += 1;
    }
    assert(links.deep_view() =~= links_of(hrefs.deep_view()));
    Ok(links)
}

/// Picks the schedule link for the requested academic year.
///
/// Fails with [`Error::UnknownYear`] exactly when the index is beyond the
/// resolved links.
pub fn link_for_year(links: &Vec<String>, year: usize) -> (r: Result<String, Error>)
    ensures
        r is Ok <==> year < links@.len(),
        r matches Ok(link) ==> link == links@[year as int],
        r matches Err(e) ==> e == Error::UnknownYear,
{
    if year < links.len() {
        Ok(links[year].clone())
    } else {
        Err(Error::UnknownYear)
    }
}

/// The department's schedule page, templated from its site path segment.
pub fn schedule_page_url(repl: &str) -> (url: String)
    ensures
        url@ == "https://vsu.by/universitet/fakultety/"@ + repl@ + "/raspisanie.html"@,
{
    let mut url = String::new();
    url.append("https://vsu.by/universitet/fakultety/");
    url.append(repl);
    url.append("/raspisanie.html");
    proof {
        assert(url@ =~= "https://vsu.by/universitet/fakultety/"@ + repl@ + "/raspisanie.html"@);
    }
    url
}

/// An absolute URL for a site-relative link taken off the schedule page.
pub fn schedule_url(repl: &str) -> (url: String)
    ensures
        url@ == "https://vsu.by"@ + repl@,
{
    let mut url = String::new();
    url.append("https://vsu.by");
    url.append(repl);
    proof {
        assert(url@ =~= "https://vsu.by"@ + repl@);
    }
    url
}

} // verus!
