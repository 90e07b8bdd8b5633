//! The link extractor: the href values of an HTML document and the
//! gates each one passes before it becomes a recursion target.

use vstd::prelude::*;

use crate::skipreason::{SkipReason, SkipReasonErr};
use crate::url::{
    opt_str_view, parse_url_raw, resolve_ok, resolve_raw, resolve_text, spec_is_handled,
    spec_rel_to, url_full_path, url_has_fragment, url_has_query, url_host, url_ok, url_scheme,
    url_text, Url, UrlExt,
};

verus! {

/// The ordered href attribute values of the anchor elements of an HTML
/// document.
pub uninterp spec fn hrefs_of(html: Seq<char>) -> Seq<Seq<char>>;

/// Relies on scraper's Html::parse_document, Selector::parse and the
/// select iterator: the href values of a document's anchors depend on
/// the document text alone. The selector text is constant and parses.
#[verifier::external_body]
fn extract_hrefs(html: &str) -> (r: Vec<String>)
    ensures
        r@.len() == hrefs_of(html@).len(),
        forall|i: int| 0 <= i < r@.len() ==> (#[trigger] r@[i])@ == hrefs_of(html@)[i],
{
    let document = ::scraper::Html::parse_document(html);
    let selector = ::scraper::Selector::parse("a[href]").unwrap();
    let mut hrefs = Vec::new();
    for element in document.select(&selector) {
        if let Some(href) = element.value().attr("href") {
            hrefs.push(href.to_string());
        }
    }
    hrefs
}

/// The decision for one href against the root: the first rule it
/// breaks, in the order the rules are applied — resolution, scheme,
/// fragment, query, containment.
pub open spec fn href_decision(root: &Url, base_text: Seq<char>, href: Seq<char>) -> Result<
    (),
    SkipReason,
> {
    if !url_ok(base_text) || !resolve_ok(base_text, href) || !url_ok(
        resolve_text(base_text, href),
    ) {
        Err(SkipReason::NotValid)
    } else {
        let t = resolve_text(base_text, href);
        if !spec_is_handled(url_scheme(t)) {
            Err(SkipReason::Transport)
        } else if url_has_fragment(t) {
            Err(SkipReason::Fragment)
        } else if url_has_query(t) {
            Err(SkipReason::Query)
        } else if spec_rel_to(
            url_host(t),
            url_full_path(t),
            root.host_view(),
            root.full_path_view(),
        ) is None {
            Err(SkipReason::NotRelative)
        } else {
            Ok(())
        }
    }
}

/// How the decision for one href is carried by a result: a surviving
/// href becomes the resolved URL, a rejected one the skip reason with
/// the URL it names.
pub open spec fn href_result_matches(
    root: &Url,
    base_text: Seq<char>,
    href: Seq<char>,
    r: Result<Url, SkipReasonErr>,
) -> bool {
    match r {
        Ok(u) => href_decision(root, base_text, href) is Ok && u.scheme@ == url_scheme(
            resolve_text(base_text, href),
        ) && opt_str_view(u.host) == url_host(resolve_text(base_text, href)) && u.full_path@
            == url_full_path(resolve_text(base_text, href)) && u.has_query == url_has_query(
            resolve_text(base_text, href),
        ) && u.has_fragment == url_has_fragment(resolve_text(base_text, href)) && u.text@
            == url_text(resolve_text(base_text, href)),
        Err(e) => href_decision(root, base_text, href) == Err::<(), SkipReason>(e.reason) && (
        e.reason matches SkipReason::NotValid ==> e.url@ == href) && (!(
        e.reason matches SkipReason::NotValid) ==> e.url@ == url_text(
            resolve_text(base_text, href),
        )),
    }
}

/// Resolves one href against the base URL and applies the gates; a
/// surviving URL is a recursion target.
pub fn process_href(root: &Url, base: &Url, href: &str) -> (r: Result<Url, SkipReasonErr>)
    ensures
        href_result_matches(root, base.text@, href@, r),
{
    let resolved = match resolve_raw(base.text.as_str(), href) {
        Some(t) => t,
        None => {
            return Err(SkipReasonErr::new(href.to_owned(), SkipReason::NotValid));
        },
    };
    let u = match parse_url_raw(resolved.as_str()) {
        Some(u) => u,
        None => {
            return Err(SkipReasonErr::new(href.to_owned(), SkipReason::NotValid));
        },
    };
    match u.is_handled() {
        Ok(_) => {},
        Err(e) => {
            return Err(e);
        },
    }
    if u.has_fragment {
        return Err(SkipReasonErr::new(u.text.clone(), SkipReason::Fragment));
    }
    if u.has_query {
        return Err(SkipReasonErr::new(u.text.clone(), SkipReason::Query));
    }
    if !u.is_relative_to(root) {
        return Err(SkipReasonErr::new(u.text.clone(), SkipReason::NotRelative));
    }
    Ok(u)
}

/// Extracts the hrefs of an HTML document and gates each one against
/// the root; returns one decision per href, in document order.
pub fn process_html(root: &Url, base: &Url, html: &str) -> (r: Vec<Result<Url, SkipReasonErr>>)
    ensures
        r@.len() == hrefs_of(html@).len(),
        forall|i: int|
            0 <= i < r@.len() ==> href_result_matches(
                root,
                base.text@,
                hrefs_of(html@)[i],
                #[trigger] r@[i],
            ),
{
    let hrefs = extract_hrefs(html);
    let mut results: Vec<Result<Url, SkipReasonErr>> = Vec::new();
    let mut i: usize = 0;
    while i < hrefs.len()
        invariant
            hrefs@.len() == hrefs_of(html@).len(),
            forall|j: int| 0 <= j < hrefs@.len() ==> (#[trigger] hrefs@[j])@ == hrefs_of(html@)[j],
            i <= hrefs@.len(),
            results@.len() == i,
            forall|j: int|
                0 <= j < i ==> href_result_matches(
                    root,
                    base.text@,
                    hrefs_of(html@)[j],
                    #[trigger] results@[j],
                ),
        decreases hrefs@.len() - i,
    {
        let d = process_href(root, base, hrefs[i].as_str());
        results.push(d);
        i += 1;
    }
    results
}

} // verus!
