//! The crawl coordinator's decision functions: the dedupe gate, the
//! response classification and the outcome bookkeeping. The caller
//! performs the fetches and hands every observation back as plain
//! values.

use vstd::prelude::*;

use crate::html::href_result_matches;
use crate::mime::{opt_slice_view, response_is_html, spec_is_html};
use crate::skipreason::{SkipReason, SkipReasonErr};
use crate::state::State;
use crate::stats::Stats;
use crate::strutil::{dec_str, u64_to_string};
use crate::url::{
    resolve_ok, resolve_text, spec_is_handled, spec_rel_to, url_full_path, url_has_fragment,
    url_has_query, url_host, url_ok, url_scheme, Url, UrlExt,
};

verus! {

/// A failure of one coordinator invocation: a benign skip or a hard
/// error with its message.
#[derive(Debug)]
pub enum WalkError {
    /// A skip reason; counted as skipped, logged at info level.
    Skip(SkipReasonErr),
    /// Any other failure; counted as errored, logged at error level.
    Hard(String),
}

/// What to do with a URL after the dedupe gate and the path checks.
pub enum BeginAction {
    /// The URL was already handed to the coordinator once; stop without
    /// touching the counters.
    AlreadyProcessed,
    /// Fetch the URL; the argument is the ETag of the old generation,
    /// to be staged as the If-None-Match header when present.
    Fetch(Option<String>),
}

/// Opens one coordinator invocation: atomically tests and inserts the
/// URL into the processed set, checks that a file path exists for it,
/// and stages the cached ETag.
pub fn begin_walk(state: &mut State, url: &Url) -> (r: Result<BeginAction, WalkError>)
    requires
        old(state).wf(),
    ensures
        final(state).wf(),
        State::same_setup(old(state), final(state)),
        final(state).new_etags_view() == old(state).new_etags_view(),
        final(state).stats_view() == old(state).stats_view(),
        final(state).processed_view() == old(state).processed_view().insert(url.text@),
        match r {
            Ok(BeginAction::AlreadyProcessed) => old(state).processed_view().contains(url.text@),
            Ok(BeginAction::Fetch(etag)) => !old(state).processed_view().contains(url.text@)
                && old(state).path_decision(url) is Ok && (match etag {
                Some(e) => old(state).old_etags_view().contains_key(url.text@) && e@ == old(
                    state,
                ).old_etags_view()[url.text@],
                None => !old(state).old_etags_view().contains_key(url.text@),
            }),
            Err(WalkError::Skip(e)) => !old(state).processed_view().contains(url.text@) && old(
                state,
            ).path_decision(url) == Err::<Seq<char>, SkipReason>(e.reason) && e.url@ == url.text@,
            Err(WalkError::Hard(_)) => false,
        },
{
    if !state.add_processed_url(url) {
        return Ok(BeginAction::AlreadyProcessed);
    }
    match state.path_for_url(url) {
        Err(e) => {
            return Err(WalkError::Skip(e));
        },
        Ok(_) => {},
    }
    let etag = match state.find_etag(url) {
        Some(e) => Some(e.clone()),
        None => None,
    };
    Ok(BeginAction::Fetch(etag))
}

/// The class of one response.
pub enum ResponseClass {
    /// Status 304 with a staged ETag: the file on disk is current.
    NotModified,
    /// Any other non-2xx status; the argument is the error message.
    HttpError(String),
    /// A 2xx response declared as HTML: read the body and recurse.
    Html,
    /// Any other 2xx response: download the body.
    Download,
}

/// The message for a response with a failing status.
pub open spec fn status_error_view(status: nat, final_text: Seq<char>) -> Seq<char> {
    "Status "@ + dec_str(status) + " fetching "@ + final_text
}

/// Classifies a response by its status code, the staged ETag and the
/// declared content type: 304 with a staged ETag is not-modified, any
/// other non-2xx status is a hard error, and a 2xx response is HTML
/// exactly when its content type says so.
pub fn classify_response(
    status: u16,
    had_etag: bool,
    content_type: Option<&str>,
    final_url: &str,
) -> (r: ResponseClass)
    ensures
        (r matches ResponseClass::Html) == (200 <= status <= 299 && spec_is_html(
            opt_slice_view(content_type),
        )),
        (r matches ResponseClass::Download) == (200 <= status <= 299 && !spec_is_html(
            opt_slice_view(content_type),
        )),
        (r matches ResponseClass::NotModified) == (!(200 <= status <= 299) && status == 304
            && had_etag),
        r matches ResponseClass::HttpError(m) ==> m@ == status_error_view(
            status as nat,
            final_url@,
        ),
        (r matches ResponseClass::HttpError(_)) == (!(200 <= status <= 299) && !(status == 304
            && had_etag)),
{
    if 200 <= status && status <= 299 {
        if response_is_html(content_type) {
            ResponseClass::Html
        } else {
            ResponseClass::Download
        }
    } else if status == 304 && had_etag {
        ResponseClass::NotModified
    } else {
        let m = String::from_str("Status ").concat(u64_to_string(status as u64).as_str()).concat(
            " fetching ",
        ).concat(final_url);
        ResponseClass::HttpError(m)
    }
}

/// Closes one coordinator invocation: a skip increments the skipped
/// counter, a hard error the errored counter, a success neither; the
/// returned line, if any, is what to log.
pub fn record_outcome(state: &mut State, outcome: &Result<(), WalkError>) -> (log: Option<String>)
    requires
        old(state).wf(),
        old(state).stats_view().skipped < u64::MAX,
        old(state).stats_view().errored < u64::MAX,
    ensures
        final(state).wf(),
        State::same_setup(old(state), final(state)),
        final(state).processed_view() == old(state).processed_view(),
        final(state).new_etags_view() == old(state).new_etags_view(),
        match outcome {
            Ok(_) => final(state).stats_view() == old(state).stats_view() && log is None,
            Err(WalkError::Skip(e)) => final(state).stats_view() == old(
                state,
            ).stats_view().with_skipped() && (log matches Some(l) && l@ == e.message_view()),
            Err(WalkError::Hard(m)) => final(state).stats_view() == old(
                state,
            ).stats_view().with_errored() && (log matches Some(l) && l@ == m@),
        },
{
    match outcome {
        Ok(_) => None,
        Err(WalkError::Skip(e)) => {
            state.stats_mut().add_skipped();
            Some(e.message())
        },
        Err(WalkError::Hard(m)) => {
            state.stats_mut().add_errored();
            Some(m.clone())
        },
    }
}

/// Records one parsed HTML document of `bytes` bytes.
pub fn record_html(state: &mut State, bytes: usize)
    requires
        old(state).wf(),
        old(state).stats_view().html_docs < u64::MAX,
        old(state).stats_view().html_bytes + bytes <= usize::MAX,
    ensures
        final(state).wf(),
        State::same_setup(old(state), final(state)),
        final(state).processed_view() == old(state).processed_view(),
        final(state).new_etags_view() == old(state).new_etags_view(),
        final(state).stats_view() == old(state).stats_view().with_html(bytes),
{
    state.stats_mut().add_html(bytes);
}

/// Records one not-modified response; the returned line is what to
/// log.
pub fn record_not_modified(state: &mut State, url: &Url) -> (log: String)
    requires
        old(state).wf(),
        old(state).stats_view().not_modified < u64::MAX,
    ensures
        final(state).wf(),
        State::same_setup(old(state), final(state)),
        final(state).processed_view() == old(state).processed_view(),
        final(state).new_etags_view() == old(state).new_etags_view(),
        final(state).stats_view() == old(state).stats_view().with_not_modified(),
        log@ == url.text@ + " is not modified"@,
{
    state.stats_mut().add_not_modified();
    url.text.clone().concat(" is not modified")
}

/// Closes one download: records the response's ETag, when one came,
/// under the requested and the final URL, and counts the downloaded
/// bytes.
pub fn finish_download(
    state: &mut State,
    url: &Url,
    final_url: &Url,
    etag: Option<&str>,
    bytes: usize,
)
    requires
        old(state).wf(),
        old(state).stats_view().downloads < u64::MAX,
        old(state).stats_view().download_bytes + bytes <= usize::MAX,
    ensures
        final(state).wf(),
        State::same_setup(old(state), final(state)),
        final(state).processed_view() == old(state).processed_view(),
        final(state).stats_view() == old(state).stats_view().with_download(bytes),
        final(state).new_etags_view() == match etag {
            Some(e) => old(state).new_etags_view().insert(url.text@, e@).insert(
                final_url.text@,
                e@,
            ),
            None => old(state).new_etags_view(),
        },
{
    match etag {
        Some(e) => {
            let mut urls: Vec<&Url> = Vec::new();
            urls.push(url);
            urls.push(final_url);
            state.add_etags(&urls, e);
            proof {
                let m = old(state).new_etags_view();
                let texts = urls@.map_values(|u: &Url| u.text@);
                let t1 = seq![url.text@];
                assert(texts =~= seq![url.text@, final_url.text@]);
                assert(texts.drop_last() =~= t1);
                assert(t1.drop_last() =~= Seq::<Seq<char>>::empty());
                assert(State::record_all(m, Seq::<Seq<char>>::empty(), e@) == m);
                assert(State::record_all(m, t1, e@) == m.insert(url.text@, e@));
                assert(State::record_all(m, texts, e@) == m.insert(url.text@, e@).insert(
                    final_url.text@,
                    e@,
                ));
            }
        },
        None => {},
    }
    state.stats_mut().add_download(bytes);
}

/// Law (dedupe): each URL is admitted for fetching at most once. The
/// gate admits a URL only when it is not yet in the processed set and
/// always inserts it; the set only ever grows. So once a URL was
/// admitted, no later state lets it through again: a second
/// `begin_walk` returns `AlreadyProcessed`, whatever page discovered
/// the URL and in whatever order.
pub proof fn lemma_dedupe_once(s0: &State, s1: &State, s2: &State, url: &Url)
    requires
        !s0.processed_view().contains(url.text@),
        s1.processed_view() == s0.processed_view().insert(url.text@),
        s1.processed_view().subset_of(s2.processed_view()),
    ensures
        s2.processed_view().contains(url.text@),
{
    assert(s1.processed_view().contains(url.text@));
}

/// Law (scope containment): a link whose resolved URL passes the
/// scheme, fragment and query gates but lies outside the root's
/// subtree is answered with the NotRelative skip reason — and
/// recording a skip touches the skipped counter alone, never the
/// errored counter and never a download.
pub proof fn lemma_scope_containment(
    root: &Url,
    base_text: Seq<char>,
    href: Seq<char>,
    r: Result<Url, SkipReasonErr>,
    s: Stats,
)
    requires
        s.skipped < u64::MAX,
        href_result_matches(root, base_text, href, r),
        url_ok(base_text),
        resolve_ok(base_text, href),
        url_ok(resolve_text(base_text, href)),
        spec_is_handled(url_scheme(resolve_text(base_text, href))),
        !url_has_fragment(resolve_text(base_text, href)),
        !url_has_query(resolve_text(base_text, href)),
        spec_rel_to(
            url_host(resolve_text(base_text, href)),
            url_full_path(resolve_text(base_text, href)),
            root.host_view(),
            root.full_path_view(),
        ) is None,
    ensures
        r matches Err(e) && e.reason matches SkipReason::NotRelative,
        s.with_skipped().errored == s.errored,
        s.with_skipped().downloads == s.downloads,
        s.with_skipped().skipped == s.skipped + 1,
{
}

/// Law (redirect containment): a redirect hop whose chain is already
/// longer than the ceiling, or whose target leaves the root's subtree,
/// is refused — with TooManyRedirects respectively RedirectNotRel —
/// so the transport aborts the fetch there and performs no further
/// hops; the abort is a skip, which touches the skipped counter alone.
pub proof fn lemma_redirect_containment(st: &State, previous_len: int, candidate: &Url, s: Stats)
    requires
        s.skipped < u64::MAX,
        previous_len > st.config().max_redirects || spec_rel_to(
            candidate.host_view(),
            candidate.full_path_view(),
            st.root().host_view(),
            st.root().full_path_view(),
        ) is None,
    ensures
        st.redirect_decision(previous_len, candidate) is Err,
        previous_len > st.config().max_redirects ==> st.redirect_decision(previous_len, candidate)
            == Err::<(), SkipReason>(SkipReason::TooManyRedirects),
        previous_len <= st.config().max_redirects ==> st.redirect_decision(
            previous_len,
            candidate,
        ) == Err::<(), SkipReason>(SkipReason::RedirectNotRel(candidate.text)),
        s.with_skipped().errored == s.errored,
        s.with_skipped().skipped == s.skipped + 1,
{
}

} // verus!
