//! The closed set of benign reasons for which a URL is not processed
//! further, and the error value that carries one together with the URL
//! it applies to.

use vstd::prelude::*;

verus! {

/// Reason for skipping a URL.
#[derive(Debug, Clone)]
pub enum SkipReason {
    /// The URL scheme is not http or https.
    Transport,
    /// The relative path matched an entry of the skip list.
    SkipList,
    /// The URL is not inside the subtree of the base URL.
    NotRelative,
    /// The URL carries a fragment.
    Fragment,
    /// The URL carries a query string.
    Query,
    /// The href did not parse or resolve to a URL.
    NotValid,
    /// A redirect pointed at the given URL, which is outside the subtree
    /// of the base URL.
    RedirectNotRel(String),
    /// A redirect chain grew longer than the configured ceiling.
    TooManyRedirects,
}

impl SkipReason {
    /// The text of the reason as it is reported to the user.
    pub open spec fn message_view(&self) -> Seq<char> {
        match self {
            SkipReason::Transport => "The transport is not supported"@,
            SkipReason::SkipList => "Path is in the skip list"@,
            SkipReason::NotRelative => "URL is not relative to the base URL"@,
            SkipReason::Fragment => "URL is a fragment"@,
            SkipReason::Query => "URL has a query"@,
            SkipReason::NotValid => "URL is not valid"@,
            SkipReason::RedirectNotRel(to) => "Redirect to "@ + to@
                + " is not relative to the base URL"@,
            SkipReason::TooManyRedirects => "Too many redirects"@,
        }
    }

    /// Renders the reason text.
    pub fn message(&self) -> (r: String)
        ensures
            r@ == self.message_view(),
    {
        match self {
            SkipReason::Transport => "The transport is not supported".to_owned(),
            SkipReason::SkipList => "Path is in the skip list".to_owned(),
            SkipReason::NotRelative => "URL is not relative to the base URL".to_owned(),
            SkipReason::Fragment => "URL is a fragment".to_owned(),
            SkipReason::Query => "URL has a query".to_owned(),
            SkipReason::NotValid => "URL is not valid".to_owned(),
            SkipReason::RedirectNotRel(to) => String::from_str("Redirect to ").concat(
                to.as_str(),
            ).concat(" is not relative to the base URL"),
            SkipReason::TooManyRedirects => "Too many redirects".to_owned(),
        }
    }
}

/// A skipped URL together with the reason for skipping it.
#[derive(Debug, Clone)]
pub struct SkipReasonErr {
    /// The skipped URL.
    pub url: String,
    /// Reason for skipping.
    pub reason: SkipReason,
}

impl SkipReasonErr {
    /// Creates a new skip reason error.
    pub fn new(url: String, reason: SkipReason) -> (r: Self)
        ensures
            r.url == url,
            r.reason == reason,
    {
        Self { url, reason }
    }

    /// The full log line for the skipped URL.
    pub open spec fn message_view(&self) -> Seq<char> {
        "Skipping "@ + self.url@ + ": "@ + self.reason.message_view()
    }

    /// Renders the log line for the skipped URL.
    pub fn message(&self) -> (r: String)
        ensures
            r@ == self.message_view(),
    {
        String::from_str("Skipping ").concat(self.url.as_str()).concat(": ").concat(
            self.reason.message().as_str(),
        )
    }
}

} // verus!
