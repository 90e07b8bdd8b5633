//! The URL model and the scope resolver.
//!
//! A URL is held as plain values — scheme, host, the serialized
//! path-query-fragment part, and the full serialization — read out of
//! the url crate once, by a trusted parser. All scope logic (scheme
//! gate, subtree containment, relative paths) is verified over those
//! values.

use vstd::prelude::*;

use crate::skipreason::{SkipReason, SkipReasonErr};
use crate::strutil::{str_eq, str_starts_with};

verus! {

/// Whether the url crate parses the string as an absolute URL.
pub uninterp spec fn url_ok(s: Seq<char>) -> bool;

/// The scheme of the parsed URL.
pub uninterp spec fn url_scheme(s: Seq<char>) -> Seq<char>;

/// The host of the parsed URL, if it has one.
pub uninterp spec fn url_host(s: Seq<char>) -> Option<Seq<char>>;

/// The serialization of the parsed URL from the start of its path:
/// path, query and fragment.
pub uninterp spec fn url_full_path(s: Seq<char>) -> Seq<char>;

/// Whether the parsed URL carries a query string.
pub uninterp spec fn url_has_query(s: Seq<char>) -> bool;

/// Whether the parsed URL carries a fragment.
pub uninterp spec fn url_has_fragment(s: Seq<char>) -> bool;

/// The (normalized) serialization of the parsed URL.
pub uninterp spec fn url_text(s: Seq<char>) -> Seq<char>;

/// Whether the url crate resolves `href` against the URL parsed from
/// `base`.
pub uninterp spec fn resolve_ok(base: Seq<char>, href: Seq<char>) -> bool;

/// The serialization of `href` resolved against the URL parsed from
/// `base`.
pub uninterp spec fn resolve_text(base: Seq<char>, href: Seq<char>) -> Seq<char>;

/// A URL, held as plain values.
#[derive(Debug)]
pub struct Url {
    /// The scheme, without the separator.
    pub scheme: String,
    /// The host, if the URL has one.
    pub host: Option<String>,
    /// The serialization from the start of the path: path, query and
    /// fragment.
    pub full_path: String,
    /// Whether the URL carries a query string.
    pub has_query: bool,
    /// Whether the URL carries a fragment.
    pub has_fragment: bool,
    /// The full serialization.
    pub text: String,
}

impl Clone for Url {
    /// A clone carries the same components.
    fn clone(&self) -> (r: Self)
        ensures
            r == *self,
    {
        Url {
            scheme: self.scheme.clone(),
            host: match &self.host {
                Some(h) => Some(h.clone()),
                None => None,
            },
            full_path: self.full_path.clone(),
            has_query: self.has_query,
            has_fragment: self.has_fragment,
            text: self.text.clone(),
        }
    }
}

/// The view of an optional string.
pub open spec fn opt_str_view(o: Option<String>) -> Option<Seq<char>> {
    match o {
        Some(s) => Some(s@),
        None => None,
    }
}

/// True iff the scheme is one the mirror can fetch.
pub open spec fn spec_is_handled(scheme: Seq<char>) -> bool {
    scheme == "http"@ || scheme == "https"@
}

/// The sequence with its leading '/' characters removed.
pub open spec fn trim_slashes(s: Seq<char>) -> Seq<char>
    decreases s.len(),
{
    if s.len() > 0 && s[0] == '/' {
        trim_slashes(s.skip(1))
    } else {
        s
    }
}

/// The suffix of `full` below `base`, defined iff `base` is a prefix of
/// `full` and the boundary falls on a path separator: `base` ends with
/// '/', or the suffix is empty, or the suffix starts with '/'. Leading
/// slashes of the suffix are trimmed.
pub open spec fn rel_path_of(full: Seq<char>, base: Seq<char>) -> Option<Seq<char>> {
    if base.is_prefix_of(full) {
        let rel = full.skip(base.len() as int);
        if rel.len() == 0 || (base.len() > 0 && base.last() == '/') || rel[0] == '/' {
            Some(trim_slashes(rel))
        } else {
            None
        }
    } else {
        None
    }
}

/// The relative path of one URL below another: defined iff the hosts
/// match and the paths nest on a path boundary.
pub open spec fn spec_rel_to(
    host: Option<Seq<char>>,
    full: Seq<char>,
    base_host: Option<Seq<char>>,
    base_full: Seq<char>,
) -> Option<Seq<char>> {
    if host == base_host {
        rel_path_of(full, base_full)
    } else {
        None
    }
}

/// Removing the leading slashes is the same as skipping past them.
proof fn lemma_trim_slashes(s: Seq<char>, j: int)
    requires
        0 <= j <= s.len(),
        forall|i: int| 0 <= i < j ==> s[i] == '/',
        j < s.len() ==> s[j] != '/',
    ensures
        trim_slashes(s) == s.skip(j),
    decreases j,
{
    if j == 0 {
        assert(s.skip(0) =~= s);
    } else {
        assert(s[0] == '/');
        assert forall|i: int| 0 <= i < j - 1 implies s.skip(1)[i] == '/' by {
            assert(s.skip(1)[i] == s[i + 1]);
        }
        assert(j - 1 < s.skip(1).len() ==> s.skip(1)[j - 1] != '/');
        lemma_trim_slashes(s.skip(1), j - 1);
        assert(s.skip(1).skip(j - 1) =~= s.skip(j));
    }
}

/// The operations of the scope resolver.
pub trait UrlExt: Sized {
    /// The scheme of the URL.
    spec fn scheme_view(&self) -> Seq<char>;

    /// The host of the URL, if it has one.
    spec fn host_view(&self) -> Option<Seq<char>>;

    /// The path, query and fragment of the URL.
    spec fn full_path_view(&self) -> Seq<char>;

    /// The serialization of the URL.
    spec fn text_view(&self) -> Seq<char>;

    /// Checks that the URL can be handled: only http and https pass.
    fn is_handled(&self) -> (r: Result<(), SkipReasonErr>)
        ensures
            (r is Ok) == spec_is_handled(self.scheme_view()),
            r matches Err(e) ==> e.url@ == self.text_view() && (
            e.reason matches SkipReason::Transport),
    ;

    /// Returns true if this URL is relative to a base URL.
    fn is_relative_to(&self, base_url: &Self) -> (r: bool)
        ensures
            r == (spec_rel_to(
                self.host_view(),
                self.full_path_view(),
                base_url.host_view(),
                base_url.full_path_view(),
            ) is Some),
    ;

    /// Returns the relative path of this URL below a base URL.
    fn relative_path(&self, base_url: &Self) -> (r: Option<String>)
        ensures
            opt_str_view(r) == spec_rel_to(
                self.host_view(),
                self.full_path_view(),
                base_url.host_view(),
                base_url.full_path_view(),
            ),
    ;

    /// Returns the full path of the URL including query and fragment.
    fn full_path(&self) -> (r: &str)
        ensures
            r@ == self.full_path_view(),
    ;
}

impl UrlExt for Url {
    open spec fn scheme_view(&self) -> Seq<char> {
        self.scheme@
    }

    open spec fn host_view(&self) -> Option<Seq<char>> {
        opt_str_view(self.host)
    }

    open spec fn full_path_view(&self) -> Seq<char> {
        self.full_path@
    }

    open spec fn text_view(&self) -> Seq<char> {
        self.text@
    }

    fn is_handled(&self) -> (r: Result<(), SkipReasonErr>) {
        if str_eq(self.scheme.as_str(), "http") || str_eq(self.scheme.as_str(), "https") {
            Ok(())
        } else {
            Err(SkipReasonErr::new(self.text.clone(), SkipReason::Transport))
        }
    }

    fn is_relative_to(&self, base_url: &Self) -> (r: bool) {
        self.relative_path(base_url).is_some()
    }

    fn relative_path(&self, base_url: &Self) -> (r: Option<String>) {
        let host_eq = match (&self.host, &base_url.host) {
            (Some(a), Some(b)) => str_eq(a.as_str(), b.as_str()),
            (None, None) => true,
            _ => false,
        };
        if !host_eq {
            return None;
        }
        let full = self.full_path.as_str();
        let base = base_url.full_path.as_str();
        if !str_starts_with(full, base) {
            return None;
        }
        let flen = full.unicode_len();
        let blen = base.unicode_len();
        let ghost rel = full@.skip(blen as int);
        let boundary = if blen == flen {
            true
        } else if blen > 0 && base.get_char(blen - 1) == '/' {
            true
        } else {
            proof {
                assert(rel[0] == full@[blen as int]);
            }
            full.get_char(blen) == '/'
        };
        if !boundary {
            return None;
        }
        let mut k = blen;
        while k < flen && full.get_char(k) == '/'
            invariant
                flen == full@.len(),
                blen <= k <= flen,
                forall|j: int| blen <= j < k ==> full@[j] == '/',
            decreases flen - k,
        {
            k += 1;
        }
        let tail = full.substring_char(k, flen);
        proof {
            assert forall|i: int| 0 <= i < k - blen implies rel[i] == '/' by {
                assert(rel[i] == full@[blen + i]);
            }
            assert(k - blen < rel.len() ==> rel[k - blen] == full@[k as int]);
            lemma_trim_slashes(rel, k - blen);
            assert(rel.skip(k - blen) =~= full@.subrange(k as int, flen as int));
        }
        Some(tail.to_owned())
    }

    fn full_path(&self) -> (r: &str) {
        self.full_path.as_str()
    }
}

/// Relies on url::Url::parse and the component accessors scheme,
/// host_str, query, fragment and as_str, and on the slice from
/// Position::BeforePath: the parse and every component of its result
/// are functions of the input string alone.
#[verifier::external_body]
pub(crate) fn parse_url_raw(s: &str) -> (r: Option<Url>)
    ensures
        (r is Some) == url_ok(s@),
        r matches Some(u) ==> u.scheme@ == url_scheme(s@) && opt_str_view(u.host) == url_host(s@)
            && u.full_path@ == url_full_path(s@) && u.has_query == url_has_query(s@)
            && u.has_fragment == url_has_fragment(s@) && u.text@ == url_text(s@),
{
    match ::url::Url::parse(s) {
        Ok(u) => Some(Url {
            scheme: u.scheme().to_string(),
            host: u.host_str().map(|h| h.to_string()),
            full_path: u[::url::Position::BeforePath..].to_string(),
            has_query: u.query().is_some(),
            has_fragment: u.fragment().is_some(),
            text: u.as_str().to_string(),
        }),
        Err(_) => None,
    }
}

/// Relies on url::Url::parse and url::Url::join: whether `href`
/// resolves against the URL parsed from `base`, and what it resolves
/// to, depend on the two strings alone.
#[verifier::external_body]
pub(crate) fn resolve_raw(base: &str, href: &str) -> (r: Option<String>)
    ensures
        url_ok(base@) ==> ((r is Some) == resolve_ok(base@, href@)),
        url_ok(base@) ==> (r matches Some(t) ==> t@ == resolve_text(base@, href@)),
        !url_ok(base@) ==> r is None,
{
    match ::url::Url::parse(base) {
        Ok(b) => match b.join(href) {
            Ok(u) => Some(u.as_str().to_string()),
            Err(_) => None,
        },
        Err(_) => None,
    }
}

} // verus!
