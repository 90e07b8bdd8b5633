//! Media type classification: whether a response's declared content
//! type names an HTML document.

use vstd::prelude::*;

use crate::strutil::str_eq;

verus! {

/// Whether the mime crate parses the string as a media type.
pub uninterp spec fn mime_parses(s: Seq<char>) -> bool;

/// The essence of the parsed media type: type and subtype, lower case,
/// parameters dropped.
pub uninterp spec fn mime_essence(s: Seq<char>) -> Seq<char>;

/// A media type, held as its essence.
pub struct MediaType {
    /// Type and subtype, lower case, without parameters.
    pub essence: String,
}

/// Extension operations for media types.
pub trait MimeExt: Sized {
    /// The type and subtype of the media type.
    spec fn essence_view(&self) -> Seq<char>;

    /// Returns true if the media types have equal type and subtype;
    /// parameters are ignored.
    fn equal(&self, other: &Self) -> (r: bool)
        ensures
            r == (self.essence_view() == other.essence_view()),
    ;
}

impl MimeExt for MediaType {
    open spec fn essence_view(&self) -> Seq<char> {
        self.essence@
    }

    fn equal(&self, other: &Self) -> (r: bool) {
        str_eq(self.essence.as_str(), other.essence.as_str())
    }
}

/// Relies on str::parse::<mime::Mime> and mime::Mime::essence_str: the
/// parse and the essence of its result depend on the input string
/// alone. The parser lowercases type and subtype; the essence drops the
/// parameters.
#[verifier::external_body]
fn parse_media_type_raw(s: &str) -> (r: Option<MediaType>)
    ensures
        (r is Some) == mime_parses(s@),
        r matches Some(m) ==> m.essence@ == mime_essence(s@),
{
    match s.parse::<::mime::Mime>() {
        Ok(m) => Some(MediaType { essence: m.essence_str().to_string() }),
        Err(_) => None,
    }
}

/// True iff the essence names an HTML document.
pub open spec fn spec_is_html_essence(e: Seq<char>) -> bool {
    e == "text/html"@ || e == "application/xhtml+xml"@
}

/// True iff the declared content type is present, parses as a media
/// type and its type and subtype name an HTML document.
pub open spec fn spec_is_html(ct: Option<Seq<char>>) -> bool {
    match ct {
        Some(s) => mime_parses(s) && spec_is_html_essence(mime_essence(s)),
        None => false,
    }
}

/// The view of an optional string slice.
pub open spec fn opt_slice_view(o: Option<&str>) -> Option<Seq<char>> {
    match o {
        Some(s) => Some(s@),
        None => None,
    }
}

/// Classifies a response by its declared content type: HTML iff the
/// type/subtype pair is text/html or application/xhtml+xml, whatever
/// the parameters.
pub fn response_is_html(content_type: Option<&str>) -> (r: bool)
    ensures
        r == spec_is_html(opt_slice_view(content_type)),
{
    match content_type {
        Some(s) => match parse_media_type_raw(s) {
            Some(m) => str_eq(m.essence.as_str(), "text/html") || str_eq(
                m.essence.as_str(),
                "application/xhtml+xml",
            ),
            None => false,
        },
        None => false,
    }
}

} // verus!
