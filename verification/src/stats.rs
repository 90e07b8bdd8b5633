//! Monotonically increasing run statistics and the rendering of the
//! final report lines.

use vstd::prelude::*;

use crate::strutil::{dec_str, u64_to_string};

verus! {

/// Counters accumulated over one run.
#[derive(Debug, Clone, Copy, PartialEq, Eq, Structural)]
pub struct Stats {
    /// Number of files downloaded.
    pub downloads: u64,
    /// Total bytes of the downloaded files.
    pub download_bytes: usize,
    /// Number of HTML documents parsed.
    pub html_docs: u64,
    /// Total bytes of the parsed HTML documents.
    pub html_bytes: usize,
    /// Number of URLs answered with a not-modified status.
    pub not_modified: u64,
    /// Number of skipped URLs.
    pub skipped: u64,
    /// Number of errored URLs.
    pub errored: u64,
}

impl Default for Stats {
    /// All counters start at zero.
    fn default() -> (r: Self)
        ensures
            r == Stats::zero(),
    {
        Stats {
            downloads: 0,
            download_bytes: 0,
            html_docs: 0,
            html_bytes: 0,
            not_modified: 0,
            skipped: 0,
            errored: 0,
        }
    }
}

impl Stats {
    /// The all-zero counters.
    pub open spec fn zero() -> Stats {
        (Stats {
            downloads: 0,
            download_bytes: 0,
            html_docs: 0,
            html_bytes: 0,
            not_modified: 0,
            skipped: 0,
            errored: 0,
        })
    }

    /// The counters after recording one download of `bytes` bytes.
    pub open spec fn with_download(self, bytes: usize) -> Stats {
        (Stats {
            downloads: (self.downloads + 1) as u64,
            download_bytes: (self.download_bytes + bytes) as usize,
            ..self
        })
    }

    /// The counters after recording one parsed HTML document of `bytes`
    /// bytes.
    pub open spec fn with_html(self, bytes: usize) -> Stats {
        (Stats {
            html_docs: (self.html_docs + 1) as u64,
            html_bytes: (self.html_bytes + bytes) as usize,
            ..self
        })
    }

    /// The counters after recording one skipped URL.
    pub open spec fn with_skipped(self) -> Stats {
        (Stats { skipped: (self.skipped + 1) as u64, ..self })
    }

    /// The counters after recording one not-modified URL.
    pub open spec fn with_not_modified(self) -> Stats {
        (Stats { not_modified: (self.not_modified + 1) as u64, ..self })
    }

    /// The counters after recording one errored URL.
    pub open spec fn with_errored(self) -> Stats {
        (Stats { errored: (self.errored + 1) as u64, ..self })
    }

    /// Add a download to the stats.
    pub fn add_download(&mut self, bytes: usize)
        requires
            old(self).downloads < u64::MAX,
            old(self).download_bytes + bytes <= usize::MAX,
        ensures
            *final(self) == old(self).with_download(bytes),
    {
        self.downloads = self.downloads + 1;
        self.download_bytes = self.download_bytes + bytes;
    }

    /// Add an HTML document download to the stats.
    pub fn add_html(&mut self, bytes: usize)
        requires
            old(self).html_docs < u64::MAX,
            old(self).html_bytes + bytes <= usize::MAX,
        ensures
            *final(self) == old(self).with_html(bytes),
    {
        self.html_docs = self.html_docs + 1;
        self.html_bytes = self.html_bytes + bytes;
    }

    /// Add a skipped file to the stats.
    pub fn add_skipped(&mut self)
        requires
            old(self).skipped < u64::MAX,
        ensures
            *final(self) == old(self).with_skipped(),
    {
        self.skipped = self.skipped + 1;
    }

    /// Add a not modified file to the stats.
    pub fn add_not_modified(&mut self)
        requires
            old(self).not_modified < u64::MAX,
        ensures
            *final(self) == old(self).with_not_modified(),
    {
        self.not_modified = self.not_modified + 1;
    }

    /// Add an errored file to the stats.
    pub fn add_errored(&mut self)
        requires
            old(self).errored < u64::MAX,
        ensures
            *final(self) == old(self).with_errored(),
    {
        self.errored = self.errored + 1;
    }

    /// A quantity with its unit, singular for one and plural otherwise.
    pub open spec fn qty_view(qty: nat, single: Seq<char>, plural: Seq<char>) -> Seq<char> {
        dec_str(qty) + " "@ + if qty == 1 {
            single
        } else {
            plural
        }
    }

    /// The report line for the parsed HTML documents.
    pub open spec fn parsed_line_view(&self) -> Seq<char> {
        Self::qty_view(self.html_docs as nat, "document"@, "documents"@) + " parsed ("@
            + Self::qty_view(self.html_bytes as nat, "byte"@, "bytes"@) + ")"@
    }

    /// The report line for the downloads and the remaining counters.
    pub open spec fn downloaded_line_view(&self) -> Seq<char> {
        Self::qty_view(self.downloads as nat, "file"@, "files"@) + " downloaded ("@
            + Self::qty_view(self.download_bytes as nat, "byte"@, "bytes"@) + "), "@ + dec_str(
            self.not_modified as nat,
        ) + " not modified, "@ + dec_str(self.skipped as nat) + " skipped, "@ + dec_str(
            self.errored as nat,
        ) + " errored"@
    }

    /// Formats a quantity and its unit.
    fn format_qty(qty: u64, single: &str, plural: &str) -> (r: String)
        ensures
            r@ == Self::qty_view(qty as nat, single@, plural@),
    {
        let unit = if qty == 1 {
            single
        } else {
            plural
        };
        u64_to_string(qty).concat(" ").concat(unit)
    }

    /// Renders the two report lines: the parsed documents and the
    /// download summary. Callers print them.
    pub fn print(&self) -> (r: (String, String))
        ensures
            r.0@ == self.parsed_line_view(),
            r.1@ == self.downloaded_line_view(),
    {
        let line1 = Self::format_qty(self.html_docs, "document", "documents").concat(
            " parsed (",
        ).concat(Self::format_qty(self.html_bytes as u64, "byte", "bytes").as_str()).concat(")");
        let line2 = Self::format_qty(self.downloads, "file", "files").concat(
            " downloaded (",
        ).concat(Self::format_qty(self.download_bytes as u64, "byte", "bytes").as_str()).concat(
            "), ",
        ).concat(u64_to_string(self.not_modified).as_str()).concat(" not modified, ").concat(
            u64_to_string(self.skipped).as_str(),
        ).concat(" skipped, ").concat(u64_to_string(self.errored).as_str()).concat(" errored");
        (line1, line2)
    }
}

} // verus!
