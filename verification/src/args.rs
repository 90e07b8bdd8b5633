//! The run configuration and the validation of its numeric values.
//! Reading the command line itself is left to the caller; the defaults
//! and the clamping rules live here.

use vstd::prelude::*;

use crate::strutil::{dec_val, parse_usize, spec_parses_usize};

verus! {

/// Configuration of one run.
#[derive(Debug)]
pub struct Args {
    /// URL to mirror.
    pub url: String,
    /// Target directory.
    pub target: String,
    /// Maximum number of concurrent requests to the web server.
    pub concurrent_fetch: usize,
    /// Maximum number of worker threads to run.
    pub threads: usize,
    /// File name to use for unnamed files.
    pub unnamed: String,
    /// Connection timeout in seconds.
    pub connect_timeout: u64,
    /// Fetch timeout in minutes.
    pub fetch_timeout: u64,
    /// Skip list file, holding relative file paths to skip.
    pub skip_file: Option<String>,
    /// Don't use ETags to detect out of date files.
    pub no_etags: bool,
    /// Debug message level.
    pub debug: u8,
    /// Artificial delay in the data fetch, for observing interleavings.
    pub debug_delay: u64,
    /// Ceiling on the redirect chain length of one fetch.
    pub max_redirects: usize,
}

impl Default for Args {
    /// The default configuration; the thread count still has to be
    /// clamped to the host's CPU count by the caller.
    fn default() -> (r: Self)
        ensures
            r.url@ == Seq::<char>::empty(),
            r.target@ == Seq::<char>::empty(),
            r.concurrent_fetch == 10,
            r.threads == 10,
            r.unnamed@ == "__file.dat"@,
            r.connect_timeout == 60,
            r.fetch_timeout == 5,
            r.skip_file is None,
            r.no_etags == false,
            r.debug == 0,
            r.debug_delay == 0,
            r.max_redirects == 10,
    {
        Args {
            url: String::new(),
            target: String::new(),
            concurrent_fetch: default_concurrent_requests(),
            threads: default_concurrent_requests(),
            unnamed: default_unnamed(),
            connect_timeout: default_connect_timeout(),
            fetch_timeout: default_fetch_timeout(),
            skip_file: None,
            no_etags: false,
            debug: 0,
            debug_delay: 0,
            max_redirects: default_max_redirects(),
        }
    }
}

/// The default ceiling on concurrent requests.
pub fn default_concurrent_requests() -> (r: usize)
    ensures
        r == 10,
{
    10
}

/// The default worker thread count: the concurrent request ceiling,
/// bounded by the host's CPU count.
pub fn default_threads(cpus: usize) -> (r: usize)
    requires
        cpus >= 1,
    ensures
        r == if cpus < 10 {
            cpus as int
        } else {
            10
        },
{
    if cpus < 10 {
        cpus
    } else {
        10
    }
}

/// The default name for files of URLs with an empty relative path.
pub fn default_unnamed() -> (r: String)
    ensures
        r@ == "__file.dat"@,
{
    "__file.dat".to_owned()
}

/// The default connection timeout in seconds.
pub fn default_connect_timeout() -> (r: u64)
    ensures
        r == 60,
{
    60
}

/// The default fetch timeout in minutes.
pub fn default_fetch_timeout() -> (r: u64)
    ensures
        r == 5,
{
    5
}

/// The default ceiling on the redirect chain length of one fetch.
pub fn default_max_redirects() -> (r: usize)
    ensures
        r == 10,
{
    10
}

/// The message for a value that did not parse as a number.
pub open spec fn not_a_number_view(s: Seq<char>) -> Seq<char> {
    "'"@ + s + "' is not a number"@
}

/// Parses the concurrent request ceiling, raising it to at least one.
pub fn clamp_concurrent(s: &str) -> (r: Result<usize, String>)
    ensures
        match r {
            Ok(v) => spec_parses_usize(s@) && v == if dec_val(s@) == 0 {
                1nat
            } else {
                dec_val(s@)
            },
            Err(m) => !spec_parses_usize(s@) && m@ == not_a_number_view(s@),
        },
{
    match parse_usize(s) {
        Some(v) => if v < 1 {
            Ok(1)
        } else {
            Ok(v)
        },
        None => Err(String::from_str("'").concat(s).concat("' is not a number")),
    }
}

/// Parses the worker thread count and clamps it to at least one and at
/// most the host's CPU count.
pub fn clamp_threads(s: &str, cpus: usize) -> (r: Result<usize, String>)
    requires
        cpus >= 1,
    ensures
        match r {
            Ok(v) => spec_parses_usize(s@) && v == if dec_val(s@) == 0 {
                1nat
            } else if dec_val(s@) > cpus {
                cpus as nat
            } else {
                dec_val(s@)
            },
            Err(m) => !spec_parses_usize(s@) && m@ == not_a_number_view(s@),
        },
{
    match parse_usize(s) {
        Some(v) => if v < 1 {
            Ok(1)
        } else if v > cpus {
            Ok(cpus)
        } else {
            Ok(v)
        },
        None => Err(String::from_str("'").concat(s).concat("' is not a number")),
    }
}

} // verus!
