//! The ETag cache, the statistics report, the skip list and the
//! configuration clamps.

use mirrorurl::args::{
    clamp_concurrent, clamp_threads, default_concurrent_requests, default_connect_timeout,
    default_fetch_timeout, default_max_redirects, default_threads, default_unnamed, Args,
};
use mirrorurl::etags::ETags;
use mirrorurl::skip::SkipList;
use mirrorurl::stats::Stats;

#[test]
fn etags_add_and_find() {
    let mut e = ETags::new();
    assert!(e.is_empty());
    e.add("http://a/".to_string(), "v1".to_string());
    assert!(!e.is_empty());
    assert_eq!(e.find("http://a/").map(String::as_str), Some("v1"));
    assert_eq!(e.find("http://b/"), None);
}

#[test]
fn etags_add_replaces() {
    let mut e = ETags::new();
    e.add("http://a/".to_string(), "v1".to_string());
    e.add("http://a/".to_string(), "v2".to_string());
    assert_eq!(e.find("http://a/").map(String::as_str), Some("v2"));
    assert_eq!(e.pairs().len(), 1);
}

#[test]
fn etags_from_pairs_later_pair_wins() {
    let e = ETags::from_pairs(vec![
        ("http://a/".to_string(), "v1".to_string()),
        ("http://a/".to_string(), "v2".to_string()),
        ("http://b/".to_string(), "w".to_string()),
    ]);
    assert_eq!(e.find("http://a/").map(String::as_str), Some("v2"));
    assert_eq!(e.find("http://b/").map(String::as_str), Some("w"));
}

#[test]
fn etags_extend_keeps_existing_entries() {
    // The new generation is extended with the old one: on a conflict
    // this run's observation wins.
    let mut new_gen = ETags::new();
    new_gen.add("http://a/".to_string(), "new".to_string());
    let mut old_gen = ETags::new();
    old_gen.add("http://a/".to_string(), "old".to_string());
    old_gen.add("http://b/".to_string(), "kept".to_string());
    new_gen.extend(&old_gen);
    assert_eq!(new_gen.find("http://a/").map(String::as_str), Some("new"));
    assert_eq!(new_gen.find("http://b/").map(String::as_str), Some("kept"));
}

#[test]
fn stats_count_and_report() {
    let mut s = Stats::default();
    let (l1, l2) = s.print();
    assert_eq!(l1, "0 documents parsed (0 bytes)");
    assert_eq!(l2, "0 files downloaded (0 bytes), 0 not modified, 0 skipped, 0 errored");
    s.add_html(5);
    s.add_download(13);
    s.add_skipped();
    s.add_not_modified();
    s.add_errored();
    let (l1, l2) = s.print();
    assert_eq!(l1, "1 document parsed (5 bytes)");
    assert_eq!(l2, "1 file downloaded (13 bytes), 1 not modified, 1 skipped, 1 errored");
    s.add_html(7);
    s.add_download(4);
    let (l1, l2) = s.print();
    assert_eq!(l1, "2 documents parsed (12 bytes)");
    assert_eq!(l2, "2 files downloaded (17 bytes), 1 not modified, 1 skipped, 1 errored");
}

#[test]
fn stats_report_renders_large_numbers() {
    let mut s = Stats::default();
    for _ in 0..12 {
        s.add_download(100);
    }
    let (_, l2) = s.print();
    assert_eq!(l2, "12 files downloaded (1200 bytes), 0 not modified, 0 skipped, 0 errored");
}

#[test]
fn skip_list_prefix_semantics() {
    // Entries "1", "2/" and "3/1" against pages 1..4 with files 1..4.
    let sl = SkipList::from_entries(vec![
        "1".to_string(),
        "2/".to_string(),
        "3/1".to_string(),
    ]);
    // Page 1 and everything under it is skipped wholesale.
    assert!(sl.find("1/"));
    assert!(sl.find("1/1"));
    assert!(sl.find("1/4"));
    // Everything under 2/ is skipped.
    assert!(sl.find("2/"));
    assert!(sl.find("2/3"));
    // Under page 3 only file 1 is skipped.
    assert!(!sl.find("3/"));
    assert!(sl.find("3/1"));
    assert!(!sl.find("3/2"));
    assert!(!sl.find("3/4"));
    // Page 4 is downloaded in full.
    assert!(!sl.find("4/"));
    assert!(!sl.find("4/2"));
}

#[test]
fn skip_list_empty_matches_nothing() {
    let sl = SkipList::new();
    assert!(!sl.find(""));
    assert!(!sl.find("anything"));
}

#[test]
fn clamp_concurrent_parses_and_clamps() {
    assert_eq!(clamp_concurrent("5"), Ok(5));
    assert_eq!(clamp_concurrent("0"), Ok(1));
    assert_eq!(clamp_concurrent("1"), Ok(1));
    assert_eq!(
        clamp_concurrent("abc"),
        Err("'abc' is not a number".to_string())
    );
    assert_eq!(
        clamp_concurrent(""),
        Err("'' is not a number".to_string())
    );
    assert_eq!(
        clamp_concurrent("99999999999999999999999"),
        Err("'99999999999999999999999' is not a number".to_string())
    );
}

#[test]
fn clamp_threads_respects_cpu_count() {
    assert_eq!(clamp_threads("0", 8), Ok(1));
    assert_eq!(clamp_threads("3", 8), Ok(3));
    assert_eq!(clamp_threads("64", 8), Ok(8));
    assert_eq!(
        clamp_threads("x", 8),
        Err("'x' is not a number".to_string())
    );
}

#[test]
fn default_threads_bounded_by_cpus() {
    assert_eq!(default_threads(4), 4);
    assert_eq!(default_threads(32), 10);
}

#[test]
fn clamp_concurrent_accepts_the_largest_value() {
    let max = usize::MAX.to_string();
    assert_eq!(clamp_concurrent(&max), Ok(usize::MAX));
    let over = format!("{}0", max);
    assert_eq!(
        clamp_concurrent(&over),
        Err(format!("'{}' is not a number", over))
    );
}

#[test]
fn default_configuration() {
    let d = Args::default();
    assert_eq!(d.concurrent_fetch, default_concurrent_requests());
    assert_eq!(d.unnamed, default_unnamed());
    assert_eq!(d.unnamed, "__file.dat");
    assert_eq!(d.connect_timeout, default_connect_timeout());
    assert_eq!(d.fetch_timeout, default_fetch_timeout());
    assert_eq!(d.max_redirects, default_max_redirects());
    assert!(!d.no_etags);
    assert_eq!(d.skip_file, None);
}
