//! Scenarios for the crawl coordinator: dedupe, scope and redirect
//! containment, the cache round trip, the atomic writer, the
//! classification of failures, and a two-level crawl.

use std::collections::HashMap;

use mirrorurl::args::Args;
use mirrorurl::dir::{dir_step, DirEvent, DirStep};
use mirrorurl::download::{temp_file_path, DownloadWriter, FinishAction};
use mirrorurl::etags::ETags;
use mirrorurl::html::process_html;
use mirrorurl::skip::SkipList;
use mirrorurl::skipreason::{SkipReason, SkipReasonErr};
use mirrorurl::state::State;
use mirrorurl::url::Url;
use mirrorurl::walk::{
    begin_walk, classify_response, finish_download, record_html, record_not_modified,
    record_outcome, BeginAction, ResponseClass, WalkError,
};

fn args(url: &str, target: &str) -> Args {
    let mut a = Args::default();
    a.url = url.to_string();
    a.target = target.to_string();
    a
}

fn new_state(url: &str) -> State {
    State::new(args(url, "download"), ETags::new(), SkipList::new()).unwrap()
}

enum Page {
    Html(String),
    File(String),
}

/// A miniature single-threaded coordinator over a fake site, driving
/// the library's decision functions exactly as the walker does.
fn crawl(state: &mut State, url: Url, site: &HashMap<String, Page>, paths: &mut Vec<String>) {
    let staged = match begin_walk(state, &url) {
        Ok(BeginAction::AlreadyProcessed) => return,
        Ok(BeginAction::Fetch(etag)) => etag,
        Err(e) => {
            record_outcome(state, &Err(e));
            return;
        }
    };
    let page = match site.get(&url.text) {
        Some(p) => p,
        None => {
            match classify_response(404, staged.is_some(), None, &url.text) {
                ResponseClass::HttpError(m) => {
                    record_outcome(state, &Err(WalkError::Hard(m)));
                }
                _ => unreachable!(),
            }
            return;
        }
    };
    match page {
        Page::Html(body) => {
            assert!(matches!(
                classify_response(200, false, Some("text/html"), &url.text),
                ResponseClass::Html
            ));
            record_html(state, body.len());
            let root = state.url().clone();
            let decisions = process_html(&root, &url, body);
            for d in decisions {
                match d {
                    Ok(child) => crawl(state, child, site, paths),
                    Err(e) => {
                        record_outcome(state, &Err(WalkError::Skip(e)));
                    }
                }
            }
        }
        Page::File(content) => {
            assert!(matches!(
                classify_response(200, false, Some("application/octet-stream"), &url.text),
                ResponseClass::Download
            ));
            match state.path_for_url(&url) {
                Ok(path) => {
                    let mut w = DownloadWriter::begin_download();
                    w.on_chunk(content.len());
                    match w.finish() {
                        FinishAction::Publish(bytes) => {
                            paths.push(path);
                            finish_download(state, &url, &url, None, bytes);
                        }
                        FinishAction::Discard => unreachable!(),
                    }
                }
                Err(e) => {
                    record_outcome(state, &Err(WalkError::Skip(e)));
                }
            }
        }
    }
}

#[test]
fn two_level_site_downloads_every_leaf_once() {
    let root_text = "http://example.com/root/";
    let mut site = HashMap::new();
    let mut root_body = String::from("<html><body>");
    for i in 1..=10 {
        root_body.push_str(&format!("<a href=\"{}/\">page</a>", i));
        let mut page_body = String::from("<html><body>");
        for j in 1..=10 {
            page_body.push_str(&format!("<a href=\"{}\">file</a>", j));
            site.insert(
                format!("http://example.com/root/{}/{}", i, j),
                Page::File("Hello, world!".to_string()),
            );
        }
        page_body.push_str("</body></html>");
        site.insert(
            format!("http://example.com/root/{}/", i),
            Page::Html(page_body),
        );
    }
    root_body.push_str("</body></html>");
    site.insert(root_text.to_string(), Page::Html(root_body));

    let mut state = new_state(root_text);
    let root = state.url().clone();
    let mut paths = Vec::new();
    crawl(&mut state, root, &site, &mut paths);

    let stats = state.get_stats();
    assert_eq!(stats.html_docs, 11);
    assert_eq!(stats.downloads, 100);
    assert_eq!(stats.skipped, 0);
    assert_eq!(stats.errored, 0);
    assert_eq!(paths.len(), 100);
    for i in 1..=10 {
        for j in 1..=10 {
            let expected = format!("download/{}/{}", i, j);
            assert!(paths.contains(&expected), "missing {}", expected);
        }
    }
}

#[test]
fn duplicate_links_fetch_once() {
    let root_text = "http://example.com/root";
    let mut site = HashMap::new();
    site.insert(
        root_text.to_string(),
        Page::Html(
            "<a href=\"/root/file1\">a</a><a href=\"root/file1\">b</a>".to_string(),
        ),
    );
    site.insert(
        "http://example.com/root/file1".to_string(),
        Page::File("x".to_string()),
    );
    let mut state = new_state(root_text);
    let root = state.url().clone();
    let mut paths = Vec::new();
    crawl(&mut state, root, &site, &mut paths);
    let stats = state.get_stats();
    assert_eq!(stats.downloads, 1);
    assert_eq!(stats.errored, 0);
    assert_eq!(stats.skipped, 0);
    assert_eq!(paths, vec!["download/file1".to_string()]);
}

#[test]
fn out_of_scope_link_is_skipped_not_errored() {
    let mut state = new_state("http://example.com/root");
    let root = state.url().clone();
    let d = mirrorurl::html::process_href(&root, &root, "http://elsewhere.com/x");
    let e = d.unwrap_err();
    assert!(matches!(e.reason, SkipReason::NotRelative));
    assert_eq!(
        e.message(),
        "Skipping http://elsewhere.com/x: URL is not relative to the base URL"
    );
    let log = record_outcome(&mut state, &Err(WalkError::Skip(e)));
    assert!(log.is_some());
    let stats = state.get_stats();
    assert_eq!(stats.skipped, 1);
    assert_eq!(stats.errored, 0);
    assert_eq!(stats.downloads, 0);
}

#[test]
fn href_gates_fire_in_order() {
    let state = new_state("http://example.com/root");
    let root = state.url().clone();
    let cases: Vec<(&str, fn(&SkipReason) -> bool)> = vec![
        ("../notrelative", |r| matches!(r, SkipReason::NotRelative)),
        ("file://some_file", |r| matches!(r, SkipReason::Transport)),
        ("http://example.com", |r| matches!(r, SkipReason::NotRelative)),
        ("#hash", |r| matches!(r, SkipReason::Fragment)),
        ("?query", |r| matches!(r, SkipReason::Query)),
        ("?query#hash", |r| matches!(r, SkipReason::Fragment)),
        ("/notrelative", |r| matches!(r, SkipReason::NotRelative)),
        ("http://[bad", |r| matches!(r, SkipReason::NotValid)),
    ];
    for (href, check) in cases {
        let e = mirrorurl::html::process_href(&root, &root, href).unwrap_err();
        assert!(check(&e.reason), "wrong reason for {}", href);
    }
    let ok = mirrorurl::html::process_href(&root, &root, "/root/file1").unwrap();
    assert_eq!(ok.text, "http://example.com/root/file1");
    let ok2 = mirrorurl::html::process_href(&root, &root, "root/file2").unwrap();
    assert_eq!(ok2.text, "http://example.com/root/file2");
}

#[test]
fn transport_skip_names_the_normalized_url() {
    let state = new_state("http://example.com/root");
    let root = state.url().clone();
    let e = mirrorurl::html::process_href(&root, &root, "file://some_file").unwrap_err();
    assert_eq!(
        e.message(),
        "Skipping file://some_file/: The transport is not supported"
    );
}

#[test]
fn redirect_containment() {
    let state = new_state("http://example.com/root");
    let inside = mirrorurl::html::process_href(
        state.url(),
        &state.url().clone(),
        "/root/afterfile",
    )
    .unwrap();
    let outside = mirrorurl::html::process_href(
        state.url(),
        &state.url().clone(),
        "http://example.com/other/extfile",
    );
    let outside = match outside {
        Err(e) => {
            // The link gate also rejects it; build the URL the policy sees.
            assert!(matches!(e.reason, SkipReason::NotRelative));
            Url {
                scheme: "http".to_string(),
                host: Some("example.com".to_string()),
                full_path: "/other/extfile".to_string(),
                has_query: false,
                has_fragment: false,
                text: "http://example.com/other/extfile".to_string(),
            }
        }
        Ok(_) => unreachable!(),
    };

    // A hop inside the subtree, chain under the ceiling: follow.
    assert!(state
        .check_redirect(1, "http://example.com/root/beforefile", &inside)
        .is_ok());

    // A hop leaving the subtree: abort as a skip naming the original URL.
    let e = state
        .check_redirect(1, "http://example.com/root/beforefile", &outside)
        .unwrap_err();
    assert!(matches!(e.reason, SkipReason::RedirectNotRel(_)));
    assert_eq!(
        e.message(),
        "Skipping http://example.com/root/beforefile: Redirect to \
         http://example.com/other/extfile is not relative to the base URL"
    );

    // A chain over the ceiling: abort as a skip, even for a valid hop.
    let e = state
        .check_redirect(11, "http://example.com/root", &inside)
        .unwrap_err();
    assert!(matches!(e.reason, SkipReason::TooManyRedirects));
    assert_eq!(e.message(), "Skipping http://example.com/root: Too many redirects");

    // Both aborts count as skips, not errors.
    let mut state = state;
    record_outcome(&mut state, &Err(WalkError::Skip(e)));
    let stats = state.get_stats();
    assert_eq!(stats.skipped, 1);
    assert_eq!(stats.errored, 0);
}

#[test]
fn cache_round_trip() {
    let root_text = "http://example.com/file";

    // Run 1: the server answers 200 with ETag v1; the file downloads
    // and the cache records v1.
    let mut state = State::new(args(root_text, "download"), ETags::new(), SkipList::new())
        .unwrap();
    let url = state.url().clone();
    match begin_walk(&mut state, &url).unwrap() {
        BeginAction::Fetch(None) => {}
        _ => unreachable!(),
    }
    assert!(matches!(
        classify_response(200, false, Some("application/octet-stream"), root_text),
        ResponseClass::Download
    ));
    finish_download(&mut state, &url, &url, Some("v1"), 13);
    assert!(state.save_etags());
    let persisted: Vec<(String, String)> = state.new_etags().pairs().clone();
    assert_eq!(persisted, vec![(root_text.to_string(), "v1".to_string())]);
    let stats = state.get_stats();
    assert_eq!(stats.downloads, 1);
    assert_eq!(stats.not_modified, 0);

    // Run 2: the persisted cache is loaded; the ETag is staged, the
    // server answers 304, and nothing is downloaded again.
    let mut state2 = State::new(
        args(root_text, "download"),
        ETags::from_pairs(persisted),
        SkipList::new(),
    )
    .unwrap();
    let url2 = state2.url().clone();
    let staged = match begin_walk(&mut state2, &url2).unwrap() {
        BeginAction::Fetch(etag) => etag,
        _ => unreachable!(),
    };
    assert_eq!(staged.as_deref(), Some("v1"));
    assert!(matches!(
        classify_response(304, staged.is_some(), None, root_text),
        ResponseClass::NotModified
    ));
    let log = record_not_modified(&mut state2, &url2);
    assert_eq!(log, "http://example.com/file is not modified");
    let stats2 = state2.get_stats();
    assert_eq!(stats2.not_modified, 1);
    assert_eq!(stats2.downloads, 0);
    // Nothing was recorded this run, so nothing is persisted again.
    assert!(!state2.save_etags());
}

#[test]
fn interrupted_write_never_publishes() {
    let mut w = DownloadWriter::begin_download();
    w.on_chunk(4);
    w.on_chunk(4);
    w.on_failure();
    // Chunks after the failure change nothing about the outcome.
    w.on_chunk(4);
    assert!(matches!(w.finish(), FinishAction::Discard));
}

#[test]
fn complete_write_publishes_the_byte_count() {
    let mut w = DownloadWriter::begin_download();
    w.on_chunk(4);
    w.on_chunk(9);
    match w.finish() {
        FinishAction::Publish(bytes) => assert_eq!(bytes, 13),
        FinishAction::Discard => unreachable!(),
    }
}

#[test]
fn root_404_counts_one_error_and_nothing_else() {
    let root_text = "http://example.com/root";
    let site = HashMap::new();
    let mut state = new_state(root_text);
    let root = state.url().clone();
    let mut paths = Vec::new();
    crawl(&mut state, root, &site, &mut paths);
    let stats = state.get_stats();
    assert_eq!(stats.errored, 1);
    assert_eq!(stats.downloads, 0);
    assert_eq!(stats.html_docs, 0);
    assert_eq!(stats.skipped, 0);
    assert!(paths.is_empty());
}

#[test]
fn http_error_message_names_status_and_url() {
    match classify_response(404, false, None, "http://example.com/root") {
        ResponseClass::HttpError(m) => {
            assert_eq!(m, "Status 404 fetching http://example.com/root");
        }
        _ => unreachable!(),
    }
    // 304 without a staged ETag is a hard error too.
    match classify_response(304, false, None, "http://example.com/x") {
        ResponseClass::HttpError(m) => {
            assert_eq!(m, "Status 304 fetching http://example.com/x");
        }
        _ => unreachable!(),
    }
}

#[test]
fn state_new_validates_the_root_url() {
    let e = match State::new(args("file://x/y", "download"), ETags::new(), SkipList::new()) {
        Err(m) => m,
        Ok(_) => unreachable!(),
    };
    assert_eq!(e, "Skipping file://x/y: The transport is not supported");
    let e = match State::new(args("not a url", "download"), ETags::new(), SkipList::new()) {
        Err(m) => m,
        Ok(_) => unreachable!(),
    };
    assert_eq!(e, "Failed to parse URL not a url");
}

#[test]
fn path_for_url_maps_the_root_to_the_unnamed_file() {
    let state = new_state("http://example.com/file");
    let url = state.url().clone();
    assert_eq!(state.path_for_url(&url).unwrap(), "download/__file.dat");
    assert_eq!(state.etags_file(), "download/.etags.json");
}

#[test]
fn path_for_url_honours_the_skip_list() {
    let skip = SkipList::from_entries(vec!["secret".to_string()]);
    let state = State::new(args("http://example.com/root/", "download"), ETags::new(), skip)
        .unwrap();
    let root = state.url().clone();
    let hit = mirrorurl::html::process_href(&root, &root, "secret/file").unwrap();
    let e = state.path_for_url(&hit).unwrap_err();
    assert!(matches!(e.reason, SkipReason::SkipList));
    assert_eq!(
        e.message(),
        "Skipping http://example.com/root/secret/file: Path is in the skip list"
    );
    let ok = mirrorurl::html::process_href(&root, &root, "open/file").unwrap();
    assert_eq!(state.path_for_url(&ok).unwrap(), "download/open/file");
}

#[test]
fn skip_reason_messages() {
    let m = |r: SkipReason| SkipReasonErr::new("u".to_string(), r).message();
    assert_eq!(m(SkipReason::Transport), "Skipping u: The transport is not supported");
    assert_eq!(m(SkipReason::SkipList), "Skipping u: Path is in the skip list");
    assert_eq!(
        m(SkipReason::NotRelative),
        "Skipping u: URL is not relative to the base URL"
    );
    assert_eq!(m(SkipReason::Fragment), "Skipping u: URL is a fragment");
    assert_eq!(m(SkipReason::Query), "Skipping u: URL has a query");
    assert_eq!(m(SkipReason::NotValid), "Skipping u: URL is not valid");
    assert_eq!(
        m(SkipReason::RedirectNotRel("v".to_string())),
        "Skipping u: Redirect to v is not relative to the base URL"
    );
    assert_eq!(m(SkipReason::TooManyRedirects), "Skipping u: Too many redirects");
}

#[test]
fn temp_path_appends_the_suffix() {
    assert_eq!(temp_file_path("download/file1"), "download/file1.mirrorurl");
}

#[test]
fn directory_creation_steps() {
    assert!(matches!(dir_step(&DirEvent::StatIsDir, false, "d"), DirStep::Done));
    assert!(matches!(dir_step(&DirEvent::Created, false, "d"), DirStep::Done));
    assert!(matches!(dir_step(&DirEvent::StatMissing, false, "d"), DirStep::TryCreate));
    assert!(matches!(dir_step(&DirEvent::StatFailed, false, "d"), DirStep::FailIo));
    match dir_step(&DirEvent::StatIsOther, false, "download/x") {
        DirStep::FailNotDirectory(m) => {
            assert_eq!(m, "download/x already exists and is not a directory");
        }
        _ => unreachable!(),
    }
    // A create that lost the race is answered with one more stat, once.
    assert!(matches!(dir_step(&DirEvent::CreateFailed, false, "d"), DirStep::RetryStat));
    assert!(matches!(dir_step(&DirEvent::CreateFailed, true, "d"), DirStep::FailIo));
}

#[test]
fn empty_html_document_has_no_links() {
    let state = new_state("http://example.com/root");
    let root = state.url().clone();
    let decisions = process_html(&root, &root, "<html><body></body></html>");
    assert!(decisions.is_empty());
}
