use alist_cli::api::{Listing, SyncError};
use alist_cli::config::{get_config, Config};
use alist_cli::crawl::{CrawlAction, Crawler};
use alist_cli::download::{
    download_retry_policy, DownloadReport, DownloadTask, TaskAction, TaskEvent,
};
use alist_cli::plan::{expected_hash, plan_download, plan_mirror, provider_checksum, ItemPlan};
use alist_cli::reconcile::{expected_local_paths, prunable_dirs, removable_files};
use alist_cli::retry::RetryPolicy;
use alist_cli::{ApiData, ApiResponse, EntryInfo, EntryWithPath, FileInfo, HashObject};

fn entry(name: &str, is_dir: bool, hash: Option<HashObject>) -> EntryInfo {
    EntryInfo {
        name: name.to_string(),
        size: 0,
        is_dir,
        modified: String::new(),
        sign: String::new(),
        thumb: String::new(),
        file_type: 0,
        created: None,
        hashinfo: None,
        hash_info: hash,
    }
}

fn rows(entries: Vec<EntryInfo>, provider: &str) -> Result<Listing, SyncError> {
    Ok(Listing::Entries { entries, provider: provider.to_string() })
}

fn listed_path(a: &CrawlAction) -> (String, u64) {
    match a {
        CrawlAction::List { path, delay_ms } => (path.clone(), *delay_ms),
        CrawlAction::Finished => panic!("crawl finished early"),
    }
}

fn url_reply(url: &str) -> Result<ApiResponse, SyncError> {
    Ok(ApiResponse {
        code: 200,
        message: String::new(),
        data: Some(ApiData::FileInfo(Box::new(FileInfo {
            name: "f".to_string(),
            size: 1,
            is_dir: false,
            modified: String::new(),
            sign: String::new(),
            thumb: String::new(),
            file_type: 0,
            created: None,
            hashinfo: None,
            hash_info: None,
            raw_url: url.to_string(),
            readme: String::new(),
            header: String::new(),
            provider: "Local".to_string(),
            related: None,
        }))),
    })
}

fn sha1_of_abc() -> HashObject {
    HashObject::Sha1 { sha1: "a9993e364706816aba3e25717850c26c9cd0d89d".to_string() }
}

fn strings(v: &[&str]) -> Vec<String> {
    v.iter().map(|s| s.to_string()).collect()
}

#[test]
fn crawl_lists_repeated_directories_once() {
    let mut c = Crawler::new("/A".to_string());
    let (p, d) = listed_path(&c.request());
    assert_eq!((p.as_str(), d), ("/A", 0));
    let a = c.on_listing(rows(
        vec![entry("sub", true, None), entry("sub", true, None), entry("x.jpg", false, None)],
        "Local",
    ));
    let (p, _) = listed_path(&a);
    assert_eq!(p, "/A/sub");
    let a = c.on_listing(rows(vec![entry("deep", true, None)], "Local"));
    let (p, _) = listed_path(&a);
    assert_eq!(p, "/A/sub/deep");
    let a = c.on_listing(Ok(Listing::Empty));
    assert!(matches!(a, CrawlAction::Finished));
    assert!(c.is_finished());
    let items = c.into_items();
    let paths: Vec<&str> = items.iter().map(|i| i.path_str.as_str()).collect();
    assert_eq!(paths, vec!["/A/sub", "/A/sub", "/A/x.jpg", "/A/sub/deep"]);
    assert_eq!(items[2].provider, "Local");
}

#[test]
fn crawl_treats_missing_content_as_empty_without_retry() {
    let mut c = Crawler::new("/A".to_string());
    let a = c.on_listing(Ok(Listing::Empty));
    assert!(matches!(a, CrawlAction::Finished));
    assert!(c.abandoned_dirs().is_empty());
    assert!(c.into_items().is_empty());
}

#[test]
fn crawl_retries_then_gives_up_and_goes_on() {
    let mut c = Crawler::new("/A".to_string());
    c.on_listing(rows(vec![entry("bad", true, None), entry("good", true, None)], "Local"));
    for _ in 0..3 {
        let a = c.on_listing(Err(SyncError::HttpStatus(500)));
        assert_eq!(listed_path(&a), ("/A/bad".to_string(), 1000));
    }
    let a = c.on_listing(Err(SyncError::ProtocolError));
    assert_eq!(listed_path(&a), ("/A/good".to_string(), 0));
    assert_eq!(c.abandoned_dirs(), &vec!["/A/bad".to_string()]);
    let a = c.on_listing(rows(vec![entry("f.nfo", false, None)], "Local"));
    assert!(matches!(a, CrawlAction::Finished));
    assert_eq!(c.into_items().len(), 3);
}

#[test]
fn crawl_recovers_after_a_failed_listing() {
    let mut c = Crawler::new("/A".to_string());
    let a = c.on_listing(Err(SyncError::RateLimiterTimeout));
    assert_eq!(listed_path(&a), ("/A".to_string(), 1000));
    let a = c.on_listing(rows(vec![entry("m.mkv", false, None)], "Local"));
    assert!(matches!(a, CrawlAction::Finished));
    assert_eq!(c.into_items()[0].path_str, "/A/m.mkv");
}

#[test]
fn backoff_doubles_and_is_capped() {
    let p = download_retry_policy();
    assert_eq!(p.max_attempts, 3);
    assert_eq!(p.backoff_ms(1), 500);
    assert_eq!(p.backoff_ms(2), 1000);
    assert_eq!(p.backoff_ms(5), 8000);
    assert_eq!(p.backoff_ms(6), 10000);
    assert_eq!(p.backoff_ms(40), 10000);
    let big = RetryPolicy { max_attempts: 9, base_delay_ms: u64::MAX / 2 + 1, max_delay_ms: u64::MAX };
    assert_eq!(big.backoff_ms(3), u64::MAX);
    assert!(p.retries_after(2));
    assert!(!p.retries_after(3));
}

#[test]
fn correct_local_copy_is_not_fetched() {
    let mut t = DownloadTask::new(Some(sha1_of_abc()));
    assert!(matches!(t.action(), TaskAction::HashLocal));
    let a = t.on_event(TaskEvent::LocalContent(Some(b"abc".to_vec())));
    assert!(matches!(a, TaskAction::Finished));
    assert_eq!(t.fetch_count(), 0);
    assert!(t.into_outcome().is_ok());
}

#[test]
fn second_run_after_a_verified_download_makes_no_get() {
    let mut first = DownloadTask::new(Some(sha1_of_abc()));
    first.on_event(TaskEvent::LocalContent(None));
    first.on_event(TaskEvent::UrlReply(url_reply("http://h/f")));
    first.on_event(TaskEvent::Response(Ok(200)));
    first.on_event(TaskEvent::Saved(Ok(())));
    let a = first.on_event(TaskEvent::SavedContent(Some(b"abc".to_vec())));
    assert!(matches!(a, TaskAction::Finished));
    assert_eq!(first.fetch_count(), 1);
    let mut second = DownloadTask::new(Some(sha1_of_abc()));
    let a = second.on_event(TaskEvent::LocalContent(Some(b"abc".to_vec())));
    assert!(matches!(a, TaskAction::Finished));
    assert_eq!(second.fetch_count(), 0);
}

#[test]
fn corrupted_download_is_a_checksum_mismatch() {
    let mut t = DownloadTask::new(Some(sha1_of_abc()));
    t.on_event(TaskEvent::LocalContent(None));
    let a = t.on_event(TaskEvent::UrlReply(url_reply("http://h/f")));
    match a {
        TaskAction::Fetch { url } => assert_eq!(url, "http://h/f"),
        other => panic!("unexpected {other:?}"),
    }
    t.on_event(TaskEvent::Response(Ok(200)));
    let a = t.on_event(TaskEvent::Saved(Ok(())));
    assert!(matches!(a, TaskAction::ReadSaved));
    let a = t.on_event(TaskEvent::SavedContent(Some(b"abd".to_vec())));
    assert!(matches!(a, TaskAction::Wait { delay_ms: 500 }));
}

#[test]
fn download_failing_twice_then_succeeding_takes_three_attempts() {
    let mut t = DownloadTask::new(None);
    assert!(matches!(t.action(), TaskAction::RequestUrl));
    let a = t.on_event(TaskEvent::UrlReply(Err(SyncError::HttpError("reset".to_string()))));
    assert!(matches!(a, TaskAction::Wait { delay_ms: 500 }));
    let a = t.on_event(TaskEvent::Waited);
    assert!(matches!(a, TaskAction::RequestUrl));
    t.on_event(TaskEvent::UrlReply(url_reply("http://h/f")));
    let a = t.on_event(TaskEvent::Response(Ok(503)));
    assert!(matches!(a, TaskAction::Wait { delay_ms: 1000 }));
    t.on_event(TaskEvent::Waited);
    t.on_event(TaskEvent::UrlReply(url_reply("http://h/f")));
    t.on_event(TaskEvent::Response(Ok(200)));
    let a = t.on_event(TaskEvent::Saved(Ok(())));
    assert!(matches!(a, TaskAction::Finished));
    assert_eq!(t.attempts(), 3);
    assert_eq!(t.fetch_count(), 2);
    assert!(t.into_outcome().is_ok());
}

#[test]
fn download_failing_every_attempt_is_reported_without_stopping_others() {
    let mut t = DownloadTask::new(None);
    for attempt in 1..=3u32 {
        assert_eq!(t.attempts(), attempt);
        let a = t.on_event(TaskEvent::UrlReply(Ok(ApiResponse {
            code: 500,
            message: "server".to_string(),
            data: None,
        })));
        if attempt < 3 {
            assert!(matches!(a, TaskAction::Wait { .. }));
            t.on_event(TaskEvent::Waited);
        } else {
            assert!(matches!(a, TaskAction::Finished));
        }
    }
    let outcome = t.into_outcome();
    assert!(matches!(outcome, Err(SyncError::ApiError { code: 500, .. })));
    let mut other = DownloadTask::new(None);
    other.on_event(TaskEvent::UrlReply(url_reply("http://h/g")));
    other.on_event(TaskEvent::Response(Ok(204)));
    other.on_event(TaskEvent::Saved(Ok(())));
    let mut report = DownloadReport::new();
    report.record("/A/bad".to_string(), outcome);
    report.record("/A/good".to_string(), other.into_outcome());
    assert_eq!(report.succeeded_count(), 1);
    assert_eq!(report.failed_count(), 1);
    assert_eq!(report.failures()[0].0, "/A/bad");
    assert!(!report.all_succeeded());
}

#[test]
fn events_out_of_turn_are_ignored() {
    let mut t = DownloadTask::new(None);
    let a = t.on_event(TaskEvent::Waited);
    assert!(matches!(a, TaskAction::RequestUrl));
    let a = t.on_event(TaskEvent::Saved(Ok(())));
    assert!(matches!(a, TaskAction::RequestUrl));
    assert_eq!(t.attempts(), 1);
}

#[test]
fn untrusted_provider_loses_its_hash() {
    let trusted = EntryWithPath {
        entry: entry("a.jpg", false, Some(sha1_of_abc())),
        path_str: "/A/a.jpg".to_string(),
        provider: "Local".to_string(),
    };
    assert!(provider_checksum(&trusted));
    assert!(expected_hash(&trusted).is_some());
    let untrusted = EntryWithPath {
        entry: entry("a.jpg", false, Some(sha1_of_abc())),
        path_str: "/A/a.jpg".to_string(),
        provider: "BaiduNetdisk".to_string(),
    };
    assert!(!provider_checksum(&untrusted));
    assert!(expected_hash(&untrusted).is_none());
    match plan_download(&untrusted, "out") {
        ItemPlan::Download { dest, expected } => {
            assert_eq!(dest, "out/A/a.jpg");
            assert!(expected.is_none());
        },
        other => panic!("unexpected {other:?}"),
    }
}

#[test]
fn reconciliation_keeps_placeholders_and_removes_stale_files() {
    let expected = strings(&["a/x.strm"]);
    let local = strings(&["a/x.mkv", "a/x.strm", "a/stale.jpg"]);
    let removable = removable_files(&local, &expected);
    assert_eq!(removable, strings(&["a/x.mkv", "a/stale.jpg"]));
    let remaining = strings(&["a/x.strm"]);
    let dirs = strings(&["a", ""]);
    assert!(prunable_dirs(&dirs, &remaining).is_empty());
    let none_left: Vec<String> = Vec::new();
    assert_eq!(prunable_dirs(&dirs, &none_left), strings(&["a", ""]));
}

#[test]
fn pruning_keeps_directories_that_still_hold_files() {
    let dirs = strings(&["a/b", "a/bc", "a", ""]);
    let remaining = strings(&["a/bc/f.txt"]);
    assert_eq!(prunable_dirs(&dirs, &remaining), strings(&["a/b"]));
}

#[test]
fn full_run_scenario() {
    let mut c = Crawler::new("/A".to_string());
    let a = c.on_listing(rows(
        vec![
            entry(
                "movie.mkv",
                false,
                Some(HashObject::Sha1 { sha1: "deadbeef00000000000000000000000000000000".to_string() }),
            ),
            entry("sub", true, None),
        ],
        "Other",
    ));
    assert_eq!(listed_path(&a).0, "/A/sub");
    let a = c.on_listing(rows(
        vec![entry(
            "poster.jpg",
            false,
            Some(HashObject::Sha1 { sha1: "edb6532cf2582f6718b91673a5c7306af44a598c".to_string() }),
        )],
        "Other",
    ));
    assert!(matches!(a, CrawlAction::Finished));
    let items = c.into_items();

    let mut placeholders = Vec::new();
    let mut downloads = Vec::new();
    for item in &items {
        match plan_mirror(item, "out") {
            ItemPlan::Placeholder { dest } => placeholders.push(dest),
            ItemPlan::Download { dest, expected } => downloads.push((dest, expected)),
            ItemPlan::Skip => {},
        }
    }
    assert_eq!(placeholders, strings(&["out/A/movie.strm"]));
    assert_eq!(downloads.len(), 1);
    assert_eq!(downloads[0].0, "out/A/sub/poster.jpg");

    let mut t = DownloadTask::new(downloads.pop().unwrap().1);
    t.on_event(TaskEvent::LocalContent(None));
    t.on_event(TaskEvent::UrlReply(url_reply("http://h/d/A/sub/poster.jpg")));
    t.on_event(TaskEvent::Response(Ok(200)));
    t.on_event(TaskEvent::Saved(Ok(())));
    let a = t.on_event(TaskEvent::SavedContent(Some(b"poster bytes".to_vec())));
    assert!(matches!(a, TaskAction::Finished));
    assert!(t.into_outcome().is_ok());

    let expected = expected_local_paths(&items);
    assert_eq!(expected, strings(&["A/movie.strm", "A/sub/poster.jpg"]));
    let local = strings(&["A/movie.strm", "A/sub/poster.jpg"]);
    assert!(removable_files(&local, &expected).is_empty());
    assert!(prunable_dirs(&strings(&["A/sub", "A"]), &local).is_empty());
}

#[test]
fn config_defaults_and_options() {
    let d = Config::default_test_config();
    assert_eq!(d.server_address, "http://localhost:5244");
    assert_eq!(d.threads, 4);
    assert_eq!(d.tpslimit, u32::MAX);
    assert_eq!(d.concurrent_limit, 4);
    assert_eq!(d.timeout, 10);
    let c = Config::from_options("http://s".to_string(), 4, "t".to_string(), 0, 30);
    assert_eq!(c.concurrent_limit, 10);
    assert_eq!(c.requests_per_second(), 1);
    let c = Config::from_options("http://s".to_string(), 16, "t".to_string(), 5, 30);
    assert_eq!(c.concurrent_limit, 16);
    assert_eq!(c.requests_per_second(), 5);
    assert_eq!(get_config(None).server_address, "http://localhost:5244");
    assert_eq!(get_config(Some(c)).threads, 16);
}

#[test]
fn final_errors_are_the_last_tries_failures() {
    let mut t = DownloadTask::new(Some(sha1_of_abc()));
    for attempt in 1..=3u32 {
        t.on_event(TaskEvent::LocalContent(Some(b"stale".to_vec())));
        t.on_event(TaskEvent::UrlReply(url_reply("http://h/f")));
        t.on_event(TaskEvent::Response(Ok(200)));
        t.on_event(TaskEvent::Saved(Ok(())));
        let a = t.on_event(TaskEvent::SavedContent(Some(b"abd".to_vec())));
        if attempt < 3 {
            assert!(matches!(a, TaskAction::Wait { .. }));
            t.on_event(TaskEvent::Waited);
        } else {
            assert!(matches!(a, TaskAction::Finished));
        }
    }
    assert_eq!(t.fetch_count(), 3);
    assert!(matches!(t.into_outcome(), Err(SyncError::ChecksumMismatch)));

    let mut t = DownloadTask::new(None);
    for attempt in 1..=3u32 {
        t.on_event(TaskEvent::UrlReply(url_reply("http://h/f")));
        t.on_event(TaskEvent::Response(Ok(200)));
        let a = t.on_event(TaskEvent::Saved(Err(SyncError::FilesystemError("disk full".to_string()))));
        if attempt < 3 {
            assert!(matches!(a, TaskAction::Wait { .. }));
            t.on_event(TaskEvent::Waited);
        }
    }
    assert!(matches!(t.into_outcome(), Err(SyncError::FilesystemError(m)) if m == "disk full"));
}
