use alist_cli::api::{
    classify_listing, get_endpoint, list_endpoint, raw_url_from, request_for, Listing, SyncError,
};
use alist_cli::paths::{
    extension, join_child, join_local, local_destination, trim_leading_slashes,
    with_strm_extension,
};
use alist_cli::plan::placeholder_text;
use alist_cli::{ApiData, ApiResponse, EntryInfo, FileInfo, FoldersInfo};

fn entry(name: &str, is_dir: bool) -> EntryInfo {
    EntryInfo {
        name: name.to_string(),
        size: 0,
        is_dir,
        modified: String::new(),
        sign: String::new(),
        thumb: String::new(),
        file_type: 0,
        created: None,
        hashinfo: None,
        hash_info: None,
    }
}

fn folder(content: Option<Vec<EntryInfo>>) -> FoldersInfo {
    FoldersInfo {
        content,
        total: 0,
        readme: String::new(),
        write: false,
        provider: "Local".to_string(),
        header: String::new(),
    }
}

fn file_info(raw_url: &str) -> FileInfo {
    FileInfo {
        name: "x".to_string(),
        size: 1,
        is_dir: false,
        modified: String::new(),
        sign: String::new(),
        thumb: String::new(),
        file_type: 0,
        created: None,
        hashinfo: None,
        hash_info: None,
        raw_url: raw_url.to_string(),
        readme: String::new(),
        header: String::new(),
        provider: "Local".to_string(),
        related: None,
    }
}

#[test]
fn child_paths_join_with_a_slash() {
    assert_eq!(join_child("/A", "movie.mkv"), "/A/movie.mkv");
    assert_eq!(join_child("/", "A"), "//A");
}

#[test]
fn extensions_follow_the_last_dot_of_the_file_name() {
    assert_eq!(extension("/A/movie.mkv").as_deref(), Some("mkv"));
    assert_eq!(extension("/A/archive.tar.gz").as_deref(), Some("gz"));
    assert_eq!(extension("/A.dir/noext"), None);
    assert_eq!(extension("/A/.hidden"), None);
    assert_eq!(extension("/A/.."), None);
    assert_eq!(extension("/A/name."), Some(String::new()));
}

#[test]
fn strm_path_replaces_the_extension() {
    assert_eq!(with_strm_extension("A/movie.mkv", "mkv"), "A/movie.strm");
    assert_eq!(with_strm_extension("A/show.m2ts", "m2ts"), "A/show.strm");
}

#[test]
fn local_paths_drop_leading_slashes() {
    assert_eq!(trim_leading_slashes("//A/b"), "A/b");
    assert_eq!(local_destination("out", "/A/movie.mkv"), "out/A/movie.mkv");
    assert_eq!(local_destination("out/", "//A"), "out/A");
    assert_eq!(join_local("", "A/b"), "A/b");
}

#[test]
fn endpoints_and_request_body() {
    assert_eq!(list_endpoint("http://h:5244"), "http://h:5244/api/fs/list");
    assert_eq!(get_endpoint("http://h:5244"), "http://h:5244/api/fs/get");
    let r = request_for("/A");
    assert_eq!(r.path, "/A");
    assert_eq!(r.password, "");
    assert_eq!(r.page, 1);
    assert_eq!(r.per_page, 0);
    assert!(!r.refresh);
}

#[test]
fn listing_replies_are_read() {
    let ok = ApiResponse {
        code: 200,
        message: "success".to_string(),
        data: Some(ApiData::FoldersInfo(folder(Some(vec![entry("a", false)])))),
    };
    match classify_listing(Ok(ok)) {
        Ok(Listing::Entries { entries, provider }) => {
            assert_eq!(entries.len(), 1);
            assert_eq!(provider, "Local");
        },
        other => panic!("unexpected {other:?}"),
    }
    let empty = ApiResponse {
        code: 200,
        message: String::new(),
        data: Some(ApiData::FoldersInfo(folder(None))),
    };
    assert!(matches!(classify_listing(Ok(empty)), Ok(Listing::Empty)));
    let refused = ApiResponse { code: 403, message: "no".to_string(), data: None };
    match classify_listing(Ok(refused)) {
        Err(SyncError::ApiError { code, message }) => {
            assert_eq!(code, 403);
            assert_eq!(message, "no");
        },
        other => panic!("unexpected {other:?}"),
    }
    let wrong = ApiResponse {
        code: 200,
        message: String::new(),
        data: Some(ApiData::FileInfo(Box::new(file_info("http://x/")))),
    };
    assert!(matches!(classify_listing(Ok(wrong)), Err(SyncError::ProtocolError)));
    let down = classify_listing(Err(SyncError::HttpStatus(502)));
    assert!(matches!(down, Err(SyncError::HttpStatus(502))));
}

#[test]
fn file_information_replies_are_read() {
    let ok = ApiResponse {
        code: 200,
        message: String::new(),
        data: Some(ApiData::FileInfo(Box::new(file_info("http://h/d/x?sign=1")))),
    };
    assert_eq!(raw_url_from(Ok(ok)).unwrap(), "http://h/d/x?sign=1");
    let wrong = ApiResponse {
        code: 200,
        message: String::new(),
        data: Some(ApiData::FoldersInfo(folder(None))),
    };
    assert!(matches!(raw_url_from(Ok(wrong)), Err(SyncError::ProtocolError)));
    let refused = ApiResponse { code: 500, message: "boom".to_string(), data: None };
    assert!(matches!(raw_url_from(Ok(refused)), Err(SyncError::ApiError { code: 500, .. })));
}

#[test]
fn placeholder_text_is_the_normalised_url() {
    assert_eq!(placeholder_text("HTTP://Host/a b").unwrap(), "http://host/a%20b");
    assert_eq!(placeholder_text("http://h/d/x?sign=1").unwrap(), "http://h/d/x?sign=1");
    assert!(matches!(placeholder_text("not a url"), Err(SyncError::ProtocolError)));
}
