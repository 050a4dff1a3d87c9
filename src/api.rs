//! The service's request and reply shapes: endpoints, request bodies, and
//! the reading of reply envelopes into listings, URLs or errors.

use vstd::prelude::*;

use crate::types::{ApiData, ApiResponse, EntryInfo, FileInfoRequest};

verus! {

/// The failures of the engine.
#[derive(Debug)]
pub enum SyncError {
    /// The transport failed, as described.
    HttpError(String),
    /// The reply carried this non-success HTTP status.
    HttpStatus(u16),
    /// The reply did not have the expected shape.
    ProtocolError,
    /// The service reported a failure in its own envelope.
    ApiError { code: u32, message: String },
    /// No request token became available within the wait limit.
    RateLimiterTimeout,
    /// A downloaded file does not match its expected hash.
    ChecksumMismatch,
    /// A local file operation failed.
    FilesystemError(String),
}

/// The application code of a successful reply.
pub const SUCCESS_CODE: u32 = 200;

/// What one directory listing yielded.
#[derive(Debug)]
pub enum Listing {
    /// The rows of the directory, with the provider that served them.
    Entries { entries: Vec<EntryInfo>, provider: String },
    /// The service reported no content collection: an empty directory.
    Empty,
}

/// How a listing reply is read: a transport failure stays as it is, a
/// non-success code is an `ApiError` with the service's code and message,
/// a success without a directory listing is a `ProtocolError`, and a
/// listing without content is an empty directory.
pub open spec fn listing_of(reply: Result<ApiResponse, SyncError>) -> Result<Listing, SyncError> {
    match reply {
        Err(e) => Err(e),
        Ok(resp) => if resp.code != SUCCESS_CODE {
            Err(SyncError::ApiError { code: resp.code, message: resp.message })
        } else {
            match resp.data {
                Some(ApiData::FoldersInfo(f)) => match f.content {
                    Some(entries) => Ok(Listing::Entries { entries, provider: f.provider }),
                    None => Ok(Listing::Empty),
                },
                _ => Err(SyncError::ProtocolError),
            }
        },
    }
}

/// Reads a listing reply (see `listing_of`).
pub fn classify_listing(reply: Result<ApiResponse, SyncError>) -> (r: Result<Listing, SyncError>)
    ensures
        r == listing_of(reply),
{
    match reply {
        Err(e) => Err(e),
        Ok(resp) => {
            if resp.code != SUCCESS_CODE {
                return Err(SyncError::ApiError { code: resp.code, message: resp.message });
            }
            match resp.data {
                Some(ApiData::FoldersInfo(f)) => match f.content {
                    Some(entries) => Ok(Listing::Entries { entries, provider: f.provider }),
                    None => Ok(Listing::Empty),
                },
                _ => Err(SyncError::ProtocolError),
            }
        },
    }
}

/// How a file-information reply is read: the descriptor's download URL
/// on success, the same errors as a listing otherwise.
pub open spec fn raw_url_of(reply: Result<ApiResponse, SyncError>) -> Result<String, SyncError> {
    match reply {
        Err(e) => Err(e),
        Ok(resp) => if resp.code != SUCCESS_CODE {
            Err(SyncError::ApiError { code: resp.code, message: resp.message })
        } else {
            match resp.data {
                Some(ApiData::FileInfo(f)) => Ok(f.raw_url),
                _ => Err(SyncError::ProtocolError),
            }
        },
    }
}

/// Reads a file-information reply (see `raw_url_of`).
pub fn raw_url_from(reply: Result<ApiResponse, SyncError>) -> (r: Result<String, SyncError>)
    ensures
        r == raw_url_of(reply),
{
    match reply {
        Err(e) => Err(e),
        Ok(resp) => {
            if resp.code != SUCCESS_CODE {
                return Err(SyncError::ApiError { code: resp.code, message: resp.message });
            }
            match resp.data {
                Some(ApiData::FileInfo(f)) => Ok(f.raw_url),
                _ => Err(SyncError::ProtocolError),
            }
        },
    }
}

/// `server` followed by `suffix`.
fn endpoint(server: &str, suffix: &str) -> (r: String)
    ensures
        r@ == server@ + suffix@,
{
    let mut r = server.to_owned();
    r.append(suffix);
    r
}

/// The URL of the directory-listing call on `server`.
pub fn list_endpoint(server: &str) -> (r: String)
    ensures
        r@ == server@ + "/api/fs/list"@,
{
    endpoint(server, "/api/fs/list")
}

/// The URL of the file-information call on `server`.
pub fn get_endpoint(server: &str) -> (r: String)
    ensures
        r@ == server@ + "/api/fs/get"@,
{
    endpoint(server, "/api/fs/get")
}

/// The body of the listing or file-information request for `path`.
pub fn request_for(path: &str) -> (r: FileInfoRequest)
    ensures
        r.path@ == path@,
        r.password@ == Seq::<char>::empty(),
        r.page == 1,
        r.per_page == 0,
        !r.refresh,
{
    FileInfoRequest::for_path(path.to_owned())
}

/// A successful listing reply whose content is null reads as an empty
/// directory, not as a failure.
pub proof fn lemma_null_content_is_empty(resp: ApiResponse)
    requires
        resp.code == SUCCESS_CODE,
        resp.data matches Some(ApiData::FoldersInfo(f)) && f.content is None,
    ensures
        listing_of(Ok(resp)) == Ok::<Listing, SyncError>(Listing::Empty),
{
}

} // verus!
