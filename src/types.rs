//! The data model of the remote service: listing rows, folder listings,
//! file descriptors, reply envelopes and the hash that a row may carry.

use vstd::prelude::*;

verus! {

/// The content hash that the service reports for a file, tagged with its
/// algorithm.
#[derive(Debug)]
pub enum HashObject {
    Sha1 { sha1: String },
    Md5 { md5: String },
}

impl HashObject {
    /// The hash value exactly as the service reported it.
    pub open spec fn reported(&self) -> Seq<char> {
        match self {
            HashObject::Sha1 { sha1 } => sha1@,
            HashObject::Md5 { md5 } => md5@,
        }
    }

    /// The hash value in lower case, ready to be compared with a
    /// computed hex digest.
    pub fn as_hash_str(&self) -> (r: String)
        ensures
            r@ == crate::checksum::lower_of(self.reported()),
    {
        match self {
            HashObject::Sha1 { sha1 } => crate::checksum::to_lower(sha1.as_str()),
            HashObject::Md5 { md5 } => crate::checksum::to_lower(md5.as_str()),
        }
    }
}

impl Clone for HashObject {
    fn clone(&self) -> (r: Self)
        ensures
            r == *self,
    {
        match self {
            HashObject::Sha1 { sha1 } => HashObject::Sha1 { sha1: sha1.clone() },
            HashObject::Md5 { md5 } => HashObject::Md5 { md5: md5.clone() },
        }
    }
}

/// A copy of an optional hash that keeps it exactly.
pub fn copy_hash(h: &Option<HashObject>) -> (r: Option<HashObject>)
    ensures
        r == *h,
{
    match h {
        Some(x) => Some(x.clone()),
        None => None,
    }
}

/// Everything the service reports about one file, as returned by the
/// file-information call.  `raw_url` is a short-lived download URL.
#[derive(Debug)]
pub struct FileInfo {
    pub name: String,
    pub size: u64,
    pub is_dir: bool,
    pub modified: String,
    pub sign: String,
    pub thumb: String,
    pub file_type: u32,
    pub created: Option<String>,
    pub hashinfo: Option<String>,
    pub hash_info: Option<HashObject>,
    pub raw_url: String,
    pub readme: String,
    pub header: String,
    pub provider: String,
    pub related: Option<serde_json::Value>,
}

/// The body of a listing or file-information request.
#[derive(Debug)]
pub struct FileInfoRequest {
    pub path: String,
    pub password: String,
    pub page: u32,
    pub per_page: u32,
    pub refresh: bool,
}

impl FileInfoRequest {
    /// The request for `path`: no password, first page, all entries on it,
    /// no cache refresh.
    pub fn for_path(path: String) -> (r: FileInfoRequest)
        ensures
            r.path == path,
            r.password@ == Seq::<char>::empty(),
            r.page == 1,
            r.per_page == 0,
            !r.refresh,
    {
        FileInfoRequest { path, password: String::new(), page: 1, per_page: 0, refresh: false }
    }
}

/// One row of a directory listing.
#[derive(Debug)]
pub struct EntryInfo {
    pub name: String,
    pub size: u64,
    pub is_dir: bool,
    pub modified: String,
    pub sign: String,
    pub thumb: String,
    pub file_type: u32,
    pub created: Option<String>,
    pub hashinfo: Option<String>,
    pub hash_info: Option<HashObject>,
}

/// A directory listing.  `content` is `None` for a directory that the
/// service reports without a content collection: that directory is empty.
#[derive(Debug)]
pub struct FoldersInfo {
    pub content: Option<Vec<EntryInfo>>,
    pub total: u32,
    pub readme: String,
    pub write: bool,
    pub provider: String,
    pub header: String,
}

/// The payload of a reply: a file descriptor or a directory listing.
#[derive(Debug)]
pub enum ApiData {
    FileInfo(Box<FileInfo>),
    FoldersInfo(FoldersInfo),
}

/// The envelope of every reply of the service.  `code` 200 is success.
#[derive(Debug)]
pub struct ApiResponse {
    pub code: u32,
    pub message: String,
    pub data: Option<ApiData>,
}

/// A crawled row: the entry, its absolute remote path, and the provider
/// of the folder that listed it.
#[derive(Debug)]
pub struct EntryWithPath {
    pub entry: EntryInfo,
    pub path_str: String,
    pub provider: String,
}

/// The extensions of files that are turned into placeholder files
/// (`.strm`, holding the file's download URL) instead of being downloaded.
pub open spec fn streamable_extensions() -> Seq<Seq<char>> {
    seq![
        "mkv"@, "iso"@, "ts"@, "mp4"@, "avi"@, "rmvb"@, "wmv"@, "m2ts"@, "mpg"@, "flv"@,
        "rm"@, "mov"@, "wav"@, "mp3"@,
    ]
}

/// The extensions of metadata files (images, subtitles, info files) that
/// are always downloaded alongside the media.
pub open spec fn metadata_extensions() -> Seq<Seq<char>> {
    seq!["nfo"@, "jpg"@, "png"@, "svg"@, "ass"@, "srt"@, "sup"@, "vtt"@, "txt"@]
}

proof fn lemma_listed_in_contains(exts: Seq<&str>, ext: Seq<char>)
    ensures
        (exists|j: int| 0 <= j < exts.len() && #[trigger] exts[j]@ == ext)
            == exts.map_values(|e: &str| e@).contains(ext),
{
    let m = exts.map_values(|e: &str| e@);
    if m.contains(ext) {
        let k = choose|k: int| 0 <= k < m.len() && #[trigger] m[k] == ext;
        assert(exts[k]@ == ext);
    }
    if exists|j: int| 0 <= j < exts.len() && #[trigger] exts[j]@ == ext {
        let k = choose|k: int| 0 <= k < exts.len() && #[trigger] exts[k]@ == ext;
        assert(m[k] == ext);
    }
}

/// Whether `ext` is one of `exts`, compared character by character.
fn listed_in(ext: &str, exts: &[&str]) -> (r: bool)
    ensures
        r == (exists|j: int| 0 <= j < exts@.len() && #[trigger] exts@[j]@ == ext@),
{
    let mut i: usize = 0;
    while i < exts.len()
        invariant
            i <= exts@.len(),
            forall|j: int| 0 <= j < i ==> #[trigger] exts@[j]@ != ext@,
        decreases exts@.len() - i,
    {
        if crate::text::same_text(exts[i], ext) {
            return true;
        }
        i = i + 1;
    }
    false
}

/// Whether a file with this extension is downloaded as metadata.
/// The comparison is exact: upper case does not match.
pub fn is_metadata_file(extension: &str) -> (r: bool)
    ensures
        r == metadata_extensions().contains(extension@),
{
    let exts: [&str; 9] = ["nfo", "jpg", "png", "svg", "ass", "srt", "sup", "vtt", "txt"];
    let r = listed_in(extension, exts.as_slice());
    proof {
        assert(exts@.map_values(|e: &str| e@) =~= metadata_extensions());
        lemma_listed_in_contains(exts@, extension@);
    }
    r
}

/// Whether a file with this extension is turned into a placeholder file.
/// The comparison is exact: upper case does not match.
pub fn is_streamable_file(extension: &str) -> (r: bool)
    ensures
        r == streamable_extensions().contains(extension@),
{
    let exts: [&str; 14] = [
        "mkv", "iso", "ts", "mp4", "avi", "rmvb", "wmv", "m2ts", "mpg", "flv", "rm", "mov", "wav",
        "mp3",
    ];
    let r = listed_in(extension, exts.as_slice());
    proof {
        assert(exts@.map_values(|e: &str| e@) =~= streamable_extensions());
        lemma_listed_in_contains(exts@, extension@);
    }
    r
}

} // verus!
