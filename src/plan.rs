//! What to do with each crawled row: download it, turn it into a
//! placeholder file, or leave it; and where its local copy goes.

use vstd::prelude::*;

use crate::api::SyncError;
use crate::paths::{
    extension, extension_of, lemma_extension_len, local_join, join_local, strm_path,
    trim_leading_slashes, trim_slashes, with_strm_extension,
};
use crate::text::same_text;
use crate::types::{
    copy_hash, is_metadata_file, is_streamable_file, metadata_extensions,
    streamable_extensions, EntryWithPath, HashObject,
};

verus! {

/// The provider whose reported hashes are not to be trusted.
pub open spec fn untrusted_provider() -> Seq<char> {
    "BaiduNetdisk"@
}

/// Whether the hashes of the provider that served `entry` can be trusted.
pub fn provider_checksum(entry: &EntryWithPath) -> (r: bool)
    ensures
        r == (entry.provider@ != untrusted_provider()),
{
    !same_text(entry.provider.as_str(), "BaiduNetdisk")
}

/// The hash that a download of `item` must match: the reported one, unless
/// its provider is not trusted.
pub open spec fn expected_hash_of(item: EntryWithPath) -> Option<HashObject> {
    if item.provider@ != untrusted_provider() {
        item.entry.hash_info
    } else {
        None
    }
}

/// The hash that a download of `item` must match (see `expected_hash_of`).
pub fn expected_hash(item: &EntryWithPath) -> (r: Option<HashObject>)
    ensures
        r == expected_hash_of(*item),
{
    if provider_checksum(item) {
        copy_hash(&item.entry.hash_info)
    } else {
        None
    }
}

/// What to do with one crawled row.
#[derive(Debug)]
pub enum ItemPlan {
    /// Nothing: a directory, or a file of no kind that is handled.
    Skip,
    /// Download the file to `dest`, checking it against `expected`.
    Download { dest: String, expected: Option<HashObject> },
    /// Write a placeholder file at `dest` holding the file's URL.
    Placeholder { dest: String },
}

/// The path of `item` relative to the local root: its remote path without
/// leading slashes.
pub open spec fn relative_of(item: EntryWithPath) -> Seq<char> {
    trim_slashes(item.path_str@)
}

/// The plan for `item` when the local tree mirrors the remote one with
/// placeholders: a streamable file becomes a `.strm` placeholder beside
/// where it would be, a metadata file is downloaded, anything else is left.
pub open spec fn mirror_plan_fits(item: EntryWithPath, root: Seq<char>, r: ItemPlan) -> bool {
    let rel = relative_of(item);
    if item.entry.is_dir {
        r is Skip
    } else {
        match extension_of(rel) {
            Some(e) => if streamable_extensions().contains(e) {
                r matches ItemPlan::Placeholder { dest } && dest@ == local_join(
                    root,
                    strm_path(rel, e),
                )
            } else if metadata_extensions().contains(e) {
                &&& r matches ItemPlan::Download { dest, expected }
                &&& dest@ == local_join(root, rel)
                &&& expected == expected_hash_of(item)
            } else {
                r is Skip
            },
            None => r is Skip,
        }
    }
}

/// The plan for `item` under the local directory `root` when mirroring
/// with placeholders (see `mirror_plan_fits`).
pub fn plan_mirror(item: &EntryWithPath, root: &str) -> (r: ItemPlan)
    requires
        item.path_str@.len() < i64::MAX,
    ensures
        mirror_plan_fits(*item, root@, r),
{
    if item.entry.is_dir {
        return ItemPlan::Skip;
    }
    let rel = trim_leading_slashes(item.path_str.as_str());
    proof {
        lemma_trim_len(item.path_str@);
    }
    match extension(rel.as_str()) {
        Some(e) => {
            proof {
                lemma_extension_len(rel@);
            }
            if is_streamable_file(e.as_str()) {
                let p = with_strm_extension(rel.as_str(), e.as_str());
                ItemPlan::Placeholder { dest: join_local(root, p.as_str()) }
            } else if is_metadata_file(e.as_str()) {
                ItemPlan::Download {
                    dest: join_local(root, rel.as_str()),
                    expected: expected_hash(item),
                }
            } else {
                ItemPlan::Skip
            }
        },
        None => ItemPlan::Skip,
    }
}

/// The plan for `item` under the local directory `root` when downloading
/// everything: every file is downloaded, directories are left.
pub fn plan_download(item: &EntryWithPath, root: &str) -> (r: ItemPlan)
    ensures
        item.entry.is_dir ==> r is Skip,
        !item.entry.is_dir ==> (r matches ItemPlan::Download { dest, expected } && dest@
            == local_join(root@, relative_of(*item)) && expected == expected_hash_of(*item)),
{
    if item.entry.is_dir {
        return ItemPlan::Skip;
    }
    let rel = trim_leading_slashes(item.path_str.as_str());
    ItemPlan::Download { dest: join_local(root, rel.as_str()), expected: expected_hash(item) }
}

/// Trimming never lengthens a text.
pub proof fn lemma_trim_len(s: Seq<char>)
    ensures
        trim_slashes(s).len() <= s.len(),
    decreases s.len(),
{
    if s.len() > 0 && s[0] == '/' {
        lemma_trim_len(s.drop_first());
    }
}

/// The serialisation of `s` as an absolute URL by the url crate, or `None`
/// if it does not parse.
pub uninterp spec fn url_serialization(s: Seq<char>) -> Option<Seq<char>>;

/// Relies on url's `Url::parse` and `Url::as_str`: whether the text parses
/// as an absolute URL, and the URL's serialisation.
#[verifier::external_body]
fn parse_url(s: &str) -> (r: Result<String, url::ParseError>)
    ensures
        match r {
            Ok(t) => url_serialization(s@) == Some(t@),
            Err(_) => url_serialization(s@) is None,
        },
{
    match url::Url::parse(s) {
        Ok(u) => Ok(u.as_str().to_string()),
        Err(e) => Err(e),
    }
}

/// The content of the placeholder file for a file whose download URL is
/// `raw_url`: the URL as the url crate serialises it.  A URL that does not
/// parse is a `ProtocolError`.
pub fn placeholder_text(raw_url: &str) -> (r: Result<String, SyncError>)
    ensures
        match url_serialization(raw_url@) {
            Some(t) => r matches Ok(x) && x@ == t,
            None => r matches Err(SyncError::ProtocolError),
        },
{
    match parse_url(raw_url) {
        Ok(t) => Ok(t),
        Err(_) => Err(SyncError::ProtocolError),
    }
}

} // verus!
