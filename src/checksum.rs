//! Content identity: the digests of local content, and their comparison
//! with the hash that the service reports.

use vstd::prelude::*;

use crate::types::HashObject;

verus! {

/// The lower-case form of a text, as `str::to_lowercase` gives it.
pub uninterp spec fn lower_of(s: Seq<char>) -> Seq<char>;

/// Relies on `str::to_lowercase`: the result depends on the characters alone.
#[verifier::external_body]
pub(crate) fn to_lower(s: &str) -> (r: String)
    ensures
        r@ == lower_of(s@),
{
    s.to_lowercase()
}

/// The lower-case hex SHA-1 digest of `data`, as the sha1 crate computes it.
pub uninterp spec fn sha1_hex_of(data: Seq<u8>) -> Seq<char>;

/// The lower-case hex MD5 digest of `data`, as the md-5 crate computes it.
pub uninterp spec fn md5_hex_of(data: Seq<u8>) -> Seq<char>;

/// Relies on sha1's `Digest::digest` and the lower-hex formatting of its
/// output: the digest of the bytes, two hex digits per output byte.
#[verifier::external_body]
fn sha1_hex(data: &[u8]) -> (r: String)
    ensures
        r@ == sha1_hex_of(data@),
{
    format!("{:x}", <sha1::Sha1 as sha1::Digest>::digest(data))
}

/// Relies on md-5's `Digest::digest` and the lower-hex formatting of its
/// output: the digest of the bytes, two hex digits per output byte.
#[verifier::external_body]
fn md5_hex(data: &[u8]) -> (r: String)
    ensures
        r@ == md5_hex_of(data@),
{
    format!("{:x}", <md5::Md5 as md5::Digest>::digest(data))
}

/// The hex digest of `data` under the algorithm that `h` is tagged with.
pub open spec fn digest_hex(h: HashObject, data: Seq<u8>) -> Seq<char> {
    match h {
        HashObject::Sha1 { .. } => sha1_hex_of(data),
        HashObject::Md5 { .. } => md5_hex_of(data),
    }
}

/// Whether `content` exists and its digest equals the reported hash,
/// both in lower case.
pub open spec fn content_matches(h: HashObject, content: Option<Vec<u8>>) -> bool {
    match content {
        Some(data) => digest_hex(h, data@) == lower_of(h.reported()),
        None => false,
    }
}

impl HashObject {
    /// The digest of `content` under this hash's algorithm.
    pub fn compute_file_checksum(&self, content: &[u8]) -> (r: String)
        ensures
            r@ == digest_hex(*self, content@),
    {
        match self {
            HashObject::Sha1 { .. } => sha1_hex(content),
            HashObject::Md5 { .. } => md5_hex(content),
        }
    }

    /// Whether a local file with this content matches the hash.  `None`
    /// stands for a file that does not exist, which never matches.
    pub fn verify_file_checksum(&self, content: &Option<Vec<u8>>) -> (r: bool)
        ensures
            r == content_matches(*self, *content),
    {
        match content {
            Some(data) => {
                let computed = self.compute_file_checksum(data.as_slice());
                let wanted = self.as_hash_str();
                computed == wanted
            },
            None => false,
        }
    }
}

} // verus!
