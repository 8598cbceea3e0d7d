//! The avatar of a student: an address at the avatar service, made of the
//! MD5 digest of the student's e-mail address.

use vstd::prelude::*;
use vstd::string::StringExecFns;
use vstd::utf8::encode_utf8;
use crate::errors::Error;
use crate::text::hex_lower;

verus! {

/// The MD5 digest of a sequence of bytes, as `md5::compute` gives it.
pub uninterp spec fn md5_digest(data: Seq<u8>) -> Seq<u8>;

/// The avatar address for a digest: the base address, a slash, the digest in
/// lower-case hexadecimal, and the fallback image as the query parameter `d`.
pub open spec fn digest_url(base_url: Seq<char>, digest: Seq<u8>, default_img: Seq<char>) -> Seq<
    char,
> {
    base_url + "/"@ + hex_lower(digest) + "?d="@ + default_img
}

/// The avatar address of an e-mail address, given as its bytes: the address
/// for its MD5 digest.
pub open spec fn avatar_url(base_url: Seq<char>, email: Seq<u8>, default_img: Seq<char>) -> Seq<
    char,
> {
    digest_url(base_url, md5_digest(email), default_img)
}

/// Trusted: calls `md5::compute` and hands out the 16 bytes of the digest,
/// named `md5_digest` of the input.
#[verifier::external_body]
fn md5_compute(data: &[u8]) -> (r: [u8; 16])
    ensures
        r@ == md5_digest(data@),
{
    md5::compute(data).0
}

/// Trusted: formats an `md5::Digest` with `{:x}`, which writes each of its
/// bytes as two lower-case hexadecimal digits, in order.
#[verifier::external_body]
fn digest_hex(digest: &[u8; 16]) -> (r: String)
    ensures
        r@ == hex_lower(digest@),
{
    format!("{:x}", md5::Digest(*digest))
}

/// The client of the avatar service.
#[derive(Debug, Clone)]
pub struct AvatarClient {
    pub base_url: String,
    pub default_img: String,
}

impl AvatarClient {
    /// A client for the avatar service at `base_url` that falls back on
    /// `default_img`.
    pub fn new(base_url: String, default_img: String) -> (r: Self)
        ensures
            r.base_url == base_url,
            r.default_img == default_img,
    {
        AvatarClient { base_url, default_img }
    }

    /// The avatar address for the MD5 digest of an e-mail address.
    pub fn address(&self, digest: &[u8; 16]) -> (r: String)
        ensures
            r@ == digest_url(self.base_url@, digest@, self.default_img@),
    {
        let hex = digest_hex(digest);
        let mut url = self.base_url.clone();
        url.append("/");
        url.append(hex.as_str());
        url.append("?d=");
        url.append(self.default_img.as_str());
        url
    }

    /// The avatar address for `email`. It is computed, never fetched, so it
    /// is always there. The digest in it has 16 bytes, which make 32 digits.
    pub fn send_request(&self, email: &str) -> (r: Result<String, Error>)
        ensures
            r matches Ok(url) && url@ == avatar_url(
                self.base_url@,
                encode_utf8(email@),
                self.default_img@,
            ),
            md5_digest(encode_utf8(email@)).len() == 16,
    {
        let hash = md5_compute(email.as_bytes());
        Ok(self.address(&hash))
    }
}

} // verus!
