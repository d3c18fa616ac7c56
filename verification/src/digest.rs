//! SHA-512 and SHA-1 digests (through the `sha2` and `sha1` crates) and their
//! lower-case hexadecimal renderings.
use vstd::prelude::*;
use sha2::Digest;
use crate::text::{encode_hex, hex_lower, lemma_hex_lower_shape};

verus! {

/// The SHA-512 digest of a byte string.
pub uninterp spec fn sha512(data: Seq<u8>) -> Seq<u8>;

/// The SHA-1 digest of a byte string.
pub uninterp spec fn sha1(data: Seq<u8>) -> Seq<u8>;

/// Calls `<sha2::Sha512 as Digest>::digest`. The result is named `sha512`; the
/// crate's output type fixes its length at 64 bytes.
#[verifier::external_body]
fn sha512_digest(data: &[u8]) -> (res: Vec<u8>)
    ensures
        res@ == sha512(data@),
        res@.len() == 64,
{
    sha2::Sha512::digest(data).to_vec()
}

/// Calls `<sha1::Sha1 as Digest>::digest`. The result is named `sha1`; the
/// crate's output type fixes its length at 20 bytes.
#[verifier::external_body]
fn sha1_digest(data: &[u8]) -> (res: Vec<u8>)
    ensures
        res@ == sha1(data@),
        res@.len() == 20,
{
    sha1::Sha1::digest(data).to_vec()
}

/// Lower-case hex SHA-512 of `data` (128 characters).
pub fn hash_bytes_sha512(data: &[u8]) -> (res: String)
    ensures
        res@ == hex_lower(sha512(data@)),
        res@.len() == 128,
{
    let d = sha512_digest(data);
    proof {
        lemma_hex_lower_shape(d@);
    }
    encode_hex(d.as_slice())
}

/// Lower-case hex SHA-1 of `data` (40 characters).
pub fn hash_bytes_sha1(data: &[u8]) -> (res: String)
    ensures
        res@ == hex_lower(sha1(data@)),
        res@.len() == 40,
{
    let d = sha1_digest(data);
    proof {
        lemma_hex_lower_shape(d@);
    }
    encode_hex(d.as_slice())
}

/// SHA-512 and SHA-1 hashers (the `sha2::Sha512` and `sha1::Sha1` states), fed
/// together. The states are kept private: what has been fed is all the library
/// says of them (`digested_bytes`).
#[verifier::external_body]
pub struct StreamDigest {
    sha512: sha2::Sha512,
    sha1: sha1::Sha1,
}

/// The bytes fed to a `StreamDigest` so far, in order.
pub uninterp spec fn digested_bytes(d: StreamDigest) -> Seq<u8>;

/// Calls `Digest::new` on both hashers: nothing has been fed yet.
#[verifier::external_body]
fn stream_digest_new() -> (res: StreamDigest)
    ensures
        digested_bytes(res) == Seq::<u8>::empty(),
{
    StreamDigest { sha512: sha2::Sha512::new(), sha1: sha1::Sha1::new() }
}

/// Calls `Digest::update` on both hashers: `chunk` is appended to what was fed.
#[verifier::external_body]
fn stream_digest_update(d: &mut StreamDigest, chunk: &[u8])
    ensures
        digested_bytes(*final(d)) == digested_bytes(*old(d)) + chunk@,
{
    d.sha512.update(chunk);
    d.sha1.update(chunk);
}

/// Calls `Digest::finalize` on both hashers: the digests of everything fed, in
/// the order it was fed (`update` processes data in sequence). The crates' output
/// types fix their lengths at 64 and 20 bytes.
#[verifier::external_body]
fn stream_digest_finalize(d: StreamDigest) -> (res: (Vec<u8>, Vec<u8>))
    ensures
        res.0@ == sha512(digested_bytes(d)),
        res.1@ == sha1(digested_bytes(d)),
        res.0@.len() == 64,
        res.1@.len() == 20,
{
    (d.sha512.finalize().to_vec(), d.sha1.finalize().to_vec())
}

/// Hashes a byte stream chunk by chunk, so that a large file need not be held in
/// memory at once.
pub struct ContentHasher {
    digest: StreamDigest,
}

impl ContentHasher {
    /// Everything fed so far.
    pub closed spec fn fed(&self) -> Seq<u8> {
        digested_bytes(self.digest)
    }

    /// A hasher that has been fed nothing.
    pub fn new() -> (res: ContentHasher)
        ensures
            res.fed() == Seq::<u8>::empty(),
    {
        ContentHasher { digest: stream_digest_new() }
    }

    /// Feeds the next chunk of the stream.
    pub fn feed(&mut self, chunk: &[u8])
        ensures
            final(self).fed() == old(self).fed() + chunk@,
    {
        stream_digest_update(&mut self.digest, chunk);
    }

    /// The lower-case hex SHA-512 (128 characters) and SHA-1 (40 characters) of
    /// everything fed.
    pub fn finish(self) -> (res: (String, String))
        ensures
            res.0@ == hex_lower(sha512(self.fed())),
            res.1@ == hex_lower(sha1(self.fed())),
            res.0@.len() == 128,
            res.1@.len() == 40,
    {
        let (d512, d1) = stream_digest_finalize(self.digest);
        proof {
            lemma_hex_lower_shape(d512@);
            lemma_hex_lower_shape(d1@);
        }
        (encode_hex(d512.as_slice()), encode_hex(d1.as_slice()))
    }
}

} // verus!
