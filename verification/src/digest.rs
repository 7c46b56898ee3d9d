//! SHA-256 of what comes piece by piece.

use vstd::prelude::*;

verus! {

/// The bytes of a SHA-256 hash.
pub type Sha256 = [u8; 32];

/// How many bytes SHA-256 takes at most: their bits are counted in 64 bits.
pub const MAX_HASHED: u64 = 2305843009213693951;

/// A hash that is being computed, by a `rustls::crypto::hash::Context` of SHA-256.
#[verifier::external_body]
pub struct Digest {
    context: Box<dyn rustls::crypto::hash::Context>,
}

/// The bytes that went into a hash so far.
pub uninterp spec fn hashed(digest: Digest) -> Seq<u8>;

/// The SHA-256 of some bytes.
pub uninterp spec fn sha256_of(data: Seq<u8>) -> Seq<u8>;

impl Digest {
    /// Begins a hash with `rustls::crypto::hash::Hash::start` of the SHA-256 that
    /// rustls has from ring. Nothing has gone into it.
    #[verifier::external_body]
    pub(crate) fn new() -> (digest: Digest)
        ensures
            hashed(digest) == Seq::<u8>::empty(),
    {
        let suite = rustls::crypto::ring::cipher_suite::TLS13_AES_128_GCM_SHA256;
        let rustls::SupportedCipherSuite::Tls13(suite) = suite;
        Digest { context: suite.common.hash_provider.start() }
    }

    /// Adds bytes to a hash with `rustls::crypto::hash::Context::update`: they follow
    /// what went into it before.
    #[verifier::external_body]
    pub(crate) fn update(&mut self, data: &[u8])
        ensures
            hashed(*final(self)) == hashed(*old(self)) + data@,
    {
        self.context.update(data);
    }

    /// The hash of all that went in, by `rustls::crypto::hash::Context::finish`. It
    /// is a function of those bytes alone. The hash of more than `MAX_HASHED` bytes
    /// panics.
    #[verifier::external_body]
    pub(crate) fn finish(self) -> (sha256: Sha256)
        requires
            hashed(self).len() <= MAX_HASHED,
        ensures
            sha256@ == sha256_of(hashed(self)),
    {
        let output = self.context.finish();
        let mut sha256: Sha256 = [0; 32];
        sha256.copy_from_slice(output.as_ref());
        sha256
    }
}

} // verus!
