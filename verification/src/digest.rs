//! Digests of file content.
//!
//! The digest is SHA-256, computed by the `rpki` crate. Content is fed to a
//! digest piece by piece, so that a file need not be held in memory.

use vstd::prelude::*;
use rpki::crypto::digest::Context;

verus! {

/// A running digest computation, `rpki::crypto::digest::Context`.
#[verifier::external_type_specification]
#[verifier::external_body]
pub struct ExContext(rpki::crypto::digest::Context);

/// The bytes that a context has been fed since it was started, in the order
/// in which they were fed.
pub uninterp spec fn digest_input(ctx: Context) -> Seq<u8>;

/// The SHA-256 digest of `data`: what `Context::finish` returns for a
/// context that was fed `data`.
pub uninterp spec fn sha256(data: Seq<u8>) -> Seq<u8>;

/// The number of bytes that a digest cannot reach: their count in bits must
/// stay below 2^64.
pub const DIGEST_INPUT_LIMIT: u64 = 0x2000_0000_0000_0000;

/// Starts a digest with `DigestAlgorithm::start` of the one algorithm that
/// RPKI uses. The context has been fed nothing yet.
#[verifier::external_body]
fn start_context() -> (ctx: Context)
    ensures
        digest_input(ctx) == Seq::<u8>::empty(),
{
    rpki::crypto::DigestAlgorithm::default().start()
}

/// `Context::update` feeds `data` to the context after what it was fed
/// before. The count of all bytes fed has to stay below the limit, beyond
/// which the computation panics.
pub assume_specification[ Context::update ](ctx: &mut Context, data: &[u8])
    requires
        digest_input(*old(ctx)).len() + data@.len() < 0x2000_0000_0000_0000,
    ensures
        digest_input(*final(ctx)) == digest_input(*old(ctx)) + data@,
;

/// Ends a digest with `Context::finish` and copies the bytes of the result,
/// which is the SHA-256 digest of all that the context was fed.
#[verifier::external_body]
fn finish_context(ctx: Context) -> (digest: Vec<u8>)
    requires
        digest_input(ctx).len() < 0x2000_0000_0000_0000,
    ensures
        digest@ == sha256(digest_input(ctx)),
{
    ctx.finish().as_ref().to_vec()
}

/// The algorithms by which the digest of a file is computed. RPKI has one.
#[derive(Clone, Copy, Debug, PartialEq, Eq, Structural)]
pub enum DigestAlgorithm {
    /// SHA-256.
    Sha256,
}

/// The digest of the content of one file, of which some part has been fed.
pub struct FileDigest {
    ctx: Context,
    fed: u64,
}

impl FileDigest {
    /// The content fed so far.
    pub closed spec fn input(&self) -> Seq<u8> {
        digest_input(self.ctx)
    }

    /// Whether the digest has counted what it was fed, and that is less than
    /// a digest can take. It holds of every digest that this type hands out.
    pub closed spec fn wf(&self) -> bool {
        self.fed == digest_input(self.ctx).len() && self.fed < DIGEST_INPUT_LIMIT
    }

    /// Starts the digest of a file. No content has been fed yet.
    pub fn new() -> (digest: FileDigest)
        ensures
            digest.wf(),
            digest.input() == Seq::<u8>::empty(),
    {
        FileDigest { ctx: start_context(), fed: 0 }
    }

    /// The number of bytes fed so far.
    pub fn fed(&self) -> (count: u64)
        requires
            self.wf(),
        ensures
            count == self.input().len(),
            count < DIGEST_INPUT_LIMIT,
    {
        self.fed
    }

    /// Feeds the next piece of the file's content.
    pub fn update(&mut self, data: &[u8])
        requires
            old(self).wf(),
            old(self).input().len() + data@.len() < DIGEST_INPUT_LIMIT,
        ensures
            final(self).wf(),
            final(self).input() == old(self).input() + data@,
    {
        self.ctx.update(data);
        self.fed = self.fed + data.len() as u64;
    }

    /// Ends the digest and returns it: the SHA-256 digest of all the content
    /// fed.
    pub fn finish(self) -> (digest: Vec<u8>)
        requires
            self.wf(),
        ensures
            digest@ == sha256(self.input()),
    {
        finish_context(self.ctx)
    }
}

} // verus!
