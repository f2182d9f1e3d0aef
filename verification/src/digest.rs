//! The running SHA-256 digest that every writer and reader owns.

use vstd::prelude::*;

verus! {

/// `ring::digest::Context`, carried as an opaque value.
#[verifier::external_type_specification]
#[verifier::external_body]
pub struct ExDigestContext(ring::digest::Context);

/// The bytes that a `ring::digest::Context` has been fed since it was made,
/// in the order in which they were fed.
pub uninterp spec fn fed(context: ring::digest::Context) -> Seq<u8>;

/// The SHA-256 digest of `data`, as `ring` computes it.
pub uninterp spec fn sha256(data: Seq<u8>) -> Seq<u8>;

/// The length of a SHA-256 digest in bytes.
pub const DIGEST_LEN: usize = 32;

/// The longest input, in bytes, that `ring` can digest: its length in bits
/// has to fit in 64 bits.
pub const MAX_INPUT_LEN: u64 = 0x1fff_ffff_ffff_ffff;

/// Calls `ring::digest::Context::new` with `ring::digest::SHA256`.
///
/// Trusted: the new context has been fed nothing.
#[verifier::external_body]
fn context_new() -> (context: ring::digest::Context)
    ensures
        fed(context) == Seq::<u8>::empty(),
{
    ring::digest::Context::new(&ring::digest::SHA256)
}

/// Calls `ring::digest::Context::update`.
///
/// Trusted: the context has then been fed `data` after what it had been fed
/// before. The call returns for every input.
#[verifier::external_body]
fn context_update(context: &mut ring::digest::Context, data: &[u8])
    ensures
        fed(*final(context)) == fed(*old(context)) + data@,
    no_unwind
{
    context.update(data)
}

/// Calls `ring::digest::Context::finish` and copies the digest out.
///
/// Trusted: the result is the SHA-256 digest of everything the context was
/// fed, and is 32 bytes long. `ring` panics on an input whose length in bits
/// does not fit in 64 bits, which the precondition leaves out.
#[verifier::external_body]
fn context_finish(context: ring::digest::Context) -> (digest: Vec<u8>)
    requires
        fed(context).len() <= MAX_INPUT_LEN,
    ensures
        digest@ == sha256(fed(context)),
        digest@.len() == DIGEST_LEN,
{
    context.finish().as_ref().to_vec()
}

/// A running SHA-256 digest: fed chunk by chunk, finished once. It counts
/// what it is fed, so that it can tell whether it can still be finished.
pub struct DigestState {
    context: ring::digest::Context,
    len: u64,
}

/// Feeds `data`, of `more` bytes, to `context` and counts it on top of
/// `len`; the count stops at the largest number that it can hold.
fn fold(context: &mut ring::digest::Context, len: &mut u64, data: &[u8], more: u64)
    requires
        *old(len) == counted(fed(*old(context)).len()),
        more == data@.len(),
    ensures
        fed(*final(context)) == fed(*old(context)) + data@,
        *final(len) == counted(fed(*final(context)).len()),
    no_unwind
{
    context_update(context, data);
    *len = if *len > u64::MAX - more {
        u64::MAX
    } else {
        *len + more
    };
}

/// The count that is kept of `len` bytes.
spec fn counted(len: nat) -> u64 {
    if len >= u64::MAX {
        u64::MAX
    } else {
        len as u64
    }
}

impl DigestState {
    #[verifier::type_invariant]
    spec fn counts(&self) -> bool {
        self.len == counted(fed(self.context).len())
    }

    /// Everything that has been folded into the digest so far.
    pub closed spec fn absorbed(&self) -> Seq<u8> {
        fed(self.context)
    }

    /// A digest that has absorbed nothing.
    pub fn new() -> (state: Self)
        ensures
            state.absorbed() == Seq::<u8>::empty(),
    {
        DigestState { context: context_new(), len: 0 }
    }

    /// Folds `data` into the digest.
    pub fn update(&mut self, data: &[u8])
        ensures
            final(self).absorbed() == old(self).absorbed() + data@,
    {
        let more = data.len() as u64;
        self.update_counted(data, more);
    }

    /// Folds `data`, of `more` bytes, into the digest.
    pub(crate) fn update_counted(&mut self, data: &[u8], more: u64)
        requires
            more == data@.len(),
        ensures
            final(self).absorbed() == old(self).absorbed() + data@,
        no_unwind
    {
        proof {
            use_type_invariant(&*self);
        }
        fold(&mut self.context, &mut self.len, data, more);
    }

    /// Whether the digest can be finished: whether what it has absorbed is
    /// no longer than `MAX_INPUT_LEN`.
    pub fn can_finish(&self) -> (possible: bool)
        ensures
            possible == (self.absorbed().len() <= MAX_INPUT_LEN),
    {
        proof {
            use_type_invariant(self);
        }
        self.len <= MAX_INPUT_LEN
    }

    /// Finishes the digest and returns its 32 raw bytes.
    pub fn finish(self) -> (digest: Vec<u8>)
        requires
            self.absorbed().len() <= MAX_INPUT_LEN,
        ensures
            digest@ == sha256(self.absorbed()),
            digest@.len() == DIGEST_LEN,
    {
        context_finish(self.context)
    }

    /// Finishes the digest where that is possible, and returns its 32 raw
    /// bytes; `None` where it has absorbed more than `MAX_INPUT_LEN` bytes.
    pub fn try_finish(self) -> (digest: Option<Vec<u8>>)
        ensures
            self.absorbed().len() <= MAX_INPUT_LEN ==> digest is Some && digest->0@ == sha256(
                self.absorbed(),
            ) && digest->0@.len() == DIGEST_LEN,
            self.absorbed().len() > MAX_INPUT_LEN ==> digest is None,
    {
        if self.can_finish() {
            Some(self.finish())
        } else {
            None
        }
    }
}

} // verus!
