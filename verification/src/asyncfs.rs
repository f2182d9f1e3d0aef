//! The cooperative side: a reader that digests an object while its body
//! streams by.
//!
//! The reader is a machine of two states. It waits for the answer to its
//! fetch, and once that has come with a checksum it follows the body. The
//! caller polls the fetch and the body and tells the reader what each poll
//! gave; the reader says how the read goes on.

use vstd::prelude::*;
use vstd::slice::slice_subrange;
use crate::address::{join, join_path, transfer_checksum};
use crate::digest::{DigestState, MAX_INPUT_LEN};
use crate::encoding::encode_standard;
use crate::error::{discrepancy_message, Error, ErrorView};
use crate::store::GetObject;

verus! {

/// A place in a bucket below which objects are kept.
pub struct S3FileSystem {
    bucket_name: String,
    base_path: String,
}

impl S3FileSystem {
    /// The name of the bucket.
    pub closed spec fn bucket_name(&self) -> Seq<char> {
        self.bucket_name@
    }

    /// The path below which the objects are kept.
    pub closed spec fn base_path(&self) -> Seq<char> {
        self.base_path@
    }

    /// A file system on the bucket `bucket_name`, below `base_path`.
    pub fn new(bucket_name: String, base_path: String) -> (fs: Self)
        ensures
            fs.bucket_name() == bucket_name@,
            fs.base_path() == base_path@,
    {
        S3FileSystem { bucket_name, base_path }
    }

    /// A reader of the object at `path` below the base path. Its fetch, with
    /// the checksum asked for, is yet to be answered.
    pub fn open_hashed_file(&self, path: &str) -> (file: S3HashedFileIn)
        ensures
            file.state() matches StreamState::AwaitingResponse { request }
                && request.bucket_name@ == self.bucket_name() && request.key@ == join_path(
                self.base_path(),
                path@,
            ) && request.checksum_requested,
            file.consumed() == Seq::<u8>::empty(),
    {
        S3HashedFileIn::open(self.bucket_name.clone(), join(self.base_path.as_str(), path))
    }
}

/// Where a streaming reader stands. It only ever goes from the first state
/// to the second.
#[derive(Debug, PartialEq, Eq)]
pub enum StreamState {
    /// The fetch has not been answered yet.
    AwaitingResponse {
        /// The fetch that is under way.
        request: GetObject,
    },
    /// The answer has come, and the body is being read.
    Streaming {
        /// The checksum that the bucket reported for the object.
        checksum: String,
    },
}

/// What a poll of the fetch gave.
#[derive(Debug, PartialEq, Eq)]
pub enum ResponsePoll {
    /// No answer yet.
    Pending,
    /// The fetch failed.
    Failed,
    /// The answer has come.
    Ready {
        /// The checksum that it reports for the object, if any.
        checksum: Option<String>,
    },
}

/// What a poll of the body gave.
#[derive(Debug, PartialEq, Eq)]
pub enum BodyPoll {
    /// Nothing new yet.
    Pending,
    /// The body failed.
    Failed,
    /// The body has put what it had into the buffer, which is nothing at its
    /// end.
    Ready,
}

/// How a read goes on after a poll.
#[derive(Debug, PartialEq, Eq)]
pub enum ReadStep {
    /// The body is to be polled next, within the same read.
    PollBody,
    /// The read is pending.
    Pending,
    /// The read is done.
    Ready,
    /// The read fails with the failure of the fetch, wrapped.
    FetchFailed,
    /// The read fails with this error, wrapped.
    Rejected(Error),
    /// The read fails with the error of the body, as it is.
    BodyFailed,
}

/// The bytes that a poll added to a buffer: those of `filled`, the filled
/// part after the poll, from `last_pos` on, the length of the filled part
/// before it.
pub open spec fn newly_filled(filled: Seq<u8>, last_pos: nat) -> Seq<u8> {
    if filled.len() > last_pos {
        filled.subrange(last_pos as int, filled.len() as int)
    } else {
        Seq::empty()
    }
}

/// How a failed verification names the checksum that it expected.
pub open spec fn expected_text(checksum: Option<Seq<char>>) -> Seq<char> {
    match checksum {
        Some(checksum) => checksum,
        None => "None"@,
    }
}

/// A reader of one object that is fetched while it is read.
pub struct S3HashedFileIn {
    digest: DigestState,
    state: StreamState,
}

impl S3HashedFileIn {
    /// Where the reader stands.
    pub closed spec fn state(&self) -> StreamState {
        self.state
    }

    /// The bytes that the body has delivered, which are those that the
    /// digest has taken in.
    pub closed spec fn consumed(&self) -> Seq<u8> {
        self.digest.absorbed()
    }

    /// The checksum that the bucket reported, once the answer has come.
    pub open spec fn checksum(&self) -> Option<Seq<char>> {
        match self.state() {
            StreamState::AwaitingResponse { .. } => None,
            StreamState::Streaming { checksum } => Some(checksum@),
        }
    }

    /// Whether the bytes delivered have the checksum that the bucket
    /// reported.
    pub open spec fn verifies(&self) -> bool {
        self.checksum() == Some(transfer_checksum(self.consumed()))
    }

    /// A reader whose fetch of `key` in `bucket_name`, with the checksum
    /// asked for, is yet to be answered.
    pub fn open(bucket_name: String, key: String) -> (file: Self)
        ensures
            file.state() == (StreamState::AwaitingResponse {
                request: GetObject { bucket_name, key, checksum_requested: true },
            }),
            file.consumed() == Seq::<u8>::empty(),
    {
        S3HashedFileIn {
            digest: DigestState::new(),
            state: StreamState::AwaitingResponse {
                request: GetObject { bucket_name, key, checksum_requested: true },
            },
        }
    }

    /// Whether the answer has come and the body is being read.
    pub fn is_streaming(&self) -> (streaming: bool)
        ensures
            streaming == (self.state() is Streaming),
    {
        match &self.state {
            StreamState::AwaitingResponse { .. } => false,
            StreamState::Streaming { .. } => true,
        }
    }

    /// The fetch that is under way, while it is.
    pub fn pending_request(&self) -> (request: Option<&GetObject>)
        ensures
            self.state() matches StreamState::AwaitingResponse { request: pending } ==> request
                == Some(&pending),
            self.state() is Streaming ==> request is None,
    {
        match &self.state {
            StreamState::AwaitingResponse { request } => Some(request),
            StreamState::Streaming { .. } => None,
        }
    }

    /// Takes what a poll of the fetch gave, while the reader waits for its
    /// answer. Only an answer with a checksum takes the reader on to the
    /// body; without one the read fails, and no byte of the body is looked
    /// at.
    pub fn on_response(&mut self, response: ResponsePoll) -> (step: ReadStep)
        requires
            old(self).state() is AwaitingResponse,
        ensures
            final(self).consumed() == old(self).consumed(),
            response is Pending ==> step is Pending && final(self).state() == old(self).state(),
            response is Failed ==> step is FetchFailed && final(self).state() == old(
                self,
            ).state(),
            response matches ResponsePoll::Ready { checksum: None } ==> step is Rejected
                && step->Rejected_0@ == ErrorView::InvalidContext("no checksum for the S3 object"@)
                && final(self).state() == old(self).state(),
            response matches ResponsePoll::Ready { checksum: Some(checksum) } ==> step is PollBody
                && final(self).state() == (StreamState::Streaming { checksum }),
    {
        match response {
            ResponsePoll::Pending => ReadStep::Pending,
            ResponsePoll::Failed => ReadStep::FetchFailed,
            ResponsePoll::Ready { checksum: None } => ReadStep::Rejected(
                Error::InvalidContext(String::from_str("no checksum for the S3 object")),
            ),
            ResponsePoll::Ready { checksum: Some(checksum) } => {
                self.state = StreamState::Streaming { checksum };
                ReadStep::PollBody
            },
        }
    }

    /// Takes what a poll of the body gave, while the reader follows the
    /// body. `filled` is the filled part of the buffer after the poll and
    /// `last_pos` the length of the filled part before it. Where the poll
    /// was ready, the bytes that it added are digested: those and no others.
    pub fn on_body(&mut self, body: BodyPoll, filled: &[u8], last_pos: usize) -> (step: ReadStep)
        requires
            old(self).state() is Streaming,
        ensures
            final(self).state() == old(self).state(),
            body is Pending ==> step is Pending && final(self).consumed() == old(self).consumed(),
            body is Failed ==> step is BodyFailed && final(self).consumed() == old(
                self,
            ).consumed(),
            body is Ready ==> step is Ready && final(self).consumed() == old(self).consumed()
                + newly_filled(filled@, last_pos as nat),
    {
        match body {
            BodyPoll::Ready => {
                if filled.len() > last_pos {
                    self.digest.update(slice_subrange(filled, last_pos, filled.len()));
                } else {
                    assert(self.consumed() + Seq::<u8>::empty() =~= self.consumed());
                }
                ReadStep::Ready
            },
            BodyPoll::Pending => ReadStep::Pending,
            BodyPoll::Failed => ReadStep::BodyFailed,
        }
    }

    /// Whether what the body has delivered is short enough to be digested.
    pub fn can_verify(&self) -> (possible: bool)
        ensures
            possible == (self.consumed().len() <= MAX_INPUT_LEN),
    {
        self.digest.can_finish()
    }

    /// Ends the reading: compares the checksum of what the body delivered
    /// with the one that the bucket reported. A reader whose fetch was never
    /// answered has no checksum to meet, and fails.
    pub fn verify(self) -> (result: Result<(), Error>)
        requires
            self.consumed().len() <= MAX_INPUT_LEN,
        ensures
            result is Ok <==> self.verifies(),
            result is Err ==> result->Err_0@ == ErrorView::VerificationFailure(
                discrepancy_message(
                    expected_text(self.checksum()),
                    transfer_checksum(self.consumed()),
                ),
            ),
    {
        let digest = self.digest.finish();
        let checksum = encode_standard(digest.as_slice());
        match self.state {
            StreamState::Streaming { checksum: expected } => {
                if checksum == expected {
                    Ok(())
                } else {
                    Err(Error::discrepancy(expected.as_str(), checksum.as_str()))
                }
            },
            StreamState::AwaitingResponse { .. } => Err(
                Error::discrepancy("None", checksum.as_str()),
            ),
        }
    }

    /// Ends the reading as `verify` does, where what the body delivered can
    /// be digested; `None` where it is longer than `MAX_INPUT_LEN` bytes.
    pub fn try_verify(self) -> (result: Option<Result<(), Error>>)
        ensures
            self.consumed().len() > MAX_INPUT_LEN ==> result is None,
            self.consumed().len() <= MAX_INPUT_LEN ==> result is Some && (result->0 is Ok
                <==> self.verifies()) && (result->0 is Err ==> result->0->Err_0@
                == ErrorView::VerificationFailure(
                discrepancy_message(
                    expected_text(self.checksum()),
                    transfer_checksum(self.consumed()),
                ),
            )),
    {
        if self.can_verify() {
            Some(self.verify())
        } else {
            None
        }
    }
}

} // verus!
