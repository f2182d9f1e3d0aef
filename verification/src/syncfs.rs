//! The blocking side: a writer that names what it was given, and a reader
//! that holds a fetched object in memory.

use vstd::prelude::*;
use vstd::slice::slice_subrange;
use crate::address::{
    content_id, is_checksum, is_content_id, join, join_path, key_for, lemma_shapes_of_digest,
    object_key, transfer_checksum,
};
use crate::buffer::{as_slice, contents};
use crate::digest::{DigestState, MAX_INPUT_LEN};
use crate::encoding::{encode_standard, encode_url_safe_no_pad};
use crate::error::{discrepancy_message, Error, ErrorView};
use crate::store::{GetObject, PutObject};

verus! {

/// A place in a bucket below which objects are kept.
pub struct S3FileSystem {
    bucket_name: String,
    base_path: String,
}

impl S3FileSystem {
    /// The name of the bucket.
    pub closed spec fn bucket_name(&self) -> Seq<char> {
        self.bucket_name@
    }

    /// The path below which the objects are kept.
    pub closed spec fn base_path(&self) -> Seq<char> {
        self.base_path@
    }

    /// A file system on the bucket `bucket_name`, below `base_path`.
    pub fn new(bucket_name: String, base_path: String) -> (fs: Self)
        ensures
            fs.bucket_name() == bucket_name@,
            fs.base_path() == base_path@,
    {
        S3FileSystem { bucket_name, base_path }
    }

    /// A writer whose object will be kept directly below the base path.
    pub fn create_hashed_file(&self) -> (file: S3HashedFileOut)
        ensures
            file.bucket_name() == self.bucket_name(),
            file.base_path() == self.base_path(),
            file.written() == Seq::<u8>::empty(),
    {
        S3HashedFileOut::create(self.bucket_name.clone(), self.base_path.clone())
    }

    /// A writer whose object will be kept below `path`, itself below the
    /// base path.
    pub fn create_hashed_file_in(&self, path: &str) -> (file: S3HashedFileOut)
        ensures
            file.bucket_name() == self.bucket_name(),
            file.base_path() == join_path(self.base_path(), path@),
            file.written() == Seq::<u8>::empty(),
    {
        S3HashedFileOut::create(self.bucket_name.clone(), join(self.base_path.as_str(), path))
    }

    /// The request that fetches the object at `path` below the base path,
    /// with its checksum.
    pub fn open_hashed_file(&self, path: &str) -> (request: GetObject)
        ensures
            request.bucket_name@ == self.bucket_name(),
            request.key@ == join_path(self.base_path(), path@),
            request.checksum_requested,
    {
        GetObject {
            bucket_name: self.bucket_name.clone(),
            key: join(self.base_path.as_str(), path),
            checksum_requested: true,
        }
    }
}

/// A writer of one object. It keeps the digest of what it was given; the
/// bytes themselves stay with the caller until they are uploaded.
pub struct S3HashedFileOut {
    bucket_name: String,
    base_path: String,
    digest: DigestState,
}

/// What `written` becomes when `buf` is written after it.
pub open spec fn after_write(written: Seq<u8>, buf: Seq<u8>) -> Seq<u8> {
    written + buf
}

impl S3HashedFileOut {
    /// The bucket that will hold the object.
    pub closed spec fn bucket_name(&self) -> Seq<char> {
        self.bucket_name@
    }

    /// The path below which the object will be kept.
    pub closed spec fn base_path(&self) -> Seq<char> {
        self.base_path@
    }

    /// Everything that has been written so far.
    pub closed spec fn written(&self) -> Seq<u8> {
        self.digest.absorbed()
    }

    /// A writer that has been given nothing yet.
    pub fn create(bucket_name: String, base_path: String) -> (file: Self)
        ensures
            file.bucket_name() == bucket_name@,
            file.base_path() == base_path@,
            file.written() == Seq::<u8>::empty(),
    {
        S3HashedFileOut { bucket_name, base_path, digest: DigestState::new() }
    }

    /// Takes `buf` as the next bytes of the object and returns how many
    /// bytes were taken: all of them. The caller keeps the bytes for the
    /// upload, and hands over those that it has kept and no others.
    pub fn write(&mut self, buf: &[u8]) -> (count: usize)
        ensures
            count == buf@.len(),
            final(self).written() == after_write(old(self).written(), buf@),
            final(self).bucket_name() == old(self).bucket_name(),
            final(self).base_path() == old(self).base_path(),
    {
        self.digest.update(buf);
        buf.len()
    }

    /// Whether `upload` is what persisting this writer with `extension`
    /// gives: the id and the checksum of what was written, and the key of
    /// that id below the base path.
    pub open spec fn persists_as(&self, extension: Seq<char>, upload: Upload) -> bool {
        &&& upload.id@ == content_id(self.written())
        &&& upload.request.bucket_name@ == self.bucket_name()
        &&& upload.request.key@ == object_key(
            self.base_path(),
            content_id(self.written()),
            extension,
        )
        &&& upload.request.checksum_sha256@ == transfer_checksum(self.written())
        &&& is_content_id(upload.id@)
        &&& is_checksum(upload.request.checksum_sha256@)
    }

    /// Whether what was written is short enough to be digested.
    pub fn can_persist(&self) -> (possible: bool)
        ensures
            possible == (self.written().len() <= MAX_INPUT_LEN),
    {
        self.digest.can_finish()
    }

    /// Ends the writing: names the object by its content and says how it is
    /// to be uploaded.
    pub fn persist(self, extension: &str) -> (upload: Upload)
        requires
            self.written().len() <= MAX_INPUT_LEN,
        ensures
            self.persists_as(extension@, upload),
    {
        let digest = self.digest.finish();
        proof {
            lemma_shapes_of_digest(digest@);
        }
        let id = encode_url_safe_no_pad(digest.as_slice());
        let checksum = encode_standard(digest.as_slice());
        let key = key_for(self.base_path.as_str(), id.as_str(), extension);
        Upload {
            id,
            request: PutObject { bucket_name: self.bucket_name, key, checksum_sha256: checksum },
        }
    }

    /// Ends the writing as `persist` does, where what was written can be
    /// digested; `None` where it is longer than `MAX_INPUT_LEN` bytes.
    pub fn try_persist(self, extension: &str) -> (upload: Option<Upload>)
        ensures
            self.written().len() <= MAX_INPUT_LEN ==> upload is Some && self.persists_as(
                extension@,
                upload->0,
            ),
            self.written().len() > MAX_INPUT_LEN ==> upload is None,
    {
        if self.can_persist() {
            Some(self.persist(extension))
        } else {
            None
        }
    }
}

/// Why an upload did not go through.
#[derive(Debug, PartialEq, Eq)]
pub enum UploadFailure {
    /// The written bytes could not be read back for the upload.
    Unreadable(String),
    /// The bucket did not take the object.
    Rejected(String),
}

/// An object that has been named and is yet to be uploaded.
#[derive(Debug, PartialEq, Eq)]
pub struct Upload {
    /// The id of the object.
    pub id: String,
    /// The request that uploads it.
    pub request: PutObject,
}

impl Upload {
    /// The result of persisting, once the upload has been tried: the id of
    /// the object where it went through, the failure wrapped where not.
    pub fn complete(self, outcome: Result<(), UploadFailure>) -> (result: Result<String, Error>)
        ensures
            outcome is Ok ==> result == Ok::<String, Error>(self.id),
            outcome matches Err(UploadFailure::Unreadable(cause)) ==> result is Err
                && result->Err_0@ == ErrorView::InvalidContext(
                "failed to read the temporary file"@ + ": "@ + cause@,
            ),
            outcome matches Err(UploadFailure::Rejected(cause)) ==> result is Err
                && result->Err_0@ == ErrorView::InvalidContext(
                "failed to upload the content to S3"@ + ": "@ + cause@,
            ),
    {
        match outcome {
            Ok(()) => Ok(self.id),
            Err(UploadFailure::Unreadable(cause)) => Err(
                Error::wrap("failed to read the temporary file", cause.as_str()),
            ),
            Err(UploadFailure::Rejected(cause)) => Err(
                Error::wrap("failed to upload the content to S3", cause.as_str()),
            ),
        }
    }
}

/// A reader of one fetched object, whose body it holds in memory.
pub struct S3HashedFileIn {
    body: bytes::Bytes,
    read_pos: usize,
    checksum: String,
    digest: DigestState,
}

impl S3HashedFileIn {
    /// The body of the object, as it was fetched.
    pub closed spec fn body(&self) -> Seq<u8> {
        contents(self.body)
    }

    /// How many bytes of the body have been read.
    pub closed spec fn position(&self) -> nat {
        self.read_pos as nat
    }

    /// The checksum that the bucket reported for the object.
    pub closed spec fn checksum(&self) -> Seq<char> {
        self.checksum@
    }

    /// The bytes that have been read, which are those that the digest has
    /// taken in.
    pub closed spec fn consumed(&self) -> Seq<u8> {
        self.digest.absorbed()
    }

    /// The cursor is within the body, and what has been read is the body up
    /// to the cursor. This holds of every reader.
    #[verifier::type_invariant]
    pub open spec fn wf(&self) -> bool {
        &&& self.position() <= self.body().len()
        &&& self.consumed() == self.body().subrange(0, self.position() as int)
    }

    /// Whether the bytes read have the checksum that the bucket reported.
    pub open spec fn verifies(&self) -> bool {
        self.checksum() == transfer_checksum(self.consumed())
    }

    /// Looks at the answer to a fetch before any of its body is read: the
    /// checksum that it reports, or why there is no going on.
    pub fn expect_checksum(response: Result<Option<String>, String>) -> (result: Result<
        String,
        Error,
    >)
        ensures
            response matches Ok(Some(checksum)) ==> result == Ok::<String, Error>(checksum),
            response matches Ok(None) ==> result is Err && result->Err_0@
                == ErrorView::InvalidContext("no checksum for the content from S3"@),
            response matches Err(cause) ==> result is Err && result->Err_0@
                == ErrorView::InvalidContext(
                "failed to request the content from S3"@ + ": "@ + cause@,
            ),
    {
        match response {
            Ok(Some(checksum)) => Ok(checksum),
            Ok(None) => Err(
                Error::InvalidContext(String::from_str("no checksum for the content from S3")),
            ),
            Err(cause) => Err(Error::wrap("failed to request the content from S3", cause.as_str())),
        }
    }

    /// A reader at the start of `body`, where the body came in whole; the
    /// failure wrapped, where it did not.
    pub fn open(checksum: String, body: Result<bytes::Bytes, String>) -> (result: Result<
        Self,
        Error,
    >)
        ensures
            body matches Ok(bytes) ==> result is Ok && result->Ok_0.wf() && result->Ok_0.body()
                == contents(bytes) && result->Ok_0.checksum() == checksum@
                && result->Ok_0.position() == 0 && result->Ok_0.consumed() == Seq::<u8>::empty(),
            body matches Err(cause) ==> result is Err && result->Err_0@
                == ErrorView::InvalidContext(
                "failed to read the content from S3"@ + ": "@ + cause@,
            ),
    {
        match body {
            Ok(bytes) => {
                let digest = DigestState::new();
                assert(contents(bytes).subrange(0, 0) =~= digest.absorbed());
                Ok(S3HashedFileIn { body: bytes, read_pos: 0, checksum, digest })
            },
            Err(cause) => Err(Error::wrap("failed to read the content from S3", cause.as_str())),
        }
    }

    /// Copies the next bytes of the body to the front of `buf`, as many as
    /// there are left and `buf` has room for, and returns how many. The rest
    /// of `buf` is left as it was.
    pub fn read(&mut self, buf: &mut [u8]) -> (count: usize)
        ensures
            final(self).wf(),
            final(self).body() == old(self).body(),
            final(self).checksum() == old(self).checksum(),
            count == if old(buf)@.len() <= old(self).body().len() - old(self).position() {
                old(buf)@.len() as int
            } else {
                old(self).body().len() - old(self).position()
            },
            final(self).position() == old(self).position() + count,
            final(self).consumed() == old(self).consumed() + old(self).body().subrange(
                old(self).position() as int,
                old(self).position() + count,
            ),
            final(buf)@ == old(self).body().subrange(
                old(self).position() as int,
                old(self).position() + count,
            ) + old(buf)@.subrange(count as int, old(buf)@.len() as int),
    {
        proof {
            use_type_invariant(&*self);
        }
        let body = as_slice(&self.body);
        let start = self.read_pos;
        let left = body.len() - start;
        let count = if buf.len() <= left {
            buf.len()
        } else {
            left
        };
        let mut i: usize = 0;
        while i < count
            invariant
                i <= count,
                start + count <= body@.len() <= usize::MAX,
                count <= buf@.len(),
                buf@.len() == old(buf)@.len(),
                forall|j: int| 0 <= j < i ==> buf@[j] == body@[start + j],
                forall|j: int| i <= j < buf@.len() ==> buf@[j] == old(buf)@[j],
            decreases count - i,
        {
            buf[i] = body[start + i];
            i += 1;
        }
        let ghost chunk = body@.subrange(start as int, start + count);
        assert(buf@.subrange(0, count as int) =~= chunk);
        assert(buf@ =~= chunk + old(buf)@.subrange(count as int, old(buf)@.len() as int));
        assert(body@.subrange(0, start + count) =~= body@.subrange(0, start as int) + chunk);
        advance(&mut self.digest, &mut self.read_pos, slice_subrange(buf, 0, count), count);
        count
    }

    /// Whether what has been read is short enough to be digested.
    pub fn can_verify(&self) -> (possible: bool)
        ensures
            possible == (self.consumed().len() <= MAX_INPUT_LEN),
    {
        self.digest.can_finish()
    }

    /// Ends the reading: compares the checksum of what was read with the one
    /// that the bucket reported.
    pub fn verify(self) -> (result: Result<(), Error>)
        requires
            self.consumed().len() <= MAX_INPUT_LEN,
        ensures
            result is Ok <==> self.verifies(),
            result is Err ==> result->Err_0@ == ErrorView::VerificationFailure(
                discrepancy_message(self.checksum(), transfer_checksum(self.consumed())),
            ),
    {
        let digest = self.digest.finish();
        let checksum = encode_standard(digest.as_slice());
        if checksum == self.checksum {
            Ok(())
        } else {
            Err(Error::discrepancy(self.checksum.as_str(), checksum.as_str()))
        }
    }

    /// Ends the reading as `verify` does, where what was read can be
    /// digested; `None` where it is longer than `MAX_INPUT_LEN` bytes.
    pub fn try_verify(self) -> (result: Option<Result<(), Error>>)
        ensures
            self.consumed().len() > MAX_INPUT_LEN ==> result is None,
            self.consumed().len() <= MAX_INPUT_LEN ==> result is Some && (result->0 is Ok
                <==> self.verifies()) && (result->0 is Err ==> result->0->Err_0@
                == ErrorView::VerificationFailure(
                discrepancy_message(self.checksum(), transfer_checksum(self.consumed())),
            )),
    {
        if self.can_verify() {
            Some(self.verify())
        } else {
            None
        }
    }
}

/// Folds `chunk`, of `count` bytes, into `digest` and moves `read_pos` on by
/// as much.
fn advance(digest: &mut DigestState, read_pos: &mut usize, chunk: &[u8], count: usize)
    requires
        count == chunk@.len(),
        *old(read_pos) + count <= usize::MAX,
    ensures
        final(digest).absorbed() == old(digest).absorbed() + chunk@,
        *final(read_pos) == *old(read_pos) + count,
    no_unwind
{
    digest.update_counted(chunk, count as u64);
    *read_pos = *read_pos + count;
}

} // verus!
