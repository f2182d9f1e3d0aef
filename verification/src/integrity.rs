//! What the writer and the two readers guarantee together.
//!
//! Each statement here is about the values that the functions of the crate
//! promise, whatever the sizes of the chunks in which bytes were written,
//! read or delivered.

use vstd::prelude::*;
use crate::address::{content_id, join_path, lemma_texts_tell_digests_apart, transfer_checksum};
use crate::digest::{sha256, DIGEST_LEN};
use crate::encoding::{base64, standard_alphabet};
use crate::asyncfs::newly_filled;
use crate::syncfs::after_write;

verus! {

/// What has been written once `chunks` have been written one after the
/// other, after `written`.
pub open spec fn after_writes(written: Seq<u8>, chunks: Seq<Seq<u8>>) -> Seq<u8>
    decreases chunks.len(),
{
    if chunks.len() == 0 {
        written
    } else {
        after_write(after_writes(written, chunks.drop_last()), chunks.last())
    }
}

/// Writing chunk by chunk writes the chunks joined: where they are cut makes
/// no difference.
pub proof fn lemma_writes_join(written: Seq<u8>, chunks: Seq<Seq<u8>>)
    ensures
        after_writes(written, chunks) == written + chunks.flatten(),
    decreases chunks.len(),
{
    if chunks.len() == 0 {
        assert(written + chunks.flatten() =~= written);
    } else {
        lemma_writes_join(written, chunks.drop_last());
        chunks.drop_last().lemma_flatten_push(chunks.last());
        assert(chunks.drop_last().push(chunks.last()) =~= chunks);
        assert(written + chunks.drop_last().flatten() + chunks.last() =~= written + (
        chunks.drop_last().flatten() + chunks.last()));
    }
}

/// The same content, written in chunks of whatever sizes, gets the same id
/// and the same checksum.
pub proof fn lemma_id_ignores_chunking(first: Seq<Seq<u8>>, second: Seq<Seq<u8>>)
    requires
        first.flatten() == second.flatten(),
    ensures
        content_id(after_writes(Seq::empty(), first)) == content_id(
            after_writes(Seq::empty(), second),
        ),
        transfer_checksum(after_writes(Seq::empty(), first)) == transfer_checksum(
            after_writes(Seq::empty(), second),
        ),
{
    lemma_writes_join(Seq::empty(), first);
    lemma_writes_join(Seq::empty(), second);
}

/// The object that a writer persisted is found again by its id: the key
/// that a file system asks for, given the id, a dot and the extension as
/// the path, is the key that the object was uploaded under.
pub proof fn lemma_id_leads_back(
    fs: crate::syncfs::S3FileSystem,
    file_out: crate::syncfs::S3HashedFileOut,
    extension: Seq<char>,
    upload: crate::syncfs::Upload,
)
    requires
        file_out.base_path() == fs.base_path(),
        file_out.persists_as(extension, upload),
    ensures
        join_path(fs.base_path(), upload.id@ + seq!['.'] + extension) == upload.request.key@,
{
    assert(fs.base_path() + seq!['/'] + (upload.id@ + seq!['.'] + extension) =~= fs.base_path()
        + seq!['/'] + upload.id@ + seq!['.'] + extension);
}

/// An object that was persisted and comes back from the bucket as it was
/// uploaded, body and checksum, verifies once it has been read to its end,
/// and what was read is what was written.
pub proof fn lemma_round_trip(
    file_out: crate::syncfs::S3HashedFileOut,
    extension: Seq<char>,
    upload: crate::syncfs::Upload,
    file_in: crate::syncfs::S3HashedFileIn,
)
    requires
        file_out.persists_as(extension, upload),
        file_in.wf(),
        file_in.body() == file_out.written(),
        file_in.checksum() == upload.request.checksum_sha256@,
        file_in.position() == file_in.body().len(),
    ensures
        file_in.consumed() == file_out.written(),
        file_in.verifies(),
{
    assert(file_in.body().subrange(0, file_in.body().len() as int) =~= file_in.body());
}

/// The same for the streaming reader: once the body has delivered what was
/// written, under the checksum that was uploaded, the reader verifies.
pub proof fn lemma_round_trip_streaming(
    file_out: crate::syncfs::S3HashedFileOut,
    extension: Seq<char>,
    upload: crate::syncfs::Upload,
    file_in: crate::asyncfs::S3HashedFileIn,
)
    requires
        file_out.persists_as(extension, upload),
        file_in.checksum() == Some(upload.request.checksum_sha256@),
        file_in.consumed() == file_out.written(),
    ensures
        file_in.verifies(),
{
}

/// A buffered reader has always read a prefix of its body, however its
/// reads were sized; at the end of the body it has read the body.
pub proof fn lemma_reads_follow_body(file_in: crate::syncfs::S3HashedFileIn)
    requires
        file_in.wf(),
    ensures
        file_in.consumed() == file_in.body().subrange(0, file_in.position() as int),
        file_in.position() == file_in.body().len() ==> file_in.consumed() == file_in.body(),
{
    assert(file_in.body().subrange(0, file_in.body().len() as int) =~= file_in.body());
}

/// What a streaming reader has consumed once the polls of its body have
/// grown the filled part of one buffer step by step: `fills` holds the filled
/// part after each poll, the first of them before any.
pub open spec fn after_polls(consumed: Seq<u8>, fills: Seq<Seq<u8>>) -> Seq<u8>
    decreases fills.len(),
{
    if fills.len() <= 1 {
        consumed
    } else {
        after_polls(consumed, fills.drop_last()) + newly_filled(
            fills.last(),
            fills[fills.len() - 2].len(),
        )
    }
}

/// Where every poll only adds to the buffer, a streaming reader consumes
/// what the polls added between them: each byte once, whatever each poll
/// brought.
pub proof fn lemma_polls_join(consumed: Seq<u8>, fills: Seq<Seq<u8>>)
    requires
        fills.len() >= 1,
        forall|i: int|
            0 <= i < fills.len() - 1 ==> fills[i].len() <= (#[trigger] fills[i + 1]).len()
                && fills[i + 1].subrange(0, fills[i].len() as int) == fills[i],
    ensures
        fills[0].len() <= fills.last().len(),
        after_polls(consumed, fills) == consumed + fills.last().subrange(
            fills[0].len() as int,
            fills.last().len() as int,
        ),
    decreases fills.len(),
{
    if fills.len() == 1 {
        assert(consumed + fills.last().subrange(fills[0].len() as int, fills.last().len() as int)
            =~= consumed);
    } else {
        let shorter = fills.drop_last();
        assert forall|i: int| 0 <= i < shorter.len() - 1 implies shorter[i].len() <= (
        #[trigger] shorter[i + 1]).len() && shorter[i + 1].subrange(0, shorter[i].len() as int)
            == shorter[i] by {
            assert(shorter[i] == fills[i]);
            assert(shorter[i + 1] == fills[i + 1]);
        }
        lemma_polls_join(consumed, shorter);
        let before = fills[fills.len() - 2];
        let after = fills.last();
        assert(shorter.last() == before);
        assert(shorter[0] == fills[0]);
        assert(before.len() <= fills[fills.len() - 2 + 1].len());
        assert(after.subrange(0, before.len() as int) == before);
        let start = fills[0].len() as int;
        assert(after.subrange(start, after.len() as int) =~= before.subrange(
            start,
            before.len() as int,
        ) + newly_filled(after, before.len())) by {
            assert forall|j: int| start <= j < before.len() implies after[j] == before[j] by {
                assert(after.subrange(0, before.len() as int)[j] == after[j]);
            }
        }
        assert(consumed + before.subrange(start, before.len() as int) + newly_filled(
            after,
            before.len(),
        ) =~= consumed + after.subrange(start, after.len() as int));
    }
}

/// A checksum that is not the one of the bytes delivered fails the
/// verification of a buffered reader.
pub proof fn lemma_tampering_is_detected(
    file_in: crate::syncfs::S3HashedFileIn,
    delivered: Seq<u8>,
)
    requires
        file_in.consumed() == delivered,
        file_in.checksum() != transfer_checksum(delivered),
    ensures
        !file_in.verifies(),
{
}

/// A checksum that is not the one of the bytes delivered fails the
/// verification of a streaming reader, and so does the lack of one.
pub proof fn lemma_tampering_is_detected_streaming(
    file_in: crate::asyncfs::S3HashedFileIn,
    delivered: Seq<u8>,
)
    requires
        file_in.consumed() == delivered,
        file_in.checksum() != Some(transfer_checksum(delivered)),
    ensures
        !file_in.verifies(),
{
}

/// A checksum that is the text of another digest than that of the bytes
/// delivered fails the verification of a buffered reader: no two digests
/// share a checksum.
pub proof fn lemma_other_digest_is_rejected(
    file_in: crate::syncfs::S3HashedFileIn,
    digest: Seq<u8>,
)
    requires
        digest.len() == DIGEST_LEN,
        sha256(file_in.consumed()).len() == DIGEST_LEN,
        digest != sha256(file_in.consumed()),
        file_in.checksum() == base64(digest, standard_alphabet(), true),
    ensures
        !file_in.verifies(),
{
    lemma_texts_tell_digests_apart(digest, sha256(file_in.consumed()));
}

/// A checksum that is the text of another digest than that of the bytes
/// delivered fails the verification of a streaming reader.
pub proof fn lemma_other_digest_is_rejected_streaming(
    file_in: crate::asyncfs::S3HashedFileIn,
    digest: Seq<u8>,
)
    requires
        digest.len() == DIGEST_LEN,
        sha256(file_in.consumed()).len() == DIGEST_LEN,
        digest != sha256(file_in.consumed()),
        file_in.checksum() == Some(base64(digest, standard_alphabet(), true)),
    ensures
        !file_in.verifies(),
{
    lemma_texts_tell_digests_apart(digest, sha256(file_in.consumed()));
}

/// A buffered reader and a streaming reader of the same object, each at the
/// end of it, have read the same bytes and verify alike.
pub proof fn lemma_readers_agree(
    buffered: crate::syncfs::S3HashedFileIn,
    streaming: crate::asyncfs::S3HashedFileIn,
    object: Seq<u8>,
)
    requires
        buffered.wf(),
        buffered.body() == object,
        buffered.position() == object.len(),
        streaming.consumed() == object,
        streaming.checksum() == Some(buffered.checksum()),
    ensures
        buffered.consumed() == streaming.consumed(),
        buffered.verifies() == streaming.verifies(),
{
    lemma_reads_follow_body(buffered);
}

} // verus!
