//! How content is turned into names: the id of an object, the checksum that
//! travels with it, and the key under which the bucket keeps it.

use vstd::prelude::*;
use crate::digest::{sha256, DIGEST_LEN};
use crate::encoding::{
    base64, lemma_alphabets_are_distinct, lemma_base64_is_injective, lemma_base64_shape,
    lemma_sextet_is_digit, lemma_url_safe_alphabet, respelled, sextet,
    standard_alphabet, url_safe_alphabet,
};

verus! {

/// The id of an object that holds `content`: its SHA-256 digest in URL-safe
/// Base64 without padding.
pub open spec fn content_id(content: Seq<u8>) -> Seq<char> {
    base64(sha256(content), url_safe_alphabet(), false)
}

/// The checksum that is exchanged with the bucket for `content`: its SHA-256
/// digest in standard Base64 with padding.
pub open spec fn transfer_checksum(content: Seq<u8>) -> Seq<char> {
    base64(sha256(content), standard_alphabet(), true)
}

/// The length of a content id: the 43 digits of 32 bytes.
pub const ID_LEN: usize = 43;

/// The length of a checksum: the 43 digits of 32 bytes and one `=`.
pub const CHECKSUM_LEN: usize = 44;

/// Whether `text` has the shape of a content id: 43 characters of the
/// URL-safe alphabet.
pub open spec fn is_content_id(text: Seq<char>) -> bool {
    &&& text.len() == ID_LEN
    &&& forall|i: int| 0 <= i < text.len() ==> url_safe_alphabet().contains(#[trigger] text[i])
}

/// Whether `text` has the shape of a checksum: 43 characters of the standard
/// alphabet and `=` after them.
pub open spec fn is_checksum(text: Seq<char>) -> bool {
    &&& text.len() == CHECKSUM_LEN
    &&& forall|i: int| 0 <= i < ID_LEN ==> standard_alphabet().contains(#[trigger] text[i])
    &&& text[ID_LEN as int] == '='
}

/// The two texts of a digest of 32 bytes have the shapes of a content id
/// and of a checksum.
pub proof fn lemma_shapes_of_digest(digest: Seq<u8>)
    requires
        digest.len() == DIGEST_LEN,
    ensures
        is_content_id(base64(digest, url_safe_alphabet(), false)),
        is_checksum(base64(digest, standard_alphabet(), true)),
{
    reveal_strlit("ABCDEFGHIJKLMNOPQRSTUVWXYZabcdefghijklmnopqrstuvwxyz0123456789-_");
    reveal_strlit("ABCDEFGHIJKLMNOPQRSTUVWXYZabcdefghijklmnopqrstuvwxyz0123456789+/");
    lemma_base64_shape(digest, url_safe_alphabet(), false);
    lemma_base64_shape(digest, standard_alphabet(), true);
}

/// The two texts of a digest lose nothing of it: digests that differ have
/// ids that differ and checksums that differ.
pub proof fn lemma_texts_tell_digests_apart(first: Seq<u8>, second: Seq<u8>)
    requires
        first.len() == DIGEST_LEN,
        second.len() == DIGEST_LEN,
        first != second,
    ensures
        base64(first, url_safe_alphabet(), false) != base64(second, url_safe_alphabet(), false),
        base64(first, standard_alphabet(), true) != base64(second, standard_alphabet(), true),
{
    lemma_alphabets_are_distinct();
    if base64(first, url_safe_alphabet(), false) == base64(second, url_safe_alphabet(), false) {
        lemma_base64_is_injective(first, second, url_safe_alphabet(), false);
    }
    if base64(first, standard_alphabet(), true) == base64(second, standard_alphabet(), true) {
        lemma_base64_is_injective(first, second, standard_alphabet(), true);
    }
}

/// The id and the checksum of one digest say the same in two spellings: the
/// id is the checksum without its padding, with `+` written as `-` and `/`
/// as `_`.
pub proof fn lemma_id_respells_checksum(digest: Seq<u8>)
    requires
        digest.len() == DIGEST_LEN,
    ensures
        base64(digest, url_safe_alphabet(), false) == Seq::new(
            ID_LEN as nat,
            |i: int| respelled(base64(digest, standard_alphabet(), true)[i]),
        ),
{
    let id = base64(digest, url_safe_alphabet(), false);
    let checksum = base64(digest, standard_alphabet(), true);
    let respelt = Seq::new(ID_LEN as nat, |i: int| respelled(checksum[i]));
    assert forall|i: int| 0 <= i < ID_LEN implies id[i] == respelt[i] by {
        lemma_sextet_is_digit(digest, i);
        lemma_url_safe_alphabet(sextet(digest, i));
    }
    assert(id =~= respelt);
}

/// `path` below `base`: the two joined by a slash.
pub open spec fn join_path(base: Seq<char>, path: Seq<char>) -> Seq<char> {
    base + seq!['/'] + path
}

/// The key of the object `id` with `extension` below `base_path`.
pub open spec fn object_key(base_path: Seq<char>, id: Seq<char>, extension: Seq<char>) -> Seq<
    char,
> {
    base_path + seq!['/'] + id + seq!['.'] + extension
}

/// Joins `base` and `path` by a slash.
pub fn join(base: &str, path: &str) -> (joined: String)
    ensures
        joined@ == join_path(base@, path@),
{
    proof {
        reveal_strlit("/");
        assert("/"@ =~= seq!['/']);
    }
    let mut joined = String::from_str(base);
    joined.append("/");
    joined.append(path);
    joined
}

/// Builds the key of the object `id` with `extension` below `base_path`.
pub fn key_for(base_path: &str, id: &str, extension: &str) -> (key: String)
    ensures
        key@ == object_key(base_path@, id@, extension@),
{
    proof {
        reveal_strlit("/");
        reveal_strlit(".");
        assert("/"@ =~= seq!['/']);
        assert("."@ =~= seq!['.']);
    }
    let mut key = String::from_str(base_path);
    key.append("/");
    key.append(id);
    key.append(".");
    key.append(extension);
    key
}

} // verus!
