//! Base64, the two ways in which a digest is written down as text.
//!
//! A content id is the digest in the URL-safe alphabet without padding; the
//! checksum handed to the bucket is the same digest in the standard alphabet
//! with padding.

use vstd::prelude::*;

verus! {

/// The alphabet of standard Base64: digit `v` is written as the character at
/// index `v`.
pub open spec fn standard_alphabet() -> Seq<char> {
    "ABCDEFGHIJKLMNOPQRSTUVWXYZabcdefghijklmnopqrstuvwxyz0123456789+/"@
}

/// The alphabet of URL-safe Base64.
pub open spec fn url_safe_alphabet() -> Seq<char> {
    "ABCDEFGHIJKLMNOPQRSTUVWXYZabcdefghijklmnopqrstuvwxyz0123456789-_"@
}

/// The byte at index `k`, or zero behind the end of `bytes`.
pub open spec fn byte_or_zero(bytes: Seq<u8>, k: int) -> int {
    if 0 <= k < bytes.len() {
        bytes[k] as int
    } else {
        0
    }
}

/// The `i`-th group of six bits of `bytes`: every three bytes, the most
/// significant first, make four such groups, and zero bits fill the last one.
pub open spec fn sextet(bytes: Seq<u8>, i: int) -> int {
    let k = (i / 4) * 3;
    let group = byte_or_zero(bytes, k) * 0x10000 + byte_or_zero(bytes, k + 1) * 0x100
        + byte_or_zero(bytes, k + 2);
    if i % 4 == 0 {
        group / 0x40000
    } else if i % 4 == 1 {
        group / 0x1000 % 0x40
    } else if i % 4 == 2 {
        group / 0x40 % 0x40
    } else {
        group % 0x40
    }
}

/// The number of Base64 digits that `len` bytes take, padding not counted.
pub open spec fn digit_count(len: nat) -> nat {
    (4 * len + 2) / 3
}

/// The length of the padded Base64 text of `len` bytes.
pub open spec fn padded_len(len: nat) -> nat {
    4 * ((len + 2) / 3)
}

/// The Base64 text of `bytes` in `alphabet`: one character for each group of
/// six bits and, where `padded`, `=` up to a multiple of four characters.
pub open spec fn base64(bytes: Seq<u8>, alphabet: Seq<char>, padded: bool) -> Seq<char> {
    let digits = digit_count(bytes.len());
    let len = if padded {
        padded_len(bytes.len())
    } else {
        digits
    };
    Seq::new(
        len,
        |i: int|
            if i < digits {
                alphabet[sextet(bytes, i)]
            } else {
                '='
            },
    )
}

/// Every group of six bits is a digit below 64.
pub proof fn lemma_sextet_is_digit(bytes: Seq<u8>, i: int)
    requires
        0 <= i,
    ensures
        0 <= sextet(bytes, i) < 64,
{
    let k = (i / 4) * 3;
    let group = byte_or_zero(bytes, k) * 0x10000 + byte_or_zero(bytes, k + 1) * 0x100
        + byte_or_zero(bytes, k + 2);
    assert(0 <= group < 0x1000000);
}

/// The shape of a Base64 text in an alphabet of 64 characters: as many
/// characters of the alphabet as the bytes have groups of six bits, and
/// after them `=` up to the padded length, if any.
pub proof fn lemma_base64_shape(bytes: Seq<u8>, alphabet: Seq<char>, padded: bool)
    requires
        alphabet.len() == 64,
    ensures
        base64(bytes, alphabet, padded).len() == if padded {
            padded_len(bytes.len())
        } else {
            digit_count(bytes.len())
        },
        digit_count(bytes.len()) <= padded_len(bytes.len()),
        forall|i: int|
            0 <= i < digit_count(bytes.len()) ==> alphabet.contains(
                #[trigger] base64(bytes, alphabet, padded)[i],
            ),
        forall|i: int|
            digit_count(bytes.len()) <= i < base64(bytes, alphabet, padded).len() ==> (
            #[trigger] base64(bytes, alphabet, padded)[i]) == '=',
{
    let text = base64(bytes, alphabet, padded);
    assert forall|i: int| 0 <= i < digit_count(bytes.len()) implies alphabet.contains(
        #[trigger] text[i],
    ) by {
        lemma_sextet_is_digit(bytes, i);
        assert(text[i] == alphabet[sextet(bytes, i)]);
    }
}

/// Whether no character stands twice among the first 64 of `alphabet`.
pub open spec fn has_distinct_digits(alphabet: Seq<char>) -> bool {
    &&& alphabet.len() == 64
    &&& forall|v: int, w: int|
        0 <= v < 64 && 0 <= w < 64 && v != w ==> #[trigger] alphabet[v] != #[trigger] alphabet[w]
}

/// The digit that `c` stands for in standard Base64, where it stands for
/// one.
pub open spec fn standard_value(c: char) -> int {
    if 'A' <= c <= 'Z' {
        c as int - 'A' as int
    } else if 'a' <= c <= 'z' {
        c as int - 'a' as int + 26
    } else if '0' <= c <= '9' {
        c as int - '0' as int + 52
    } else if c == '+' {
        62
    } else {
        63
    }
}

/// The digit that `c` stands for in URL-safe Base64, where it stands for
/// one.
pub open spec fn url_safe_value(c: char) -> int {
    if c == '-' {
        62
    } else if c == '_' {
        63
    } else {
        standard_value(c)
    }
}

/// How a character of standard Base64 is written in URL-safe Base64.
pub open spec fn respelled(c: char) -> char {
    if c == '+' {
        '-'
    } else if c == '/' {
        '_'
    } else {
        c
    }
}

/// A digit below 64 is one of the 64 digits.
proof fn lemma_digit_cases(v: int)
    requires
        0 <= v < 64,
    ensures
        v == 0 || v == 1 || v == 2 || v == 3 || v == 4 || v == 5 || v == 6 || v == 7 || v == 8
            || v == 9 || v == 10 || v == 11 || v == 12 || v == 13 || v == 14 || v == 15 || v == 16
            || v == 17 || v == 18 || v == 19 || v == 20 || v == 21 || v == 22 || v == 23 || v == 24
            || v == 25 || v == 26 || v == 27 || v == 28 || v == 29 || v == 30 || v == 31 || v == 32
            || v == 33 || v == 34 || v == 35 || v == 36 || v == 37 || v == 38 || v == 39 || v == 40
            || v == 41 || v == 42 || v == 43 || v == 44 || v == 45 || v == 46 || v == 47 || v == 48
            || v == 49 || v == 50 || v == 51 || v == 52 || v == 53 || v == 54 || v == 55 || v == 56
            || v == 57 || v == 58 || v == 59 || v == 60 || v == 61 || v == 62 || v == 63,
{
}

/// The standard alphabet has 64 characters, and each stands for its own
/// index.
pub proof fn lemma_standard_alphabet(v: int)
    requires
        0 <= v < 64,
    ensures
        standard_alphabet().len() == 64,
        standard_value(standard_alphabet()[v]) == v,
        standard_alphabet()[v] != '=',
{
    reveal_strlit("ABCDEFGHIJKLMNOPQRSTUVWXYZabcdefghijklmnopqrstuvwxyz0123456789+/");
    lemma_digit_cases(v);
}

/// The URL-safe alphabet has 64 characters, each stands for its own index,
/// and each is the character of the standard alphabet at that index,
/// respelled.
pub proof fn lemma_url_safe_alphabet(v: int)
    requires
        0 <= v < 64,
    ensures
        url_safe_alphabet().len() == 64,
        url_safe_value(url_safe_alphabet()[v]) == v,
        url_safe_alphabet()[v] == respelled(standard_alphabet()[v]),
{
    reveal_strlit("ABCDEFGHIJKLMNOPQRSTUVWXYZabcdefghijklmnopqrstuvwxyz0123456789-_");
    reveal_strlit("ABCDEFGHIJKLMNOPQRSTUVWXYZabcdefghijklmnopqrstuvwxyz0123456789+/");
    lemma_digit_cases(v);
}

/// Neither alphabet holds a character twice.
pub proof fn lemma_alphabets_are_distinct()
    ensures
        has_distinct_digits(standard_alphabet()),
        has_distinct_digits(url_safe_alphabet()),
{
    assert forall|v: int, w: int| 0 <= v < 64 && 0 <= w < 64 && v != w implies (
    #[trigger] standard_alphabet()[v]) != #[trigger] standard_alphabet()[w] by {
        lemma_standard_alphabet(v);
        lemma_standard_alphabet(w);
    }
    assert forall|v: int, w: int| 0 <= v < 64 && 0 <= w < 64 && v != w implies (
    #[trigger] url_safe_alphabet()[v]) != #[trigger] url_safe_alphabet()[w] by {
        lemma_url_safe_alphabet(v);
        lemma_url_safe_alphabet(w);
    }
    lemma_standard_alphabet(0);
    lemma_url_safe_alphabet(0);
}

/// The byte that two neighbouring groups of six bits hold between them:
/// `high` and `low` are the groups, and `place` says where in its three
/// bytes the byte stands.
pub open spec fn byte_of_sextets(high: int, low: int, place: int) -> int {
    if place == 0 {
        high * 4 + low / 16
    } else if place == 1 {
        high % 16 * 16 + low / 4
    } else {
        high % 4 * 64 + low
    }
}

/// Three bytes can be read back from the four groups of six bits that they
/// make.
proof fn lemma_group_splits(b0: int, b1: int, b2: int)
    requires
        0 <= b0 < 256,
        0 <= b1 < 256,
        0 <= b2 < 256,
    ensures
        ({
            let group = b0 * 0x10000 + b1 * 0x100 + b2;
            &&& b0 == byte_of_sextets(group / 0x40000, group / 0x1000 % 0x40, 0)
            &&& b1 == byte_of_sextets(group / 0x1000 % 0x40, group / 0x40 % 0x40, 1)
            &&& b2 == byte_of_sextets(group / 0x40 % 0x40, group % 0x40, 2)
        }),
{
    let x0 = b0 as u32;
    let x1 = b1 as u32;
    let x2 = b2 as u32;
    assert(x0 < 256 && x1 < 256 && x2 < 256 ==> {
        let g = (x0 * 0x10000 + x1 * 0x100 + x2) as u32;
        &&& g == x0 * 0x10000 + x1 * 0x100 + x2
        &&& x0 == (g / 0x40000) * 4 + (g / 0x1000 % 0x40) / 16
        &&& x1 == (g / 0x1000 % 0x40) % 16 * 16 + (g / 0x40 % 0x40) / 4
        &&& x2 == (g / 0x40 % 0x40) % 4 * 64 + g % 0x40
    }) by (bit_vector);
}

/// Every byte can be read back from the two groups of six bits that it is
/// spread over, and both are among the digits of the text.
pub proof fn lemma_byte_from_sextets(bytes: Seq<u8>, k: int)
    requires
        0 <= k < bytes.len(),
    ensures
        k / 3 * 4 + k % 3 + 1 < digit_count(bytes.len()),
        bytes[k] as int == byte_of_sextets(
            sextet(bytes, k / 3 * 4 + k % 3),
            sextet(bytes, k / 3 * 4 + k % 3 + 1),
            k % 3,
        ),
{
    let j = k / 3;
    let r = k % 3;
    let i = j * 4 + r;
    assert(i / 4 == j && i % 4 == r);
    assert((i + 1) / 4 == j && (i + 1) % 4 == r + 1);
    lemma_group_splits(
        byte_or_zero(bytes, j * 3),
        byte_or_zero(bytes, j * 3 + 1),
        byte_or_zero(bytes, j * 3 + 2),
    );
}

/// Base64 loses nothing: two sequences of bytes of one length with the same
/// text, in an alphabet that holds no character twice, are the same bytes.
pub proof fn lemma_base64_is_injective(
    first: Seq<u8>,
    second: Seq<u8>,
    alphabet: Seq<char>,
    padded: bool,
)
    requires
        has_distinct_digits(alphabet),
        first.len() == second.len(),
        base64(first, alphabet, padded) == base64(second, alphabet, padded),
    ensures
        first == second,
{
    lemma_base64_shape(first, alphabet, padded);
    assert forall|k: int| 0 <= k < first.len() implies first[k] == second[k] by {
        let i = k / 3 * 4 + k % 3;
        lemma_byte_from_sextets(first, k);
        lemma_byte_from_sextets(second, k);
        lemma_sextet_is_digit(first, i);
        lemma_sextet_is_digit(second, i);
        lemma_sextet_is_digit(first, i + 1);
        lemma_sextet_is_digit(second, i + 1);
        assert(base64(first, alphabet, padded)[i] == alphabet[sextet(first, i)]);
        assert(base64(second, alphabet, padded)[i] == alphabet[sextet(second, i)]);
        assert(base64(first, alphabet, padded)[i + 1] == alphabet[sextet(first, i + 1)]);
        assert(base64(second, alphabet, padded)[i + 1] == alphabet[sextet(second, i + 1)]);
        assert(sextet(first, i) == sextet(second, i));
        assert(sextet(first, i + 1) == sextet(second, i + 1));
    }
    assert(first =~= second);
}

/// Calls `base64::Engine::encode` on `base64::engine::general_purpose::STANDARD`.
///
/// Trusted: the result is the padded Base64 text of `bytes` in the standard
/// alphabet. The crate panics where the length of the text overflows
/// `usize`, which the precondition leaves out.
#[verifier::external_body]
pub(crate) fn encode_standard(bytes: &[u8]) -> (text: String)
    requires
        padded_len(bytes@.len()) <= usize::MAX,
    ensures
        text@ == base64(bytes@, standard_alphabet(), true),
{
    base64::Engine::encode(&base64::engine::general_purpose::STANDARD, bytes)
}

/// Calls `base64::Engine::encode` on
/// `base64::engine::general_purpose::URL_SAFE_NO_PAD`.
///
/// Trusted: the result is the Base64 text of `bytes` in the URL-safe
/// alphabet, without padding. The crate panics where the length of the text
/// overflows `usize`, which the precondition leaves out.
#[verifier::external_body]
pub(crate) fn encode_url_safe_no_pad(bytes: &[u8]) -> (text: String)
    requires
        padded_len(bytes@.len()) <= usize::MAX,
    ensures
        text@ == base64(bytes@, url_safe_alphabet(), false),
{
    base64::Engine::encode(&base64::engine::general_purpose::URL_SAFE_NO_PAD, bytes)
}

} // verus!
