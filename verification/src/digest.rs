//! Digests and their textual form: the calls into `sha2` and `base64`.

use crate::text::Text;
use base64::engine::general_purpose::{URL_SAFE, URL_SAFE_NO_PAD};
use base64::Engine;
use sha2::{Digest, Sha256, Sha512};
use vstd::prelude::*;

verus! {

/// The SHA-256 digest of `data`.
pub uninterp spec fn sha256(data: Seq<u8>) -> Seq<u8>;

/// The SHA-512 digest of `data`.
pub uninterp spec fn sha512(data: Seq<u8>) -> Seq<u8>;

/// The character of the URL-safe base64 alphabet that stands for `v`, a number of six bits.
pub open spec fn base64_url_char(v: int) -> char {
    if v < 26 {
        (65 + v) as char
    } else if v < 52 {
        (97 + (v - 26)) as char
    } else if v < 62 {
        (48 + (v - 52)) as char
    } else if v == 62 {
        '-'
    } else {
        '_'
    }
}

/// The byte at `i`, or 0 beyond the end.
pub open spec fn byte_at(data: Seq<u8>, i: int) -> int {
    if i < data.len() {
        data[i] as int
    } else {
        0
    }
}

/// The number in the six bits of `data` from bit `6 * i` on. Three bytes hold four such numbers,
/// the highest bits first; beyond the end all bits are 0.
pub open spec fn six_bits(data: Seq<u8>, i: int) -> int {
    let first = byte_at(data, 3 * (i / 4));
    let second = byte_at(data, 3 * (i / 4) + 1);
    let third = byte_at(data, 3 * (i / 4) + 2);
    if i % 4 == 0 {
        first / 4
    } else if i % 4 == 1 {
        first % 4 * 16 + second / 16
    } else if i % 4 == 2 {
        second % 16 * 4 + third / 64
    } else {
        third % 64
    }
}

/// `data` in URL-safe base64 without padding: a character for every six bits begun.
pub open spec fn base64_url_no_pad(data: Seq<u8>) -> Text {
    Seq::new((4 * data.len() + 2) / 3, |i: int| base64_url_char(six_bits(data, i)))
}

/// `data` in URL-safe base64, padded with `=` to a multiple of four characters.
pub open spec fn base64_url(data: Seq<u8>) -> Text {
    let plain = base64_url_no_pad(data);
    plain + Seq::new(((data.len() + 2) / 3 * 4 - plain.len()) as nat, |i: int| '=')
}

/// Whether `c` belongs to the URL-safe base64 alphabet.
pub open spec fn is_base64_url_char(c: char) -> bool {
    ||| 'A' <= c <= 'Z'
    ||| 'a' <= c <= 'z'
    ||| '0' <= c <= '9'
    ||| c == '-'
    ||| c == '_'
}

/// Calls `sha2::Sha256::digest`. The result is the digest of the data given, and it is
/// 32 bytes long. The call counts the bits of the data in 64 bits, which no data that fits in
/// an address space can exhaust.
#[verifier::external_body]
pub(crate) fn sha256_digest(data: &[u8]) -> (r: Vec<u8>)
    ensures
        r@ == sha256(data@),
        r@.len() == 32,
{
    Sha256::digest(data).to_vec()
}

/// Calls `sha2::Sha512::digest`. The result is the digest of the data given, and it is
/// 64 bytes long.
#[verifier::external_body]
pub(crate) fn sha512_digest(data: &[u8]) -> (r: Vec<u8>)
    ensures
        r@ == sha512(data@),
        r@.len() == 64,
{
    Sha512::digest(data).to_vec()
}

/// Calls `Engine::encode` of `base64::engine::general_purpose::URL_SAFE_NO_PAD`. The result is
/// the data in URL-safe base64 without padding. The call panics only where the length of the
/// text overflows, which the bound rules out.
#[verifier::external_body]
pub(crate) fn encode_base64_url_no_pad(data: &[u8]) -> (r: String)
    requires
        data@.len() <= usize::MAX / 4,
    ensures
        r@ == base64_url_no_pad(data@),
{
    URL_SAFE_NO_PAD.encode(data)
}

/// Calls `Engine::encode` of `base64::engine::general_purpose::URL_SAFE`. The result is the data
/// in URL-safe base64, padded with `=` to a multiple of four characters. The call panics only
/// where the length of the text overflows, which the bound rules out.
#[verifier::external_body]
pub(crate) fn encode_base64_url(data: &[u8]) -> (r: String)
    requires
        data@.len() <= usize::MAX / 4,
    ensures
        r@ == base64_url(data@),
{
    URL_SAFE.encode(data)
}

// ---------------------------------------------------------------------------
// What holds of base64

proof fn lemma_six_bits(data: Seq<u8>, i: int)
    requires
        0 <= i,
    ensures
        0 <= six_bits(data, i) < 64,
{
}

/// Base64 without padding is made of characters of its alphabet only, one for every six bits
/// begun.
pub proof fn law_base64_keeps_to_its_alphabet(data: Seq<u8>)
    ensures
        base64_url_no_pad(data).len() == (4 * data.len() + 2) / 3,
        forall|i: int|
            0 <= i < base64_url_no_pad(data).len() ==> is_base64_url_char(
                #[trigger] base64_url_no_pad(data)[i],
            ),
{
    assert forall|i: int| 0 <= i < base64_url_no_pad(data).len() implies is_base64_url_char(
        #[trigger] base64_url_no_pad(data)[i],
    ) by {
        lemma_six_bits(data, i);
    }
}

/// Padding makes up a multiple of four characters, and whole groups of three bytes need none.
pub proof fn law_base64_is_padded(data: Seq<u8>)
    ensures
        base64_url(data).len() == (data.len() + 2) / 3 * 4,
        base64_url_no_pad(data).is_prefix_of(base64_url(data)),
        data.len() % 3 == 0 ==> base64_url(data) == base64_url_no_pad(data),
{
    assert(base64_url_no_pad(data) =~= base64_url(data).take(
        base64_url_no_pad(data).len() as int,
    ));
    if data.len() % 3 == 0 {
        assert(base64_url(data) =~= base64_url_no_pad(data));
    }
}

proof fn lemma_same_six_bits(a: Seq<u8>, b: Seq<u8>, i: int)
    requires
        0 <= i < base64_url_no_pad(a).len(),
        base64_url_no_pad(a) == base64_url_no_pad(b),
    ensures
        six_bits(a, i) == six_bits(b, i),
{
    lemma_six_bits(a, i);
    lemma_six_bits(b, i);
    assert(base64_url_no_pad(a)[i] == base64_url_char(six_bits(a, i)));
    assert(base64_url_no_pad(b)[i] == base64_url_char(six_bits(b, i)));
}

/// No two inputs have the same base64.
pub proof fn law_base64_is_injective(a: Seq<u8>, b: Seq<u8>)
    requires
        base64_url_no_pad(a) == base64_url_no_pad(b),
    ensures
        a == b,
{
    law_base64_keeps_to_its_alphabet(a);
    law_base64_keeps_to_its_alphabet(b);
    assert(a.len() == b.len()) by {
        let m = base64_url_no_pad(a).len() as int;
        assert(3 * m <= 4 * a.len() + 2 < 3 * m + 3);
        assert(3 * m <= 4 * b.len() + 2 < 3 * m + 3);
    }
    assert forall|j: int| 0 <= j < a.len() implies a[j] == b[j] by {
        let g = 4 * (j / 3);
        if j % 3 == 0 {
            lemma_same_six_bits(a, b, g);
            lemma_same_six_bits(a, b, g + 1);
            assert(byte_at(a, j) == six_bits(a, g) * 4 + six_bits(a, g + 1) / 16);
            assert(byte_at(b, j) == six_bits(b, g) * 4 + six_bits(b, g + 1) / 16);
        } else if j % 3 == 1 {
            lemma_same_six_bits(a, b, g + 1);
            lemma_same_six_bits(a, b, g + 2);
            assert(byte_at(a, j) == six_bits(a, g + 1) % 16 * 16 + six_bits(a, g + 2) / 4);
            assert(byte_at(b, j) == six_bits(b, g + 1) % 16 * 16 + six_bits(b, g + 2) / 4);
        } else {
            lemma_same_six_bits(a, b, g + 2);
            lemma_same_six_bits(a, b, g + 3);
            assert(byte_at(a, j) == six_bits(a, g + 2) % 4 * 64 + six_bits(a, g + 3));
            assert(byte_at(b, j) == six_bits(b, g + 2) % 4 * 64 + six_bits(b, g + 3));
        }
    }
    assert(a =~= b);
}

} // verus!
