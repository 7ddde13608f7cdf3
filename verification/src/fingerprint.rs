//! The content fingerprinter: a SHA-256 digest of the normalized page,
//! rendered as lower-case hexadecimal text.

use vstd::prelude::*;
use vstd::string::*;
use vstd::utf8::*;
use sha2::Digest;
use sha2::Sha256;

verus! {

/// The SHA-256 hash of a byte sequence: 32 bytes.
pub uninterp spec fn sha256(data: Seq<u8>) -> Seq<u8>;

/// The lower-case hexadecimal digit for a value below sixteen.
pub open spec fn hex_digit(nibble: u8) -> char {
    if nibble < 10 {
        (('0' as u8) + nibble) as char
    } else {
        (('a' as u8) + (nibble - 10)) as char
    }
}

/// Lower-case hexadecimal text for a byte sequence: two digits per byte, the
/// high half of each byte first.
pub open spec fn hex_lower(data: Seq<u8>) -> Seq<char> {
    Seq::new(
        2 * data.len(),
        |i: int|
            if i % 2 == 0 {
                hex_digit(data[i / 2] >> 4)
            } else {
                hex_digit(data[i / 2] & 0x0f)
            },
    )
}

/// The fingerprint of a text: the hexadecimal rendering of the SHA-256 hash
/// of its UTF-8 encoding.
pub open spec fn fingerprint_of(text: Seq<char>) -> Seq<char> {
    hex_lower(sha256(encode_utf8(text)))
}

/// Hashes `data` with `sha2::Sha256`, through `Digest::digest`.
///
/// Trusted: the result is the SHA-256 hash of `data`, which is a function of
/// `data` alone and always 32 bytes long.
#[verifier::external_body]
fn sha256_digest(data: &[u8]) -> (out: Vec<u8>)
    ensures
        out@ == sha256(data@),
        out@.len() == 32,
{
    Sha256::digest(data).to_vec()
}

/// Renders `data` with `hex::encode`.
///
/// Trusted: the result has two lower-case hexadecimal digits for each byte
/// of `data`, in order, the high half of a byte before its low half.
#[verifier::external_body]
fn hex_encode(data: &[u8]) -> (out: String)
    ensures
        out@ == hex_lower(data@),
{
    hex::encode(data)
}

/// Renders a raw digest as lower-case hexadecimal text.
pub fn digest_to_hex(raw: &[u8]) -> (out: String)
    ensures
        out@ == hex_lower(raw@),
        out@.len() == 2 * raw@.len(),
{
    hex_encode(raw)
}

/// The fingerprint of normalized content: 64 hexadecimal digits that depend
/// on nothing but the content's bytes.
pub fn fingerprint(content: &str) -> (out: String)
    ensures
        out@ == fingerprint_of(content@),
        out@.len() == 64,
{
    let raw = sha256_digest(content.as_bytes());
    digest_to_hex(raw.as_slice())
}

/// Distinct values below sixteen have distinct hexadecimal digits.
proof fn lemma_hex_digit_injective(a: u8, b: u8)
    requires
        a < 16,
        b < 16,
        hex_digit(a) == hex_digit(b),
    ensures
        a == b,
{
    let x: u8 = if a < 10 { (('0' as u8) + a) as u8 } else { (('a' as u8) + (a - 10)) as u8 };
    let y: u8 = if b < 10 { (('0' as u8) + b) as u8 } else { (('a' as u8) + (b - 10)) as u8 };
    assert(hex_digit(a) == x as char);
    assert(hex_digit(b) == y as char);
    assert((x as char) as u8 == x);
    assert((y as char) as u8 == y);
}

/// A byte is determined by its two halves.
proof fn lemma_byte_from_halves(a: u8, b: u8)
    by (bit_vector)
    requires
        a >> 4 == b >> 4,
        a & 0x0f == b & 0x0f,
    ensures
        a == b,
{
}

/// Both halves of a byte are below sixteen.
proof fn lemma_halves_bounded(a: u8)
    by (bit_vector)
    ensures
        a >> 4 < 16,
        a & 0x0f < 16,
{
}

/// Hexadecimal rendering loses nothing: equal renderings come from equal
/// byte sequences.
pub proof fn lemma_hex_lower_injective(a: Seq<u8>, b: Seq<u8>)
    requires
        hex_lower(a) == hex_lower(b),
    ensures
        a == b,
{
    assert(hex_lower(a).len() == 2 * a.len());
    assert(hex_lower(b).len() == 2 * b.len());
    assert forall|i: int| 0 <= i < a.len() implies a[i] == b[i] by {
        let high = 2 * i;
        let low = 2 * i + 1;
        assert(high / 2 == i && high % 2 == 0);
        assert(low / 2 == i && low % 2 == 1);
        assert(hex_lower(a)[high] == hex_digit(a[i] >> 4));
        assert(hex_lower(b)[high] == hex_digit(b[i] >> 4));
        assert(hex_lower(a)[low] == hex_digit(a[i] & 0x0f));
        assert(hex_lower(b)[low] == hex_digit(b[i] & 0x0f));
        lemma_halves_bounded(a[i]);
        lemma_halves_bounded(b[i]);
        lemma_hex_digit_injective(a[i] >> 4, b[i] >> 4);
        lemma_hex_digit_injective(a[i] & 0x0f, b[i] & 0x0f);
        lemma_byte_from_halves(a[i], b[i]);
    }
    assert(a =~= b);
}

/// Determinism law: the same content always has the same fingerprint,
/// whenever and wherever it is computed.
pub proof fn lemma_fingerprint_deterministic(first: Seq<char>, second: Seq<char>)
    requires
        first == second,
    ensures
        fingerprint_of(first) == fingerprint_of(second),
{
}

/// Two contents have the same fingerprint exactly when their bytes have the
/// same SHA-256 hash: the hexadecimal rendering adds no collisions of its
/// own.
pub proof fn lemma_fingerprint_equal_iff_hash_equal(first: Seq<char>, second: Seq<char>)
    ensures
        fingerprint_of(first) == fingerprint_of(second) <==> sha256(encode_utf8(first)) == sha256(
            encode_utf8(second),
        ),
{
    if fingerprint_of(first) == fingerprint_of(second) {
        lemma_hex_lower_injective(sha256(encode_utf8(first)), sha256(encode_utf8(second)));
    }
}

} // verus!
