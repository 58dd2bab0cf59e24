use vstd::prelude::*;
use vstd::slice::{slice_subrange, slice_to_vec};
use vstd::string::is_ascii_spec_bytes;
use vstd::utf8::is_ascii_chars;
use base58::{FromBase58, ToBase58};
use sha2::Digest;
use crate::error::DecodeFailure;

verus! {

/// The number of checksum bytes that close an address.
pub const CHECKSUM_LEN: usize = 4;

/// The longest text that `decode_address` hands to the base-58 decoder.
pub const MAX_ADDRESS_TEXT_LEN: usize = 132;

/// The longest buffer whose address text is sure to be read back.
pub const MAX_ROUND_TRIP_LEN: usize = 91;

/// The SHA-256 digest of a byte buffer.
pub uninterp spec fn sha256(data: Seq<u8>) -> Seq<u8>;

/// The base-58 text of a byte buffer.
pub uninterp spec fn base58_text(data: Seq<u8>) -> Seq<char>;

/// The bytes that a text of base-58 digits stands for.
pub uninterp spec fn base58_data(text: Seq<char>) -> Seq<u8>;

/// Whether a character code is one of the 58 digits
/// `123456789ABCDEFGHJKLMNPQRSTUVWXYZabcdefghijkmnopqrstuvwxyz`.
pub open spec fn is_base58_code(code: int) -> bool {
    ||| 49 <= code <= 57
    ||| 65 <= code <= 90 && code != 73 && code != 79
    ||| 97 <= code <= 122 && code != 108
}

/// Whether every character of a text is a base-58 digit.
pub open spec fn is_base58_text(text: Seq<char>) -> bool {
    forall|i: int| 0 <= i < text.len() ==> is_base58_code(#[trigger] text[i] as int)
}

/// The checksum of a buffer: the first four bytes of the digest of its digest.
pub open spec fn checksum(data: Seq<u8>) -> Seq<u8> {
    sha256(sha256(data)).subrange(0, CHECKSUM_LEN as int)
}

/// The address text of a buffer: the base-58 text of the buffer followed by
/// its checksum.
pub open spec fn address_text(raw: Seq<u8>) -> Seq<char> {
    base58_text(raw + checksum(raw))
}

/// What an address text decodes to. A character outside the alphabet is
/// reported first. A text too long to be read, one that stands for fewer
/// bytes than a checksum has, and one whose last four bytes are not the
/// checksum of the bytes before them, all count as a checksum mismatch.
pub open spec fn address_payload(text: Seq<char>) -> Result<Seq<u8>, DecodeFailure> {
    if !is_base58_text(text) {
        Err(DecodeFailure::InvalidCharacter)
    } else if text.len() > MAX_ADDRESS_TEXT_LEN {
        Err(DecodeFailure::ChecksumMismatch)
    } else {
        let data = base58_data(text);
        let split = data.len() - CHECKSUM_LEN;
        if split >= 0 && data.subrange(split, data.len() as int) == checksum(data.subrange(0, split)) {
            Ok(data.subrange(0, split))
        } else {
            Err(DecodeFailure::ChecksumMismatch)
        }
    }
}

/// The failure of `FromBase58::from_base58`, which is carried through unread.
#[verifier::external_type_specification]
#[verifier::external_body]
pub struct ExFromBase58Error(base58::FromBase58Error);

/// `Sha256::digest` of the sha2 crate, copied into a vector: the digest
/// depends on the data alone and is 32 bytes long.
#[verifier::external_body]
fn sha256_digest(data: &[u8]) -> (digest: Vec<u8>)
    ensures
        digest@ == sha256(data@),
        digest@.len() == 32,
{
    sha2::Sha256::digest(data).to_vec()
}

/// `ToBase58::to_base58` on a byte slice. The text depends on the bytes
/// alone and holds digits of the alphabet only; it has at most 138
/// characters for each 100 bytes, and one more; and where it is short
/// enough for the decoder, it stands for the bytes it was made from. The
/// encoder sizes its work buffer as 138 times the length, which must not
/// overflow.
#[verifier::external_body]
fn base58_encode(data: &[u8]) -> (text: String)
    requires
        data@.len() * 138 <= usize::MAX,
    ensures
        text@ == base58_text(data@),
        is_base58_text(text@),
        text@.len() <= data@.len() * 138 / 100 + 1,
        text@.len() <= MAX_ADDRESS_TEXT_LEN ==> base58_data(text@) == data@,
{
    data.to_base58()
}

/// `FromBase58::from_base58` on a text. On a text of at most 132 characters
/// it fails exactly when a character is outside the alphabet, and otherwise
/// gives the bytes that the digits stand for. Longer texts are kept away
/// from it: its fixed work buffer cannot hold them.
#[verifier::external_body]
fn base58_decode(text: &str) -> (r: Result<Vec<u8>, base58::FromBase58Error>)
    requires
        text@.len() <= MAX_ADDRESS_TEXT_LEN,
    ensures
        r is Ok <==> is_base58_text(text@),
        r matches Ok(data) ==> data@ == base58_data(text@),
{
    text.from_base58()
}

/// The first bytes of a digest that make a checksum: four, or all of a
/// digest that has fewer.
pub fn leading_bytes(digest: &[u8]) -> (sum: Vec<u8>)
    ensures
        sum@ == digest@.take(
            if digest@.len() < CHECKSUM_LEN {
                digest@.len() as int
            } else {
                CHECKSUM_LEN as int
            },
        ),
{
    let n = if digest.len() < CHECKSUM_LEN {
        digest.len()
    } else {
        CHECKSUM_LEN
    };
    slice_to_vec(slice_subrange(digest, 0, n))
}

/// A buffer followed by a checksum.
pub fn with_checksum(raw: &[u8], sum: &[u8]) -> (data: Vec<u8>)
    ensures
        data@ == raw@ + sum@,
{
    let mut data = slice_to_vec(raw);
    let mut i: usize = 0;
    while i < sum.len()
        invariant
            i <= sum@.len(),
            data@ == raw@ + sum@.take(i as int),
        decreases sum@.len() - i,
    {
        data.push(sum[i]);
        assert(data@ =~= raw@ + sum@.take(i + 1));
        i += 1;
    }
    assert(sum@.take(i as int) =~= sum@);
    data
}

/// Splits a buffer into what stands before its last four bytes, and those
/// four. A buffer of fewer bytes has no such split.
pub fn split_checksum(data: &[u8]) -> (r: Option<(Vec<u8>, Vec<u8>)>)
    ensures
        match r {
            Some((body, tail)) => data@.len() >= CHECKSUM_LEN && body@ == data@.subrange(
                0,
                data@.len() - CHECKSUM_LEN,
            ) && tail@ == data@.subrange(data@.len() - CHECKSUM_LEN, data@.len() as int),
            None => data@.len() < CHECKSUM_LEN,
        },
{
    if data.len() < CHECKSUM_LEN {
        return None;
    }
    let split = data.len() - CHECKSUM_LEN;
    let body = slice_to_vec(slice_subrange(data, 0, split));
    let tail = slice_to_vec(slice_subrange(data, split, data.len()));
    Some((body, tail))
}

/// Whether two buffers hold the same bytes.
pub fn same_bytes(a: &[u8], b: &[u8]) -> (same: bool)
    ensures
        same == (a@ == b@),
{
    if a.len() != b.len() {
        return false;
    }
    let mut i: usize = 0;
    while i < a.len()
        invariant
            i <= a@.len(),
            a@.len() == b@.len(),
            forall|k: int| 0 <= k < i ==> a@[k] == b@[k],
        decreases a@.len() - i,
    {
        if a[i] != b[i] {
            return false;
        }
        i += 1;
    }
    assert(a@ =~= b@);
    true
}

/// Computes the four checksum bytes of a buffer.
pub fn compute_checksum(data: &[u8]) -> (sum: Vec<u8>)
    ensures
        sum@ == checksum(data@),
        sum@.len() == CHECKSUM_LEN,
{
    let first = sha256_digest(data);
    let second = sha256_digest(first.as_slice());
    leading_bytes(second.as_slice())
}

/// The code of a character is not negative.
proof fn lemma_char_code(c: char)
    ensures
        c as int >= 0,
{
}

/// Whether every character of a text is a base-58 digit.
fn is_base58_str(text: &str) -> (ok: bool)
    ensures
        ok == is_base58_text(text@),
{
    if !text.is_ascii() {
        proof {
            let i = choose|i: int|
                0 <= i < text@.len() && !('\0' <= #[trigger] text@[i] <= '\u{7f}');
            lemma_char_code(text@[i]);
            assert(!is_base58_code(text@[i] as int));
        }
        return false;
    }
    let bytes = text.as_bytes();
    proof {
        is_ascii_spec_bytes(text);
    }
    let mut i: usize = 0;
    while i < bytes.len()
        invariant
            i <= bytes@.len(),
            bytes@.len() == text@.len(),
            is_ascii_chars(text@),
            bytes@ =~= Seq::new(text@.len(), |k: int| text@[k] as u8),
            forall|k: int| 0 <= k < i ==> is_base58_code(#[trigger] text@[k] as int),
        decreases bytes@.len() - i,
    {
        let b = bytes[i];
        assert(b == text@[i as int] as u8);
        assert('\0' <= text@[i as int] <= '\u{7f}');
        assert(b as int == text@[i as int] as int);
        let ok = (49 <= b && b <= 57) || (65 <= b && b <= 90 && b != 73 && b != 79) || (97 <= b
            && b <= 122 && b != 108);
        if !ok {
            return false;
        }
        i += 1;
    }
    true
}

/// Renders a byte buffer as a checksummed base-58 address. Decoding the
/// text of a buffer of at most `MAX_ROUND_TRIP_LEN` bytes gives the buffer
/// back.
pub fn encode_address(raw: &[u8]) -> (text: String)
    requires
        (raw@.len() + CHECKSUM_LEN) * 138 <= usize::MAX,
    ensures
        text@ == address_text(raw@),
        raw@.len() <= MAX_ROUND_TRIP_LEN ==> address_payload(text@) == Ok::<Seq<u8>, DecodeFailure>(
            raw@,
        ),
{
    let sum = compute_checksum(raw);
    let data = with_checksum(raw, sum.as_slice());
    let text = base58_encode(data.as_slice());
    proof {
        if raw@.len() <= MAX_ROUND_TRIP_LEN {
            let split = data@.len() - CHECKSUM_LEN;
            assert(data@.subrange(0, split) =~= raw@);
            assert(data@.subrange(split, data@.len() as int) =~= checksum(raw@));
        }
    }
    text
}

/// Reads a checksummed base-58 address back into the bytes it was made
/// from, without the checksum.
pub fn decode_address(text: &str) -> (r: Result<Vec<u8>, DecodeFailure>)
    ensures
        r is Ok <==> address_payload(text@) is Ok,
        r matches Ok(raw) ==> address_payload(text@) == Ok::<Seq<u8>, DecodeFailure>(raw@),
        r matches Err(e) ==> address_payload(text@) == Err::<Seq<u8>, DecodeFailure>(e),
{
    if !is_base58_str(text) {
        return Err(DecodeFailure::InvalidCharacter);
    }
    if text.unicode_len() > MAX_ADDRESS_TEXT_LEN {
        return Err(DecodeFailure::ChecksumMismatch);
    }
    let data = match base58_decode(text) {
        Ok(data) => data,
        Err(_) => {
            return Err(DecodeFailure::InvalidCharacter);
        },
    };
    let (body, tail) = match split_checksum(data.as_slice()) {
        Some(parts) => parts,
        None => {
            return Err(DecodeFailure::ChecksumMismatch);
        },
    };
    let sum = compute_checksum(body.as_slice());
    if same_bytes(tail.as_slice(), sum.as_slice()) {
        Ok(body)
    } else {
        Err(DecodeFailure::ChecksumMismatch)
    }
}

} // verus!
