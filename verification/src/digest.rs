//! Content hashing of uploads: SHA-256 (from `sha2`) rendered as lowercase hex
//! (with `hex`).
use vstd::prelude::*;
use sha2::{Digest, Sha256};

verus! {

#[verifier::external_type_specification]
#[verifier::external_body]
pub struct ExSha256(Sha256);

/// The bytes fed to a SHA-256 hasher so far, in order.
pub uninterp spec fn hashed_input(h: Sha256) -> Seq<u8>;

/// The SHA-256 digest of a byte sequence.
pub uninterp spec fn sha256(data: Seq<u8>) -> Seq<u8>;

/// The lowercase hexadecimal digit for a value below 16.
pub open spec fn hex_digit(v: nat) -> char {
    if v < 10 {
        (('0' as nat) + v) as char
    } else {
        (('a' as nat) + (v - 10)) as char
    }
}

/// Lowercase hex rendering: two digits per byte, high nibble first.
pub open spec fn hex_lower(data: Seq<u8>) -> Seq<char>
    decreases data.len(),
{
    if data.len() == 0 {
        Seq::empty()
    } else {
        seq![hex_digit(data[0] as nat / 16), hex_digit(data[0] as nat % 16)] + hex_lower(data.drop_first())
    }
}

/// The value a lowercase hex digit stands for.
pub open spec fn hex_value(c: char) -> int {
    if '0' <= c && c <= '9' {
        c as int - '0' as int
    } else {
        c as int - 'a' as int + 10
    }
}

/// `c` is a lowercase hex digit.
pub open spec fn is_lower_hex_digit(c: char) -> bool {
    ('0' <= c && c <= '9') || ('a' <= c && c <= 'f')
}

/// Hex rendering writes two lowercase hex digits per byte, in order, whose
/// values make up the byte: sixteen times the first plus the second.
pub proof fn law_hex_renders_each_byte(data: Seq<u8>)
    ensures
        hex_lower(data).len() == 2 * data.len(),
        forall|i: int| 0 <= i < hex_lower(data).len() ==> is_lower_hex_digit(#[trigger] hex_lower(data)[i]),
        forall|i: int|
            0 <= i < data.len() ==> 16 * hex_value(#[trigger] hex_lower(data)[2 * i]) + hex_value(hex_lower(data)[2 * i + 1])
                == data[i] as int,
    decreases data.len(),
{
    if data.len() > 0 {
        let rest = data.drop_first();
        law_hex_renders_each_byte(rest);
        let h = hex_lower(data);
        let hr = hex_lower(rest);
        let b = data[0] as nat;
        assert(h == seq![hex_digit(b / 16), hex_digit(b % 16)] + hr);
        assert(b / 16 < 16 && b % 16 < 16 && 16 * (b / 16) + b % 16 == b);
        assert forall|i: int| 0 <= i < h.len() implies is_lower_hex_digit(#[trigger] h[i]) by {
            if i >= 2 {
                assert(h[i] == hr[i - 2]);
            }
        }
        assert forall|i: int| 0 <= i < data.len() implies 16 * hex_value(#[trigger] h[2 * i]) + hex_value(h[2 * i + 1])
            == data[i] as int by {
            if i > 0 {
                assert(h[2 * i] == hr[2 * (i - 1)]);
                assert(h[2 * i + 1] == hr[2 * (i - 1) + 1]);
                assert(data[i] == rest[i - 1]);
            }
        }
    }
}

/// `Sha256::new` (through `Digest::new`): a hasher that has been fed nothing.
#[verifier::external_body]
pub(crate) fn hasher_new() -> (h: Sha256)
    ensures
        hashed_input(h) == Seq::<u8>::empty(),
{
    Sha256::new()
}

/// `Digest::update`: feeds `data` after what the hasher was fed before.
#[verifier::external_body]
pub(crate) fn hasher_update(h: &mut Sha256, data: &[u8])
    ensures
        hashed_input(*final(h)) == hashed_input(*old(h)) + data@,
{
    h.update(data)
}

/// `Digest::finalize`: the SHA-256 digest (32 bytes) of everything the hasher was
/// fed, copied into a vector.
#[verifier::external_body]
pub(crate) fn hasher_finalize(h: Sha256) -> (d: Vec<u8>)
    ensures
        d@ == sha256(hashed_input(h)),
        d@.len() == 32,
{
    h.finalize().to_vec()
}

/// `hex::encode`: each byte as two lowercase hex digits, high nibble first.
#[verifier::external_body]
pub(crate) fn hex_encode(data: &[u8]) -> (s: String)
    ensures
        s@ == hex_lower(data@),
{
    hex::encode(data)
}

/// The hex-rendered SHA-256 digest of everything a hasher was fed.
pub fn finish_hex(h: Sha256) -> (s: String)
    ensures
        s@ == hex_lower(sha256(hashed_input(h))),
{
    let digest = hasher_finalize(h);
    hex_encode(digest.as_slice())
}

} // verus!
