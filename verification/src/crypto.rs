//! Digests and encodings used by the tool: SHA-256 (`sha2`), HMAC-SHA256
//! (`hmac`), lower-case hexadecimal (`hex`) and standard Base64 (`base64`).

use vstd::prelude::*;

verus! {

/// The SHA-256 digest of `data`.
pub uninterp spec fn spec_sha256(data: Seq<u8>) -> Seq<u8>;

/// The HMAC-SHA256 tag of `message` under `key`.
pub uninterp spec fn spec_hmac_sha256(key: Seq<u8>, message: Seq<u8>) -> Seq<u8>;

/// The standard (RFC 4648, padded) Base64 text of `data`.
pub uninterp spec fn spec_base64(data: Seq<u8>) -> Seq<char>;

/// SHA-256 of a byte string (`sha2::Sha256::digest`). Trusted: the result is
/// the digest of `data`, 32 bytes long.
#[verifier::external_body]
pub(crate) fn sha256(data: &[u8]) -> (r: Vec<u8>)
    ensures
        r@ == spec_sha256(data@),
        r@.len() == 32,
{
    <sha2::Sha256 as sha2::Digest>::digest(data).to_vec()
}

/// HMAC-SHA256 (`hmac::Hmac<sha2::Sha256>`: `new_from_slice`, `update`,
/// `finalize`). Trusted: the result is the 32-byte tag of `message` under
/// `key`. HMAC takes keys of any length, so the key is never refused.
#[verifier::external_body]
pub(crate) fn hmac_sha256(key: &[u8], message: &[u8]) -> (r: Vec<u8>)
    ensures
        r@ == spec_hmac_sha256(key@, message@),
        r@.len() == 32,
{
    let mut mac = <hmac::Hmac<sha2::Sha256> as hmac::Mac>::new_from_slice(key).expect(
        "HMAC can take key of any size",
    );
    hmac::Mac::update(&mut mac, message);
    hmac::Mac::finalize(mac).into_bytes().to_vec()
}

/// Length of the padded Base64 text of `n` bytes.
pub open spec fn base64_len(n: nat) -> nat {
    if n % 3 == 0 {
        (n / 3) * 4
    } else {
        (n / 3) * 4 + 4
    }
}

/// Standard Base64 with padding
/// (`base64::engine::general_purpose::STANDARD.encode`). Trusted: the result
/// is the Base64 text of `data`, `4 * ceil(len / 3)` characters long. The
/// engine stops when that length does not fit in `usize`, which `requires`
/// leaves out.
#[verifier::external_body]
pub(crate) fn base64_encode(data: &[u8]) -> (r: String)
    requires
        base64_len(data@.len()) <= usize::MAX,
    ensures
        r@ == spec_base64(data@),
        r@.len() == base64_len(data@.len()),
{
    base64::Engine::encode(&base64::engine::general_purpose::STANDARD, data)
}

/// The lower-case hexadecimal digit for `n < 16`.
pub open spec fn hex_digit(n: nat) -> char {
    if n < 10 {
        ((n + 48) as u8) as char
    } else {
        ((n + 87) as u8) as char
    }
}

/// Lower-case hexadecimal text of bytes: two digits per byte, high nibble
/// first.
pub open spec fn hex_lower(data: Seq<u8>) -> Seq<char> {
    Seq::new(
        data.len() * 2,
        |i: int|
            if i % 2 == 0 {
                hex_digit((data[i / 2] / 16) as nat)
            } else {
                hex_digit((data[i / 2] % 16) as nat)
            },
    )
}

/// Lower-case hexadecimal encoding (`hex::encode`). Trusted: two lower-case
/// digits per byte, high nibble first, as the crate's lower-case table gives.
#[verifier::external_body]
pub(crate) fn hex_encode(data: &[u8]) -> (r: String)
    requires
        data@.len() * 2 <= isize::MAX,
    ensures
        r@ == hex_lower(data@),
{
    hex::encode(data)
}

/// The eight little-endian bytes of `v`.
pub open spec fn le_bytes(v: nat, n: nat) -> Seq<u8>
    decreases n,
{
    if n == 0 {
        Seq::empty()
    } else {
        seq![(v % 256) as u8] + le_bytes(v / 256, (n - 1) as nat)
    }
}

/// The little-endian bytes of a `u64` (`u64::to_le_bytes`).
pub fn u64_le_bytes(v: u64) -> (r: Vec<u8>)
    ensures
        r@ == le_bytes(v as nat, 8),
{
    let mut out: Vec<u8> = Vec::new();
    let mut rest: u64 = v;
    let mut i: usize = 0;
    while i < 8
        invariant
            0 <= i <= 8,
            le_bytes(v as nat, 8) == out@ + le_bytes(rest as nat, (8 - i) as nat),
        decreases 8 - i,
    {
        let ghost before = out@;
        out.push((rest % 256) as u8);
        proof {
            assert(le_bytes(rest as nat, (8 - i) as nat) == seq![(rest % 256) as u8] + le_bytes(
                (rest / 256) as nat,
                (8 - i - 1) as nat,
            ));
            assert(out@ + le_bytes((rest / 256) as nat, (8 - i - 1) as nat) =~= before + (seq![
                (rest % 256) as u8,
            ] + le_bytes((rest / 256) as nat, (8 - i - 1) as nat)));
        }
        rest = rest / 256;
        i = i + 1;
    }
    assert(out@ + le_bytes(rest as nat, 0) =~= out@);
    out
}

/// Lower-case hexadecimal SHA-256 of a byte string.
pub fn sha256_hex(data: &[u8]) -> (r: String)
    ensures
        r@ == hex_lower(spec_sha256(data@)),
{
    let d = sha256(data);
    hex_encode(d.as_slice())
}

} // verus!
