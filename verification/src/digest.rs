//! SHA-256 digests of secret flags and their lower-case hexadecimal form.

use sha2::Digest;
use vstd::prelude::*;

verus! {

/// Length in bytes of the secret flag whose digest is published.
pub const FLAG_LEN: usize = 64;

/// Length in bytes of a SHA-256 digest.
pub const SHA256_LEN: usize = 32;

/// The SHA-256 digest of `data`, as computed by the `sha2` crate.
pub uninterp spec fn sha256_spec(data: Seq<u8>) -> Seq<u8>;

/// Calls `sha2::Sha256::digest` (the `Digest::digest` method of the `sha2`
/// crate). Trusted to return the SHA-256 digest of `data`, which the crate
/// produces as a fixed-size array of 32 bytes.
#[verifier::external_body]
fn sha256(data: &[u8]) -> (res: Vec<u8>)
    ensures
        res@ == sha256_spec(data@),
        res@.len() == SHA256_LEN,
{
    sha2::Sha256::digest(data).to_vec()
}

/// The lower-case hexadecimal digit of a value below 16.
pub open spec fn hex_digit(n: u8) -> char
    recommends
        n < 16,
{
    seq!['0', '1', '2', '3', '4', '5', '6', '7', '8', '9', 'a', 'b', 'c', 'd', 'e', 'f'][n as int]
}

/// The lower-case hexadecimal form of a byte string: two digits per byte,
/// high nibble first.
pub open spec fn hex_lower(data: Seq<u8>) -> Seq<char>
    decreases data.len(),
{
    if data.len() == 0 {
        Seq::empty()
    } else {
        seq![hex_digit(data[0] >> 4), hex_digit(data[0] & 0x0f)] + hex_lower(data.drop_first())
    }
}


/// Lookup table of the lower-case hexadecimal digits.
const HEX_DIGITS: &'static str = "0123456789abcdef";

/// Appends the hexadecimal digit of `n` to `out`.
fn push_hex_digit(out: &mut String, n: u8)
    requires
        n < 16,
    ensures
        final(out)@ == old(out)@.push(hex_digit(n)),
{
    proof {
        reveal_strlit("0123456789abcdef");
    }
    let digit = HEX_DIGITS.substring_char(n as usize, n as usize + 1);
    assert(digit@ =~= seq![hex_digit(n)]);
    out.append(digit);
}

/// Formats `data` as lower-case hexadecimal, two digits per byte.
pub fn to_hex_lower(data: &[u8]) -> (res: String)
    ensures
        res@ == hex_lower(data@),
        res@.len() == 2 * data@.len(),
{
    let mut res = String::new();
    let n = data.len();
    assert(data@.skip(0) =~= data@);
    assert(res@ + hex_lower(data@) =~= hex_lower(data@));
    for i in 0..n
        invariant
            n == data@.len(),
            res@ + hex_lower(data@.skip(i as int)) == hex_lower(data@),
            res@.len() == 2 * i,
    {
        let byte = data[i];
        assert(byte >> 4 < 16 && byte & 0x0f < 16) by (bit_vector);
        proof {
            assert(data@.skip(i as int).drop_first() =~= data@.skip(i + 1));
            assert(res@ + hex_lower(data@.skip(i as int)) =~= res@.push(hex_digit(byte >> 4)).push(
                hex_digit(byte & 0x0f),
            ) + hex_lower(data@.skip(i + 1)));
        }
        push_hex_digit(&mut res, byte >> 4);
        push_hex_digit(&mut res, byte & 0x0f);
    }
    assert(data@.skip(n as int) =~= Seq::<u8>::empty());
    assert(res@ + hex_lower(Seq::<u8>::empty()) =~= res@);
    proof {
        lemma_hex_lower_len(data@);
    }
    res
}

/// The hexadecimal form has two digits per byte.
pub proof fn lemma_hex_lower_len(data: Seq<u8>)
    ensures
        hex_lower(data).len() == 2 * data.len(),
    decreases data.len(),
{
    if data.len() > 0 {
        lemma_hex_lower_len(data.drop_first());
    }
}

/// The published form of a secret flag: the lower-case hexadecimal form of
/// its SHA-256 digest, a string of 64 digits.
pub fn flag_digest_string(flag: &[u8]) -> (res: String)
    ensures
        res@ == hex_lower(sha256_spec(flag@)),
        res@.len() == 2 * SHA256_LEN,
{
    let digest = sha256(flag);
    to_hex_lower(digest.as_slice())
}

} // verus!
