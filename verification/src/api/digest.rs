//! MD5 digests and their hexadecimal text.

use vstd::prelude::*;

verus! {

/// The MD5 digest of a byte string, as the `md5` crate computes it.
pub uninterp spec fn md5_digest(data: Seq<u8>) -> Seq<u8>;

/// The lower-case character of a hexadecimal digit.
pub open spec fn hex_char(nibble: int) -> char
    recommends
        0 <= nibble < 16,
{
    if nibble == 0 {
        '0'
    } else if nibble == 1 {
        '1'
    } else if nibble == 2 {
        '2'
    } else if nibble == 3 {
        '3'
    } else if nibble == 4 {
        '4'
    } else if nibble == 5 {
        '5'
    } else if nibble == 6 {
        '6'
    } else if nibble == 7 {
        '7'
    } else if nibble == 8 {
        '8'
    } else if nibble == 9 {
        '9'
    } else if nibble == 10 {
        'a'
    } else if nibble == 11 {
        'b'
    } else if nibble == 12 {
        'c'
    } else if nibble == 13 {
        'd'
    } else if nibble == 14 {
        'e'
    } else {
        'f'
    }
}

/// Lower-case hexadecimal text: two digits for each byte, the high half first.
pub open spec fn hex_lower(data: Seq<u8>) -> Seq<char> {
    Seq::new(
        2 * data.len(),
        |i: int|
            if i % 2 == 0 {
                hex_char(data[i / 2] as int / 16)
            } else {
                hex_char(data[i / 2] as int % 16)
            },
    )
}

/// Calls `md5::compute`. The contract names the digest and claims nothing
/// more of it; that it has sixteen bytes is the type's doing.
#[verifier::external_body]
pub(crate) fn md5_compute(data: &[u8]) -> (digest: [u8; 16])
    ensures
        digest@ == md5_digest(data@),
{
    md5::compute(data).into()
}

/// Calls `hex::encode`. The contract claims what the crate documents: every
/// byte becomes two lower-case hexadecimal digits, in order.
#[verifier::external_body]
pub(crate) fn hex_encode(data: &[u8]) -> (text: String)
    ensures
        text@ == hex_lower(data@),
{
    hex::encode(data)
}

} // verus!
