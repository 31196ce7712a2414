//! Lowercase hexadecimal encoding of byte sequences.
//!
//! The finished digest is compared against the service's checksum header
//! in lowercase hex, so the encoding is pinned down exactly: two digits
//! per byte, high nibble first, digits `0`-`9` then `a`-`f`.

use vstd::prelude::*;

verus! {

pub const LOWER_HEX_DIGITS: [char; 16] = [
    '0', '1', '2', '3', '4', '5', '6', '7',
    '8', '9', 'a', 'b', 'c', 'd', 'e', 'f',
];

/// The lowercase hex encoding of a byte sequence: two digits per byte,
/// high nibble first.
pub open spec fn spec_hex_lower(bytes: Seq<u8>) -> Seq<char>
    decreases bytes.len(),
{
    if bytes.len() == 0 {
        Seq::<char>::empty()
    } else {
        seq![
            LOWER_HEX_DIGITS@[(bytes.first() / 16) as int],
            LOWER_HEX_DIGITS@[(bytes.first() % 16) as int],
        ] + spec_hex_lower(bytes.drop_first())
    }
}

/// Relies on `base16ct::lower::encode_string`: encodes each input byte as
/// two lowercase hex digits, high nibble first. The length bound keeps the
/// input inside the range the encoder documents as panic-free.
#[verifier::external_body]
pub(crate) fn hex_lower(bytes: &[u8]) -> (r: String)
    requires
        bytes@.len() <= usize::MAX / 2,
    ensures
        r@ == spec_hex_lower(bytes@),
{
    base16ct::lower::encode_string(bytes)
}

} // verus!
