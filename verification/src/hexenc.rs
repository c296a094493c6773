//! Lowercase hexadecimal encoding, with an exact character-level
//! specification; the encoding itself is done by the `hex` crate.
use vstd::prelude::*;

verus! {

use vstd::utf8::is_ascii_chars;
use crate::text::all_bytes_ascii;
use crate::text::ascii_chars;

/// The lowercase hex digit for `d`; meaningful for `d < 16`.
pub open spec fn hex_digit_byte(d: nat) -> u8 {
    if d < 10 {
        (48 + d) as u8
    } else {
        (87 + d) as u8
    }
}

/// The two lowercase hex digit bytes of one byte, high digit first.
pub open spec fn spec_hex_byte(b: u8) -> Seq<u8> {
    seq![hex_digit_byte(b as nat / 16), hex_digit_byte(b as nat % 16)]
}

/// The lowercase hex digit bytes of a byte sequence, in order.
pub open spec fn spec_hex_bytes(bytes: Seq<u8>) -> Seq<u8>
    decreases bytes.len(),
{
    if bytes.len() == 0 {
        Seq::empty()
    } else {
        spec_hex_byte(bytes[0]) + spec_hex_bytes(bytes.drop_first())
    }
}

/// The lowercase hex rendering of a byte sequence as characters.
pub open spec fn spec_hex_encode(bytes: Seq<u8>) -> Seq<char> {
    ascii_chars(spec_hex_bytes(bytes))
}

pub proof fn lemma_hex_bytes_len(bytes: Seq<u8>)
    ensures
        spec_hex_bytes(bytes).len() == 2 * bytes.len(),
        all_bytes_ascii(spec_hex_bytes(bytes)),
        spec_hex_encode(bytes).len() == 2 * bytes.len(),
        is_ascii_chars(spec_hex_encode(bytes)),
    decreases bytes.len(),
{
    if bytes.len() > 0 {
        lemma_hex_bytes_len(bytes.drop_first());
    }
    assert forall|i: int| 0 <= i < spec_hex_encode(bytes).len() implies '\0'
        <= #[trigger] spec_hex_encode(bytes)[i] <= '\u{7f}' by {
        assert(spec_hex_bytes(bytes)[i] < 128);
    }
}

/// Relies on `hex::encode`: two lowercase hexadecimal digits per input byte,
/// high digit first, in input order.
#[verifier::external_body]
pub(crate) fn hex_encode(bytes: &Vec<u8>) -> (r: String)
    ensures
        r@ == spec_hex_encode(bytes@),
{
    hex::encode(bytes)
}

} // verus!
