//! The textual form in which a transaction is handed to a node.

use vstd::prelude::*;

verus! {

/// The lower-case hexadecimal digit of a value below 16.
pub open spec fn hex_digit(value: nat) -> char {
    seq![
        '0', '1', '2', '3', '4', '5', '6', '7', '8', '9', 'a', 'b', 'c', 'd', 'e', 'f',
    ][value as int]
}

/// The hexadecimal form of `bytes`: two lower-case digits for each byte, the
/// high half first.
pub open spec fn hex_chars(bytes: Seq<u8>) -> Seq<char> {
    Seq::new(
        2 * bytes.len(),
        |i: int|
            if i % 2 == 0 {
                hex_digit((bytes[i / 2] / 16) as nat)
            } else {
                hex_digit((bytes[i / 2] % 16) as nat)
            },
    )
}

/// The form in which bytes are submitted: `0x`, then their hexadecimal form.
pub open spec fn hex_payload(bytes: Seq<u8>) -> Seq<char> {
    "0x"@ + hex_chars(bytes)
}

/// Calls `hex::encode`. The contract claims that the string holds, for each
/// byte in order, its two lower-case hexadecimal digits, the high half first.
#[verifier::external_body]
fn hex_encode(bytes: &[u8]) -> (text: String)
    ensures
        text@ == hex_chars(bytes@),
{
    hex::encode(bytes)
}

/// Formats bytes for submission.
pub fn to_hex_payload(bytes: &[u8]) -> (text: String)
    ensures
        text@ == hex_payload(bytes@),
{
    let digits = hex_encode(bytes);
    String::from_str("0x").concat(digits.as_str())
}

} // verus!
