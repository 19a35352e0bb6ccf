//! The envelope of a transaction on the wire: a compact length, a version
//! byte, the signature section if the transaction is signed, and the call.

use vstd::prelude::*;
use crate::call::{address, append_address, Call};
use crate::codec::{append_bytes, compact, compact_u32};
use crate::payload::{AccountId32, Extra};

verus! {

/// The version of the envelope format.
pub const EXTRINSIC_VERSION: u8 = 4;

/// The version byte of a signed transaction: the format version with the
/// high bit set.
pub const SIGNED_VERSION_BYTE: u8 = 0x84;

/// The version byte of an unsigned transaction: the format version with the
/// high bit clear.
pub const UNSIGNED_VERSION_BYTE: u8 = 0x04;

/// The signature section of a signed transaction: who signed, the signature
/// and the explicit extensions that were signed with the call.
#[derive(Clone, Copy, Debug, PartialEq, Eq)]
pub struct SignaturePayload {
    pub address: AccountId32,
    pub signature: [u8; 64],
    pub extra: Extra,
}

impl SignaturePayload {
    /// The encoding of the section: the signer as an address, the tag of the
    /// sr25519 scheme and the signature, then the extensions.
    pub open spec fn encoding(self) -> Seq<u8> {
        address(self.address) + (seq![1u8] + self.signature@) + self.extra.encoding()
    }

    /// Appends the encoding of the section to `dst`.
    pub fn encode_to(&self, dst: &mut Vec<u8>)
        ensures
            final(dst)@ == old(dst)@ + self.encoding(),
    {
        append_address(dst, &self.address);
        dst.push(1u8);
        append_bytes(dst, self.signature.as_slice());
        self.extra.encode_to(dst);
        assert(dst@ =~= old(dst)@ + self.encoding());
    }
}

/// The version byte of a transaction.
pub open spec fn version_byte(signed: bool) -> u8 {
    if signed {
        SIGNED_VERSION_BYTE
    } else {
        UNSIGNED_VERSION_BYTE
    }
}

/// What the length prefix counts: the version byte, the signature section if
/// there is one, and the call's bytes.
pub open spec fn extrinsic_body(sig: Option<SignaturePayload>, call: Seq<u8>) -> Seq<u8> {
    match sig {
        Some(s) => seq![SIGNED_VERSION_BYTE] + s.encoding() + call,
        None => seq![UNSIGNED_VERSION_BYTE] + call,
    }
}

/// A transaction on the wire: the compact length of the body, then the body.
pub open spec fn extrinsic(sig: Option<SignaturePayload>, call: Seq<u8>) -> Seq<u8> {
    compact(extrinsic_body(sig, call).len()) + extrinsic_body(sig, call)
}

/// Starts a body: the version byte and, if the transaction is signed, the
/// signature section.
pub fn begin_body(sig: &Option<SignaturePayload>) -> (body: Vec<u8>)
    ensures
        body@ == extrinsic_body(*sig, Seq::empty()),
{
    let mut body: Vec<u8> = Vec::new();
    match sig {
        Some(s) => {
            assert(EXTRINSIC_VERSION | 0x80 == SIGNED_VERSION_BYTE) by (bit_vector);
            body.push(EXTRINSIC_VERSION | 0x80);
            s.encode_to(&mut body);
        },
        None => {
            assert(EXTRINSIC_VERSION & 0x7f == UNSIGNED_VERSION_BYTE) by (bit_vector);
            body.push(EXTRINSIC_VERSION & 0x7f);
        },
    }
    assert(body@ =~= extrinsic_body(*sig, Seq::empty()));
    body
}

/// Puts the compact length of `body` in front of it.
pub fn prefix_with_length(body: Vec<u8>) -> (output: Vec<u8>)
    requires
        body@.len() <= u32::MAX,
    ensures
        output@ == compact(body@.len()) + body@,
{
    let length: u32 = body.len() as u32;
    let mut output = compact_u32(length);
    append_bytes(&mut output, body.as_slice());
    output
}

/// The signature section takes 98 bytes and the extensions.
pub proof fn lemma_signature_section_len(sig: SignaturePayload)
    ensures
        sig.encoding().len() == 98 + sig.extra.encoding().len(),
{
}

} // verus!
