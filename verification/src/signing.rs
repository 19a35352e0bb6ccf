//! What is signed, and how: the signing payload, the digest rule for long
//! payloads, and the signature itself.

use vstd::prelude::*;
use crate::call::Call;
use crate::codec::append_bytes;
use crate::keyring::{keyring_public, sr25519_sign, sr25519_verifies, sr25519_verify, Keyring};
use crate::payload::{Additional, Extra};

verus! {

/// The longest payload that is signed as it is. A longer one is replaced by
/// its digest first.
pub const MAX_RAW_PAYLOAD: usize = 256;

/// The Blake2b digest of `data` with a 256-bit output, as
/// `sp_crypto_hashing::blake2_256` computes it.
pub uninterp spec fn blake2_256(data: Seq<u8>) -> Seq<u8>;

/// Calls `sp_crypto_hashing::blake2_256`. The contract only names the result:
/// the digest is a function of the data alone.
#[verifier::external_body]
fn digest(data: &[u8]) -> (hash: [u8; 32])
    ensures
        hash@ == blake2_256(data@),
{
    sp_crypto_hashing::blake2_256(data)
}

/// The signing payload of a transaction: the call's bytes, then the explicit
/// extensions, then the implicit context.
pub open spec fn signing_payload(call: Seq<u8>, extra: Extra, additional: Additional) -> Seq<u8> {
    call + extra.encoding() + additional.encoding()
}

/// The bytes that the signature is made over: the payload itself while it has
/// at most 256 bytes, and its digest once it is longer.
pub open spec fn signed_message(payload: Seq<u8>) -> Seq<u8> {
    if payload.len() > MAX_RAW_PAYLOAD {
        blake2_256(payload)
    } else {
        payload
    }
}

/// Extends the bytes of a call to the signing payload.
pub fn extend_to_payload(
    encoded: Vec<u8>,
    extra: &Extra,
    additional: &Additional,
) -> (payload: Vec<u8>)
    ensures
        payload@ == signing_payload(encoded@, *extra, *additional),
{
    let mut payload = encoded;
    extra.encode_to(&mut payload);
    additional.encode_to(&mut payload);
    payload
}

/// Applies the digest rule: returns the payload, or its digest if it is longer
/// than 256 bytes.
pub fn message_to_sign(payload: Vec<u8>) -> (message: Vec<u8>)
    ensures
        message@ == signed_message(payload@),
{
    if payload.len() > MAX_RAW_PAYLOAD {
        let hash = digest(payload.as_slice());
        let mut message: Vec<u8> = Vec::new();
        append_bytes(&mut message, hash.as_slice());
        assert(message@ =~= hash@);
        message
    } else {
        payload
    }
}

/// Signs a signing payload under the digest rule. Every signature returned
/// verifies, under the identity's public key, against the payload itself if
/// it has at most 256 bytes, and against its digest otherwise.
pub fn sign_payload(keyring: Keyring, payload: Vec<u8>) -> (signature: [u8; 64])
    ensures
        sr25519_verifies(keyring_public(keyring), signed_message(payload@), signature@),
{
    let message = message_to_sign(payload);
    sr25519_sign(keyring, message.as_slice())
}

/// Tells whether `signature` is one of `keyring` for a signing payload under
/// the digest rule: whether it verifies against the payload itself if that
/// has at most 256 bytes, and against its digest otherwise.
pub fn is_signature_of(keyring: Keyring, payload: Vec<u8>, signature: &[u8; 64]) -> (ok: bool)
    ensures
        ok == sr25519_verifies(keyring_public(keyring), signed_message(payload@), signature@),
{
    let account = keyring.to_account_id();
    let message = message_to_sign(payload);
    sr25519_verify(&account.0, message.as_slice(), signature)
}

/// The signing material of a transaction with a call of its own.
pub struct Signature<Call, Extra, Additional> {
    pub call: Call,
    pub extra: Extra,
    pub additional: Additional,
}

impl Signature<Call, Extra, Additional> {
    /// Signs the transaction made of `call`, `extra` and `additional`.
    pub fn new(
        keyring: Keyring,
        call: Call,
        extra: Extra,
        additional: Additional,
    ) -> (signature: [u8; 64])
        ensures
            sr25519_verifies(
                keyring_public(keyring),
                signed_message(signing_payload(call.encoding(), extra, additional)),
                signature@,
            ),
    {
        let mut encoded: Vec<u8> = Vec::new();
        call.encode_to(&mut encoded);
        assert(encoded@ =~= call.encoding());
        let payload = extend_to_payload(encoded, &extra, &additional);
        sign_payload(keyring, payload)
    }
}

/// The signing material of a transaction whose call was encoded elsewhere.
pub struct SignatureXcm<Extra, Additional> {
    pub extra: Extra,
    pub additional: Additional,
}

impl SignatureXcm<Extra, Additional> {
    /// Signs the transaction made of the call bytes `encoded`, `extra` and
    /// `additional`. The call bytes enter the payload unchanged.
    pub fn new_encoded_data(
        keyring: Keyring,
        encoded: Vec<u8>,
        extra: Extra,
        additional: Additional,
    ) -> (signature: [u8; 64])
        ensures
            sr25519_verifies(
                keyring_public(keyring),
                signed_message(signing_payload(encoded@, extra, additional)),
                signature@,
            ),
    {
        let payload = extend_to_payload(encoded, &extra, &additional);
        sign_payload(keyring, payload)
    }
}

/// A payload of at most 256 bytes is signed as it is.
pub proof fn lemma_short_payload_is_signed_raw(payload: Seq<u8>)
    requires
        payload.len() <= 256,
    ensures
        signed_message(payload) == payload,
{
}

/// A payload of more than 256 bytes is signed by its digest.
pub proof fn lemma_long_payload_is_signed_by_digest(payload: Seq<u8>)
    requires
        payload.len() > 256,
    ensures
        signed_message(payload) == blake2_256(payload),
{
}

} // verus!
