//! The transaction manager of one node: it builds, signs and encodes the
//! transactions that are submitted to the node at its address.

use vstd::prelude::*;
use crate::call::Call;
use crate::codec::{append_bytes, compact, lemma_compact_len};
use crate::extrinsic::{
    begin_body, extrinsic, extrinsic_body, lemma_signature_section_len, prefix_with_length,
    SignaturePayload,
};
use crate::hexfmt::{hex_payload, to_hex_payload};
use crate::keyring::{keyring_public, sr25519_verifies, Keyring};
use crate::payload::{
    additional_of, extra_of, lemma_built_extra_len, lemma_extra_len, AccountId32, Additional, Era,
    Extra, PotVote, RuntimeVersion, FEE_ASSET_ID, H256,
};
use crate::signing::{signed_message, signing_payload, Signature, SignatureXcm};

verus! {

/// The amount that a demonstration transfer moves.
pub const TRANSFER_AMOUNT: u128 = 123456789012345;

/// Builds the transactions for the node at `url`.
pub struct TxManager {
    pub url: String,
}

impl TxManager {
    /// A manager for the node at `url`.
    pub fn new(url: String) -> (manager: Self)
        ensures
            manager.url == url,
    {
        Self { url }
    }

    /// Builds the explicit signed extensions of a transaction of `caller`:
    /// immortal, with the nonce `caller_nonce`, no tip, fees in the fixed
    /// asset, no separate fee payer, and the vote given to the caller.
    pub fn create_extra(&self, caller_nonce: u32, caller: &AccountId32) -> (extra: Extra)
        ensures
            extra == extra_of(caller_nonce, *caller),
    {
        Extra {
            era: Era::Immortal,
            nonce: caller_nonce,
            pot_vote: PotVote::new(0, Some(FEE_ASSET_ID), None, Some(*caller)),
        }
    }

    /// Builds the implicit signed context from the runtime's version and the
    /// hash of the first block, which stands for the checkpoint block too.
    pub fn create_additional(
        &self,
        runtime_version: RuntimeVersion,
        genesis_hash: H256,
    ) -> (additional: Additional)
        ensures
            additional == additional_of(runtime_version, genesis_hash),
    {
        Additional {
            spec_version: runtime_version.spec_version,
            transaction_version: runtime_version.transaction_version,
            genesis_hash,
            check_hash: genesis_hash,
        }
    }

    /// Signs a transaction with a call of its own. The signature verifies
    /// against the signing payload, or against its digest if the payload is
    /// longer than 256 bytes.
    pub fn create_signature(
        &self,
        keyring: Keyring,
        call: Call,
        extra: Extra,
        additional: Additional,
    ) -> (signature: [u8; 64])
        ensures
            sr25519_verifies(
                keyring_public(keyring),
                signed_message(signing_payload(call.encoding(), extra, additional)),
                signature@,
            ),
    {
        Signature::new(keyring, call, extra, additional)
    }

    /// Signs a transaction whose call was encoded elsewhere. The signature
    /// verifies against the signing payload, or against its digest if the
    /// payload is longer than 256 bytes.
    pub fn create_signature_for_xcm(
        &self,
        keyring: Keyring,
        encoded_data: Vec<u8>,
        extra: Extra,
        additional: Additional,
    ) -> (signature: [u8; 64])
        ensures
            sr25519_verifies(
                keyring_public(keyring),
                signed_message(signing_payload(encoded_data@, extra, additional)),
                signature@,
            ),
    {
        SignatureXcm::new_encoded_data(keyring, encoded_data, extra, additional)
    }

    /// Encodes a transaction for the wire: the compact length of what
    /// follows, the version byte, the signature section if `sig` is given,
    /// and the call's bytes.
    pub fn encode_extrinsic(&self, sig: Option<SignaturePayload>, call: Call) -> (output: Vec<u8>)
        requires
            extrinsic_body(sig, call.encoding()).len() <= u32::MAX,
        ensures
            output@ == extrinsic(sig, call.encoding()),
    {
        let mut body = begin_body(&sig);
        call.encode_to(&mut body);
        assert(body@ =~= extrinsic_body(sig, call.encoding()));
        prefix_with_length(body)
    }

    /// Encodes a transaction whose call was encoded elsewhere: the compact
    /// length of what follows, the version byte, the signature section if
    /// `sig` is given, and `data` as it is.
    pub fn encode_extrinsic_encoded_data(
        &self,
        sig: Option<SignaturePayload>,
        data: Vec<u8>,
    ) -> (output: Vec<u8>)
        requires
            extrinsic_body(sig, data@).len() <= u32::MAX,
        ensures
            output@ == extrinsic(sig, data@),
    {
        self.encode_extrinsic(sig, Call::Encoded(data))
    }

    /// The text that submits the signed transaction of `address` with the
    /// given signature, extensions and call.
    pub fn signed_submission(
        &self,
        address: &AccountId32,
        signature: [u8; 64],
        extra: Extra,
        call: Call,
    ) -> (payload_hex: String)
        requires
            99 + extra.encoding().len() + call.encoding().len() <= u32::MAX,
        ensures
            payload_hex@ == submission(*address, signature, extra, call.encoding()),
    {
        let sig = SignaturePayload { address: *address, signature, extra };
        proof {
            lemma_signature_section_len(sig);
        }
        let output = self.encode_extrinsic(Some(sig), call);
        to_hex_payload(output.as_slice())
    }

    /// Builds the text that submits a demonstration transfer in the name of
    /// `caller`: the fixed amount goes to Bob, Alice signs, and the call is
    /// dispatched to the call `call_index` of the pallet `pallet_index`.
    ///
    /// The signature differs from call to call. What is returned is, for some
    /// signature that verifies for the transaction, the submission of the
    /// transaction with that signature.
    pub fn prepare_extrinsic(
        &self,
        pallet_index: u8,
        call_index: u8,
        caller: &AccountId32,
        caller_nonce: u32,
        runtime_version: RuntimeVersion,
        genesis_hash: H256,
    ) -> (payload_hex: String)
        ensures
            exists|dest: AccountId32, signature: [u8; 64]| #[trigger]
                is_transfer_submission(
                    pallet_index,
                    call_index,
                    *caller,
                    caller_nonce,
                    runtime_version,
                    genesis_hash,
                    dest,
                    signature,
                    payload_hex@,
                ),
    {
        let dest = Keyring::Bob.to_account_id();
        let extra = self.create_extra(caller_nonce, caller);
        let additional = self.create_additional(runtime_version, genesis_hash);
        let signature = self.create_signature(
            Keyring::Alice,
            Call::Transfer { pallet_index, call_index, dest, amount: TRANSFER_AMOUNT },
            extra,
            additional,
        );
        let call = Call::Transfer { pallet_index, call_index, dest, amount: TRANSFER_AMOUNT };
        proof {
            lemma_extra_len(extra);
            lemma_compact_len(TRANSFER_AMOUNT as nat);
        }
        let payload_hex = self.signed_submission(caller, signature, extra, call);
        assert(is_transfer_submission(
            pallet_index,
            call_index,
            *caller,
            caller_nonce,
            runtime_version,
            genesis_hash,
            dest,
            signature,
            payload_hex@,
        ));
        payload_hex
    }

    /// Builds the text that submits the call `encoded_data`, encoded
    /// elsewhere, in the name of the identity `account_keyring`, which signs.
    ///
    /// The signature differs from call to call. What is returned is, for some
    /// signature that verifies for the transaction, the submission of the
    /// transaction with that signature.
    pub fn prepare_xcm(
        &self,
        encoded_data: Vec<u8>,
        account_keyring: Keyring,
        caller_nonce: u32,
        runtime_version: RuntimeVersion,
        genesis_hash: H256,
    ) -> (payload_hex: String)
        requires
            140 + compact(caller_nonce as nat).len() + encoded_data@.len() <= u32::MAX,
        ensures
            exists|caller: AccountId32, signature: [u8; 64]| #[trigger]
                is_xcm_submission(
                    encoded_data@,
                    account_keyring,
                    caller_nonce,
                    runtime_version,
                    genesis_hash,
                    caller,
                    signature,
                    payload_hex@,
                ),
    {
        let caller = account_keyring.to_account_id();
        let extra = self.create_extra(caller_nonce, &caller);
        let additional = self.create_additional(runtime_version, genesis_hash);
        let mut signed_data: Vec<u8> = Vec::new();
        append_bytes(&mut signed_data, encoded_data.as_slice());
        assert(signed_data@ =~= encoded_data@);
        let signature = self.create_signature_for_xcm(
            account_keyring,
            signed_data,
            extra,
            additional,
        );
        proof {
            lemma_built_extra_len(caller_nonce, caller);
        }
        let payload_hex = self.signed_submission(
            &caller,
            signature,
            extra,
            Call::Encoded(encoded_data),
        );
        assert(is_xcm_submission(
            encoded_data@,
            account_keyring,
            caller_nonce,
            runtime_version,
            genesis_hash,
            caller,
            signature,
            payload_hex@,
        ));
        payload_hex
    }
}

/// The text that submits the signed transaction of `address` with the given
/// signature, extensions and call bytes.
pub open spec fn submission(
    address: AccountId32,
    signature: [u8; 64],
    extra: Extra,
    call: Seq<u8>,
) -> Seq<char> {
    hex_payload(extrinsic(Some(SignaturePayload { address, signature, extra }), call))
}

/// Whether `text` submits the demonstration transfer in the name of `caller`
/// with the destination `dest` and the signature `signature`: the destination
/// is Bob, the signature is one of Alice for the transaction, and the text is
/// the submission of the transaction with that signature.
pub open spec fn is_transfer_submission(
    pallet_index: u8,
    call_index: u8,
    caller: AccountId32,
    caller_nonce: u32,
    runtime_version: RuntimeVersion,
    genesis_hash: H256,
    dest: AccountId32,
    signature: [u8; 64],
    text: Seq<char>,
) -> bool {
    let call = Call::Transfer { pallet_index, call_index, dest, amount: TRANSFER_AMOUNT };
    let extra = extra_of(caller_nonce, caller);
    let additional = additional_of(runtime_version, genesis_hash);
    &&& dest.encoding() == keyring_public(Keyring::Bob)
    &&& sr25519_verifies(
        keyring_public(Keyring::Alice),
        signed_message(signing_payload(call.encoding(), extra, additional)),
        signature@,
    )
    &&& text == submission(caller, signature, extra, call.encoding())
}

/// Whether `text` submits the call bytes `encoded_data` in the name of the
/// identity `account_keyring`, with the account `caller` and the signature
/// `signature`: the account is the identity's, the signature is one of the
/// identity for the transaction, and the text is the submission of the
/// transaction with that signature.
pub open spec fn is_xcm_submission(
    encoded_data: Seq<u8>,
    account_keyring: Keyring,
    caller_nonce: u32,
    runtime_version: RuntimeVersion,
    genesis_hash: H256,
    caller: AccountId32,
    signature: [u8; 64],
    text: Seq<char>,
) -> bool {
    let extra = extra_of(caller_nonce, caller);
    let additional = additional_of(runtime_version, genesis_hash);
    &&& caller.encoding() == keyring_public(account_keyring)
    &&& sr25519_verifies(
        keyring_public(account_keyring),
        signed_message(signing_payload(encoded_data, extra, additional)),
        signature@,
    )
    &&& text == submission(caller, signature, extra, encoded_data)
}

} // verus!
