//! The well-known development identities and what is done with their keys.

use vstd::prelude::*;
use sp_core::Pair;
use sp_keyring::sr25519::Keyring as DevKey;
use crate::payload::AccountId32;

verus! {

/// A development identity: a name that stands for a fixed sr25519 key pair.
#[derive(Clone, Copy, Debug, PartialEq, Eq)]
pub enum Keyring {
    Alice,
    Bob,
    Charlie,
    Dave,
    Eve,
    Ferdie,
    AliceStash,
    BobStash,
    CharlieStash,
    DaveStash,
    EveStash,
    FerdieStash,
    One,
    Two,
}

/// The 32 bytes of an identity's public key, as
/// `sp_keyring::sr25519::Keyring::to_raw_public` returns them.
pub uninterp spec fn keyring_public(keyring: Keyring) -> Seq<u8>;

/// Whether `sp_core::sr25519::Pair::verify` accepts `signature` for `message`
/// under the public key `public`.
pub uninterp spec fn sr25519_verifies(
    public: Seq<u8>,
    message: Seq<u8>,
    signature: Seq<u8>,
) -> bool;

/// Calls `sp_keyring::sr25519::Keyring::to_raw_public` on the identity of the
/// same name. The contract only names the result: the key is a constant of
/// that crate for each identity.
#[verifier::external_body]
fn raw_public(keyring: Keyring) -> (public: [u8; 32])
    ensures
        public@ == keyring_public(keyring),
{
    let key = match keyring {
        Keyring::Alice => DevKey::Alice, Keyring::Bob => DevKey::Bob,
        Keyring::Charlie => DevKey::Charlie, Keyring::Dave => DevKey::Dave,
        Keyring::Eve => DevKey::Eve, Keyring::Ferdie => DevKey::Ferdie,
        Keyring::AliceStash => DevKey::AliceStash, Keyring::BobStash => DevKey::BobStash,
        Keyring::CharlieStash => DevKey::CharlieStash, Keyring::DaveStash => DevKey::DaveStash,
        Keyring::EveStash => DevKey::EveStash, Keyring::FerdieStash => DevKey::FerdieStash,
        Keyring::One => DevKey::One, Keyring::Two => DevKey::Two,
    };
    key.to_raw_public()
}

/// Calls `sp_keyring::sr25519::Keyring::sign` on the identity of the same
/// name. Signing draws on randomness, so two calls on one message differ; the
/// contract claims what holds of every signature it returns: the verifier of
/// the same scheme accepts it for this message under the identity's public
/// key.
#[verifier::external_body]
pub(crate) fn sr25519_sign(keyring: Keyring, message: &[u8]) -> (signature: [u8; 64])
    ensures
        sr25519_verifies(keyring_public(keyring), message@, signature@),
{
    let key = match keyring {
        Keyring::Alice => DevKey::Alice, Keyring::Bob => DevKey::Bob,
        Keyring::Charlie => DevKey::Charlie, Keyring::Dave => DevKey::Dave,
        Keyring::Eve => DevKey::Eve, Keyring::Ferdie => DevKey::Ferdie,
        Keyring::AliceStash => DevKey::AliceStash, Keyring::BobStash => DevKey::BobStash,
        Keyring::CharlieStash => DevKey::CharlieStash, Keyring::DaveStash => DevKey::DaveStash,
        Keyring::EveStash => DevKey::EveStash, Keyring::FerdieStash => DevKey::FerdieStash,
        Keyring::One => DevKey::One, Keyring::Two => DevKey::Two,
    };
    key.sign(message).0
}

/// Calls `sp_core::sr25519::Pair::verify` on the public key and the
/// signature with these bytes. The contract only names the result: whether a
/// signature is accepted is a function of the key, the message and the
/// signature alone.
#[verifier::external_body]
pub(crate) fn sr25519_verify(public: &[u8; 32], message: &[u8], signature: &[u8; 64]) -> (ok: bool)
    ensures
        ok == sr25519_verifies(public@, message@, signature@),
{
    let public = sp_core::sr25519::Public::from_raw(*public);
    let signature = sp_core::sr25519::Signature::from_raw(*signature);
    sp_core::sr25519::Pair::verify(&signature, message, &public)
}

impl Keyring {
    /// The account of the identity: its public key.
    pub fn to_account_id(self) -> (account: AccountId32)
        ensures
            account.encoding() == keyring_public(self),
    {
        AccountId32(raw_public(self))
    }
}

} // verus!
