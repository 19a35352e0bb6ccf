//! What a transaction asks the chain to do.

use vstd::prelude::*;
use crate::codec::{append_bytes, compact, compact_u128};
use crate::payload::AccountId32;

verus! {

/// The call of a transaction: either one that this crate lays out itself, or
/// bytes that are already in their final form.
#[derive(Clone, Debug, PartialEq, Eq)]
pub enum Call {
    /// A transfer of `amount` to the account `dest`, dispatched to the call
    /// `call_index` of the pallet `pallet_index`.
    Transfer { pallet_index: u8, call_index: u8, dest: AccountId32, amount: u128 },
    /// A call encoded elsewhere. It is copied as it is.
    Encoded(Vec<u8>),
}

/// The encoding of an account as an address: the tag of the plain-account
/// form of an address, then the account.
pub open spec fn address(account: AccountId32) -> Seq<u8> {
    seq![0u8] + account.encoding()
}

impl Call {
    /// The bytes of the call on the wire.
    pub open spec fn encoding(self) -> Seq<u8> {
        match self {
            Call::Transfer { pallet_index, call_index, dest, amount } => seq![
                pallet_index,
                call_index,
            ] + address(dest) + compact(amount as nat),
            Call::Encoded(bytes) => bytes@,
        }
    }

    /// Appends the bytes of the call to `dst`.
    pub fn encode_to(&self, dst: &mut Vec<u8>)
        ensures
            final(dst)@ == old(dst)@ + self.encoding(),
    {
        match self {
            Call::Transfer { pallet_index, call_index, dest, amount } => {
                dst.push(*pallet_index);
                dst.push(*call_index);
                append_address(dst, dest);
                let amount_bytes = compact_u128(*amount);
                append_bytes(dst, amount_bytes.as_slice());
            },
            Call::Encoded(bytes) => {
                append_bytes(dst, bytes.as_slice());
            },
        }
        assert(dst@ =~= old(dst)@ + self.encoding());
    }
}

/// Appends the encoding of `account` as an address to `dst`.
pub fn append_address(dst: &mut Vec<u8>, account: &AccountId32)
    ensures
        final(dst)@ == old(dst)@ + address(*account),
{
    dst.push(0u8);
    append_bytes(dst, account.0.as_slice());
    assert(dst@ =~= old(dst)@ + address(*account));
}

} // verus!
