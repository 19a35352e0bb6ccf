//! The signed extensions of a transaction: the data that travels with it
//! (`Extra`) and the chain context that is signed but never sent
//! (`Additional`).

use vstd::prelude::*;
use crate::codec::{
    append_bytes, append_optional_u32, compact, compact_u128, compact_u32, fixed_u32, le_bytes,
    lemma_compact_len, lemma_le_bytes_len, optional,
};

verus! {

/// A 32-byte account identifier.
#[derive(Clone, Copy, Debug, PartialEq, Eq)]
pub struct AccountId32(pub [u8; 32]);

impl AccountId32 {
    /// The encoding of an account: its 32 bytes.
    pub open spec fn encoding(self) -> Seq<u8> {
        self.0@
    }
}

/// A 256-bit hash.
#[derive(Clone, Copy, Debug, PartialEq, Eq)]
pub struct H256(pub [u8; 32]);

impl H256 {
    /// The encoding of a hash: its 32 bytes.
    pub open spec fn encoding(self) -> Seq<u8> {
        self.0@
    }
}

/// For how long a transaction stays valid.
#[derive(Clone, Copy, Debug, PartialEq, Eq)]
pub enum Era {
    /// Valid in every block.
    Immortal,
}

impl Era {
    /// The encoding of an era: a single zero byte for the immortal one.
    pub open spec fn encoding(self) -> Seq<u8> {
        seq![0u8]
    }
}

/// The fee and vote extension of a transaction.
#[derive(Clone, Copy, Debug, PartialEq, Eq)]
pub struct PotVote<AccountId> {
    pub tip: u128,
    pub asset_id: Option<u32>,
    pub fee_payer: Option<AccountId>,
    pub vote_candidate: Option<AccountId>,
}

impl<AccountId> PotVote<AccountId> {
    /// An extension with exactly the given fields.
    pub fn new(
        tip: u128,
        asset_id: Option<u32>,
        fee_payer: Option<AccountId>,
        vote_candidate: Option<AccountId>,
    ) -> (vote: Self)
        ensures
            vote.tip == tip,
            vote.asset_id == asset_id,
            vote.fee_payer == fee_payer,
            vote.vote_candidate == vote_candidate,
    {
        Self { tip, asset_id, fee_payer, vote_candidate }
    }
}

/// The encoding of an optional account.
pub open spec fn optional_account(account: Option<AccountId32>) -> Seq<u8> {
    optional(
        match account {
            Some(a) => Some(a.encoding()),
            None => None,
        },
    )
}

/// The encoding of an optional asset identifier.
pub open spec fn optional_asset(asset_id: Option<u32>) -> Seq<u8> {
    optional(
        match asset_id {
            Some(v) => Some(le_bytes(v as nat, 4)),
            None => None,
        },
    )
}

impl PotVote<AccountId32> {
    /// The encoding of the extension: the compact tip, then each optional
    /// field with its presence tag, in declaration order.
    pub open spec fn encoding(self) -> Seq<u8> {
        compact(self.tip as nat) + optional_asset(self.asset_id) + optional_account(self.fee_payer)
            + optional_account(self.vote_candidate)
    }

    /// Appends the encoding of the extension to `dst`.
    pub fn encode_to(&self, dst: &mut Vec<u8>)
        ensures
            final(dst)@ == old(dst)@ + self.encoding(),
    {
        let tip = compact_u128(self.tip);
        append_bytes(dst, tip.as_slice());
        append_optional_u32(dst, self.asset_id);
        append_optional_account(dst, &self.fee_payer);
        append_optional_account(dst, &self.vote_candidate);
        assert(dst@ =~= old(dst)@ + self.encoding());
    }
}

/// Appends the encoding of an optional account to `dst`.
pub fn append_optional_account(dst: &mut Vec<u8>, account: &Option<AccountId32>)
    ensures
        final(dst)@ == old(dst)@ + optional_account(*account),
{
    match account {
        None => {
            dst.push(0u8);
        },
        Some(a) => {
            dst.push(1u8);
            append_bytes(dst, a.0.as_slice());
        },
    }
    assert(dst@ =~= old(dst)@ + optional_account(*account));
}

/// The explicit signed extensions: they are part of the transaction on the
/// wire and of what is signed.
#[derive(Clone, Copy, Debug, PartialEq, Eq)]
pub struct Extra {
    pub era: Era,
    pub nonce: u32,
    pub pot_vote: PotVote<AccountId32>,
}

impl Extra {
    /// The encoding of the extensions: era, compact nonce, fee and vote.
    pub open spec fn encoding(self) -> Seq<u8> {
        self.era.encoding() + compact(self.nonce as nat) + self.pot_vote.encoding()
    }

    /// Appends the encoding of the extensions to `dst`.
    pub fn encode_to(&self, dst: &mut Vec<u8>)
        ensures
            final(dst)@ == old(dst)@ + self.encoding(),
    {
        match self.era {
            Era::Immortal => {
                dst.push(0u8);
            },
        }
        let nonce = compact_u32(self.nonce);
        append_bytes(dst, nonce.as_slice());
        self.pot_vote.encode_to(dst);
        assert(dst@ =~= old(dst)@ + self.encoding());
    }
}

/// The implicit signed context: it is part of what is signed and is never
/// sent.
#[derive(Clone, Copy, Debug, PartialEq, Eq)]
pub struct Additional {
    pub spec_version: u32,
    pub transaction_version: u32,
    pub genesis_hash: H256,
    pub check_hash: H256,
}

impl Additional {
    /// The encoding of the context: both versions as fixed-width integers,
    /// then both hashes.
    pub open spec fn encoding(self) -> Seq<u8> {
        le_bytes(self.spec_version as nat, 4) + le_bytes(self.transaction_version as nat, 4)
            + self.genesis_hash.encoding() + self.check_hash.encoding()
    }

    /// Appends the encoding of the context to `dst`.
    pub fn encode_to(&self, dst: &mut Vec<u8>)
        ensures
            final(dst)@ == old(dst)@ + self.encoding(),
    {
        let spec_version = fixed_u32(self.spec_version);
        append_bytes(dst, spec_version.as_slice());
        let transaction_version = fixed_u32(self.transaction_version);
        append_bytes(dst, transaction_version.as_slice());
        append_bytes(dst, self.genesis_hash.0.as_slice());
        append_bytes(dst, self.check_hash.0.as_slice());
        assert(dst@ =~= old(dst)@ + self.encoding());
    }
}

/// The part of a runtime's version that a transaction commits to.
#[derive(Clone, Copy, Debug, PartialEq, Eq)]
pub struct RuntimeVersion {
    pub spec_version: u32,
    pub transaction_version: u32,
}

/// The asset in which fees are paid.
pub const FEE_ASSET_ID: u32 = 99;

/// The extensions of a transaction of `caller` with the account nonce
/// `caller_nonce`: immortal, no tip, fees in the fixed asset, no separate fee
/// payer, and the vote given to the caller.
pub open spec fn extra_of(caller_nonce: u32, caller: AccountId32) -> Extra {
    Extra {
        era: Era::Immortal,
        nonce: caller_nonce,
        pot_vote: PotVote {
            tip: 0,
            asset_id: Some(FEE_ASSET_ID),
            fee_payer: None,
            vote_candidate: Some(caller),
        },
    }
}

/// The context of a transaction for a chain at `runtime_version` whose first
/// block has the hash `genesis_hash`. The hash stands for the checkpoint block
/// as well.
pub open spec fn additional_of(runtime_version: RuntimeVersion, genesis_hash: H256) -> Additional {
    Additional {
        spec_version: runtime_version.spec_version,
        transaction_version: runtime_version.transaction_version,
        genesis_hash,
        check_hash: genesis_hash,
    }
}

/// The extensions take between 2 and 94 bytes.
pub proof fn lemma_extra_len(extra: Extra)
    ensures
        2 <= extra.encoding().len() <= 94,
{
    lemma_compact_len(extra.nonce as nat);
    lemma_compact_len(extra.pot_vote.tip as nat);
    if extra.pot_vote.asset_id is Some {
        lemma_le_bytes_len(extra.pot_vote.asset_id->0 as nat, 4);
    }
}

/// The extensions that `extra_of` describes take 41 bytes and the compact
/// nonce.
pub proof fn lemma_built_extra_len(nonce: u32, caller: AccountId32)
    ensures
        extra_of(nonce, caller).encoding().len() == 41 + compact(nonce as nat).len(),
{
    lemma_compact_len(0);
    lemma_le_bytes_len(0, 1);
    lemma_le_bytes_len(FEE_ASSET_ID as nat, 4);
}

/// Building is repeatable: extensions and contexts that were built from the
/// same inputs have the same bytes.
pub proof fn lemma_building_is_repeatable(
    caller_nonce: u32,
    caller: AccountId32,
    runtime_version: RuntimeVersion,
    genesis_hash: H256,
    first: (Extra, Additional),
    second: (Extra, Additional),
)
    requires
        first.0 == extra_of(caller_nonce, caller),
        second.0 == extra_of(caller_nonce, caller),
        first.1 == additional_of(runtime_version, genesis_hash),
        second.1 == additional_of(runtime_version, genesis_hash),
    ensures
        first.0.encoding() == second.0.encoding(),
        first.1.encoding() == second.1.encoding(),
{
}

} // verus!
