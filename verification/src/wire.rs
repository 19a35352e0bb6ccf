//! How a transaction is read back from the wire. The reader is ghost code:
//! it says what a reader of the format recovers from the bytes that this
//! crate writes.

use vstd::prelude::*;
use crate::codec::{
    compact, from_le, le_bytes, lemma_from_le_bytes, lemma_le_bytes_len, lemma_radix_values,
    lemma_read_compact, optional, read_compact,
};
use crate::extrinsic::{
    extrinsic, extrinsic_body, version_byte, SignaturePayload, SIGNED_VERSION_BYTE,
    UNSIGNED_VERSION_BYTE,
};
use crate::payload::{optional_account, optional_asset, AccountId32, Era, Extra, PotVote};

verus! {

/// The fee and vote extension as a reader sees it.
pub struct PotVoteView {
    pub tip: nat,
    pub asset_id: Option<nat>,
    pub fee_payer: Option<Seq<u8>>,
    pub vote_candidate: Option<Seq<u8>>,
}

/// The explicit extensions as a reader sees them.
pub struct ExtraView {
    pub era: Era,
    pub nonce: nat,
    pub pot_vote: PotVoteView,
}

/// The signature section as a reader sees it.
pub struct SignatureView {
    pub address: Seq<u8>,
    pub signature: Seq<u8>,
    pub extra: ExtraView,
}

/// A transaction as a reader sees it.
pub struct ExtrinsicView {
    pub version: u8,
    pub signature: Option<SignatureView>,
    pub call: Seq<u8>,
}

/// The bytes of an optional account.
pub open spec fn account_bytes(account: Option<AccountId32>) -> Option<Seq<u8>> {
    match account {
        Some(a) => Some(a.encoding()),
        None => None,
    }
}

impl View for PotVote<AccountId32> {
    type V = PotVoteView;

    open spec fn view(&self) -> PotVoteView {
        PotVoteView {
            tip: self.tip as nat,
            asset_id: match self.asset_id {
                Some(v) => Some(v as nat),
                None => None,
            },
            fee_payer: account_bytes(self.fee_payer),
            vote_candidate: account_bytes(self.vote_candidate),
        }
    }
}

impl View for Extra {
    type V = ExtraView;

    open spec fn view(&self) -> ExtraView {
        ExtraView { era: self.era, nonce: self.nonce as nat, pot_vote: self.pot_vote@ }
    }
}

impl View for SignaturePayload {
    type V = SignatureView;

    open spec fn view(&self) -> SignatureView {
        SignatureView {
            address: self.address.encoding(),
            signature: self.signature@,
            extra: self.extra@,
        }
    }
}

/// What a reader sees of the transaction that was written from `sig` and the
/// call bytes `call`.
pub open spec fn extrinsic_view(sig: Option<SignaturePayload>, call: Seq<u8>) -> ExtrinsicView {
    ExtrinsicView {
        version: version_byte(sig is Some),
        signature: match sig {
            Some(s) => Some(s@),
            None => None,
        },
        call,
    }
}

/// All of `bytes` but the first.
pub open spec fn after_first(bytes: Seq<u8>) -> Seq<u8> {
    bytes.subrange(1, bytes.len() as int)
}

/// Reads `count` bytes from the front of `bytes`.
pub open spec fn read_exact(bytes: Seq<u8>, count: nat) -> Option<(Seq<u8>, Seq<u8>)> {
    if bytes.len() < count {
        None
    } else {
        Some((bytes.subrange(0, count as int), bytes.subrange(count as int, bytes.len() as int)))
    }
}

/// Reads an optional value of `count` bytes from the front of `bytes`.
pub open spec fn read_optional(bytes: Seq<u8>, count: nat) -> Option<(Option<Seq<u8>>, Seq<u8>)> {
    if bytes.len() == 0 {
        None
    } else if bytes[0] == 0 {
        Some((None, after_first(bytes)))
    } else if bytes[0] == 1 {
        match read_exact(after_first(bytes), count) {
            Some((value, rest)) => Some((Some(value), rest)),
            None => None,
        }
    } else {
        None
    }
}

/// Reads the fee and vote extension from the front of `bytes`.
pub open spec fn read_pot_vote(bytes: Seq<u8>) -> Option<(PotVoteView, Seq<u8>)> {
    match read_compact(bytes) {
        None => None,
        Some((tip, after_tip)) => match read_optional(after_tip, 4) {
            None => None,
            Some((asset, after_asset)) => match read_optional(after_asset, 32) {
                None => None,
                Some((fee_payer, after_payer)) => match read_optional(after_payer, 32) {
                    None => None,
                    Some((vote_candidate, rest)) => Some(
                        (
                            PotVoteView {
                                tip,
                                asset_id: match asset {
                                    Some(digits) => Some(from_le(digits)),
                                    None => None,
                                },
                                fee_payer,
                                vote_candidate,
                            },
                            rest,
                        ),
                    ),
                },
            },
        },
    }
}

/// Reads the explicit extensions from the front of `bytes`.
pub open spec fn read_extra(bytes: Seq<u8>) -> Option<(ExtraView, Seq<u8>)> {
    if bytes.len() == 0 || bytes[0] != 0 {
        None
    } else {
        match read_compact(after_first(bytes)) {
            None => None,
            Some((nonce, after_nonce)) => match read_pot_vote(after_nonce) {
                None => None,
                Some((pot_vote, rest)) => Some(
                    (ExtraView { era: Era::Immortal, nonce, pot_vote }, rest),
                ),
            },
        }
    }
}

/// Reads the signature section from the front of `bytes`.
pub open spec fn read_signature(bytes: Seq<u8>) -> Option<(SignatureView, Seq<u8>)> {
    if bytes.len() == 0 || bytes[0] != 0 {
        None
    } else {
        match read_exact(after_first(bytes), 32) {
            None => None,
            Some((address, after_address)) => if after_address.len() == 0 || after_address[0]
                != 1 {
                None
            } else {
                match read_exact(after_first(after_address), 64) {
                    None => None,
                    Some((signature, after_signature)) => match read_extra(after_signature) {
                        None => None,
                        Some((extra, rest)) => Some(
                            (SignatureView { address, signature, extra }, rest),
                        ),
                    },
                }
            },
        }
    }
}

/// Reads what the length prefix counts: the version byte, the signature
/// section if the version byte announces one, and the call.
pub open spec fn read_body(body: Seq<u8>) -> Option<ExtrinsicView> {
    if body.len() == 0 {
        None
    } else if body[0] == SIGNED_VERSION_BYTE {
        match read_signature(after_first(body)) {
            None => None,
            Some((signature, call)) => Some(
                ExtrinsicView { version: body[0], signature: Some(signature), call },
            ),
        }
    } else if body[0] == UNSIGNED_VERSION_BYTE {
        Some(ExtrinsicView { version: body[0], signature: None, call: after_first(body) })
    } else {
        None
    }
}

/// Reads a transaction: the length, and then a body of exactly that length.
pub open spec fn read_extrinsic(bytes: Seq<u8>) -> Option<ExtrinsicView> {
    match read_compact(bytes) {
        None => None,
        Some((length, body)) => if body.len() == length {
            read_body(body)
        } else {
            None
        },
    }
}

/// Reading `count` bytes that are followed by `rest` gives them back, and
/// `rest`.
pub proof fn lemma_read_exact(value: Seq<u8>, rest: Seq<u8>)
    ensures
        read_exact(value + rest, value.len()) == Some((value, rest)),
{
    let bytes = value + rest;
    assert(bytes.subrange(0, value.len() as int) =~= value);
    assert(bytes.subrange(value.len() as int, bytes.len() as int) =~= rest);
}

/// Reading an optional value that is followed by `rest` gives it back, and
/// `rest`.
pub proof fn lemma_read_optional(inner: Option<Seq<u8>>, count: nat, rest: Seq<u8>)
    requires
        inner is Some ==> inner->0.len() == count,
    ensures
        read_optional(optional(inner) + rest, count) == Some((inner, rest)),
{
    let bytes = optional(inner) + rest;
    match inner {
        None => {
            assert(after_first(bytes) =~= rest);
        },
        Some(value) => {
            assert(after_first(bytes) =~= value + rest);
            lemma_read_exact(value, rest);
        },
    }
}

/// Reading a fee and vote extension that is followed by `rest` gives its view
/// back, and `rest`.
pub proof fn lemma_read_pot_vote(vote: PotVote<AccountId32>, rest: Seq<u8>)
    ensures
        read_pot_vote(vote.encoding() + rest) == Some((vote@, rest)),
{
    let tip = compact(vote.tip as nat);
    let asset = optional_asset(vote.asset_id);
    let payer = optional_account(vote.fee_payer);
    let candidate = optional_account(vote.vote_candidate);
    assert(vote.encoding() + rest =~= tip + (asset + (payer + (candidate + rest))));
    lemma_read_compact(vote.tip as nat, asset + (payer + (candidate + rest)));
    let digits = match vote.asset_id {
        Some(v) => Some(le_bytes(v as nat, 4)),
        None => None,
    };
    if vote.asset_id is Some {
        lemma_radix_values();
        lemma_le_bytes_len(vote.asset_id->0 as nat, 4);
        lemma_from_le_bytes(vote.asset_id->0 as nat, 4);
    }
    lemma_read_optional(digits, 4, payer + (candidate + rest));
    lemma_read_optional(account_bytes(vote.fee_payer), 32, candidate + rest);
    lemma_read_optional(account_bytes(vote.vote_candidate), 32, rest);
}

/// Reading extensions that are followed by `rest` gives their view back, and
/// `rest`.
pub proof fn lemma_read_extra(extra: Extra, rest: Seq<u8>)
    ensures
        read_extra(extra.encoding() + rest) == Some((extra@, rest)),
{
    let nonce = compact(extra.nonce as nat);
    let vote = extra.pot_vote.encoding();
    let bytes = extra.encoding() + rest;
    assert(bytes =~= seq![0u8] + (nonce + (vote + rest)));
    assert(after_first(bytes) =~= nonce + (vote + rest));
    lemma_read_compact(extra.nonce as nat, vote + rest);
    lemma_read_pot_vote(extra.pot_vote, rest);
}

/// Reading a signature section that is followed by `rest` gives its view
/// back, and `rest`.
pub proof fn lemma_read_signature(sig: SignaturePayload, rest: Seq<u8>)
    ensures
        read_signature(sig.encoding() + rest) == Some((sig@, rest)),
{
    let account = sig.address.encoding();
    let signature = sig.signature@;
    let extra = sig.extra.encoding();
    let bytes = sig.encoding() + rest;
    let after_address = seq![1u8] + (signature + (extra + rest));
    assert(bytes =~= seq![0u8] + (account + after_address));
    assert(after_first(bytes) =~= account + after_address);
    lemma_read_exact(account, after_address);
    assert(after_first(after_address) =~= signature + (extra + rest));
    lemma_read_exact(signature, extra + rest);
    lemma_read_extra(sig.extra, rest);
}

/// Reading the body of a transaction gives the view of what it was written
/// from.
pub proof fn lemma_read_body(sig: Option<SignaturePayload>, call: Seq<u8>)
    ensures
        read_body(extrinsic_body(sig, call)) == Some(extrinsic_view(sig, call)),
{
    let body = extrinsic_body(sig, call);
    match sig {
        Some(s) => {
            assert(body[0] == SIGNED_VERSION_BYTE);
            assert(after_first(body) =~= s.encoding() + call);
            lemma_read_signature(s, call);
        },
        None => {
            assert(body[0] == UNSIGNED_VERSION_BYTE);
            assert(after_first(body) =~= call);
        },
    }
}

/// Round trip: a reader recovers from the bytes of a transaction the version
/// byte, the signature section if there is one, and the call bytes that the
/// transaction was written from.
pub proof fn lemma_extrinsic_round_trip(sig: Option<SignaturePayload>, call: Seq<u8>)
    requires
        extrinsic_body(sig, call).len() <= u32::MAX,
    ensures
        read_extrinsic(extrinsic(sig, call)) == Some(extrinsic_view(sig, call)),
{
    let body = extrinsic_body(sig, call);
    lemma_read_compact(body.len(), body);
    lemma_read_body(sig, call);
}

/// The length prefix of a transaction is the exact number of the bytes that
/// follow it, and those bytes are the version byte, the signature section if
/// there is one, and the call.
pub proof fn lemma_length_prefix_is_exact(sig: Option<SignaturePayload>, call: Seq<u8>)
    requires
        extrinsic_body(sig, call).len() <= u32::MAX,
    ensures
        read_compact(extrinsic(sig, call)) matches Some((length, rest)) && length == rest.len()
            && rest == extrinsic_body(sig, call) && extrinsic(sig, call).len() == compact(
            length,
        ).len() + length,
{
    let body = extrinsic_body(sig, call);
    lemma_read_compact(body.len(), body);
}

/// Call bytes that were encoded elsewhere are the last bytes of the
/// transaction, unchanged, and they come right after the signature section.
pub proof fn lemma_encoded_call_is_verbatim(sig: Option<SignaturePayload>, data: Seq<u8>)
    ensures
        extrinsic(sig, data).len() >= data.len(),
        extrinsic(sig, data).subrange(
            extrinsic(sig, data).len() - data.len(),
            extrinsic(sig, data).len() as int,
        ) == data,
        extrinsic(sig, data).len() - data.len() == compact(extrinsic_body(sig, data).len()).len()
            + 1 + match sig {
            Some(s) => s.encoding().len(),
            None => 0,
        },
{
    let all = extrinsic(sig, data);
    assert(all.subrange(all.len() - data.len(), all.len() as int) =~= data);
}

} // verus!
