//! Oracle attestation: the canonical message a market outcome is signed
//! over, and verification of the oracle's Ed25519 signature on it.
//!
//! The oracle is not a caller identity: resolution is authorized purely
//! by a cryptographic proof that the holder of the market's registered
//! key attests to the outcome.

use vstd::prelude::*;

use crate::error::ContractError;
use crate::types::{Market, MarketStatus};
use crate::{locked_sum, MarketContract};

verus! {

#[verifier::external_type_specification]
#[verifier::external_body]
pub struct ExEnv(soroban_sdk::Env);

/// The Keccak-256 digest of a byte sequence. The digest is a function
/// of the input bytes alone; an empty contract here, since nothing
/// short of the full algorithm describes the digest.
pub uninterp spec fn keccak256_of(data: Seq<u8>) -> Seq<u8>;

/// Whether an Ed25519 signature is accepted for a message under a
/// public key. Acceptance is a function of the three byte sequences
/// alone.
pub uninterp spec fn ed25519_valid(public_key: Seq<u8>, message: Seq<u8>, signature: Seq<u8>) -> bool;

/// Relies on soroban_sdk's `Crypto::keccak256`: it returns the 32-byte
/// Keccak-256 hash of the data, a deterministic function of the data
/// bytes alone (the environment handle only reaches the host
/// implementation).
#[verifier::external_body]
fn keccak256_digest(env: &soroban_sdk::Env, data: &Vec<u8>) -> (r: [u8; 32])
    ensures
        r@ == keccak256_of(data@),
{
    let bytes = soroban_sdk::Bytes::from_slice(env, data.as_slice());
    env.crypto().keccak256(&bytes).to_array()
}

/// Relies on ed25519_dalek's `VerifyingKey::verify` (with
/// `VerifyingKey::from_bytes` and `Signature::from_bytes` converting the
/// raw bytes): whether the signature is accepted depends only on the
/// key, message and signature bytes; a key that is no valid curve point
/// accepts nothing.
#[verifier::external_body]
fn ed25519_verify(public_key: &[u8; 32], message: &[u8; 32], signature: &[u8; 64]) -> (r: bool)
    ensures
        r == ed25519_valid(public_key@, message@, signature@),
{
    match ed25519_dalek::VerifyingKey::from_bytes(public_key) {
        Ok(verifying_key) => {
            let sig = ed25519_dalek::Signature::from_bytes(signature);
            ed25519_dalek::Verifier::verify(&verifying_key, message.as_slice(), &sig).is_ok()
        },
        Err(_) => false,
    }
}

/// The fixed-layout byte sequence an oracle signs over: the market
/// identifier as four little-endian bytes, then a single outcome byte,
/// 0x01 for YES and 0x00 for NO.
pub open spec fn spec_oracle_message_preimage(market_id: u32, outcome: bool) -> Seq<u8> {
    vstd::bytes::spec_u32_to_le_bytes(market_id).push(
        if outcome {
            1u8
        } else {
            0u8
        },
    )
}

/// The canonical attestation message: the Keccak-256 digest of the
/// fixed-layout preimage.
pub open spec fn spec_oracle_message(market_id: u32, outcome: bool) -> Seq<u8> {
    keccak256_of(spec_oracle_message_preimage(market_id, outcome))
}

/// Constructs the 32-byte message that the oracle signs for a market
/// resolution: Keccak-256 over the market identifier bytes followed by
/// the outcome byte. Byte order and hash function are fixed, for
/// cross-implementation compatibility.
pub fn construct_oracle_message(env: &soroban_sdk::Env, market_id: u32, outcome: bool) -> (r: [u8;
    32])
    ensures
        r@ == spec_oracle_message(market_id, outcome),
{
    let mut message = vstd::bytes::u32_to_le_bytes(market_id);
    let outcome_byte: u8 = if outcome {
        1
    } else {
        0
    };
    message.push(outcome_byte);
    proof {
        assert(message@ =~= spec_oracle_message_preimage(market_id, outcome));
    }
    keccak256_digest(env, &message)
}

/// Verifies that an oracle signature is valid for a market resolution:
/// the signature must check out over the canonical attestation message
/// under the given oracle key. A failed verification surfaces as an
/// `InvalidSignature` error, never as an abort.
pub fn verify_oracle_signature(
    env: &soroban_sdk::Env,
    market_id: u32,
    outcome: bool,
    signature: &[u8; 64],
    oracle_pubkey: &[u8; 32],
) -> (r: Result<(), ContractError>)
    ensures
        r is Ok <==> ed25519_valid(
            oracle_pubkey@,
            spec_oracle_message(market_id, outcome),
            signature@,
        ),
        r is Err ==> r == Err::<(), ContractError>(ContractError::InvalidSignature),
{
    let message = construct_oracle_message(env, market_id, outcome);
    if ed25519_verify(oracle_pubkey, &message, signature) {
        Ok(())
    } else {
        Err(ContractError::InvalidSignature)
    }
}

/// Checks that a presented key is the oracle registered for the market:
/// a plain key-equality check, a simplified stand-in for cryptographic
/// proof and insufficient on its own for production use.
pub fn validate_oracle_authorization(market: &Market, oracle_pubkey: &[u8; 32]) -> (r: Result<
    (),
    ContractError,
>)
    ensures
        r is Ok <==> market.oracle_pubkey@ == oracle_pubkey@,
        r is Err ==> r == Err::<(), ContractError>(ContractError::UnauthorizedOracle),
{
    let mut i: usize = 0;
    while i < 32
        invariant
            i <= 32,
            forall|j: int| 0 <= j < i ==> market.oracle_pubkey@[j] == oracle_pubkey@[j],
        decreases 32 - i,
    {
        if market.oracle_pubkey[i] != oracle_pubkey[i] {
            return Err(ContractError::UnauthorizedOracle);
        }
        i += 1;
    }
    proof {
        assert(market.oracle_pubkey@ =~= oracle_pubkey@);
    }
    Ok(())
}

impl MarketContract {
    /// The exact result of a resolution attempt: the market must exist
    /// and be Active, and the signature must verify over the canonical
    /// attestation message under the market's registered oracle key.
    pub open spec fn spec_resolve_result(
        self,
        market_id: u32,
        outcome: bool,
        signature: Seq<u8>,
    ) -> Result<(), ContractError> {
        if !self.spec_has_market(market_id) {
            Err(ContractError::MarketNotFound)
        } else {
            let m = self.spec_market(market_id);
            match m.status {
                MarketStatus::Resolved => Err(ContractError::MarketAlreadyResolved),
                MarketStatus::Canceled => Err(ContractError::MarketNotActive),
                MarketStatus::Active => if ed25519_valid(
                    m.oracle_pubkey@,
                    spec_oracle_message(market_id, outcome),
                    signature,
                ) {
                    Ok(())
                } else {
                    Err(ContractError::InvalidSignature)
                },
            }
        }
    }

    /// Resolves a market with an oracle-attested outcome: verifies the
    /// Ed25519 signature over the canonical attestation message under
    /// the market's registered oracle key, then performs the one-way
    /// transition to Resolved, recording the outcome. On any error the
    /// state is returned unchanged.
    pub fn resolve_market(
        &mut self,
        env: &soroban_sdk::Env,
        market_id: u32,
        outcome: bool,
        signature: &[u8; 64],
    ) -> (r: Result<(), ContractError>)
        requires
            old(self).wf(),
        ensures
            final(self).wf(),
            r == old(self).spec_resolve_result(market_id, outcome, signature@),
            r is Ok ==> final(self).spec_has_market(market_id) && final(self).spec_market(market_id)
                == (Market {
                status: MarketStatus::Resolved,
                result: Some(outcome),
                ..old(self).spec_market(market_id)
            }),
            forall|id2: u32|
                id2 != market_id ==> (final(self).spec_has_market(id2) <==> old(self).spec_has_market(id2)) && (old(self).spec_has_market(id2) ==> final(self).spec_market(id2) == old(self).spec_market(id2)),
            final(self).positions@ == old(self).positions@,
            final(self).admin == old(self).admin,
            final(self).next_market_id == old(self).next_market_id,
            r is Err ==> *final(self) == *old(self),
            old(self).collateral_conserved() ==> final(self).collateral_conserved(),
    {
        let market_index = match self.find_market_index(market_id) {
            Some(k) => k,
            None => {
                return Err(ContractError::MarketNotFound);
            },
        };
        proof {
            self.lemma_market_index_is(market_id, market_index as int);
        }

        match self.markets[market_index].status {
            MarketStatus::Resolved => {
                return Err(ContractError::MarketAlreadyResolved);
            },
            MarketStatus::Canceled => {
                return Err(ContractError::MarketNotActive);
            },
            MarketStatus::Active => {},
        }

        let oracle_pubkey = self.markets[market_index].oracle_pubkey;
        match verify_oracle_signature(env, market_id, outcome, signature, &oracle_pubkey) {
            Err(e) => {
                return Err(e);
            },
            Ok(_) => {},
        }

        let ghost pre = *self;
        let updated = self.markets[market_index].with_resolution(outcome);
        self.set_market(market_id, updated);

        proof {
            if pre.collateral_conserved() {
                assert forall|i: int| 0 <= i < self.markets@.len() implies locked_sum(
                    self.positions@,
                    (#[trigger] self.markets@[i]).id,
                ) <= self.markets@[i].total_collateral by {
                    let id2 = self.markets@[i].id;
                    self.lemma_market_index_is(id2, i);
                    let kp = pre.spec_market_index(id2);
                    assert(pre.spec_has_market(id2));
                    assert(0 <= kp < pre.markets@.len() && pre.markets@[kp].id == id2);
                    assert(locked_sum(pre.positions@, pre.markets@[kp].id)
                        <= pre.markets@[kp].total_collateral);
                    pre.lemma_market_index_is(id2, kp);
                }
            }
        }

        Ok(())
    }
}

} // verus!
