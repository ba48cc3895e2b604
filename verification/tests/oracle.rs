use ed25519_dalek::{Signer, SigningKey};
use soroban_sdk::Env;

use prediction_market::error::ContractError;
use prediction_market::oracle::{
    construct_oracle_message, validate_oracle_authorization, verify_oracle_signature,
};
use prediction_market::types::{Address, Market, MarketStatus};
use prediction_market::MarketContract;

/// Generate a test Ed25519 keypair and sign the attestation message
/// for the given market and outcome.
fn generate_test_keypair_and_sign(
    env: &Env,
    market_id: u32,
    outcome: bool,
) -> ([u8; 32], [u8; 64]) {
    let signing_key = SigningKey::from_bytes(&[7u8; 32]);
    let verifying_key = signing_key.verifying_key();

    let message = construct_oracle_message(env, market_id, outcome);
    let signature = signing_key.sign(message.as_slice());

    (verifying_key.to_bytes(), signature.to_bytes())
}

fn sample_market(oracle_pubkey: [u8; 32]) -> Market {
    Market {
        id: 1,
        question: String::from("Test market"),
        end_time: 1000,
        oracle_pubkey,
        status: MarketStatus::Active,
        result: None,
        creator: Address { id: 70 },
        created_at: 0,
        collateral_token: Address { id: 71 },
        total_collateral: 0,
    }
}

#[test]
fn test_construct_oracle_message_yes() {
    let env = Env::default();
    let message = construct_oracle_message(&env, 123, true);

    // Message should be 32 bytes (keccak256 output)
    assert_eq!(message.len(), 32);
}

#[test]
fn test_construct_oracle_message_no() {
    let env = Env::default();
    let message = construct_oracle_message(&env, 123, false);

    assert_eq!(message.len(), 32);
}

#[test]
fn test_different_outcomes_different_messages() {
    let env = Env::default();

    // Same market id, different outcome = different message
    let msg_yes = construct_oracle_message(&env, 123, true);
    let msg_no = construct_oracle_message(&env, 123, false);

    assert_ne!(msg_yes, msg_no);
}

#[test]
fn test_construct_oracle_message_deterministic() {
    let env = Env::default();

    // Same inputs should produce same hash
    let msg1 = construct_oracle_message(&env, 456, true);
    let msg2 = construct_oracle_message(&env, 456, true);

    assert_eq!(msg1, msg2);
}

#[test]
fn test_different_market_ids_different_messages() {
    let env = Env::default();

    let msg1 = construct_oracle_message(&env, 1, true);
    let msg2 = construct_oracle_message(&env, 2, true);

    assert_ne!(msg1, msg2);
}

#[test]
fn test_construct_oracle_message_zero_market_id() {
    let env = Env::default();
    let message = construct_oracle_message(&env, 0, true);
    assert_eq!(message.len(), 32);
}

#[test]
fn test_construct_oracle_message_max_market_id() {
    let env = Env::default();
    let message = construct_oracle_message(&env, u32::MAX, false);
    assert_eq!(message.len(), 32);
}

#[test]
fn test_oracle_message_is_a_digest_of_the_preimage() {
    let env = Env::default();
    let message = construct_oracle_message(&env, 123, true);

    // The message is not the preimage zero-padded: it is a digest.
    let mut padded_preimage = [0u8; 32];
    padded_preimage[0..4].copy_from_slice(&123u32.to_le_bytes());
    padded_preimage[4] = 1;
    assert_ne!(message, padded_preimage);
}

#[test]
fn test_validate_oracle_authorized() {
    let oracle_pubkey = [1u8; 32];
    let market = sample_market(oracle_pubkey);

    // Should return Ok when pubkey matches
    let result = validate_oracle_authorization(&market, &oracle_pubkey);
    assert!(result.is_ok());
}

#[test]
fn test_validate_oracle_unauthorized() {
    let oracle_pubkey = [1u8; 32];
    let wrong_pubkey = [2u8; 32];
    let market = sample_market(oracle_pubkey);

    // Should return Err when pubkey doesn't match
    let result = validate_oracle_authorization(&market, &wrong_pubkey);
    assert!(result.is_err());
    assert_eq!(result.unwrap_err(), ContractError::UnauthorizedOracle);
}

#[test]
fn test_verify_valid_signature() {
    let env = Env::default();
    let (oracle_pubkey, signature) = generate_test_keypair_and_sign(&env, 7, true);

    assert_eq!(
        verify_oracle_signature(&env, 7, true, &signature, &oracle_pubkey),
        Ok(())
    );
}

#[test]
fn test_verify_signature_rejects_invalid() {
    let env = Env::default();
    let (oracle_pubkey, signature) = generate_test_keypair_and_sign(&env, 7, true);

    // The same signature over a different outcome does not verify.
    assert_eq!(
        verify_oracle_signature(&env, 7, false, &signature, &oracle_pubkey),
        Err(ContractError::InvalidSignature)
    );
    // Neither does a garbage signature.
    assert_eq!(
        verify_oracle_signature(&env, 7, true, &[0u8; 64], &oracle_pubkey),
        Err(ContractError::InvalidSignature)
    );
}

#[test]
fn test_resolve_market_with_valid_signature() {
    let env = Env::default();
    let mut state = MarketContract::new();
    let admin = Address { id: 1 };
    state.set_admin(admin);

    let outcome = true;
    let (oracle_pubkey, signature) = generate_test_keypair_and_sign(&env, 1, outcome);

    let market_id = state
        .initialize_market(
            admin,
            String::from("Test market"),
            5000 + 86400,
            oracle_pubkey,
            Address { id: 71 },
            5000,
        )
        .unwrap();

    // Verify market is initially Active
    let market_before = state.get_market(market_id).unwrap();
    assert_eq!(market_before.status, MarketStatus::Active);
    assert_eq!(market_before.result, None);

    // Resolve market with valid signature
    assert_eq!(state.resolve_market(&env, market_id, outcome, &signature), Ok(()));

    // Verify market is now Resolved
    let market_after = state.get_market(market_id).unwrap();
    assert_eq!(market_after.status, MarketStatus::Resolved);
    assert_eq!(market_after.result, Some(outcome));
}

#[test]
fn test_resolve_market_updates_status_and_result() {
    let mut state = MarketContract::new();
    let admin = Address { id: 1 };
    state.set_admin(admin);
    let oracle_pubkey = [1u8; 32];

    let market_id = state
        .initialize_market(
            admin,
            String::from("Test market"),
            5000 + 86400,
            oracle_pubkey,
            Address { id: 71 },
            5000,
        )
        .unwrap();

    // Verify market is initially Active
    let market_before = state.get_market(market_id).unwrap();
    assert_eq!(market_before.status, MarketStatus::Active);
    assert_eq!(market_before.result, None);

    // Verify market structure is correct
    assert_eq!(market_before.oracle_pubkey, oracle_pubkey);
}

#[test]
fn test_resolve_market_not_found_error() {
    let env = Env::default();
    let mut state = MarketContract::new();

    assert_eq!(
        state.resolve_market(&env, 999, true, &[0u8; 64]),
        Err(ContractError::MarketNotFound)
    );
}

#[test]
fn test_resolve_market_already_resolved_error() {
    let env = Env::default();
    let mut state = MarketContract::new();
    let admin = Address { id: 1 };
    state.set_admin(admin);

    let market_id = state
        .initialize_market(
            admin,
            String::from("Test market"),
            5000 + 86400,
            [1u8; 32],
            Address { id: 71 },
            5000,
        )
        .unwrap();
    state.transition_to_resolved(market_id, true).unwrap();

    // The lifecycle guard fires before any signature is looked at.
    assert_eq!(
        state.resolve_market(&env, market_id, true, &[0u8; 64]),
        Err(ContractError::MarketAlreadyResolved)
    );
    // Resolution is one-way: the recorded outcome is untouched.
    let market = state.get_market(market_id).unwrap();
    assert_eq!(market.status, MarketStatus::Resolved);
    assert_eq!(market.result, Some(true));
}

#[test]
fn test_resolve_market_invalid_signature_error() {
    let env = Env::default();
    let mut state = MarketContract::new();
    let admin = Address { id: 1 };
    state.set_admin(admin);

    let market_id = state
        .initialize_market(
            admin,
            String::from("Test market"),
            5000 + 86400,
            [1u8; 32],
            Address { id: 71 },
            5000,
        )
        .unwrap();

    assert_eq!(
        state.resolve_market(&env, market_id, true, &[0u8; 64]),
        Err(ContractError::InvalidSignature)
    );
    // A failed resolution changes nothing.
    let market = state.get_market(market_id).unwrap();
    assert_eq!(market.status, MarketStatus::Active);
    assert_eq!(market.result, None);
}
