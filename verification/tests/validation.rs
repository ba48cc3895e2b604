use prediction_market::error::ContractError;
use prediction_market::validation::{
    validate_collateral_amount, validate_market_creation, validate_outcome, validate_shares,
};

#[test]
fn test_valid_market_creation() {
    let question = String::from("Will it rain tomorrow?");
    let current_time = 1000;
    let end_time = current_time + 86400; // 1 day later

    assert!(validate_market_creation(&question, end_time, current_time).is_ok());
}

#[test]
fn test_empty_question_fails() {
    let question = String::from("");
    let current_time = 1000;
    let end_time = current_time + 86400;

    assert_eq!(
        validate_market_creation(&question, end_time, current_time),
        Err(ContractError::InvalidQuestion)
    );
}

#[test]
fn test_long_question_fails() {
    let long_str = "a".repeat(500);
    let question = String::from(&long_str);
    let current_time = 1000;
    let end_time = current_time + 86400;

    assert_eq!(
        validate_market_creation(&question, end_time, current_time),
        Err(ContractError::InvalidQuestion)
    );
}

#[test]
fn test_past_end_time_fails() {
    let question = String::from("Valid question?");
    let current_time = 1000;
    let end_time = current_time - 1; // In the past

    assert_eq!(
        validate_market_creation(&question, end_time, current_time),
        Err(ContractError::InvalidTimestamp)
    );
}

#[test]
fn test_far_future_end_time_fails() {
    let question = String::from("Valid question?");
    let current_time = 1000;
    let end_time = current_time + 31_536_001; // More than 1 year

    assert_eq!(
        validate_market_creation(&question, end_time, current_time),
        Err(ContractError::InvalidTimestamp)
    );
}

#[test]
fn test_end_time_equal_to_current_time_fails() {
    let question = String::from("Valid question?");

    assert_eq!(
        validate_market_creation(&question, 1000, 1000),
        Err(ContractError::InvalidTimestamp)
    );
}

#[test]
fn test_valid_collateral_amount() {
    assert!(validate_collateral_amount(100).is_ok());
    assert!(validate_collateral_amount(1).is_ok());
}

#[test]
fn test_zero_collateral_fails() {
    assert_eq!(
        validate_collateral_amount(0),
        Err(ContractError::InvalidQuantity)
    );
}

#[test]
fn test_negative_collateral_fails() {
    assert_eq!(
        validate_collateral_amount(-1),
        Err(ContractError::InvalidQuantity)
    );
}

#[test]
fn test_excessive_collateral_fails() {
    let excessive_amount = i128::MAX;
    assert_eq!(
        validate_collateral_amount(excessive_amount),
        Err(ContractError::InvalidQuantity)
    );
}

#[test]
fn test_valid_shares() {
    assert!(validate_shares(100, 0).is_ok());
    assert!(validate_shares(0, 100).is_ok());
    assert!(validate_shares(50, 50).is_ok());
}

#[test]
fn test_both_zero_shares_fails() {
    assert_eq!(
        validate_shares(0, 0),
        Err(ContractError::InvalidShareAmount)
    );
}

#[test]
fn test_negative_shares_fail() {
    assert_eq!(
        validate_shares(-1, 100),
        Err(ContractError::InvalidShareAmount)
    );
    assert_eq!(
        validate_shares(100, -1),
        Err(ContractError::InvalidShareAmount)
    );
}

#[test]
fn test_valid_outcome() {
    assert!(validate_outcome(true).is_ok());
    assert!(validate_outcome(false).is_ok());
}
