use prediction_market::deposit::deposit_collateral;
use prediction_market::error::ContractError;
use prediction_market::types::{Address, Market, MarketStatus, Position};
use prediction_market::MarketContract;

fn create_test_market(market_id: u32, status: MarketStatus, result: Option<bool>) -> Market {
    Market {
        id: market_id,
        question: String::from("Will it rain tomorrow?"),
        end_time: 1000,
        oracle_pubkey: [0u8; 32],
        status,
        result,
        creator: Address { id: 40 },
        created_at: 0,
        collateral_token: Address { id: 41 },
        total_collateral: 0,
    }
}

fn state_with_active_market(market_id: u32) -> MarketContract {
    let mut state = MarketContract::new();
    state.set_market(market_id, create_test_market(market_id, MarketStatus::Active, None));
    state
}

#[test]
fn test_deposit_validates_zero_amount() {
    let mut state = state_with_active_market(1);

    assert_eq!(
        deposit_collateral(&mut state, Address { id: 2 }, 1, 0),
        Err(ContractError::InvalidQuantity)
    );
}

#[test]
fn test_deposit_validates_negative_amount() {
    let mut state = state_with_active_market(1);

    assert_eq!(
        deposit_collateral(&mut state, Address { id: 2 }, 1, -100),
        Err(ContractError::InvalidQuantity)
    );
}

#[test]
fn test_deposit_validates_market_not_found() {
    let mut state = MarketContract::new();

    assert_eq!(
        deposit_collateral(&mut state, Address { id: 2 }, 999, 1000),
        Err(ContractError::MarketNotFound)
    );
}

#[test]
fn test_deposit_validates_resolved_market() {
    let mut state = MarketContract::new();
    state.set_market(1, create_test_market(1, MarketStatus::Resolved, Some(true)));

    assert_eq!(
        deposit_collateral(&mut state, Address { id: 2 }, 1, 1000),
        Err(ContractError::MarketNotActive)
    );
}

#[test]
fn test_deposit_validates_canceled_market() {
    let mut state = MarketContract::new();
    state.set_market(1, create_test_market(1, MarketStatus::Canceled, None));

    assert_eq!(
        deposit_collateral(&mut state, Address { id: 2 }, 1, 1000),
        Err(ContractError::MarketNotActive)
    );
    // A rejected deposit changes nothing.
    assert_eq!(state.get_market(1).unwrap().total_collateral, 0);
    assert!(!state.has_position(1, Address { id: 2 }));
}

#[test]
fn test_deposit_validates_excessive_amount() {
    let mut state = state_with_active_market(1);

    // One unit above the deposit cap.
    assert_eq!(
        deposit_collateral(&mut state, Address { id: 2 }, 1, 1_000_000_000_000_000_001),
        Err(ContractError::InvalidQuantity)
    );
}

#[test]
fn test_deposit_increments_position_and_market_totals() {
    // Depositing 100 units into an Active market with no prior
    // position locks exactly 100 and raises the market total to 100.
    let mut state = state_with_active_market(1);
    let user = Address { id: 2 };

    assert_eq!(deposit_collateral(&mut state, user, 1, 100), Ok(100));
    let position = state.get_position(1, user).unwrap();
    assert_eq!(position.locked_collateral, 100);
    assert_eq!(state.get_market(1).unwrap().total_collateral, 100);

    // A second deposit adds exactly the amount on top.
    assert_eq!(deposit_collateral(&mut state, user, 1, 40), Ok(140));
    assert_eq!(state.get_position(1, user).unwrap().locked_collateral, 140);
    assert_eq!(state.get_market(1).unwrap().total_collateral, 140);
}

#[test]
fn test_deposit_overflow_detected() {
    let mut state = state_with_active_market(1);
    let user = Address { id: 2 };
    state.set_position(
        1,
        user,
        &Position {
            market_id: 1,
            user,
            yes_shares: 0,
            no_shares: 0,
            locked_collateral: i128::MAX - 50,
            is_settled: false,
        },
    );

    assert_eq!(
        deposit_collateral(&mut state, user, 1, 100),
        Err(ContractError::ArithmeticOverflow)
    );
    // The failed deposit leaves both totals untouched.
    assert_eq!(
        state.get_position(1, user).unwrap().locked_collateral,
        i128::MAX - 50
    );
    assert_eq!(state.get_market(1).unwrap().total_collateral, 0);
}

#[test]
fn test_deposit_totals_cover_all_positions() {
    // The market total matches the sum of locked collateral over all
    // of its positions after any run of deposits.
    let mut state = state_with_active_market(1);
    let alice = Address { id: 2 };
    let bob = Address { id: 3 };

    assert_eq!(deposit_collateral(&mut state, alice, 1, 100), Ok(100));
    assert_eq!(deposit_collateral(&mut state, bob, 1, 50), Ok(50));
    assert_eq!(deposit_collateral(&mut state, alice, 1, 25), Ok(125));

    let locked_alice = state.get_position(1, alice).unwrap().locked_collateral;
    let locked_bob = state.get_position(1, bob).unwrap().locked_collateral;
    assert_eq!(locked_alice, 125);
    assert_eq!(locked_bob, 50);
    assert_eq!(
        state.get_market(1).unwrap().total_collateral,
        locked_alice + locked_bob
    );
}

#[test]
fn test_deposit_does_not_touch_other_markets() {
    let mut state = state_with_active_market(1);
    state.set_market(2, create_test_market(2, MarketStatus::Active, None));
    let user = Address { id: 2 };

    assert_eq!(deposit_collateral(&mut state, user, 1, 70), Ok(70));
    assert_eq!(state.get_market(2).unwrap().total_collateral, 0);
    assert!(!state.has_position(2, user));
}
