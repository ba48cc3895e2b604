use prediction_market::types::{Address, Market, MarketStatus, Position};
use prediction_market::MarketContract;

#[test]
fn test_admin_storage() {
    let mut state = MarketContract::new();
    let admin = Address { id: 11 };

    state.set_admin(admin);
    assert_eq!(state.get_admin(), Some(admin));
}

#[test]
fn test_market_id_counter() {
    let mut state = MarketContract::new();

    assert_eq!(state.get_next_market_id(), 0);
    assert_eq!(state.increment_market_id(), 1);
    assert_eq!(state.increment_market_id(), 2);
    assert_eq!(state.get_next_market_id(), 2);
}

#[test]
fn test_market_storage() {
    let mut state = MarketContract::new();

    let market = Market {
        id: 1,
        question: String::from("Will it rain?"),
        end_time: 1000,
        oracle_pubkey: [0u8; 32],
        status: MarketStatus::Active,
        result: None,
        creator: Address { id: 50 },
        created_at: 0,
        collateral_token: Address { id: 51 },
        total_collateral: 0,
    };

    assert!(!state.has_market(1));
    state.set_market(1, market);
    assert!(state.has_market(1));

    let saved_market = state.get_market(1).unwrap();
    assert_eq!(saved_market.id, 1);
    assert_eq!(saved_market.question, "Will it rain?");
}

#[test]
fn test_position_storage() {
    let mut state = MarketContract::new();
    let user = Address { id: 52 };

    let position = Position {
        market_id: 1,
        user,
        yes_shares: 100,
        no_shares: 0,
        locked_collateral: 100,
        is_settled: false,
    };

    assert!(!state.has_position(1, user));
    state.set_position(1, user, &position);
    assert!(state.has_position(1, user));

    let saved_position = state.get_position(1, user).unwrap();
    assert_eq!(saved_position.yes_shares, 100);
    assert_eq!(saved_position.market_id, 1);
}
