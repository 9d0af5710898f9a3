use position_management::tiers::{LeverageTier, LeverageTierTable};
use position_management::{
    AppState, ErrorCode, Position, PositionSide, PositionStatus, UserAccount,
};

fn init(state: &mut AppState, owner: &str, now: i64) -> UserAccount {
    state.initialize_user(owner.to_string(), now)
}

fn open(
    state: &mut AppState,
    id: &str,
    owner: &str,
    side: PositionSide,
    size: u64,
    leverage: u16,
    price: u64,
    now: i64,
) -> Result<(Position, LeverageTier), ErrorCode> {
    state.open_position(
        id.to_string(),
        owner.to_string(),
        "BTC-PERP".to_string(),
        side,
        size,
        leverage,
        price,
        now,
    )
}

fn modify(state: &mut AppState, id: &str, size_delta: i64, margin_delta: i64) -> Result<Position, ErrorCode> {
    state.modify_position(&id.to_string(), size_delta, margin_delta)
}

fn close(state: &mut AppState, id: &str, exit_price: u64, now: i64) -> Result<Position, ErrorCode> {
    state.close_position(&id.to_string(), exit_price, now)
}

fn liquidate(state: &mut AppState, id: &str, now: i64) -> Result<Position, ErrorCode> {
    state.liquidate_position(&id.to_string(), now)
}

fn account(state: &AppState, owner: &str) -> UserAccount {
    state.get_account(&owner.to_string()).expect("the account exists")
}

fn position(state: &AppState, id: &str) -> Position {
    state.get_position(&id.to_string()).expect("the position exists")
}

/// A picture of everything the state holds, to compare before and after.
fn snapshot(state: &AppState) -> String {
    let mut text = String::new();
    for i in 0..state.user_count() {
        text.push_str(&format!("{:?}\n", state.user_at(i).unwrap()));
    }
    for i in 0..state.position_count() {
        text.push_str(&format!("{:?}\n", state.position_at(i).unwrap()));
    }
    text
}

/// For every account: the locked collateral is the sum of the margins of the
/// owner's open positions, and the count is their number.
fn assert_balanced(state: &AppState) {
    for j in 0..state.user_count() {
        let user = state.user_at(j).unwrap();
        let mut locked: u128 = 0;
        let mut count: u64 = 0;
        for i in 0..state.position_count() {
            let p = state.position_at(i).unwrap();
            if p.owner == user.owner && p.status == PositionStatus::Open {
                locked += p.margin as u128;
                count += 1;
            }
        }
        assert_eq!(user.locked_collateral as u128, locked, "locked collateral of {}", user.owner);
        assert_eq!(user.position_count as u64, count, "position count of {}", user.owner);
    }
}

#[test]
fn new_state_is_empty() {
    let state = AppState::new();
    assert_eq!(state.user_count(), 0);
    assert_eq!(state.position_count(), 0);
    assert_eq!(state.tiers().len(), 5);
    assert_eq!(state.find_user(&"alice".to_string()), None);
    assert_eq!(state.find_position(&"p".to_string()), None);
}

#[test]
fn initialize_user_creates_an_empty_account() {
    let mut state = AppState::new();
    let created = init(&mut state, "alice", 100);
    assert_eq!(created.owner, "alice");
    assert_eq!(created.total_collateral, 0);
    assert_eq!(created.locked_collateral, 0);
    assert_eq!(created.position_count, 0);
    assert_eq!(created.total_pnl, 0);
    assert_eq!(created.created_at, 100);
    assert_eq!(created.last_activity, 100);
    assert_eq!(state.user_count(), 1);
    assert_eq!(state.find_user(&"alice".to_string()), Some(0));
}

#[test]
fn initialize_user_twice_keeps_the_first_account() {
    let mut state = AppState::new();
    init(&mut state, "alice", 100);
    open(&mut state, "first", "alice", PositionSide::Long, 10, 50, 50_000, 150).unwrap();
    let before = snapshot(&state);
    let again = init(&mut state, "alice", 200);
    assert_eq!(again.created_at, 100);
    assert_eq!(again.locked_collateral, 10_000);
    assert_eq!(again.position_count, 1);
    assert_eq!(state.user_count(), 1);
    assert_eq!(snapshot(&state), before);
    assert_balanced(&state);
}

#[test]
fn accounts_keep_their_order() {
    let mut state = AppState::new();
    init(&mut state, "alice", 1);
    init(&mut state, "bob", 2);
    init(&mut state, "carol", 3);
    assert_eq!(state.find_user(&"alice".to_string()), Some(0));
    assert_eq!(state.find_user(&"bob".to_string()), Some(1));
    assert_eq!(state.find_user(&"carol".to_string()), Some(2));
    assert_eq!(state.find_user(&"dave".to_string()), None);
    assert_eq!(state.user_at(1).unwrap().owner, "bob");
    assert!(state.user_at(3).is_none());
    assert!(state.position_at(0).is_none());
}

#[test]
fn open_position_stores_the_position_and_locks_the_margin() {
    let mut state = AppState::new();
    init(&mut state, "alice", 100);
    let (p, tier) = open(&mut state, "first", "alice", PositionSide::Long, 10, 50, 50_000, 150).unwrap();
    assert_eq!(p.id, "first");
    assert_eq!(p.owner, "alice");
    assert_eq!(p.symbol, "BTC-PERP");
    assert_eq!(p.status, PositionStatus::Open);
    assert_eq!(p.margin, 10_000);
    assert_eq!(p.liquidation_price, 49_500);
    assert_eq!(p.opened_at, 150);
    assert_eq!(p.closed_at, 0);
    assert_eq!(tier.max_leverage, 50);
    assert_eq!(tier.maintenance_margin_rate, 100);
    let stored = position(&state, "first");
    assert_eq!(format!("{:?}", stored), format!("{:?}", p));
    let a = account(&state, "alice");
    assert_eq!(a.locked_collateral, 10_000);
    assert_eq!(a.position_count, 1);
    assert_eq!(a.last_activity, 150);
    assert_eq!(a.created_at, 100);
    assert_eq!(a.total_pnl, 0);
    assert_balanced(&state);
}

#[test]
fn open_position_uses_the_rate_of_the_resolved_tier() {
    let mut state = AppState::new();
    init(&mut state, "alice", 0);
    // 20x resolves to the first tier: maintenance 2.5%
    let (p, tier) = open(&mut state, "a", "alice", PositionSide::Long, 1, 20, 40_000, 1).unwrap();
    assert_eq!(tier.maintenance_margin_rate, 250);
    assert_eq!(p.liquidation_price, 39_000);
    assert_eq!(p.margin, 2_000);
    // 100x resolves to the third tier: maintenance 0.5%
    let (q, tier) = open(&mut state, "b", "alice", PositionSide::Short, 1, 100, 40_000, 2).unwrap();
    assert_eq!(tier.maintenance_margin_rate, 50);
    // 40_000 * (1 + 0.01 - 0.005)
    assert_eq!(q.liquidation_price, 40_200);
    assert_eq!(q.margin, 400);
    assert_balanced(&state);
}

#[test]
fn open_position_refuses_bad_requests_in_order() {
    let mut state = AppState::new();
    init(&mut state, "alice", 0);
    open(&mut state, "taken", "alice", PositionSide::Long, 1, 10, 100, 1).unwrap();
    let before = snapshot(&state);
    let mut attempt = |id: &str, owner: &str, size: u64, leverage: u16, price: u64| {
        open(&mut state, id, owner, PositionSide::Long, size, leverage, price, 5).map(|_| ()).err()
    };
    assert_eq!(attempt("taken", "nobody", 0, 0, 0), Some(ErrorCode::UserNotFound));
    assert_eq!(attempt("x", "nobody", 1, 10, 1), Some(ErrorCode::UserNotFound));
    assert_eq!(attempt("taken", "alice", 0, 0, 0), Some(ErrorCode::PositionIdTaken));
    assert_eq!(attempt("taken", "alice", 1, 10, 1), Some(ErrorCode::PositionIdTaken));
    assert_eq!(attempt("x", "alice", 0, 0, 0), Some(ErrorCode::InvalidPositionSize));
    assert_eq!(attempt("x", "alice", 1, 0, 0), Some(ErrorCode::InvalidPrice));
    assert_eq!(attempt("x", "alice", 1, 0, 1), Some(ErrorCode::InvalidLeverage));
    assert_eq!(attempt("x", "alice", 1, 1001, 1), Some(ErrorCode::TierExceeded));
    assert_eq!(attempt("x", "alice", 5_001, 1000, 1), Some(ErrorCode::TierExceeded));
    assert_eq!(
        attempt("x", "alice", u64::MAX, 1, u64::MAX),
        Some(ErrorCode::CalculationOverflow)
    );
    assert_eq!(snapshot(&state), before);
    assert_balanced(&state);
}

#[test]
fn open_position_refuses_a_lock_beyond_64_bits() {
    let mut state = AppState::new();
    init(&mut state, "alice", 0);
    // margin = u64::MAX / 2 each, at leverage 2
    let half = u64::MAX / 2;
    open(&mut state, "a", "alice", PositionSide::Long, 1, 2, u64::MAX - 1, 1).unwrap();
    open(&mut state, "b", "alice", PositionSide::Long, 1, 2, u64::MAX - 1, 2).unwrap();
    assert_eq!(account(&state, "alice").locked_collateral, 2 * half);
    let before = snapshot(&state);
    let third = open(&mut state, "c", "alice", PositionSide::Long, 1, 2, u64::MAX - 1, 3);
    assert_eq!(third.err(), Some(ErrorCode::CalculationOverflow));
    assert_eq!(snapshot(&state), before);
    assert_balanced(&state);
}

#[test]
fn modify_position_moves_size_margin_and_lock() {
    let mut state = AppState::new();
    init(&mut state, "alice", 0);
    open(&mut state, "first", "alice", PositionSide::Long, 10, 50, 50_000, 1).unwrap();
    let p = modify(&mut state, "first", 5, 2_500).unwrap();
    assert_eq!(p.size, 15);
    assert_eq!(p.margin, 12_500);
    assert_eq!(p.status, PositionStatus::Open);
    assert_eq!(account(&state, "alice").locked_collateral, 12_500);
    assert_eq!(account(&state, "alice").position_count, 1);
    let p = modify(&mut state, "first", -14, -12_500).unwrap();
    assert_eq!(p.size, 1);
    assert_eq!(p.margin, 0);
    assert_eq!(account(&state, "alice").locked_collateral, 0);
    assert_eq!(position(&state, "first").size, 1);
    assert_eq!(account(&state, "alice").last_activity, 1);
    assert_balanced(&state);
}

#[test]
fn modify_position_cannot_reduce_margin_below_zero() {
    let mut state = AppState::new();
    init(&mut state, "alice", 0);
    init(&mut state, "bob", 0);
    open(&mut state, "first", "alice", PositionSide::Long, 10, 50, 50_000, 1).unwrap();
    open(&mut state, "second", "alice", PositionSide::Long, 10, 50, 50_000, 2).unwrap();
    open(&mut state, "third", "bob", PositionSide::Short, 10, 50, 50_000, 3).unwrap();
    let before = snapshot(&state);
    // The account holds 20_000 locked, the position only 10_000.
    assert_eq!(modify(&mut state, "first", 0, -10_001).err(), Some(ErrorCode::CannotReduceMargin));
    assert_eq!(modify(&mut state, "first", 7, -20_000).err(), Some(ErrorCode::CannotReduceMargin));
    assert_eq!(modify(&mut state, "first", -10, -10_001).err(), Some(ErrorCode::CannotReduceMargin));
    assert_eq!(modify(&mut state, "first", 0, i64::MIN).err(), Some(ErrorCode::CannotReduceMargin));
    assert_eq!(snapshot(&state), before);
    assert_balanced(&state);
}

#[test]
fn modify_position_refuses_bad_sizes_and_unknown_ids() {
    let mut state = AppState::new();
    init(&mut state, "alice", 0);
    open(&mut state, "first", "alice", PositionSide::Long, 10, 50, 50_000, 1).unwrap();
    let before = snapshot(&state);
    assert_eq!(modify(&mut state, "nope", 1, 1).err(), Some(ErrorCode::PositionNotFound));
    assert_eq!(modify(&mut state, "first", -11, 0).err(), Some(ErrorCode::CalculationUnderflow));
    assert_eq!(modify(&mut state, "first", -10, 0).err(), Some(ErrorCode::InvalidPositionSize));
    assert_eq!(snapshot(&state), before);
}

#[test]
fn modify_position_refuses_a_lock_beyond_64_bits() {
    let mut state = AppState::new();
    init(&mut state, "alice", 0);
    open(&mut state, "a", "alice", PositionSide::Long, 1, 2, u64::MAX - 1, 1).unwrap();
    open(&mut state, "b", "alice", PositionSide::Long, 1, 2, u64::MAX - 1, 2).unwrap();
    let before = snapshot(&state);
    // The position's own margin would still fit, the account's lock would not.
    assert_eq!(modify(&mut state, "a", 0, 2).err(), Some(ErrorCode::CalculationOverflow));
    assert_eq!(snapshot(&state), before);
    assert_eq!(modify(&mut state, "a", 0, 1).map(|p| p.margin), Ok(u64::MAX / 2 + 1));
    assert_eq!(account(&state, "alice").locked_collateral, u64::MAX);
    assert_balanced(&state);
}

#[test]
fn close_position_settles_and_releases() {
    let mut state = AppState::new();
    init(&mut state, "alice", 0);
    open(&mut state, "first", "alice", PositionSide::Long, 10, 50, 50_000, 1).unwrap();
    open(&mut state, "second", "alice", PositionSide::Short, 4, 20, 2_000, 2).unwrap();
    assert_eq!(account(&state, "alice").locked_collateral, 10_400);
    let p = close(&mut state, "first", 51_000, 9).unwrap();
    assert_eq!(p.status, PositionStatus::Closed);
    assert_eq!(p.realized_pnl, 10_000);
    assert_eq!(p.unrealized_pnl, 0);
    assert_eq!(p.closed_at, 9);
    assert_eq!(p.margin, 10_000);
    let a = account(&state, "alice");
    assert_eq!(a.locked_collateral, 400);
    assert_eq!(a.total_pnl, 10_000);
    assert_eq!(a.position_count, 1);
    assert_eq!(a.last_activity, 9);
    let q = close(&mut state, "second", 2_500, 10).unwrap();
    assert_eq!(q.realized_pnl, -2_000);
    let a = account(&state, "alice");
    assert_eq!(a.locked_collateral, 0);
    assert_eq!(a.total_pnl, 8_000);
    assert_eq!(a.position_count, 0);
    assert_eq!(state.position_count(), 2);
    assert_balanced(&state);
}

#[test]
fn open_then_close_at_the_same_price_is_a_round_trip() {
    let mut state = AppState::new();
    init(&mut state, "alice", 0);
    open(&mut state, "old", "alice", PositionSide::Short, 3, 10, 700, 1).unwrap();
    let before = account(&state, "alice");
    let (p, _) = open(&mut state, "first", "alice", PositionSide::Long, 10, 50, 50_000, 2).unwrap();
    assert_eq!(account(&state, "alice").locked_collateral, before.locked_collateral + p.margin);
    let closed = close(&mut state, "first", 50_000, 3).unwrap();
    assert_eq!(closed.realized_pnl, 0);
    assert_eq!(closed.status, PositionStatus::Closed);
    let after = account(&state, "alice");
    assert_eq!(after.locked_collateral, before.locked_collateral);
    assert_eq!(after.position_count, before.position_count);
    assert_eq!(after.total_pnl, before.total_pnl);
    assert_balanced(&state);
}

#[test]
fn close_position_refuses_in_order() {
    let mut state = AppState::new();
    init(&mut state, "alice", 0);
    open(&mut state, "first", "alice", PositionSide::Long, 10, 50, 50_000, 1).unwrap();
    let before = snapshot(&state);
    assert_eq!(close(&mut state, "nope", 1, 2).err(), Some(ErrorCode::PositionNotFound));
    assert_eq!(close(&mut state, "nope", 0, 2).err(), Some(ErrorCode::PositionNotFound));
    assert_eq!(close(&mut state, "first", 0, 2).err(), Some(ErrorCode::InvalidPrice));
    assert_eq!(snapshot(&state), before);
}

#[test]
fn close_position_refuses_a_total_beyond_the_range() {
    let mut state = AppState::new();
    init(&mut state, "alice", 0);
    let big = 1u64 << 62;
    open(&mut state, "a", "alice", PositionSide::Long, 1, 1, 1, 1).unwrap();
    open(&mut state, "b", "alice", PositionSide::Long, 1, 1, 1, 2).unwrap();
    open(&mut state, "c", "alice", PositionSide::Long, 1, 1, 1, 3).unwrap();
    assert_eq!(close(&mut state, "a", big + 1, 4).map(|p| p.realized_pnl), Ok(1 << 62));
    let before = snapshot(&state);
    // a second profit of 2^62 would carry the total to 2^63
    assert_eq!(close(&mut state, "b", big + 1, 5).err(), Some(ErrorCode::CalculationOverflow));
    assert_eq!(snapshot(&state), before);
    // one unit less fits
    assert_eq!(close(&mut state, "b", big, 6).map(|p| p.realized_pnl), Ok((1 << 62) - 1));
    assert_eq!(account(&state, "alice").total_pnl, i64::MAX);
    // a profit that is itself beyond the range
    assert_eq!(close(&mut state, "c", u64::MAX, 7).err(), Some(ErrorCode::CalculationOverflow));
    assert_balanced(&state);
}

#[test]
fn liquidate_position_settles_at_the_liquidation_price() {
    let mut state = AppState::new();
    init(&mut state, "alice", 0);
    open(&mut state, "first", "alice", PositionSide::Long, 10, 50, 50_000, 1).unwrap();
    let p = liquidate(&mut state, "first", 8).unwrap();
    assert_eq!(p.status, PositionStatus::Liquidated);
    assert_eq!(p.realized_pnl, -5_000);
    assert_eq!(p.closed_at, 8);
    let a = account(&state, "alice");
    assert_eq!(a.locked_collateral, 0);
    assert_eq!(a.position_count, 0);
    assert_eq!(a.total_pnl, -5_000);
    assert_eq!(a.last_activity, 1);
    assert_eq!(liquidate(&mut state, "nope", 9).err(), Some(ErrorCode::PositionNotFound));
    assert_balanced(&state);
}

#[test]
fn second_close_or_liquidation_is_refused_without_change() {
    let mut state = AppState::new();
    init(&mut state, "alice", 0);
    open(&mut state, "first", "alice", PositionSide::Long, 10, 50, 50_000, 1).unwrap();
    open(&mut state, "second", "alice", PositionSide::Long, 10, 50, 50_000, 2).unwrap();
    close(&mut state, "first", 50_500, 3).unwrap();
    let before = snapshot(&state);
    assert_eq!(close(&mut state, "first", 50_500, 4).err(), Some(ErrorCode::PositionAlreadyClosed));
    assert_eq!(close(&mut state, "first", 0, 4).err(), Some(ErrorCode::PositionAlreadyClosed));
    assert_eq!(liquidate(&mut state, "first", 4).err(), Some(ErrorCode::PositionAlreadyClosed));
    assert_eq!(modify(&mut state, "first", 1, 1).err(), Some(ErrorCode::PositionAlreadyClosed));
    assert_eq!(snapshot(&state), before);

    liquidate(&mut state, "second", 5).unwrap();
    let before = snapshot(&state);
    assert_eq!(liquidate(&mut state, "second", 6).err(), Some(ErrorCode::PositionAlreadyClosed));
    assert_eq!(close(&mut state, "second", 50_500, 6).err(), Some(ErrorCode::PositionAlreadyClosed));
    assert_eq!(modify(&mut state, "second", 0, -1).err(), Some(ErrorCode::PositionAlreadyClosed));
    assert_eq!(snapshot(&state), before);
    assert_balanced(&state);
}

#[test]
fn an_id_stays_taken_after_the_position_is_closed() {
    let mut state = AppState::new();
    init(&mut state, "alice", 0);
    open(&mut state, "first", "alice", PositionSide::Long, 1, 10, 100, 1).unwrap();
    close(&mut state, "first", 100, 2).unwrap();
    let again = open(&mut state, "first", "alice", PositionSide::Long, 1, 10, 100, 3);
    assert_eq!(again.err(), Some(ErrorCode::PositionIdTaken));
    assert_eq!(state.position_count(), 1);
}

#[test]
fn books_balance_after_a_long_mixed_sequence() {
    let owners = ["alice", "bob", "carol", "dave"];
    let mut state = AppState::new();
    for (i, owner) in owners.iter().enumerate() {
        init(&mut state, owner, i as i64);
    }
    // A fixed pseudo-random walk over the operations.
    let mut seed: u64 = 0x2545_F491_4F6C_DD1D;
    let mut next = move || {
        seed ^= seed << 13;
        seed ^= seed >> 7;
        seed ^= seed << 17;
        seed
    };
    let mut opened: Vec<String> = Vec::new();
    let mut results = [0u32; 2];
    for step in 0..600 {
        let now = 1_000 + step as i64;
        let choice = next() % 10;
        let outcome = if choice < 4 || opened.is_empty() {
            let owner = owners[(next() % 5) as usize % owners.len()];
            let owner = if next() % 17 == 0 { "stranger" } else { owner };
            let side = if next() % 2 == 0 { PositionSide::Long } else { PositionSide::Short };
            let size = next() % 6_000;
            let leverage = [1u16, 5, 20, 50, 100, 500, 1000, 1001, 0][(next() % 9) as usize];
            let price = next() % 100_000;
            let id = format!("pos-{}", step);
            let r = open(&mut state, &id, owner, side, size, leverage, price, now);
            if r.is_ok() {
                opened.push(id);
            }
            r.map(|_| ())
        } else {
            let id = opened[(next() % opened.len() as u64) as usize].clone();
            match choice {
                4 | 5 => {
                    let size_delta = (next() % 21) as i64 - 10;
                    let margin_delta = (next() % 4_001) as i64 - 2_000;
                    modify(&mut state, &id, size_delta, margin_delta).map(|_| ())
                }
                6 | 7 | 8 => close(&mut state, &id, next() % 100_000, now).map(|_| ()),
                _ => liquidate(&mut state, &id, now).map(|_| ()),
            }
        };
        results[outcome.is_ok() as usize] += 1;
        assert_balanced(&state);
    }
    // The walk exercised both outcomes.
    assert!(results[0] > 50, "refused: {}", results[0]);
    assert!(results[1] > 50, "accepted: {}", results[1]);
    assert_eq!(state.user_count(), 4);
    assert_eq!(state.position_count(), opened.len());
}

#[test]
fn state_over_a_custom_table() {
    let table = LeverageTierTable::new(vec![LeverageTier {
        max_leverage: 3,
        initial_margin_rate: 5_000,
        maintenance_margin_rate: 1_000,
        max_position_size: 100,
    }])
    .unwrap();
    let mut state = AppState::with_tiers(table);
    init(&mut state, "alice", 0);
    assert_eq!(
        open(&mut state, "a", "alice", PositionSide::Long, 1, 4, 100, 1).err(),
        Some(ErrorCode::TierExceeded)
    );
    assert_eq!(
        open(&mut state, "a", "alice", PositionSide::Long, 101, 3, 100, 1).err(),
        Some(ErrorCode::TierExceeded)
    );
    let (p, tier) = open(&mut state, "a", "alice", PositionSide::Long, 100, 2, 100, 1).unwrap();
    assert_eq!(tier.max_leverage, 3);
    assert_eq!(p.margin, 5_000);
    // 100 * (1 - 1/2 + 0.1)
    assert_eq!(p.liquidation_price, 60);
    assert_balanced(&state);
}
