use position_management::instructions::{
    close_position, initialize_user, liquidate_position, modify_position, open_position,
};
use position_management::tiers::LeverageTierTable;
use position_management::{
    ClosePosition, ErrorCode, InitializeUser, LiquidatePosition, ModifyPosition, OpenPosition,
    Position, PositionSide, PositionStatus, UserAccount,
};

fn account_of(owner: &str) -> UserAccount {
    initialize_user::handler(&InitializeUser { owner: owner.to_string() }, 100)
}

/// Opens a long position of 10 units at 50_000 and 50x for `owner`.
fn opened(owner: &str) -> (UserAccount, Position) {
    let mut ctx = OpenPosition { owner: owner.to_string(), user_account: account_of(owner) };
    let (position, _) = open_position::handler(
        &mut ctx,
        &LeverageTierTable::standard(),
        "position".to_string(),
        "BTC-PERP".to_string(),
        PositionSide::Long,
        10,
        50,
        50_000,
        200,
    )
    .expect("the position opens");
    (ctx.user_account, position)
}

fn picture<T: std::fmt::Debug>(value: &T) -> String {
    format!("{:?}", value)
}

#[test]
fn initialize_user_handler_creates_a_fresh_account() {
    let account = initialize_user::handler(&InitializeUser { owner: "alice".to_string() }, 7);
    assert_eq!(account.owner, "alice");
    assert_eq!(account.total_collateral, 0);
    assert_eq!(account.locked_collateral, 0);
    assert_eq!(account.position_count, 0);
    assert_eq!(account.total_pnl, 0);
    assert_eq!(account.created_at, 7);
    assert_eq!(account.last_activity, 7);
}

#[test]
fn open_handler_creates_the_position_and_books_it() {
    let mut ctx = OpenPosition { owner: "alice".to_string(), user_account: account_of("alice") };
    let (position, tier) = open_position::handler(
        &mut ctx,
        &LeverageTierTable::standard(),
        "id-7".to_string(),
        "ETH-PERP".to_string(),
        PositionSide::Short,
        4,
        20,
        2_000,
        200,
    )
    .unwrap();
    assert_eq!(tier.max_leverage, 20);
    assert_eq!(position.id, "id-7");
    assert_eq!(position.owner, "alice");
    assert_eq!(position.symbol, "ETH-PERP");
    assert_eq!(position.side, PositionSide::Short);
    assert_eq!(position.status, PositionStatus::Open);
    assert_eq!(position.margin, 400);
    assert_eq!(position.liquidation_price, 2_050);
    assert_eq!(position.opened_at, 200);
    assert_eq!(ctx.owner, "alice");
    assert_eq!(ctx.user_account.locked_collateral, 400);
    assert_eq!(ctx.user_account.position_count, 1);
    assert_eq!(ctx.user_account.last_activity, 200);
    assert_eq!(ctx.user_account.created_at, 100);
}

#[test]
fn open_handler_refuses_in_order_and_changes_nothing() {
    let table = LeverageTierTable::standard();
    let attempt = |owner: &str, account: &str, size: u64, leverage: u16, price: u64| {
        let mut ctx = OpenPosition { owner: owner.to_string(), user_account: account_of(account) };
        let before = picture(&ctx);
        let result = open_position::handler(
            &mut ctx,
            &table,
            "id".to_string(),
            "BTC-PERP".to_string(),
            PositionSide::Long,
            size,
            leverage,
            price,
            5,
        );
        assert_eq!(picture(&ctx), before);
        result.map(|_| ()).err()
    };
    assert_eq!(attempt("alice", "bob", 0, 0, 0), Some(ErrorCode::Unauthorized));
    assert_eq!(attempt("alice", "bob", 1, 10, 1), Some(ErrorCode::Unauthorized));
    assert_eq!(attempt("alice", "alice", 0, 0, 0), Some(ErrorCode::InvalidPositionSize));
    assert_eq!(attempt("alice", "alice", 1, 0, 0), Some(ErrorCode::InvalidPrice));
    assert_eq!(attempt("alice", "alice", 1, 0, 1), Some(ErrorCode::InvalidLeverage));
    assert_eq!(attempt("alice", "alice", 1, 1001, 1), Some(ErrorCode::TierExceeded));
    assert_eq!(attempt("alice", "alice", 100_001, 50, 1), Some(ErrorCode::TierExceeded));
    assert_eq!(
        attempt("alice", "alice", u64::MAX, 1, u64::MAX),
        Some(ErrorCode::CalculationOverflow)
    );
}

#[test]
fn open_handler_books_nothing_when_the_account_cannot_take_it() {
    let mut account = account_of("alice");
    account.position_count = u32::MAX;
    let mut ctx = OpenPosition { owner: "alice".to_string(), user_account: account };
    let before = picture(&ctx);
    let result = open_position::handler(
        &mut ctx,
        &LeverageTierTable::standard(),
        "id".to_string(),
        "BTC-PERP".to_string(),
        PositionSide::Long,
        10,
        50,
        50_000,
        5,
    );
    assert_eq!(result.err(), Some(ErrorCode::CalculationOverflow));
    assert_eq!(picture(&ctx), before);
}

#[test]
fn modify_handler_moves_position_and_lock_together() {
    let (account, position) = opened("alice");
    let mut ctx = ModifyPosition { owner: "alice".to_string(), user_account: account, position };
    assert_eq!(modify_position::handler(&mut ctx, 5, 2_500), Ok(()));
    assert_eq!(ctx.position.size, 15);
    assert_eq!(ctx.position.margin, 12_500);
    assert_eq!(ctx.user_account.locked_collateral, 12_500);
    assert_eq!(ctx.user_account.position_count, 1);
    assert_eq!(modify_position::handler(&mut ctx, -5, -12_500), Ok(()));
    assert_eq!(ctx.position.size, 10);
    assert_eq!(ctx.position.margin, 0);
    assert_eq!(ctx.user_account.locked_collateral, 0);
    assert_eq!(ctx.user_account.last_activity, 200);
}

#[test]
fn modify_handler_refuses_without_change() {
    let (account, position) = opened("alice");
    let mut ctx = ModifyPosition { owner: "alice".to_string(), user_account: account, position };
    let before = picture(&ctx);
    assert_eq!(modify_position::handler(&mut ctx, 0, -10_001), Err(ErrorCode::CannotReduceMargin));
    assert_eq!(modify_position::handler(&mut ctx, -10, 0), Err(ErrorCode::InvalidPositionSize));
    assert_eq!(modify_position::handler(&mut ctx, -11, 0), Err(ErrorCode::CalculationUnderflow));
    assert_eq!(picture(&ctx), before);
    // the position could take the margin, the account cannot
    ctx.user_account.locked_collateral = u64::MAX;
    let before = picture(&ctx);
    assert_eq!(modify_position::handler(&mut ctx, 3, 1), Err(ErrorCode::CalculationOverflow));
    assert_eq!(picture(&ctx), before);
    // the account holds less than the position gives back
    ctx.user_account.locked_collateral = 5;
    let before = picture(&ctx);
    assert_eq!(modify_position::handler(&mut ctx, 3, -6), Err(ErrorCode::CalculationUnderflow));
    assert_eq!(picture(&ctx), before);
}

#[test]
fn close_handler_settles_and_releases() {
    let (account, position) = opened("alice");
    let mut ctx = ClosePosition { owner: "alice".to_string(), user_account: account, position };
    assert_eq!(close_position::handler(&mut ctx, 50_300, 900), Ok(3_000));
    assert_eq!(ctx.position.status, PositionStatus::Closed);
    assert_eq!(ctx.position.realized_pnl, 3_000);
    assert_eq!(ctx.position.closed_at, 900);
    assert_eq!(ctx.user_account.locked_collateral, 0);
    assert_eq!(ctx.user_account.position_count, 0);
    assert_eq!(ctx.user_account.total_pnl, 3_000);
    assert_eq!(ctx.user_account.last_activity, 900);
    let before = picture(&ctx);
    assert_eq!(close_position::handler(&mut ctx, 50_300, 901), Err(ErrorCode::PositionAlreadyClosed));
    assert_eq!(close_position::handler(&mut ctx, 0, 901), Err(ErrorCode::PositionAlreadyClosed));
    assert_eq!(picture(&ctx), before);
}

#[test]
fn close_handler_round_trip_restores_the_account() {
    let before = account_of("alice");
    let (account, position) = opened("alice");
    assert_eq!(account.locked_collateral, before.locked_collateral + position.margin);
    let mut ctx = ClosePosition { owner: "alice".to_string(), user_account: account, position };
    assert_eq!(close_position::handler(&mut ctx, 50_000, 900), Ok(0));
    assert_eq!(ctx.user_account.locked_collateral, before.locked_collateral);
    assert_eq!(ctx.user_account.position_count, before.position_count);
    assert_eq!(ctx.user_account.total_pnl, before.total_pnl);
}

#[test]
fn close_handler_leaves_the_position_when_the_account_fails() {
    let (mut account, position) = opened("alice");
    account.total_pnl = i64::MAX;
    let mut ctx = ClosePosition { owner: "alice".to_string(), user_account: account, position };
    let before = picture(&ctx);
    assert_eq!(close_position::handler(&mut ctx, 50_001, 900), Err(ErrorCode::CalculationOverflow));
    assert_eq!(picture(&ctx), before);
    assert_eq!(ctx.position.status, PositionStatus::Open);
    ctx.user_account.total_pnl = 0;
    ctx.user_account.locked_collateral = 9_999;
    let before = picture(&ctx);
    assert_eq!(close_position::handler(&mut ctx, 50_001, 900), Err(ErrorCode::CalculationUnderflow));
    assert_eq!(picture(&ctx), before);
    ctx.user_account.locked_collateral = 10_000;
    ctx.user_account.position_count = 0;
    let before = picture(&ctx);
    assert_eq!(close_position::handler(&mut ctx, 50_001, 900), Err(ErrorCode::CalculationUnderflow));
    assert_eq!(picture(&ctx), before);
    assert_eq!(close_position::handler(&mut ctx, 0, 900), Err(ErrorCode::InvalidPrice));
}

#[test]
fn strangers_are_unauthorized() {
    let (account, position) = opened("alice");
    let mut close = ClosePosition {
        owner: "mallory".to_string(),
        user_account: account.clone(),
        position: position.clone(),
    };
    let before = picture(&close);
    assert_eq!(close_position::handler(&mut close, 50_000, 1), Err(ErrorCode::Unauthorized));
    assert_eq!(picture(&close), before);

    let mut modify = ModifyPosition {
        owner: "mallory".to_string(),
        user_account: account.clone(),
        position: position.clone(),
    };
    assert_eq!(modify_position::handler(&mut modify, 1, 1), Err(ErrorCode::Unauthorized));

    // the owner on somebody else's account
    let mut close = ClosePosition {
        owner: "alice".to_string(),
        user_account: account_of("bob"),
        position: position.clone(),
    };
    assert_eq!(close_position::handler(&mut close, 50_000, 1), Err(ErrorCode::Unauthorized));
    let mut modify = ModifyPosition {
        owner: "alice".to_string(),
        user_account: account_of("bob"),
        position: position.clone(),
    };
    assert_eq!(modify_position::handler(&mut modify, 1, 1), Err(ErrorCode::Unauthorized));
    let mut liquidate = LiquidatePosition { position, user_account: account_of("bob") };
    let before = picture(&liquidate);
    assert_eq!(liquidate_position::handler(&mut liquidate, 1), Err(ErrorCode::Unauthorized));
    assert_eq!(picture(&liquidate), before);
}

#[test]
fn authorization_comes_before_the_state_of_the_position() {
    let (account, mut position) = opened("alice");
    position.close(50_000, 5).unwrap();
    let mut close =
        ClosePosition { owner: "mallory".to_string(), user_account: account, position };
    assert_eq!(close_position::handler(&mut close, 50_000, 6), Err(ErrorCode::Unauthorized));
    close.owner = "alice".to_string();
    assert_eq!(
        close_position::handler(&mut close, 50_000, 6),
        Err(ErrorCode::PositionAlreadyClosed)
    );
}

#[test]
fn liquidate_handler_settles_at_the_liquidation_price() {
    let (account, position) = opened("alice");
    let mut ctx = LiquidatePosition { position, user_account: account };
    assert_eq!(liquidate_position::handler(&mut ctx, 700), Ok(-5_000));
    assert_eq!(ctx.position.status, PositionStatus::Liquidated);
    assert_eq!(ctx.position.realized_pnl, -5_000);
    assert_eq!(ctx.position.closed_at, 700);
    assert_eq!(ctx.user_account.locked_collateral, 0);
    assert_eq!(ctx.user_account.position_count, 0);
    assert_eq!(ctx.user_account.total_pnl, -5_000);
    assert_eq!(ctx.user_account.last_activity, 200);
    let before = picture(&ctx);
    assert_eq!(liquidate_position::handler(&mut ctx, 701), Err(ErrorCode::PositionAlreadyClosed));
    assert_eq!(picture(&ctx), before);
}

#[test]
fn liquidated_positions_cannot_be_closed_or_modified() {
    let (account, position) = opened("alice");
    let mut ctx = LiquidatePosition { position, user_account: account };
    liquidate_position::handler(&mut ctx, 700).unwrap();
    let LiquidatePosition { position, user_account } = ctx;
    let mut close = ClosePosition {
        owner: "alice".to_string(),
        user_account: user_account.clone(),
        position: position.clone(),
    };
    assert_eq!(
        close_position::handler(&mut close, 50_000, 701),
        Err(ErrorCode::PositionAlreadyClosed)
    );
    let mut modify = ModifyPosition { owner: "alice".to_string(), user_account, position };
    assert_eq!(
        modify_position::handler(&mut modify, 1, 1),
        Err(ErrorCode::PositionAlreadyClosed)
    );
}
