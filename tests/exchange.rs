use comprehensive_token_swap::error::ErrorCode;
use comprehensive_token_swap::exchange::{
    add_liquidity, complete_flash_swap, flash_swap, initialize, multi_token_swap, simple_swap,
};
use comprehensive_token_swap::orders::{execute_limit_order, place_limit_order};
use comprehensive_token_swap::pricing::{calculate_fee, get_swap_amount, route_swap};
use comprehensive_token_swap::state::{
    LiquidityPool, Pubkey, SimpleSwapEvent, SwapState, TokenTransfer, Vault,
};

fn key(b: u8) -> Pubkey {
    Pubkey::new_from_array([b; 32])
}

fn pool(a: u64, b: u64) -> LiquidityPool {
    LiquidityPool { token_a_reserve: a, token_b_reserve: b }
}

fn running(fee_rate: u64) -> SwapState {
    initialize(fee_rate).unwrap()
}

#[test]
fn test_add_liquidity() {
    let swap = running(3);
    let mut p = pool(0, 0);
    let amount_a = 1000;
    let amount_b = 1000;
    let out = add_liquidity(&mut p, &swap, key(1), amount_a, amount_b).unwrap();
    assert_eq!(p.token_a_reserve, amount_a);
    assert_eq!(p.token_b_reserve, amount_b);
    assert_eq!(
        out.transfers,
        vec![
            TokenTransfer { from: Vault::UserTokenA, to: Vault::PoolTokenA, amount: 1000 },
            TokenTransfer { from: Vault::UserTokenB, to: Vault::PoolTokenB, amount: 1000 },
        ]
    );
    assert_eq!(out.event.amount_a, 1000);
    assert_eq!(out.event.amount_b, 1000);
}

#[test]
fn add_liquidity_rejects_zero_amount() {
    let swap = running(3);
    let mut p = pool(5, 5);
    assert_eq!(add_liquidity(&mut p, &swap, key(1), 0, 10), Err(ErrorCode::InvalidAmount));
    assert_eq!(add_liquidity(&mut p, &swap, key(1), 10, 0), Err(ErrorCode::InvalidAmount));
    assert_eq!(p, pool(5, 5));
}

#[test]
fn add_liquidity_rejects_overflow() {
    let swap = running(3);
    let mut p = pool(u64::MAX, 5);
    assert_eq!(add_liquidity(&mut p, &swap, key(1), 1, 1), Err(ErrorCode::ArithmeticOverflow));
    assert_eq!(p, pool(u64::MAX, 5));
}

#[test]
fn add_liquidity_accepts_any_ratio() {
    let swap = running(3);
    let mut p = pool(10, 10);
    assert!(add_liquidity(&mut p, &swap, key(1), 1, 1_000_000).is_ok());
    assert_eq!(p, pool(11, 1_000_010));
}

#[test]
fn initialize_sets_rate_and_unpauses() {
    assert_eq!(initialize(3), Ok(SwapState { fee_rate: 3, paused: false }));
    assert_eq!(initialize(1000), Ok(SwapState { fee_rate: 1000, paused: false }));
    assert_eq!(initialize(1001), Err(ErrorCode::InvalidFeeRate));
}

#[test]
fn quote_rounds_down() {
    assert_eq!(get_swap_amount(1000, 10_000, 10_000), Ok(906));
    assert_eq!(get_swap_amount(500, 1000, 1000), Ok(332));
    assert_eq!(get_swap_amount(0, 10_000, 10_000), Ok(0));
}

#[test]
fn quote_on_empty_input_reserve_pays_whole_output() {
    assert_eq!(get_swap_amount(10, 0, 777), Ok(777));
    assert_eq!(get_swap_amount(0, 0, 777), Err(ErrorCode::InsufficientReserve));
}

#[test]
fn quote_guards_overflow() {
    assert_eq!(get_swap_amount(u64::MAX, 1, 1), Err(ErrorCode::ArithmeticOverflow));
    assert_eq!(get_swap_amount(1, u64::MAX, 1), Err(ErrorCode::ArithmeticOverflow));
    assert_eq!(get_swap_amount(1_000_000, 1, u64::MAX), Err(ErrorCode::ArithmeticOverflow));
}

#[test]
fn fee_is_floored_thousandths() {
    assert_eq!(calculate_fee(906, 3), Ok(2));
    assert_eq!(calculate_fee(1000, 3), Ok(3));
    assert_eq!(calculate_fee(999, 1), Ok(0));
    assert_eq!(calculate_fee(u64::MAX, 2), Err(ErrorCode::ArithmeticOverflow));
}

#[test]
fn route_quote_has_no_discount() {
    assert_eq!(route_swap(1000, 10_000, 10_000), Ok(909));
    assert_eq!(route_swap(0, 0, 10), Err(ErrorCode::InsufficientReserve));
    assert_eq!(route_swap(u64::MAX, 1, 2), Err(ErrorCode::ArithmeticOverflow));
    assert_eq!(route_swap(1, u64::MAX, 1), Err(ErrorCode::ArithmeticOverflow));
}

#[test]
fn swap_moves_reserves_and_splits_fee() {
    let swap = running(3);
    let mut p = pool(10_000, 10_000);
    let out = simple_swap(&mut p, &swap, key(2), 1000, 900).unwrap();
    assert_eq!(p, pool(11_000, 9_094));
    assert_eq!(out.event, SimpleSwapEvent { user: key(2), amount_a: 1000, amount_b: 906, fee: 2 });
    assert_eq!(
        out.transfers,
        vec![
            TokenTransfer { from: Vault::UserTokenA, to: Vault::PoolTokenA, amount: 1000 },
            TokenTransfer { from: Vault::PoolTokenB, to: Vault::UserTokenB, amount: 904 },
            TokenTransfer { from: Vault::PoolTokenB, to: Vault::FeeTokenB, amount: 2 },
        ]
    );
    assert_eq!(out.transfers[1].amount + out.transfers[2].amount, out.event.amount_b);
}

#[test]
fn swap_keeps_reserve_product() {
    let swap = running(3);
    let mut p = pool(1000, 1000);
    let before = p.token_a_reserve as u128 * p.token_b_reserve as u128;
    simple_swap(&mut p, &swap, key(2), 500, 300).unwrap();
    assert_eq!(p, pool(1500, 668));
    assert!(p.token_a_reserve as u128 * p.token_b_reserve as u128 >= before);
}

#[test]
fn swap_below_floor_fails_unchanged() {
    let swap = running(3);
    let mut p = pool(1000, 1000);
    assert_eq!(simple_swap(&mut p, &swap, key(2), 500, 400), Err(ErrorCode::SlippageExceeded));
    assert_eq!(p, pool(1000, 1000));
    assert_eq!(simple_swap(&mut p, &swap, key(2), 1, 1), Err(ErrorCode::SlippageExceeded));
    assert_eq!(p, pool(1000, 1000));
}

#[test]
fn swap_refused_while_paused() {
    let swap = SwapState { fee_rate: 3, paused: true };
    let mut p = pool(1000, 1000);
    assert_eq!(simple_swap(&mut p, &swap, key(2), 500, 0), Err(ErrorCode::ExchangePaused));
    assert_eq!(add_liquidity(&mut p, &swap, key(2), 1, 1), Err(ErrorCode::ExchangePaused));
    assert_eq!(flash_swap(&mut p, &swap, key(2), 1, key(3)), Err(ErrorCode::ExchangePaused));
    assert_eq!(p, pool(1000, 1000));
}

#[test]
fn swap_rejects_fee_rate_above_whole_output() {
    let swap = SwapState { fee_rate: 2000, paused: false };
    let mut p = pool(10_000, 10_000);
    assert_eq!(simple_swap(&mut p, &swap, key(2), 1000, 0), Err(ErrorCode::ArithmeticOverflow));
    assert_eq!(p, pool(10_000, 10_000));
}

#[test]
fn swap_guards_quote_overflow() {
    let swap = running(0);
    let mut p = pool(u64::MAX / 1000 + 1, 5);
    assert_eq!(simple_swap(&mut p, &swap, key(2), 1, 0), Err(ErrorCode::ArithmeticOverflow));
    assert_eq!(p, pool(u64::MAX / 1000 + 1, 5));
}

#[test]
fn routed_swap_quotes_and_checks_floor() {
    let swap = running(3);
    let p = pool(10_000, 10_000);
    let out = multi_token_swap(&p, &swap, key(1), key(4), key(5), 1000, 900).unwrap();
    assert_eq!(out.event.received, 909);
    assert_eq!(out.event.src_token, key(4));
    assert_eq!(out.event.dst_token, key(5));
    assert_eq!(
        out.transfers,
        vec![TokenTransfer { from: Vault::UserTokenA, to: Vault::PoolTokenA, amount: 909 }]
    );
    assert_eq!(
        multi_token_swap(&p, &swap, key(1), key(4), key(5), 1000, 910),
        Err(ErrorCode::SlippageExceeded)
    );
}

#[test]
fn partial_fill_takes_available_reserve() {
    let swap = running(3);
    let mut p = pool(1_500, 10_000);
    let (mut order, placed) = place_limit_order(key(7), 2_000, 1, 100, true);
    assert_eq!(placed.amount_a, 2_000);
    let ev = execute_limit_order(&mut p, &mut order, &swap, 1, 50).unwrap();
    assert_eq!(ev.amount_a, 1_500);
    assert_eq!(ev.user, key(7));
    assert_eq!(order.token_a_reserve, 500);
    assert!(!order.is_filled());
    assert_eq!(p, pool(0, 11_500));
}

#[test]
fn order_fills_whole_when_reserve_suffices() {
    let swap = running(3);
    let mut p = pool(10_000, 10_000);
    let (mut order, _) = place_limit_order(key(7), 2_000, 1, 100, true);
    let ev = execute_limit_order(&mut p, &mut order, &swap, 1, 100).unwrap();
    assert_eq!(ev.amount_a, 2_000);
    assert_eq!(ev.target_price, 1);
    assert!(order.is_filled());
    assert_eq!(p, pool(8_000, 12_000));
}

#[test]
fn order_pays_current_price_per_unit() {
    let swap = running(3);
    let mut p = pool(10_000, 10_000);
    let (mut order, _) = place_limit_order(key(7), 100, 2, 100, false);
    execute_limit_order(&mut p, &mut order, &swap, 3, 0).unwrap();
    assert_eq!(p, pool(9_900, 10_300));
    assert_eq!(order.token_a_reserve, 0);
}

#[test]
fn order_errors_leave_state_unchanged() {
    let swap = running(3);
    let mut p = pool(1_000, 1_000);
    let (mut order, _) = place_limit_order(key(7), 2_000, 5, 100, false);
    let kept = order;
    assert_eq!(execute_limit_order(&mut p, &mut order, &swap, 5, 101), Err(ErrorCode::OrderExpired));
    assert_eq!(execute_limit_order(&mut p, &mut order, &swap, 4, 100), Err(ErrorCode::PriceNotMet));
    assert_eq!(
        execute_limit_order(&mut p, &mut order, &swap, 5, 100),
        Err(ErrorCode::InsufficientReserve)
    );
    let paused = SwapState { fee_rate: 3, paused: true };
    assert_eq!(execute_limit_order(&mut p, &mut order, &paused, 5, 0), Err(ErrorCode::ExchangePaused));
    let (mut big, _) = place_limit_order(key(7), 10, 1, 100, false);
    assert_eq!(
        execute_limit_order(&mut p, &mut big, &swap, u64::MAX, 0),
        Err(ErrorCode::ArithmeticOverflow)
    );
    assert_eq!(order, kept);
    assert_eq!(p, pool(1_000, 1_000));
}

#[test]
fn unpaid_flash_borrow_rolls_back() {
    let swap = running(3);
    let mut p = pool(10_000, 10_000);
    let loan = flash_swap(&mut p, &swap, key(1), 500, key(9)).unwrap();
    assert_eq!(p.token_a_reserve, 9_500);
    assert_eq!(loan.payout, TokenTransfer { from: Vault::PoolTokenA, to: Vault::UserTokenA, amount: 500 });
    assert_eq!(complete_flash_swap(&mut p, &loan, 0), Err(ErrorCode::FlashRepaymentFailed));
    assert_eq!(p, pool(10_000, 10_000));
}

#[test]
fn repaid_flash_borrow_succeeds() {
    let swap = running(3);
    let mut p = pool(10_000, 10_000);
    let loan = flash_swap(&mut p, &swap, key(1), 500, key(9)).unwrap();
    let ev = complete_flash_swap(&mut p, &loan, 501).unwrap();
    assert_eq!(ev.amount_a, 500);
    assert_eq!(ev.target_contract, key(9));
    assert_eq!(p, pool(10_001, 10_000));
}

#[test]
fn flash_borrow_beyond_reserve_fails() {
    let swap = running(3);
    let mut p = pool(100, 100);
    assert_eq!(flash_swap(&mut p, &swap, key(1), 101, key(9)), Err(ErrorCode::InsufficientReserve));
    assert_eq!(p, pool(100, 100));
}

#[test]
fn error_messages() {
    assert_eq!(ErrorCode::SlippageExceeded.message(), "Slippage exceeded");
    assert_eq!(ErrorCode::FlashRepaymentFailed.message(), "Flash swap failed, tokens not returned");
}
