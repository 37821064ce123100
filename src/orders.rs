//! Resting limit orders: placement and execution against a pool.
use vstd::prelude::*;

use crate::error::ErrorCode;
use crate::state::{LimitOrder, LimitOrderExecuted, LimitOrderPlaced, LiquidityPool, Pubkey, SwapState};

verus! {

/// How much of asset A an execution of `order` takes: the whole order, or,
/// when partial fills are allowed, no more than the pool's A reserve.
pub open spec fn fill_amount(pool: LiquidityPool, order: LimitOrder) -> u64 {
    if order.partial_fill && pool.token_a_reserve < order.token_a_reserve {
        pool.token_a_reserve
    } else {
        order.token_a_reserve
    }
}

/// Why executing `order` at `current_price` and time `now` fails, checked in
/// this order; `None` when it succeeds.
pub open spec fn execute_error(
    pool: LiquidityPool,
    order: LimitOrder,
    swap: SwapState,
    current_price: u64,
    now: i64,
) -> Option<ErrorCode> {
    let fill = fill_amount(pool, order);
    if swap.paused {
        Some(ErrorCode::ExchangePaused)
    } else if order.expiration < now {
        Some(ErrorCode::OrderExpired)
    } else if current_price < order.target_price {
        Some(ErrorCode::PriceNotMet)
    } else if fill > pool.token_a_reserve {
        Some(ErrorCode::InsufficientReserve)
    } else if current_price * fill > u64::MAX || pool.token_b_reserve + current_price * fill
        > u64::MAX {
        Some(ErrorCode::ArithmeticOverflow)
    } else {
        None
    }
}

/// Records an open order of `user` to sell `amount_a` of asset A at no less
/// than `target_price`, valid until `expiration`. No tokens move.
pub fn place_limit_order(
    user: Pubkey,
    amount_a: u64,
    target_price: u64,
    expiration: i64,
    partial_fill: bool,
) -> (r: (LimitOrder, LimitOrderPlaced))
    ensures
        r.0 == (LimitOrder {
            user,
            token_a_reserve: amount_a,
            target_price,
            expiration,
            partial_fill,
        }),
        r.1 == (LimitOrderPlaced { user, amount_a, target_price, expiration, partial_fill }),
{
    let order = LimitOrder { user, token_a_reserve: amount_a, target_price, expiration, partial_fill };
    let event = LimitOrderPlaced { user, amount_a, target_price, expiration, partial_fill };
    (order, event)
}

/// Executes `order` at `current_price` at time `now`. The pool gives up the
/// filled amount of asset A and gains `current_price` units of asset B for
/// each; the order keeps what was not filled, and is filled once nothing is
/// left.
pub fn execute_limit_order(
    pool: &mut LiquidityPool,
    order: &mut LimitOrder,
    swap: &SwapState,
    current_price: u64,
    now: i64,
) -> (r: Result<LimitOrderExecuted, ErrorCode>)
    ensures
        r is Ok <==> execute_error(*old(pool), *old(order), *swap, current_price, now) is None,
        match r {
            Ok(event) => {
                let fill = fill_amount(*old(pool), *old(order));
                &&& final(pool).token_a_reserve == old(pool).token_a_reserve - fill
                &&& final(pool).token_b_reserve == old(pool).token_b_reserve + current_price
                    * fill
                &&& *final(order) == (LimitOrder {
                    token_a_reserve: (old(order).token_a_reserve - fill) as u64,
                    ..*old(order)
                })
                &&& event == (LimitOrderExecuted {
                    user: old(order).user,
                    amount_a: fill,
                    target_price: old(order).target_price,
                })
            },
            Err(e) => {
                &&& execute_error(*old(pool), *old(order), *swap, current_price, now) == Some(e)
                &&& *final(pool) == *old(pool)
                &&& *final(order) == *old(order)
            },
        },
{
    if swap.paused {
        return Err(ErrorCode::ExchangePaused);
    }
    if order.expiration < now {
        return Err(ErrorCode::OrderExpired);
    }
    if current_price < order.target_price {
        return Err(ErrorCode::PriceNotMet);
    }
    let amount_a = if order.partial_fill && pool.token_a_reserve < order.token_a_reserve {
        pool.token_a_reserve
    } else {
        order.token_a_reserve
    };
    if amount_a > pool.token_a_reserve {
        return Err(ErrorCode::InsufficientReserve);
    }
    let proceeds = match current_price.checked_mul(amount_a) {
        Some(v) => v,
        None => return Err(ErrorCode::ArithmeticOverflow),
    };
    if pool.token_b_reserve > u64::MAX - proceeds {
        return Err(ErrorCode::ArithmeticOverflow);
    }
    pool.token_a_reserve = pool.token_a_reserve - amount_a;
    pool.token_b_reserve = pool.token_b_reserve + proceeds;
    order.token_a_reserve = order.token_a_reserve - amount_a;
    Ok(LimitOrderExecuted { user: order.user, amount_a, target_price: order.target_price })
}

} // verus!
