//! Liquidity, swap, routing and flash-borrow operations on a pool.
use vstd::prelude::*;

use crate::error::ErrorCode;
use crate::pricing::{
    calculate_fee, fee_of, get_swap_amount, lemma_swap_keeps_product, lemma_swap_output_bounded,
    route_output, route_quote_fits, route_swap, swap_denominator, swap_output, swap_quote_fits,
};
use crate::state::{
    AddLiquidityEvent, FlashLoan, FlashSwapEvent, LiquidityPool, MultiTokenSwapEvent, Outcome, Pubkey,
    SimpleSwapEvent, SwapState, TokenTransfer, Vault,
};

verus! {

/// The highest fee rate the exchange accepts: the whole output.
pub const MAX_FEE_RATE: u64 = 1000;

/// The transfer of `amount` tokens from `from` to `to`.
pub open spec fn transfer_of(from: Vault, to: Vault, amount: u64) -> TokenTransfer {
    TokenTransfer { from, to, amount }
}

/// Product of the two reserves.
pub open spec fn reserve_product(pool: LiquidityPool) -> int {
    pool.token_a_reserve * pool.token_b_reserve
}

/// The swap output quoted for `amount_a` of asset A against the pool.
pub open spec fn quote_for(pool: LiquidityPool, amount_a: u64) -> int {
    swap_output(amount_a as int, pool.token_a_reserve as int, pool.token_b_reserve as int)
}

/// Why a swap of `amount_a` with floor `min_amount_b` fails, checked in this
/// order; `None` when it succeeds.
pub open spec fn swap_error(
    pool: LiquidityPool,
    swap: SwapState,
    amount_a: u64,
    min_amount_b: u64,
) -> Option<ErrorCode> {
    let ra = pool.token_a_reserve as int;
    let rb = pool.token_b_reserve as int;
    let out = quote_for(pool, amount_a);
    if swap.paused {
        Some(ErrorCode::ExchangePaused)
    } else if !swap_quote_fits(amount_a as int, ra, rb) {
        Some(ErrorCode::ArithmeticOverflow)
    } else if swap_denominator(amount_a as int, ra) == 0 {
        Some(ErrorCode::InsufficientReserve)
    } else if out < min_amount_b {
        Some(ErrorCode::SlippageExceeded)
    } else if out * swap.fee_rate > u64::MAX {
        Some(ErrorCode::ArithmeticOverflow)
    } else if fee_of(out, swap.fee_rate as int) > out {
        Some(ErrorCode::ArithmeticOverflow)
    } else if ra + amount_a > u64::MAX {
        Some(ErrorCode::ArithmeticOverflow)
    } else {
        None
    }
}

/// Creates the exchange's parameters with trading enabled. A fee rate above
/// one thousand thousandths would take more than the whole output, and is
/// refused with `InvalidFeeRate`.
pub fn initialize(fee_rate: u64) -> (r: Result<SwapState, ErrorCode>)
    ensures
        fee_rate > MAX_FEE_RATE ==> r == Err::<SwapState, ErrorCode>(ErrorCode::InvalidFeeRate),
        fee_rate <= MAX_FEE_RATE ==> r == Ok::<SwapState, ErrorCode>(
            SwapState { fee_rate, paused: false },
        ),
{
    if fee_rate > MAX_FEE_RATE {
        return Err(ErrorCode::InvalidFeeRate);
    }
    Ok(SwapState { fee_rate, paused: false })
}

/// Deposits `amount_a` of asset A and `amount_b` of asset B into the pool, in
/// any ratio. Both amounts must be positive.
pub fn add_liquidity(
    pool: &mut LiquidityPool,
    swap: &SwapState,
    user: Pubkey,
    amount_a: u64,
    amount_b: u64,
) -> (r: Result<Outcome<AddLiquidityEvent>, ErrorCode>)
    ensures
        swap.paused ==> r == Err::<Outcome<AddLiquidityEvent>, ErrorCode>(
            ErrorCode::ExchangePaused,
        ),
        !swap.paused && (amount_a == 0 || amount_b == 0) ==> r == Err::<
            Outcome<AddLiquidityEvent>,
            ErrorCode,
        >(ErrorCode::InvalidAmount),
        !swap.paused && amount_a > 0 && amount_b > 0 && (old(pool).token_a_reserve + amount_a
            > u64::MAX || old(pool).token_b_reserve + amount_b > u64::MAX) ==> r == Err::<
            Outcome<AddLiquidityEvent>,
            ErrorCode,
        >(ErrorCode::ArithmeticOverflow),
        r is Ok <==> !swap.paused && amount_a > 0 && amount_b > 0 && old(pool).token_a_reserve
            + amount_a <= u64::MAX && old(pool).token_b_reserve + amount_b <= u64::MAX,
        r is Err ==> *final(pool) == *old(pool),
        match r {
            Ok(o) => {
                &&& final(pool).token_a_reserve == old(pool).token_a_reserve + amount_a
                &&& final(pool).token_b_reserve == old(pool).token_b_reserve + amount_b
                &&& o.transfers@ == seq![
                    transfer_of(Vault::UserTokenA, Vault::PoolTokenA, amount_a),
                    transfer_of(Vault::UserTokenB, Vault::PoolTokenB, amount_b),
                ]
                &&& o.event == (AddLiquidityEvent { user, amount_a, amount_b })
            },
            Err(_) => true,
        },
{
    if swap.paused {
        return Err(ErrorCode::ExchangePaused);
    }
    if amount_a == 0 || amount_b == 0 {
        return Err(ErrorCode::InvalidAmount);
    }
    if pool.token_a_reserve > u64::MAX - amount_a || pool.token_b_reserve > u64::MAX - amount_b {
        return Err(ErrorCode::ArithmeticOverflow);
    }
    let mut transfers: Vec<TokenTransfer> = Vec::new();
    transfers.push(TokenTransfer { from: Vault::UserTokenA, to: Vault::PoolTokenA, amount: amount_a });
    transfers.push(TokenTransfer { from: Vault::UserTokenB, to: Vault::PoolTokenB, amount: amount_b });
    pool.token_a_reserve = pool.token_a_reserve + amount_a;
    pool.token_b_reserve = pool.token_b_reserve + amount_b;
    Ok(Outcome { transfers, event: AddLiquidityEvent { user, amount_a, amount_b } })
}

/// Swaps `amount_a` of asset A for asset B at the constant-product quote
/// taken on the reserves as they stand. The caller receives the quote less
/// the fee, the fee goes to the fee account, and the pool's B reserve drops
/// by the whole quote. Fails with `SlippageExceeded` when the quote is below
/// `min_amount_b`; the other failures are those of `swap_error`.
pub fn simple_swap(
    pool: &mut LiquidityPool,
    swap: &SwapState,
    user: Pubkey,
    amount_a: u64,
    min_amount_b: u64,
) -> (r: Result<Outcome<SimpleSwapEvent>, ErrorCode>)
    ensures
        r is Ok <==> swap_error(*old(pool), *swap, amount_a, min_amount_b) is None,
        !swap.paused && swap_quote_fits(
            amount_a as int,
            old(pool).token_a_reserve as int,
            old(pool).token_b_reserve as int,
        ) && swap_denominator(amount_a as int, old(pool).token_a_reserve as int) > 0 && quote_for(
            *old(pool),
            amount_a,
        ) < min_amount_b ==> r == Err::<Outcome<SimpleSwapEvent>, ErrorCode>(
            ErrorCode::SlippageExceeded,
        ) && *final(pool) == *old(pool),
        match r {
            Ok(o) => {
                let out = quote_for(*old(pool), amount_a);
                let fee = fee_of(out, swap.fee_rate as int);
                &&& final(pool).token_a_reserve == old(pool).token_a_reserve + amount_a
                &&& final(pool).token_b_reserve == old(pool).token_b_reserve - out
                &&& reserve_product(*final(pool)) >= reserve_product(*old(pool))
                &&& out >= min_amount_b
                &&& o.transfers@ == seq![
                    transfer_of(Vault::UserTokenA, Vault::PoolTokenA, amount_a),
                    transfer_of(Vault::PoolTokenB, Vault::UserTokenB, (out - fee) as u64),
                    transfer_of(Vault::PoolTokenB, Vault::FeeTokenB, fee as u64),
                ]
                &&& o.transfers@[1].amount + o.transfers@[2].amount == o.event.amount_b
                &&& o.event == (SimpleSwapEvent {
                    user,
                    amount_a,
                    amount_b: out as u64,
                    fee: fee as u64,
                })
            },
            Err(e) => {
                &&& swap_error(*old(pool), *swap, amount_a, min_amount_b) == Some(e)
                &&& *final(pool) == *old(pool)
            },
        },
{
    if swap.paused {
        return Err(ErrorCode::ExchangePaused);
    }
    let amount_b = get_swap_amount(amount_a, pool.token_a_reserve, pool.token_b_reserve)?;
    if amount_b < min_amount_b {
        return Err(ErrorCode::SlippageExceeded);
    }
    let fee = calculate_fee(amount_b, swap.fee_rate)?;
    if fee > amount_b {
        return Err(ErrorCode::ArithmeticOverflow);
    }
    if pool.token_a_reserve > u64::MAX - amount_a {
        return Err(ErrorCode::ArithmeticOverflow);
    }
    proof {
        lemma_swap_output_bounded(
            amount_a as int,
            pool.token_a_reserve as int,
            pool.token_b_reserve as int,
        );
        lemma_swap_keeps_product(
            amount_a as int,
            pool.token_a_reserve as int,
            pool.token_b_reserve as int,
        );
    }
    let payout = amount_b - fee;
    let mut transfers: Vec<TokenTransfer> = Vec::new();
    transfers.push(TokenTransfer { from: Vault::UserTokenA, to: Vault::PoolTokenA, amount: amount_a });
    transfers.push(TokenTransfer { from: Vault::PoolTokenB, to: Vault::UserTokenB, amount: payout });
    transfers.push(TokenTransfer { from: Vault::PoolTokenB, to: Vault::FeeTokenB, amount: fee });
    pool.token_a_reserve = pool.token_a_reserve + amount_a;
    pool.token_b_reserve = pool.token_b_reserve - amount_b;
    Ok(Outcome { transfers, event: SimpleSwapEvent { user, amount_a, amount_b, fee } })
}

/// Why a routed swap of `amount` with floor `min_dst_amount` fails, checked
/// in this order; `None` when it succeeds.
pub open spec fn route_error(
    pool: LiquidityPool,
    swap: SwapState,
    amount: u64,
    min_dst_amount: u64,
) -> Option<ErrorCode> {
    let ra = pool.token_a_reserve as int;
    let rb = pool.token_b_reserve as int;
    if swap.paused {
        Some(ErrorCode::ExchangePaused)
    } else if !route_quote_fits(amount as int, ra, rb) {
        Some(ErrorCode::ArithmeticOverflow)
    } else if ra + amount == 0 {
        Some(ErrorCode::InsufficientReserve)
    } else if route_output(amount as int, ra, rb) < min_dst_amount {
        Some(ErrorCode::SlippageExceeded)
    } else {
        None
    }
}

/// A single-hop routed swap between `src_token` and `dst_token`, quoted with
/// the undiscounted routing formula. It asks for one transfer leg, of the
/// quoted amount from the user's A account into the pool's A account, and
/// leaves the reserves as they are.
pub fn multi_token_swap(
    pool: &LiquidityPool,
    swap: &SwapState,
    user: Pubkey,
    src_token: Pubkey,
    dst_token: Pubkey,
    amount: u64,
    min_dst_amount: u64,
) -> (r: Result<Outcome<MultiTokenSwapEvent>, ErrorCode>)
    ensures
        r is Ok <==> route_error(*pool, *swap, amount, min_dst_amount) is None,
        match r {
            Ok(o) => {
                let received = route_output(
                    amount as int,
                    pool.token_a_reserve as int,
                    pool.token_b_reserve as int,
                );
                &&& received >= min_dst_amount
                &&& o.transfers@ == seq![
                    transfer_of(Vault::UserTokenA, Vault::PoolTokenA, received as u64),
                ]
                &&& o.event == (MultiTokenSwapEvent {
                    user,
                    src_token,
                    dst_token,
                    amount,
                    received: received as u64,
                })
            },
            Err(e) => route_error(*pool, *swap, amount, min_dst_amount) == Some(e),
        },
{
    if swap.paused {
        return Err(ErrorCode::ExchangePaused);
    }
    let received = route_swap(amount, pool.token_a_reserve, pool.token_b_reserve)?;
    if received < min_dst_amount {
        return Err(ErrorCode::SlippageExceeded);
    }
    let mut transfers: Vec<TokenTransfer> = Vec::new();
    transfers.push(TokenTransfer { from: Vault::UserTokenA, to: Vault::PoolTokenA, amount: received });
    Ok(Outcome { transfers, event: MultiTokenSwapEvent { user, src_token, dst_token, amount, received } })
}

/// Opens a flash borrow of `amount_a` of asset A: the pool's A reserve drops
/// by the amount, which is paid out to the user, and the returned loan records
/// the reserve as it stood before. The runtime then calls `target_contract`
/// and settles the loan with `complete_flash_swap`.
pub fn flash_swap(
    pool: &mut LiquidityPool,
    swap: &SwapState,
    user: Pubkey,
    amount_a: u64,
    target_contract: Pubkey,
) -> (r: Result<FlashLoan, ErrorCode>)
    ensures
        swap.paused ==> r == Err::<FlashLoan, ErrorCode>(ErrorCode::ExchangePaused),
        !swap.paused && amount_a > old(pool).token_a_reserve ==> r == Err::<FlashLoan, ErrorCode>(
            ErrorCode::InsufficientReserve,
        ),
        r is Ok <==> !swap.paused && amount_a <= old(pool).token_a_reserve,
        r is Err ==> *final(pool) == *old(pool),
        match r {
            Ok(loan) => {
                &&& final(pool).token_a_reserve == old(pool).token_a_reserve - amount_a
                &&& final(pool).token_b_reserve == old(pool).token_b_reserve
                &&& loan == (FlashLoan {
                    user,
                    amount_a,
                    target_contract,
                    initial_balance: old(pool).token_a_reserve,
                    payout: transfer_of(Vault::PoolTokenA, Vault::UserTokenA, amount_a),
                })
            },
            Err(_) => true,
        },
{
    if swap.paused {
        return Err(ErrorCode::ExchangePaused);
    }
    if amount_a > pool.token_a_reserve {
        return Err(ErrorCode::InsufficientReserve);
    }
    let initial_balance = pool.token_a_reserve;
    pool.token_a_reserve = pool.token_a_reserve - amount_a;
    Ok(FlashLoan {
        user,
        amount_a,
        target_contract,
        initial_balance,
        payout: TokenTransfer { from: Vault::PoolTokenA, to: Vault::UserTokenA, amount: amount_a },
    })
}

/// Settles a flash borrow once the callee has returned, given what it paid
/// back into the pool. The loan is repaid when `repaid` covers the whole
/// amount borrowed; the A reserve then ends at least where it started. When
/// it is not, or the new reserve would not fit, the borrow is undone: the
/// A reserve goes back to the balance recorded in the loan.
pub fn complete_flash_swap(pool: &mut LiquidityPool, loan: &FlashLoan, repaid: u64) -> (r: Result<
    FlashSwapEvent,
    ErrorCode,
>)
    requires
        old(pool).token_a_reserve + loan.amount_a == loan.initial_balance,
    ensures
        repaid < loan.amount_a ==> r == Err::<FlashSwapEvent, ErrorCode>(
            ErrorCode::FlashRepaymentFailed,
        ),
        repaid >= loan.amount_a && old(pool).token_a_reserve + repaid > u64::MAX ==> r == Err::<
            FlashSwapEvent,
            ErrorCode,
        >(ErrorCode::ArithmeticOverflow),
        r is Ok <==> repaid >= loan.amount_a && old(pool).token_a_reserve + repaid <= u64::MAX,
        r is Err ==> final(pool).token_a_reserve == loan.initial_balance
            && final(pool).token_b_reserve == old(pool).token_b_reserve,
        match r {
            Ok(event) => {
                &&& repaid >= loan.amount_a
                &&& final(pool).token_a_reserve == old(pool).token_a_reserve + repaid
                &&& final(pool).token_a_reserve >= loan.initial_balance
                &&& final(pool).token_b_reserve == old(pool).token_b_reserve
                &&& event == (FlashSwapEvent {
                    user: loan.user,
                    amount_a: loan.amount_a,
                    target_contract: loan.target_contract,
                })
            },
            Err(_) => true,
        },
{
    if repaid < loan.amount_a {
        pool.token_a_reserve = loan.initial_balance;
        return Err(ErrorCode::FlashRepaymentFailed);
    }
    if pool.token_a_reserve > u64::MAX - repaid {
        pool.token_a_reserve = loan.initial_balance;
        return Err(ErrorCode::ArithmeticOverflow);
    }
    pool.token_a_reserve = pool.token_a_reserve + repaid;
    Ok(FlashSwapEvent {
        user: loan.user,
        amount_a: loan.amount_a,
        target_contract: loan.target_contract,
    })
}

} // verus!
