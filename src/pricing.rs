//! Fee and pricing engine: pure integer functions, all divisions floored.
use vstd::prelude::*;

use vstd::arithmetic::div_mod::{lemma_div_pos_is_pos, lemma_fundamental_div_mod, lemma_mod_pos_bound};

use crate::error::ErrorCode;

verus! {

/// Share of the input that is priced, out of `DISCOUNT_DENOMINATOR`.
pub const DISCOUNT_NUMERATOR: u64 = 997;

/// Denominator of the trading discount.
pub const DISCOUNT_DENOMINATOR: u64 = 1000;

/// Fee rates are expressed in thousandths of the output.
pub const FEE_DENOMINATOR: u64 = 1000;

/// The priced input, `amount_in * 997`.
pub open spec fn effective_input(amount_in: int) -> int {
    amount_in * DISCOUNT_NUMERATOR
}

/// Denominator of the constant-product quote.
pub open spec fn swap_denominator(amount_in: int, reserve_in: int) -> int {
    reserve_in * DISCOUNT_DENOMINATOR + effective_input(amount_in)
}

/// Whether every intermediate value of the constant-product quote fits in 64 bits.
pub open spec fn swap_quote_fits(amount_in: int, reserve_in: int, reserve_out: int) -> bool {
    &&& effective_input(amount_in) <= u64::MAX
    &&& effective_input(amount_in) * reserve_out <= u64::MAX
    &&& reserve_in * DISCOUNT_DENOMINATOR <= u64::MAX
    &&& swap_denominator(amount_in, reserve_in) <= u64::MAX
}

/// The constant-product quote with the trading discount, rounded down.
pub open spec fn swap_output(amount_in: int, reserve_in: int, reserve_out: int) -> int {
    (effective_input(amount_in) * reserve_out) / swap_denominator(amount_in, reserve_in)
}

/// The fee taken from an output at a rate in thousandths, rounded down.
pub open spec fn fee_of(amount: int, fee_rate: int) -> int {
    (amount * fee_rate) / FEE_DENOMINATOR as int
}

/// Whether every intermediate value of the routing quote fits in 64 bits.
pub open spec fn route_quote_fits(amount: int, reserve_a: int, reserve_b: int) -> bool {
    &&& amount * reserve_b <= u64::MAX
    &&& reserve_a + amount <= u64::MAX
}

/// The undiscounted routing quote, rounded down.
pub open spec fn route_output(amount: int, reserve_a: int, reserve_b: int) -> int {
    (amount * reserve_b) / (reserve_a + amount)
}

/// Output of swapping `amount_in` against reserves `(reserve_in, reserve_out)`:
/// `(amount_in * 997 * reserve_out) / (reserve_in * 1000 + amount_in * 997)`.
/// Fails with `ArithmeticOverflow` when an intermediate value exceeds 64 bits
/// and with `InsufficientReserve` when the denominator is zero.
pub fn get_swap_amount(amount_in: u64, reserve_in: u64, reserve_out: u64) -> (r: Result<
    u64,
    ErrorCode,
>)
    ensures
        !swap_quote_fits(amount_in as int, reserve_in as int, reserve_out as int) ==> r == Err::<
            u64,
            ErrorCode,
        >(ErrorCode::ArithmeticOverflow),
        swap_quote_fits(amount_in as int, reserve_in as int, reserve_out as int)
            && swap_denominator(amount_in as int, reserve_in as int) == 0 ==> r == Err::<
            u64,
            ErrorCode,
        >(ErrorCode::InsufficientReserve),
        swap_quote_fits(amount_in as int, reserve_in as int, reserve_out as int)
            && swap_denominator(amount_in as int, reserve_in as int) > 0 ==> r == Ok::<
            u64,
            ErrorCode,
        >(swap_output(amount_in as int, reserve_in as int, reserve_out as int) as u64),
{
    let amount_in_with_fee = match amount_in.checked_mul(DISCOUNT_NUMERATOR) {
        Some(v) => v,
        None => return Err(ErrorCode::ArithmeticOverflow),
    };
    let numerator = match amount_in_with_fee.checked_mul(reserve_out) {
        Some(v) => v,
        None => return Err(ErrorCode::ArithmeticOverflow),
    };
    let scaled_reserve = match reserve_in.checked_mul(DISCOUNT_DENOMINATOR) {
        Some(v) => v,
        None => return Err(ErrorCode::ArithmeticOverflow),
    };
    let denominator = match scaled_reserve.checked_add(amount_in_with_fee) {
        Some(v) => v,
        None => return Err(ErrorCode::ArithmeticOverflow),
    };
    if denominator == 0 {
        return Err(ErrorCode::InsufficientReserve);
    }
    Ok(numerator / denominator)
}

/// Fee on `amount` at `fee_rate` thousandths: `(amount * fee_rate) / 1000`.
/// Fails with `ArithmeticOverflow` when the product exceeds 64 bits.
pub fn calculate_fee(amount: u64, fee_rate: u64) -> (r: Result<u64, ErrorCode>)
    ensures
        amount * fee_rate > u64::MAX ==> r == Err::<u64, ErrorCode>(
            ErrorCode::ArithmeticOverflow,
        ),
        amount * fee_rate <= u64::MAX ==> r == Ok::<u64, ErrorCode>(
            fee_of(amount as int, fee_rate as int) as u64,
        ),
{
    match amount.checked_mul(fee_rate) {
        Some(product) => Ok(product / FEE_DENOMINATOR),
        None => Err(ErrorCode::ArithmeticOverflow),
    }
}

/// Undiscounted routing quote: `(amount * reserve_b) / (reserve_a + amount)`.
/// Fails with `ArithmeticOverflow` when an intermediate value exceeds 64 bits
/// and with `InsufficientReserve` when the denominator is zero.
pub fn route_swap(amount: u64, reserve_a: u64, reserve_b: u64) -> (r: Result<u64, ErrorCode>)
    ensures
        !route_quote_fits(amount as int, reserve_a as int, reserve_b as int) ==> r == Err::<
            u64,
            ErrorCode,
        >(ErrorCode::ArithmeticOverflow),
        route_quote_fits(amount as int, reserve_a as int, reserve_b as int) && reserve_a + amount
            == 0 ==> r == Err::<u64, ErrorCode>(ErrorCode::InsufficientReserve),
        route_quote_fits(amount as int, reserve_a as int, reserve_b as int) && reserve_a + amount
            > 0 ==> r == Ok::<u64, ErrorCode>(
            route_output(amount as int, reserve_a as int, reserve_b as int) as u64,
        ),
{
    let numerator = match amount.checked_mul(reserve_b) {
        Some(v) => v,
        None => return Err(ErrorCode::ArithmeticOverflow),
    };
    let denominator = match reserve_a.checked_add(amount) {
        Some(v) => v,
        None => return Err(ErrorCode::ArithmeticOverflow),
    };
    if denominator == 0 {
        return Err(ErrorCode::InsufficientReserve);
    }
    Ok(numerator / denominator)
}

/// A floored quotient times its divisor does not exceed the dividend.
proof fn lemma_floor_times_divisor(n: int, d: int)
    requires
        n >= 0,
        d > 0,
    ensures
        0 <= n / d,
        (n / d) * d <= n,
{
    lemma_fundamental_div_mod(n, d);
    lemma_mod_pos_bound(n, d);
    lemma_div_pos_is_pos(n, d);
    let q = n / d;
    let m = n % d;
    assert(q * d <= n) by (nonlinear_arith)
        requires
            n == d * q + m,
            m >= 0,
    ;
}

/// The constant-product quote never pays out more than the output reserve,
/// and pays out no more than the undiscounted quote would:
/// `output * (reserve_in + amount_in) <= amount_in * reserve_out`.
pub proof fn lemma_swap_output_bounded(amount_in: int, reserve_in: int, reserve_out: int)
    requires
        amount_in >= 0,
        reserve_in >= 0,
        reserve_out >= 0,
        swap_denominator(amount_in, reserve_in) > 0,
    ensures
        0 <= swap_output(amount_in, reserve_in, reserve_out) <= reserve_out,
        swap_output(amount_in, reserve_in, reserve_out) * (reserve_in + amount_in) <= amount_in
            * reserve_out,
{
    let e = effective_input(amount_in);
    let d = swap_denominator(amount_in, reserve_in);
    let n = e * reserve_out;
    assert(n >= 0) by (nonlinear_arith)
        requires
            e >= 0,
            reserve_out >= 0,
            n == e * reserve_out,
    ;
    lemma_floor_times_divisor(n, d);
    let q = n / d;
    assert(q * 997 * (reserve_in + amount_in) <= q * d) by (nonlinear_arith)
        requires
            q >= 0,
            reserve_in >= 0,
            d == reserve_in * 1000 + amount_in * 997,
    ;
    assert(q * (reserve_in + amount_in) <= amount_in * reserve_out) by (nonlinear_arith)
        requires
            q * 997 * (reserve_in + amount_in) <= q * d,
            q * d <= n,
            n == amount_in * 997 * reserve_out,
    ;
    if amount_in > 0 {
        assert(q <= reserve_out) by (nonlinear_arith)
            requires
                q >= 0,
                amount_in > 0,
                reserve_in >= 0,
                q * (reserve_in + amount_in) <= amount_in * reserve_out,
        ;
    } else {
        assert(e == 0);
        assert(n == 0) by (nonlinear_arith)
            requires
                e == 0,
                n == e * reserve_out,
        ;
    }
}

/// Adding `amount_in` to one reserve and taking the quoted output from the
/// other never lowers the product of the reserves.
pub proof fn lemma_swap_keeps_product(amount_in: int, reserve_in: int, reserve_out: int)
    requires
        amount_in >= 0,
        reserve_in >= 0,
        reserve_out >= 0,
        swap_denominator(amount_in, reserve_in) > 0,
    ensures
        (reserve_in + amount_in) * (reserve_out - swap_output(amount_in, reserve_in, reserve_out))
            >= reserve_in * reserve_out,
{
    lemma_swap_output_bounded(amount_in, reserve_in, reserve_out);
    let q = swap_output(amount_in, reserve_in, reserve_out);
    assert((reserve_in + amount_in) * (reserve_out - q) >= reserve_in * reserve_out)
        by (nonlinear_arith)
        requires
            q * (reserve_in + amount_in) <= amount_in * reserve_out,
    ;
}

} // verus!
