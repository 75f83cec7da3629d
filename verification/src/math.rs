use vstd::prelude::*;

verus! {

/// The two ways the settlement arithmetic can fail.
#[derive(Clone, Copy, Debug, PartialEq, Eq, Structural)]
pub enum ArithmeticError {
    ArithmeticOverflow,
    DivisionByZero,
}

/// `a * b`, or `ArithmeticOverflow` when the product does not fit in a `u128`.
pub fn safe_mul_u128(a: u128, b: u128) -> (r: Result<u128, ArithmeticError>)
    ensures
        match r {
            Ok(v) => a * b <= u128::MAX && v == a * b,
            Err(e) => a * b > u128::MAX && e == ArithmeticError::ArithmeticOverflow,
        },
{
    match a.checked_mul(b) {
        Some(v) => Ok(v),
        None => Err(ArithmeticError::ArithmeticOverflow),
    }
}

/// `a / b` rounded down, or `DivisionByZero` when `b` is zero.
pub fn safe_div_u128(a: u128, b: u128) -> (r: Result<u128, ArithmeticError>)
    ensures
        match r {
            Ok(v) => b != 0 && v == a / b,
            Err(e) => b == 0 && e == ArithmeticError::DivisionByZero,
        },
{
    if b == 0 {
        return Err(ArithmeticError::DivisionByZero);
    }
    Ok(a / b)
}

/// What is left of the raise target once the full allocations are taken out.
pub fn calculate_marginal_allocation(raise_target: u64, sum_full_allocations: u64) -> (r: Result<
    u64,
    ArithmeticError,
>)
    ensures
        match r {
            Ok(v) => sum_full_allocations <= raise_target && v == raise_target - sum_full_allocations,
            Err(e) => sum_full_allocations > raise_target && e == ArithmeticError::ArithmeticOverflow,
        },
{
    match raise_target.checked_sub(sum_full_allocations) {
        Some(v) => Ok(v),
        None => Err(ArithmeticError::ArithmeticOverflow),
    }
}

/// Price of one token at the clearing FDV, rounded down.
pub fn calculate_token_price(clearing_fdv: u64, token_supply: u64) -> (r: Result<u64, ArithmeticError>)
    ensures
        match r {
            Ok(v) => token_supply != 0 && v == clearing_fdv / token_supply,
            Err(e) => token_supply == 0 && e == ArithmeticError::DivisionByZero,
        },
{
    if token_supply == 0 {
        return Err(ArithmeticError::DivisionByZero);
    }
    Ok(clearing_fdv / token_supply)
}

/// Tokens bought by `allocation` USDC at the clearing FDV:
/// `allocation * token_supply / clearing_fdv`, rounded down.
pub open spec fn tokens_for(allocation: u64, token_supply: u64, clearing_fdv: u64) -> Result<
    u64,
    ArithmeticError,
> {
    if clearing_fdv == 0 {
        Err(ArithmeticError::DivisionByZero)
    } else if (allocation as int * token_supply as int) / clearing_fdv as int > u64::MAX {
        Err(ArithmeticError::ArithmeticOverflow)
    } else {
        Ok(((allocation as int * token_supply as int) / clearing_fdv as int) as u64)
    }
}

/// Tokens bought by `allocation` USDC: `allocation * token_supply / clearing_fdv`.
pub fn calculate_tokens(allocation: u64, token_supply: u64, clearing_fdv: u64) -> (r: Result<
    u64,
    ArithmeticError,
>)
    ensures
        r == tokens_for(allocation, token_supply, clearing_fdv),
{
    let a = allocation as u128;
    let s = token_supply as u128;
    assert(a * s <= u64::MAX as int * u64::MAX as int) by (nonlinear_arith)
        requires
            a <= u64::MAX,
            s <= u64::MAX,
    ;
    let numerator = a * s;
    if clearing_fdv == 0 {
        return Err(ArithmeticError::DivisionByZero);
    }
    let tokens = numerator / (clearing_fdv as u128);
    if tokens > u64::MAX as u128 {
        return Err(ArithmeticError::ArithmeticOverflow);
    }
    Ok(tokens as u64)
}

/// A bidder is at the margin when their maximum FDV equals the clearing FDV.
pub fn is_marginal_bidder(max_fdv: u64, clearing_fdv: u64) -> (r: bool)
    ensures
        r == (max_fdv == clearing_fdv),
{
    max_fdv == clearing_fdv
}

/// The pro-rata share `amount * rate_bps / 10000`, rounded down.
pub open spec fn pro_rata(amount: u64, rate_bps: u64) -> int {
    (amount as int * rate_bps as int) / 10000
}

/// `amount * rate_bps / 10000` computed in 128 bits; it fits in 64 bits when the rate
/// is at most 100%.
pub fn pro_rata_share(amount: u64, rate_bps: u64) -> (r: u128)
    ensures
        r == pro_rata(amount, rate_bps),
        rate_bps <= 10000 ==> r <= amount,
{
    let a = amount as u128;
    let f = rate_bps as u128;
    assert(a * f <= u64::MAX as int * u64::MAX as int) by (nonlinear_arith)
        requires
            a <= u64::MAX,
            f <= u64::MAX,
    ;
    let r = a * f / 10000;
    assert(f <= 10000 ==> a * f / 10000 <= a) by (nonlinear_arith)
        requires
            a >= 0,
            f >= 0,
    ;
    r
}

} // verus!
