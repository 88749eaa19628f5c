use vstd::prelude::*;

use crate::error::VaultError;

verus! {

/// Direction in which a conversion rounds a fractional result.
#[derive(Clone, Copy, PartialEq, Eq, Debug, Structural)]
pub enum Rounding {
    Floor,
    Ceiling,
}

/// `10^n` as a mathematical integer.
pub open spec fn pow10(n: nat) -> nat
    decreases n,
{
    if n == 0 {
        1
    } else {
        10 * pow10((n - 1) as nat)
    }
}

/// `p / d` rounded down or up.
pub open spec fn div_rounded(p: int, d: int, rounding: Rounding) -> int {
    match rounding {
        Rounding::Floor => p / d,
        Rounding::Ceiling => (p + d - 1) / d,
    }
}

/// What `mul_div` returns: `value * numerator / denominator`, rounded, when it fits in 64 bits.
pub open spec fn mul_div_result(value: u64, numerator: u64, denominator: u64, rounding: Rounding) -> Result<u64, VaultError> {
    if denominator == 0 {
        Err(VaultError::DivisionByZero)
    } else if div_rounded(value * numerator, denominator as int, rounding) > u64::MAX {
        Err(VaultError::MathOverflow)
    } else {
        Ok(div_rounded(value * numerator, denominator as int, rounding) as u64)
    }
}

/// The virtual share supply `total_shares + 10^offset`.
pub open spec fn virtual_shares(total_shares: u64, decimals_offset: u8) -> int {
    total_shares + pow10(decimals_offset as nat)
}

/// The virtual terms overflow 64 bits.
pub open spec fn virtual_terms_overflow(total_assets: u64, total_shares: u64, decimals_offset: u8) -> bool {
    virtual_shares(total_shares, decimals_offset) > u64::MAX || total_assets == u64::MAX
}

/// Shares worth `assets`: `assets * (total_shares + 10^offset) / (total_assets + 1)`.
pub open spec fn shares_for_assets(
    assets: u64,
    total_assets: u64,
    total_shares: u64,
    decimals_offset: u8,
    rounding: Rounding,
) -> Result<u64, VaultError> {
    if virtual_terms_overflow(total_assets, total_shares, decimals_offset) {
        Err(VaultError::MathOverflow)
    } else {
        mul_div_result(
            assets,
            virtual_shares(total_shares, decimals_offset) as u64,
            (total_assets + 1) as u64,
            rounding,
        )
    }
}

/// Assets worth `shares`: `shares * (total_assets + 1) / (total_shares + 10^offset)`.
pub open spec fn assets_for_shares(
    shares: u64,
    total_assets: u64,
    total_shares: u64,
    decimals_offset: u8,
    rounding: Rounding,
) -> Result<u64, VaultError> {
    if virtual_terms_overflow(total_assets, total_shares, decimals_offset) {
        Err(VaultError::MathOverflow)
    } else {
        mul_div_result(
            shares,
            (total_assets + 1) as u64,
            virtual_shares(total_shares, decimals_offset) as u64,
            rounding,
        )
    }
}

/// `10^exp` when it fits in 64 bits.
fn checked_pow10(exp: u8) -> (r: Option<u64>)
    ensures
        match r {
            Some(p) => p == pow10(exp as nat),
            None => pow10(exp as nat) > u64::MAX,
        },
{
    let mut acc: u64 = 1;
    let mut i: u8 = 0;
    while i < exp
        invariant
            i <= exp,
            acc == pow10(i as nat),
        decreases exp - i,
    {
        if acc > u64::MAX / 10 {
            assert(pow10((i + 1) as nat) == 10 * pow10(i as nat));
            proof {
                lemma_pow10_monotone((i + 1) as nat, exp as nat);
            }
            return None;
        }
        acc = acc * 10;
        i = i + 1;
    }
    Some(acc)
}

proof fn lemma_pow10_monotone(a: nat, b: nat)
    requires
        a <= b,
    ensures
        pow10(a) <= pow10(b),
    decreases b - a,
{
    if a < b {
        lemma_pow10_monotone(a, (b - 1) as nat);
        assert(pow10(b) == 10 * pow10((b - 1) as nat));
    }
}

/// The virtual share supply and virtual asset total, or `MathOverflow`.
fn virtual_terms(total_assets: u64, total_shares: u64, decimals_offset: u8) -> (r: Result<(u64, u64), VaultError>)
    ensures
        match r {
            Ok((vs, va)) => !virtual_terms_overflow(total_assets, total_shares, decimals_offset)
                && vs == virtual_shares(total_shares, decimals_offset) && va == total_assets + 1,
            Err(e) => virtual_terms_overflow(total_assets, total_shares, decimals_offset)
                && e == VaultError::MathOverflow,
        },
{
    let offset = match checked_pow10(decimals_offset) {
        Some(p) => p,
        None => return Err(VaultError::MathOverflow),
    };
    if total_shares > u64::MAX - offset {
        return Err(VaultError::MathOverflow);
    }
    if total_assets == u64::MAX {
        return Err(VaultError::MathOverflow);
    }
    Ok((total_shares + offset, total_assets + 1))
}

/// Converts assets to shares, with the virtual offset that defeats inflation attacks:
/// `assets * (total_shares + 10^offset) / (total_assets + 1)`.
pub fn convert_to_shares(
    assets: u64,
    total_assets: u64,
    total_shares: u64,
    decimals_offset: u8,
    rounding: Rounding,
) -> (r: Result<u64, VaultError>)
    ensures
        r == shares_for_assets(assets, total_assets, total_shares, decimals_offset, rounding),
{
    let (vs, va) = virtual_terms(total_assets, total_shares, decimals_offset)?;
    mul_div(assets, vs, va, rounding)
}

/// Converts shares to assets: `shares * (total_assets + 1) / (total_shares + 10^offset)`.
pub fn convert_to_assets(
    shares: u64,
    total_assets: u64,
    total_shares: u64,
    decimals_offset: u8,
    rounding: Rounding,
) -> (r: Result<u64, VaultError>)
    ensures
        r == assets_for_shares(shares, total_assets, total_shares, decimals_offset, rounding),
{
    let (vs, va) = virtual_terms(total_assets, total_shares, decimals_offset)?;
    mul_div(shares, va, vs, rounding)
}

/// `value * numerator / denominator` over a 128-bit intermediate, rounded as asked.
pub fn mul_div(value: u64, numerator: u64, denominator: u64, rounding: Rounding) -> (r: Result<u64, VaultError>)
    ensures
        r == mul_div_result(value, numerator, denominator, rounding),
        denominator == 0 ==> r == Err::<u64, VaultError>(VaultError::DivisionByZero),
{
    if denominator == 0 {
        return Err(VaultError::DivisionByZero);
    }
    assert(value as int * numerator as int <= u64::MAX as int * u64::MAX as int) by (nonlinear_arith);
    let product: u128 = (value as u128) * (numerator as u128);
    let denom = denominator as u128;
    let result: u128 = match rounding {
        Rounding::Floor => product / denom,
        Rounding::Ceiling => (product + denom - 1) / denom,
    };
    if result > u64::MAX as u128 {
        return Err(VaultError::MathOverflow);
    }
    Ok(result as u64)
}

/// Ceiling never rounds below Floor, and the two bracket the exact quotient:
/// `floor * d <= value * numerator <= ceiling * d`, with the two at most one apart.
pub proof fn lemma_mul_div_rounding_bounds(value: u64, numerator: u64, denominator: u64)
    requires
        denominator > 0,
    ensures
        mul_div_result(value, numerator, denominator, Rounding::Ceiling) is Ok
            ==> mul_div_result(value, numerator, denominator, Rounding::Floor) is Ok,
        match (mul_div_result(value, numerator, denominator, Rounding::Floor),
            mul_div_result(value, numerator, denominator, Rounding::Ceiling)) {
            (Ok(f), Ok(c)) => f <= c && c <= f + 1,
            _ => true,
        },
        match mul_div_result(value, numerator, denominator, Rounding::Floor) {
            Ok(f) => f * denominator <= value * numerator,
            Err(_) => true,
        },
        match mul_div_result(value, numerator, denominator, Rounding::Ceiling) {
            Ok(c) => value * numerator <= c * denominator,
            Err(_) => true,
        },
{
    let p = value * numerator;
    let d = denominator as int;
    assert(p >= 0) by (nonlinear_arith)
        requires p == value * numerator;
    let f = p / d;
    let c = (p + d - 1) / d;
    assert(f * d <= p && p < f * d + d) by (nonlinear_arith)
        requires d > 0, p >= 0, f == p / d;
    assert(c * d <= p + d - 1 && p + d - 1 < c * d + d) by (nonlinear_arith)
        requires d > 0, p + d - 1 >= 0, c == (p + d - 1) / d;
    assert(f <= c && c <= f + 1 && p <= c * d) by (nonlinear_arith)
        requires
            d > 0,
            f * d <= p,
            p < f * d + d,
            c * d <= p + d - 1,
            p + d - 1 < c * d + d;
}

/// A deposit followed at once by a redemption of the shares it minted never pays out
/// more assets than were put in, with Floor rounding on both legs.
pub proof fn lemma_round_trip_never_gains(assets: u64, total_assets: u64, total_shares: u64, decimals_offset: u8)
    requires
        total_assets + assets <= u64::MAX,
    ensures
        match shares_for_assets(assets, total_assets, total_shares, decimals_offset, Rounding::Floor) {
            Ok(shares) => total_shares + shares <= u64::MAX ==> match assets_for_shares(
                shares,
                (total_assets + assets) as u64,
                (total_shares + shares) as u64,
                decimals_offset,
                Rounding::Floor,
            ) {
                Ok(back) => back <= assets,
                Err(_) => true,
            },
            Err(_) => true,
        },
{
    if let Ok(shares) = shares_for_assets(assets, total_assets, total_shares, decimals_offset, Rounding::Floor) {
        if total_shares + shares <= u64::MAX {
            let v = virtual_shares(total_shares, decimals_offset);
            let w = total_assets + 1;
            let a = assets as int;
            let s = shares as int;
            assert(s == (a * v) / w);
            assert(s * w <= a * v) by (nonlinear_arith)
                requires w > 0, a * v >= 0, s == (a * v) / w;
            let w2 = w + a;
            let v2 = v + s;
            assert(s * w2 <= a * v2) by (nonlinear_arith)
                requires s * w <= a * v, w2 == w + a, v2 == v + s;
            if let Ok(back) = assets_for_shares(
                shares,
                (total_assets + assets) as u64,
                (total_shares + shares) as u64,
                decimals_offset,
                Rounding::Floor,
            ) {
                assert(virtual_shares((total_shares + shares) as u64, decimals_offset) == v2);
                assert(back == (s * w2) / v2);
                assert((s * w2) / v2 <= a) by (nonlinear_arith)
                    requires v2 > 0, s * w2 <= a * v2, s * w2 >= 0, a >= 0;
            }
        }
    }
}

/// An attacker who donates `donation >= 10^offset` assets to a vault with no shares
/// leaves a one-unit deposit with zero shares: the attack yields nothing.
pub proof fn lemma_inflation_donation_yields_nothing(donation: u64, decimals_offset: u8)
    requires
        donation >= pow10(decimals_offset as nat),
        donation < u64::MAX,
    ensures
        shares_for_assets(1, donation, 0, decimals_offset, Rounding::Floor) == Ok::<u64, VaultError>(0),
{
    let v = virtual_shares(0, decimals_offset);
    assert(v < donation + 1);
    assert((1 * v) / (donation + 1) == 0) by (nonlinear_arith)
        requires 0 <= v < donation + 1;
}

/// Rounding always favors the vault: converting with Ceiling never yields less than with
/// Floor, in either direction, whenever the Ceiling conversion succeeds.
pub proof fn lemma_conversion_rounding_favors_vault(
    amount: u64,
    total_assets: u64,
    total_shares: u64,
    decimals_offset: u8,
)
    ensures
        match shares_for_assets(amount, total_assets, total_shares, decimals_offset, Rounding::Ceiling) {
            Ok(c) => match shares_for_assets(amount, total_assets, total_shares, decimals_offset, Rounding::Floor) {
                Ok(f) => f <= c,
                Err(_) => false,
            },
            Err(_) => true,
        },
        match assets_for_shares(amount, total_assets, total_shares, decimals_offset, Rounding::Ceiling) {
            Ok(c) => match assets_for_shares(amount, total_assets, total_shares, decimals_offset, Rounding::Floor) {
                Ok(f) => f <= c,
                Err(_) => false,
            },
            Err(_) => true,
        },
{
    if !virtual_terms_overflow(total_assets, total_shares, decimals_offset) {
        let vs = virtual_shares(total_shares, decimals_offset) as u64;
        let va = (total_assets + 1) as u64;
        lemma_mul_div_rounding_bounds(amount, vs, va);
        assert(vs >= 1) by {
            assert(pow10(decimals_offset as nat) >= 1) by {
                lemma_pow10_monotone(0, decimals_offset as nat);
            }
        }
        lemma_mul_div_rounding_bounds(amount, va, vs);
    }
}

} // verus!
