//! Checked integer arithmetic over raw token amounts, fixed-point UI amounts
//! and fixed-point prices.
use vstd::prelude::*;

verus! {

/// Why an arithmetic primitive refused to produce a value.
#[derive(Debug, Clone, Copy, PartialEq, Eq, Structural)]
pub enum MathError {
    Overflow,
    DivisionByZero,
}

/// Number of decimals of a `UiAmount`.
pub const UI_DECIMALS: u8 = 18;

/// `10^UI_DECIMALS`.
pub const UI_SCALE: u128 = 1_000_000_000_000_000_000;

/// Prices are raw quote-currency units per raw token unit, multiplied by this.
pub const PRICE_SCALE: u64 = 1_000_000_000;

/// `10^n`.
pub open spec fn pow10(n: nat) -> nat
    decreases n,
{
    if n == 0 {
        1
    } else {
        10 * pow10((n - 1) as nat)
    }
}

/// Every power of ten is at least one.
pub proof fn lemma_pow10_positive(n: nat)
    ensures
        pow10(n) >= 1,
    decreases n,
{
    if n > 0 {
        lemma_pow10_positive((n - 1) as nat);
    }
}

/// Powers of ten grow with the exponent.
pub proof fn lemma_pow10_monotone(a: nat, b: nat)
    requires
        a <= b,
    ensures
        pow10(a) <= pow10(b),
    decreases b,
{
    if a < b {
        lemma_pow10_monotone(a, (b - 1) as nat);
        lemma_pow10_positive((b - 1) as nat);
    }
}

/// `a + b`, or an overflow error where the sum does not fit in 64 bits.
pub fn checked_add(a: u64, b: u64) -> (r: Result<u64, MathError>)
    ensures
        r == if a + b <= u64::MAX {
            Ok::<u64, MathError>((a + b) as u64)
        } else {
            Err::<u64, MathError>(MathError::Overflow)
        },
{
    match a.checked_add(b) {
        Some(v) => Ok(v),
        None => Err(MathError::Overflow),
    }
}

/// `a - b`, or an overflow error where `b > a`.
pub fn checked_sub(a: u64, b: u64) -> (r: Result<u64, MathError>)
    ensures
        r == if b <= a {
            Ok::<u64, MathError>((a - b) as u64)
        } else {
            Err::<u64, MathError>(MathError::Overflow)
        },
{
    match a.checked_sub(b) {
        Some(v) => Ok(v),
        None => Err(MathError::Overflow),
    }
}

/// `a * b`, or an overflow error where the product does not fit in 64 bits;
/// never a wrapped value.
pub fn checked_mul(a: u64, b: u64) -> (r: Result<u64, MathError>)
    ensures
        r == if a * b <= u64::MAX {
            Ok::<u64, MathError>((a * b) as u64)
        } else {
            Err::<u64, MathError>(MathError::Overflow)
        },
{
    match a.checked_mul(b) {
        Some(v) => Ok(v),
        None => Err(MathError::Overflow),
    }
}

/// `a / b` rounded down, or an error where `b` is zero.
pub fn checked_div(a: u64, b: u64) -> (r: Result<u64, MathError>)
    ensures
        r == if b != 0 {
            Ok::<u64, MathError>((a / b) as u64)
        } else {
            Err::<u64, MathError>(MathError::DivisionByZero)
        },
{
    match a.checked_div(b) {
        Some(v) => Ok(v),
        None => Err(MathError::DivisionByZero),
    }
}

/// `10^exp` as a 128-bit integer, or an overflow error where it does not fit.
pub fn checked_pow10(exp: u32) -> (r: Result<u128, MathError>)
    ensures
        r == if pow10(exp as nat) <= u128::MAX {
            Ok::<u128, MathError>(pow10(exp as nat) as u128)
        } else {
            Err::<u128, MathError>(MathError::Overflow)
        },
{
    let mut acc: u128 = 1;
    let mut i: u32 = 0;
    while i < exp
        invariant
            i <= exp,
            acc as nat == pow10(i as nat),
        decreases exp - i,
    {
        if acc > u128::MAX / 10 {
            proof {
                lemma_pow10_monotone((i + 1) as nat, exp as nat);
            }
            return Err(MathError::Overflow);
        }
        acc = acc * 10;
        i = i + 1;
    }
    Ok(acc)
}


/// What `a * b / c` (rounded down) gives: an error where `c` is zero or the
/// quotient does not fit in 64 bits.
pub open spec fn mul_div_result(a: u64, b: u64, c: u64) -> Result<u64, MathError> {
    if c == 0 {
        Err(MathError::DivisionByZero)
    } else if (a * b) / (c as int) > u64::MAX {
        Err(MathError::Overflow)
    } else {
        Ok(((a * b) / (c as int)) as u64)
    }
}

/// `a * b / c` rounded down, with a 128-bit intermediate product.
pub fn mul_div(a: u64, b: u64, c: u64) -> (r: Result<u64, MathError>)
    ensures
        r == mul_div_result(a, b, c),
{
    if c == 0 {
        return Err(MathError::DivisionByZero);
    }
    assert((a as u128) * (b as u128) <= u64::MAX * u64::MAX) by (nonlinear_arith);
    let product: u128 = (a as u128) * (b as u128);
    let q: u128 = product / (c as u128);
    if q > u64::MAX as u128 {
        Err(MathError::Overflow)
    } else {
        Ok(q as u64)
    }
}

/// Price in quote units per token unit (scaled by `PRICE_SCALE`) of an exchange
/// of `quote_amount` against `token_amount`.
pub fn unit_price(quote_amount: u64, token_amount: u64) -> (r: Result<u64, MathError>)
    ensures
        r == mul_div_result(quote_amount, PRICE_SCALE, token_amount),
{
    mul_div(quote_amount, PRICE_SCALE, token_amount)
}

/// Value in raw quote units of `token_amount` at `price`, rounded down.
pub fn quote_value(token_amount: u64, price: u64) -> (r: Result<u64, MathError>)
    ensures
        r == mul_div_result(token_amount, price, PRICE_SCALE),
{
    mul_div(token_amount, price, PRICE_SCALE)
}

/// Raw token units that `quote_amount` buys at `price`, rounded down.
pub fn token_quantity(quote_amount: u64, price: u64) -> (r: Result<u64, MathError>)
    ensures
        r == mul_div_result(quote_amount, PRICE_SCALE, price),
{
    mul_div(quote_amount, PRICE_SCALE, price)
}

/// A human-scaled amount held exactly: `scaled / 10^UI_DECIMALS`.
#[derive(Debug, Clone, Copy, PartialEq, Eq, Structural)]
pub struct UiAmount {
    pub scaled: u128,
}

/// What `to_ui_amount(amount, decimals)` gives.
pub open spec fn ui_amount_result(amount: u64, decimals: u8) -> Result<UiAmount, MathError> {
    if decimals <= UI_DECIMALS {
        Ok(UiAmount { scaled: (amount * pow10((UI_DECIMALS - decimals) as nat)) as u128 })
    } else {
        Ok(UiAmount { scaled: ((amount as int) / (pow10((decimals - UI_DECIMALS) as nat) as int)) as u128 })
    }
}

/// What `to_token_amount(ui, decimals)` gives.
pub open spec fn token_amount_result(ui: UiAmount, decimals: u8) -> Result<u64, MathError> {
    if decimals <= UI_DECIMALS {
        if (ui.scaled as int) / (pow10((UI_DECIMALS - decimals) as nat) as int) > u64::MAX {
            Err(MathError::Overflow)
        } else {
            Ok(((ui.scaled as int) / (pow10((UI_DECIMALS - decimals) as nat) as int)) as u64)
        }
    } else if ui.scaled * pow10((decimals - UI_DECIMALS) as nat) > u64::MAX {
        Err(MathError::Overflow)
    } else {
        Ok((ui.scaled * pow10((decimals - UI_DECIMALS) as nat)) as u64)
    }
}

proof fn lemma_pow10_small(n: nat)
    requires
        n <= 18,
    ensures
        1 <= pow10(n) <= UI_SCALE,
{
    lemma_pow10_monotone(n, 18);
    lemma_pow10_positive(n);
    reveal_with_fuel(pow10, 19);
    assert(pow10(18) == UI_SCALE);
}

/// Converts a raw amount with `decimals` decimals to a UI amount, that is
/// divides it by `10^decimals`, truncating below the UI precision. It succeeds
/// for every count of decimals.
pub fn to_ui_amount(amount: u64, decimals: u8) -> (r: Result<UiAmount, MathError>)
    ensures
        r == ui_amount_result(amount, decimals),
{
    if decimals <= UI_DECIMALS {
        let f = checked_pow10((UI_DECIMALS - decimals) as u32);
        proof {
            lemma_pow10_small((UI_DECIMALS - decimals) as nat);
        }
        match f {
            Ok(f) => {
                assert((amount as u128) * f <= u64::MAX * UI_SCALE) by (nonlinear_arith)
                    requires
                        f <= UI_SCALE,
                ;
                Ok(UiAmount { scaled: (amount as u128) * f })
            },
            Err(e) => Err(e),
        }
    } else {
        match checked_pow10((decimals - UI_DECIMALS) as u32) {
            Ok(f) => {
                proof {
                    lemma_pow10_positive((decimals - UI_DECIMALS) as nat);
                }
                Ok(UiAmount { scaled: (amount as u128) / f })
            },
            Err(_) => {
                // The divisor exceeds every 64-bit amount.
                let ghost p = pow10((decimals - UI_DECIMALS) as nat) as int;
                assert((amount as int) / p == 0) by (nonlinear_arith)
                    requires
                        0 <= amount < p,
                ;
                Ok(UiAmount { scaled: 0 })
            },
        }
    }
}

/// Converts a UI amount back to raw units with `decimals` decimals,
/// truncating, or fails where the result does not fit in 64 bits.
pub fn to_token_amount(ui: UiAmount, decimals: u8) -> (r: Result<u64, MathError>)
    ensures
        r == token_amount_result(ui, decimals),
{
    if decimals <= UI_DECIMALS {
        let f = checked_pow10((UI_DECIMALS - decimals) as u32);
        proof {
            lemma_pow10_small((UI_DECIMALS - decimals) as nat);
        }
        match f {
            Ok(f) => {
                let v: u128 = ui.scaled / f;
                if v > u64::MAX as u128 {
                    Err(MathError::Overflow)
                } else {
                    Ok(v as u64)
                }
            },
            Err(e) => Err(e),
        }
    } else if ui.scaled == 0 {
        assert(ui.scaled * pow10((decimals - UI_DECIMALS) as nat) == 0);
        Ok(0)
    } else {
        match checked_pow10((decimals - UI_DECIMALS) as u32) {
            Ok(f) => {
                match ui.scaled.checked_mul(f) {
                    Some(v) => {
                        if v > u64::MAX as u128 {
                            Err(MathError::Overflow)
                        } else {
                            Ok(v as u64)
                        }
                    },
                    None => Err(MathError::Overflow),
                }
            },
            Err(e) => {
                let ghost p = pow10((decimals - UI_DECIMALS) as nat) as int;
                assert(ui.scaled * p >= p) by (nonlinear_arith)
                    requires
                        ui.scaled >= 1,
                        p >= 0,
                ;
                Err(e)
            },
        }
    }
}

/// Converting a raw amount to a UI amount and back gives the raw amount again,
/// for every amount and every count of decimals up to 18.
pub proof fn lemma_ui_round_trip(amount: u64, decimals: u8)
    requires
        decimals <= 18,
    ensures
        ui_amount_result(amount, decimals) is Ok,
        token_amount_result(ui_amount_result(amount, decimals).unwrap(), decimals) == Ok::<
            u64,
            MathError,
        >(amount),
{
    let p = pow10((UI_DECIMALS - decimals) as nat);
    lemma_pow10_small((UI_DECIMALS - decimals) as nat);
    assert(amount * p <= u64::MAX * UI_SCALE) by (nonlinear_arith)
        requires
            p <= UI_SCALE,
    ;
    assert(((amount * p) as int) / (p as int) == amount) by (nonlinear_arith)
        requires
            p >= 1,
    ;
}

/// What `profit_from_arb(sell_price, buy_price, amount)` gives.
pub open spec fn profit_result(sell_price: u64, buy_price: u64, amount: u64) -> Result<
    i128,
    MathError,
> {
    if amount * sell_price > i128::MAX || amount * buy_price > i128::MAX {
        Err(MathError::Overflow)
    } else {
        Ok((amount * sell_price - amount * buy_price) as i128)
    }
}

/// Profit of buying `amount` at `buy_price` and selling it at `sell_price`:
/// `amount * sell_price - amount * buy_price`, or an overflow error where
/// either product does not fit in a signed 128-bit integer.
pub fn profit_from_arb(sell_price: u64, buy_price: u64, amount: u64) -> (r: Result<
    i128,
    MathError,
>)
    ensures
        r == profit_result(sell_price, buy_price, amount),
{
    assert((amount as u128) * (sell_price as u128) <= u64::MAX * u64::MAX) by (nonlinear_arith);
    assert((amount as u128) * (buy_price as u128) <= u64::MAX * u64::MAX) by (nonlinear_arith);
    let proceeds: u128 = (amount as u128) * (sell_price as u128);
    let cost: u128 = (amount as u128) * (buy_price as u128);
    if proceeds > i128::MAX as u128 || cost > i128::MAX as u128 {
        return Err(MathError::Overflow);
    }
    Ok(proceeds as i128 - cost as i128)
}

/// The profit is linear in the amount: where the doubled amount gives a
/// profit, the amount gives one too, and the first is twice the second.
pub proof fn lemma_profit_linear(sell_price: u64, buy_price: u64, amount: u64)
    requires
        2 * amount <= u64::MAX,
        profit_result(sell_price, buy_price, (2 * amount) as u64) is Ok,
    ensures
        profit_result(sell_price, buy_price, amount) is Ok,
        profit_result(sell_price, buy_price, (2 * amount) as u64).unwrap() == 2 * profit_result(
            sell_price,
            buy_price,
            amount,
        ).unwrap(),
{
    assert((2 * amount) * sell_price == 2 * (amount * sell_price)) by (nonlinear_arith);
    assert((2 * amount) * buy_price == 2 * (amount * buy_price)) by (nonlinear_arith);
    assert(amount * sell_price >= 0 && amount * buy_price >= 0) by (nonlinear_arith);
}


/// `r` is the integer square root of `n`.
pub open spec fn is_isqrt(n: int, r: int) -> bool {
    0 <= r && r * r <= n < (r + 1) * (r + 1)
}

/// The integer square root of `n >= 0`: the largest `r` with `r * r <= n`.
pub open spec fn isqrt(n: int) -> int {
    choose|r: int| is_isqrt(n, r)
}

/// Two integer square roots of one number are equal, so `isqrt` names the one
/// that exists.
pub proof fn lemma_isqrt_unique(n: int, r: int)
    requires
        is_isqrt(n, r),
    ensures
        isqrt(n) == r,
{
    let s = isqrt(n);
    assert(is_isqrt(n, s));
    if s < r {
        assert((s + 1) * (s + 1) <= r * r) by (nonlinear_arith)
            requires
                0 <= s < r,
        ;
    } else if s > r {
        assert((r + 1) * (r + 1) <= s * s) by (nonlinear_arith)
            requires
                0 <= r < s,
        ;
    }
}

/// Every number has an integer square root.
pub proof fn lemma_isqrt_exists(n: nat)
    ensures
        is_isqrt(n as int, isqrt(n as int)),
    decreases n,
{
    if n == 0 {
        assert(is_isqrt(0, 0));
    } else {
        lemma_isqrt_exists((n - 1) as nat);
        let r = isqrt(n - 1);
        if (r + 1) * (r + 1) <= n {
            assert((r + 2) * (r + 2) > n) by (nonlinear_arith)
                requires
                    n - 1 < (r + 1) * (r + 1),
                    r >= 0,
            ;
            assert(is_isqrt(n as int, r + 1));
        } else {
            assert(is_isqrt(n as int, r));
        }
    }
}

/// Integer square root, by bisection.
pub fn integer_sqrt(n: u64) -> (r: u64)
    ensures
        is_isqrt(n as int, r as int),
        r as int == isqrt(n as int),
{
    let mut lo: u64 = 0;
    let mut hi: u64 = 0x1_0000_0000;
    assert(n < hi * hi);
    while hi - lo > 1
        invariant
            lo < hi <= 0x1_0000_0000,
            lo * lo <= n,
            n < hi * hi,
        decreases hi - lo,
    {
        let mid: u64 = lo + (hi - lo) / 2;
        assert(mid * mid <= 0x1_0000_0000 * 0x1_0000_0000) by (nonlinear_arith)
            requires
                mid <= 0x1_0000_0000,
        ;
        if (mid as u128) * (mid as u128) <= n as u128 {
            lo = mid;
        } else {
            hi = mid;
        }
    }
    assert(hi == lo + 1);
    proof {
        lemma_isqrt_unique(n as int, lo as int);
    }
    lo
}


/// Conversion of a UI amount to raw units.
pub trait UiAmountExt {
    spec fn spec_to_token_amount(&self, decimals: u8) -> Result<u64, MathError>;

    /// The raw amount with `decimals` decimals; defined where it fits.
    fn to_token_amount(&self, decimals: u8) -> (r: u64)
        requires
            self.spec_to_token_amount(decimals) is Ok,
        ensures
            Ok::<u64, MathError>(r) == self.spec_to_token_amount(decimals),
    ;
}

impl UiAmountExt for UiAmount {
    open spec fn spec_to_token_amount(&self, decimals: u8) -> Result<u64, MathError> {
        token_amount_result(*self, decimals)
    }

    fn to_token_amount(&self, decimals: u8) -> (r: u64) {
        match to_token_amount(*self, decimals) {
            Ok(v) => v,
            Err(_) => 0,
        }
    }
}

/// Conversion of a raw amount to a UI amount.
pub trait TokenAmountExt {
    spec fn spec_to_ui_amount(&self, decimals: u8) -> Result<UiAmount, MathError>;

    /// The UI amount of this raw amount with `decimals` decimals.
    fn to_ui_amount(&self, decimals: u8) -> (r: UiAmount)
        requires
            self.spec_to_ui_amount(decimals) is Ok,
        ensures
            Ok::<UiAmount, MathError>(r) == self.spec_to_ui_amount(decimals),
    ;
}

impl TokenAmountExt for u64 {
    open spec fn spec_to_ui_amount(&self, decimals: u8) -> Result<UiAmount, MathError> {
        ui_amount_result(*self, decimals)
    }

    fn to_ui_amount(&self, decimals: u8) -> (r: UiAmount) {
        match to_ui_amount(*self, decimals) {
            Ok(v) => v,
            Err(_) => UiAmount { scaled: 0 },
        }
    }
}

} // verus!
