use vstd::prelude::*;

use crate::amm::constants::FEE_DENOMINATOR;
use crate::amm::errors::AmmError;
use crate::pubkey::Pubkey;

verus! {

/// Emitted by a deposit: what went in and how much LP came out.
#[derive(Clone, Copy, Debug)]
pub struct DepositEvent {
    pub user: Pubkey,
    pub amount_x: u64,
    pub amount_y: u64,
    pub lp_minted: u64,
}

/// Emitted by a swap.
#[derive(Clone, Copy, Debug)]
pub struct SwapEvent {
    pub user: Pubkey,
    pub amount_in: u64,
    pub amount_out: u64,
    pub fee: u64,
    pub x_to_y: bool,
}

/// Emitted by a withdrawal.
#[derive(Clone, Copy, Debug)]
pub struct WithdrawEvent {
    pub user: Pubkey,
    pub lp_burned: u64,
    pub amount_x: u64,
    pub amount_y: u64,
}

// ---------------------------------------------------------------------------
// Specifications
// ---------------------------------------------------------------------------

/// `r` is the integer square root of `n`.
pub open spec fn is_floor_sqrt(n: int, r: int) -> bool {
    &&& 0 <= r
    &&& r * r <= n
    &&& n < (r + 1) * (r + 1)
}

/// The integer square root of `n`.
pub open spec fn floor_sqrt(n: nat) -> nat {
    choose|r: nat| is_floor_sqrt(n as int, r as int)
}

/// LP tokens minted by the first deposit into an empty pool: the integer
/// square root of `amount_x * amount_y`, refused when it is zero.
pub open spec fn initial_lp_spec(amount_x: u64, amount_y: u64) -> Result<u64, AmmError> {
    if amount_x == 0 || amount_y == 0 {
        Err(AmmError::ZeroLpAmount)
    } else {
        Ok(floor_sqrt((amount_x * amount_y) as nat) as u64)
    }
}

/// LP tokens minted by a deposit: the square-root rule while the pool has no
/// LP supply, the proportional rule afterwards.
pub open spec fn lp_tokens_spec(
    vault_x: u64,
    vault_y: u64,
    lp_supply: u64,
    amount_x: u64,
    amount_y: u64,
) -> Result<u64, AmmError> {
    if lp_supply == 0 {
        initial_lp_spec(amount_x, amount_y)
    } else {
        deposit_lp_spec(vault_x, vault_y, lp_supply, amount_x, amount_y)
    }
}

/// `amount * lp_supply / vault`, the LP that a deposit of `amount` into
/// `vault` earns.
pub open spec fn lp_share(amount: u64, lp_supply: u64, vault: u64) -> int {
    (amount as int * lp_supply as int) / (vault as int)
}

/// Result of a deposit into a pool that already has LP supply: the smaller
/// proportional share, refused when it does not fit in `u64` or is zero.
pub open spec fn deposit_lp_spec(
    vault_x: u64,
    vault_y: u64,
    lp_supply: u64,
    amount_x: u64,
    amount_y: u64,
) -> Result<u64, AmmError> {
    if vault_x == 0 || vault_y == 0 {
        Err(AmmError::MathOverflow)
    } else {
        let lp_x = lp_share(amount_x, lp_supply, vault_x);
        let lp_y = lp_share(amount_y, lp_supply, vault_y);
        let lp = if lp_x <= lp_y { lp_x } else { lp_y };
        if lp > u64::MAX {
            Err(AmmError::MathOverflow)
        } else if lp > 0 {
            Ok(lp as u64)
        } else {
            Err(AmmError::ZeroLpAmount)
        }
    }
}

/// Input that remains after the fee is taken: `amount_in * (10000 - fee_rate) / 10000`.
pub open spec fn amount_after_fee(amount_in: u64, fee_rate: u16) -> int {
    (amount_in as int * (FEE_DENOMINATOR as int - fee_rate as int)) / (FEE_DENOMINATOR as int)
}

/// Output of a constant-product swap: `vault_out * dx' / (vault_in + dx')`.
pub open spec fn swap_output(vault_in: u64, vault_out: u64, after_fee: int) -> int {
    (vault_out as int * after_fee) / (vault_in as int + after_fee)
}

/// Result of swapping `amount_in` into a pool with reserves `vault_in` / `vault_out`:
/// `(amount_out, fee)`.
pub open spec fn swap_spec(vault_in: u64, vault_out: u64, amount_in: u64, fee_rate: u16) -> Result<
    (u64, u64),
    AmmError,
> {
    if amount_in == 0 || vault_in == 0 || vault_out == 0 {
        Err(AmmError::ZeroAmount)
    } else {
        let after = amount_after_fee(amount_in, fee_rate);
        let out = swap_output(vault_in, vault_out, after);
        if out == 0 {
            Err(AmmError::ZeroAmount)
        } else {
            Ok((out as u64, (amount_in - after) as u64))
        }
    }
}

/// Result of burning `lp_amount` of `lp_supply` against reserves `vault_x` / `vault_y`.
pub open spec fn withdraw_spec(vault_x: u64, vault_y: u64, lp_supply: u64, lp_amount: u64) -> Result<
    (u64, u64),
    AmmError,
> {
    if lp_amount == 0 || lp_supply == 0 {
        Err(AmmError::ZeroLpAmount)
    } else if lp_amount > lp_supply {
        Err(AmmError::MathOverflow)
    } else {
        let x_out = (vault_x as int * lp_amount as int) / (lp_supply as int);
        let y_out = (vault_y as int * lp_amount as int) / (lp_supply as int);
        if x_out == 0 || y_out == 0 {
            Err(AmmError::ZeroAmount)
        } else {
            Ok((x_out as u64, y_out as u64))
        }
    }
}

// ---------------------------------------------------------------------------
// Arithmetic lemmas
// ---------------------------------------------------------------------------

proof fn lemma_div_bounds(n: int, d: int)
    requires
        n >= 0,
        d > 0,
    ensures
        (n / d) * d <= n,
        n < (n / d + 1) * d,
        n / d >= 0,
{
    vstd::arithmetic::div_mod::lemma_fundamental_div_mod(n, d);
    vstd::arithmetic::div_mod::lemma_mod_bound(n, d);
    vstd::arithmetic::div_mod::lemma_div_pos_is_pos(n, d);
    assert((n / d) * d == d * (n / d)) by (nonlinear_arith);
    assert((n / d + 1) * d == (n / d) * d + d) by (nonlinear_arith);
}

/// One Newton step from any positive guess lands at or above the square root.
proof fn lemma_newton_step_above(n: int, x: int)
    requires
        n >= 1,
        x >= 1,
    ensures
        n < ((x + n / x) / 2 + 1) * ((x + n / x) / 2 + 1),
{
    let q = n / x;
    let y = (x + q) / 2;
    lemma_div_bounds(n, x);
    lemma_div_bounds(x + q, 2);
    assert(n < (q + 1) * x);
    assert(2 * (y + 1) >= x + (q + 1));
    // (x + (q + 1))^2 >= 4 * x * (q + 1)
    assert((x + (q + 1)) * (x + (q + 1)) - 4 * x * (q + 1) == (x - (q + 1)) * (x - (q + 1)))
        by (nonlinear_arith);
    assert((x - (q + 1)) * (x - (q + 1)) >= 0) by (nonlinear_arith);
    let a = 2 * (y + 1);
    let b = x + (q + 1);
    assert(a * a >= b * b) by (nonlinear_arith)
        requires
            a >= b,
            b >= 0,
    ;
    assert(4 * n < 4 * x * (q + 1)) by (nonlinear_arith)
        requires
            n < (q + 1) * x,
    ;
    assert(a * a == 4 * ((y + 1) * (y + 1))) by (nonlinear_arith)
        requires
            a == 2 * (y + 1),
    ;
}

/// When the Newton step does not go down, the guess is at most the square root.
proof fn lemma_newton_stop(n: int, x: int)
    requires
        n >= 1,
        x >= 1,
        (x + n / x) / 2 >= x,
    ensures
        x * x <= n,
{
    let q = n / x;
    lemma_div_bounds(n, x);
    lemma_div_bounds(x + q, 2);
    assert(q >= x);
    assert(x * x <= q * x) by (nonlinear_arith)
        requires
            q >= x,
            x >= 1,
    ;
}

/// The Newton step never overflows: `x + n / x <= n + 1` for `1 <= x <= n`.
proof fn lemma_newton_sum_bound(n: int, x: int)
    requires
        1 <= x <= n,
    ensures
        x + n / x <= n + 1,
        n / x >= 1,
{
    let q = n / x;
    lemma_div_bounds(n, x);
    assert(q >= 1) by (nonlinear_arith)
        requires
            n < (q + 1) * x,
            x <= n,
            q >= 0,
            x >= 1,
    ;
    assert((x - 1) * (q - 1) >= 0) by (nonlinear_arith)
        requires
            x >= 1,
            q >= 1,
    ;
    assert(x + q <= q * x + 1) by (nonlinear_arith)
        requires
            (x - 1) * (q - 1) >= 0,
    ;
}

/// The integer square root is unique, so `floor_sqrt` names it.
pub proof fn lemma_floor_sqrt_unique(n: int, r: int)
    requires
        is_floor_sqrt(n, r),
    ensures
        floor_sqrt(n as nat) == r,
{
    assert(is_floor_sqrt(n as nat as int, r as nat as int));
    let c = floor_sqrt(n as nat) as int;
    assert(is_floor_sqrt(n, c));
    if c < r {
        assert((c + 1) * (c + 1) <= r * r) by (nonlinear_arith)
            requires
                0 <= c,
                c + 1 <= r,
        ;
    } else if r < c {
        assert((r + 1) * (r + 1) <= c * c) by (nonlinear_arith)
            requires
                0 <= r,
                r + 1 <= c,
        ;
    }
}

proof fn lemma_u64_product_fits(a: u64, b: u64)
    ensures
        (a as int) * (b as int) < u128::MAX,
{
    let m = u64::MAX as int;
    assert(a as int * b as int <= m * m) by (nonlinear_arith)
        requires
            0 <= a <= m,
            0 <= b <= m,
    ;
    assert(m * m < u128::MAX);
}

proof fn lemma_sqrt_of_product_fits(a: u64, b: u64, r: int)
    requires
        r >= 0,
        r * r <= a as int * b as int,
    ensures
        r <= u64::MAX,
{
    let m = u64::MAX as int;
    assert(a as int * b as int <= m * m) by (nonlinear_arith)
        requires
            0 <= a <= m,
            0 <= b <= m,
    ;
    if r > m {
        assert(r * r > m * m) by (nonlinear_arith)
            requires
                r > m,
                m >= 0,
        ;
    }
}

/// Truncating a non-negative value to `u64` never makes it larger.
proof fn lemma_after_fee_bounds(amount_in: u64, fee_rate: u16)
    requires
        fee_rate as u64 <= FEE_DENOMINATOR,
    ensures
        0 <= amount_after_fee(amount_in, fee_rate) <= amount_in,
{
    let keep = FEE_DENOMINATOR as int - fee_rate as int;
    let scaled = amount_in as int * keep;
    assert(0 <= scaled <= amount_in as int * 10000) by (nonlinear_arith)
        requires
            scaled == amount_in as int * keep,
            0 <= keep <= 10000,
            amount_in >= 0,
    ;
    lemma_div_bounds(scaled, 10000);
    assert(scaled / 10000 <= amount_in as int) by (nonlinear_arith)
        requires
            (scaled / 10000) * 10000 <= scaled,
            scaled <= amount_in as int * 10000,
    ;
}

/// With `0 <= f <= a`, the output `vo * f / (vi + f)` stays below `vo` and the
/// reserves after the swap keep the product `vi * vo`.
proof fn lemma_swap_output_bounds(vi: int, vo: int, a: int, f: int)
    requires
        vi >= 1,
        vo >= 1,
        0 <= f <= a,
    ensures
        0 <= (vo * f) / (vi + f) < vo,
        (vi + a) * (vo - (vo * f) / (vi + f)) >= vi * vo,
{
    assert(vo * f >= 0) by (nonlinear_arith)
        requires
            vo >= 1,
            f >= 0,
    ;
    lemma_div_bounds(vo * f, vi + f);
    let o = (vo * f) / (vi + f);
    assert(o * (vi + f) <= vo * f);
    assert(o < vo) by (nonlinear_arith)
        requires
            o * (vi + f) <= vo * f,
            vi >= 1,
            vo >= 1,
            f >= 0,
    ;
    assert((vi + f) * (vo - o) >= vi * vo) by (nonlinear_arith)
        requires
            o * (vi + f) <= vo * f,
    ;
    assert((vi + a) * (vo - o) >= (vi + f) * (vo - o)) by (nonlinear_arith)
        requires
            a >= f,
            vo - o >= 0,
    ;
}

/// A swap never drains the output reserve, charges a fee of at most the
/// input, and never lowers the constant product: the reserves after the swap,
/// `(vault_in + amount_in) * (vault_out - amount_out)`, are at least
/// `vault_in * vault_out`.
pub proof fn lemma_swap_keeps_product(vault_in: u64, vault_out: u64, amount_in: u64, fee_rate: u16)
    requires
        fee_rate as u64 <= FEE_DENOMINATOR,
    ensures
        swap_spec(vault_in, vault_out, amount_in, fee_rate) matches Ok((out, fee)) ==> {
            &&& 0 < out < vault_out
            &&& fee <= amount_in
            &&& fee as int + amount_after_fee(amount_in, fee_rate) == amount_in as int
            &&& (vault_in as int + amount_in as int) * (vault_out as int - out as int)
                >= vault_in as int * vault_out as int
        },
{
    if amount_in > 0 && vault_in > 0 && vault_out > 0 {
        lemma_after_fee_bounds(amount_in, fee_rate);
        lemma_swap_output_bounds(
            vault_in as int,
            vault_out as int,
            amount_in as int,
            amount_after_fee(amount_in, fee_rate),
        );
    }
}

/// A withdrawal pays out at most the burnt share of each reserve:
/// `x_out * lp_supply <= vault_x * lp_amount` (and the same for Y), so never
/// more than the reserve itself.
pub proof fn lemma_withdraw_pro_rata(vault_x: u64, vault_y: u64, lp_supply: u64, lp_amount: u64)
    ensures
        withdraw_spec(vault_x, vault_y, lp_supply, lp_amount) matches Ok((x_out, y_out)) ==> {
            &&& x_out as int * lp_supply as int <= vault_x as int * lp_amount as int
            &&& y_out as int * lp_supply as int <= vault_y as int * lp_amount as int
            &&& x_out <= vault_x
            &&& y_out <= vault_y
        },
{
    if lp_amount > 0 && lp_supply > 0 && lp_amount <= lp_supply {
        lemma_pro_rata_bounds(vault_x, lp_amount, lp_supply);
        lemma_pro_rata_bounds(vault_y, lp_amount, lp_supply);
    }
}

proof fn lemma_pro_rata_bounds(vault: u64, lp_amount: u64, lp_supply: u64)
    requires
        0 < lp_amount <= lp_supply,
    ensures
        ((vault as int * lp_amount as int) / (lp_supply as int)) * lp_supply as int <= vault as int
            * lp_amount as int,
        (vault as int * lp_amount as int) / (lp_supply as int) <= vault as int,
{
    let p = vault as int * lp_amount as int;
    assert(p >= 0) by (nonlinear_arith)
        requires
            p == vault as int * lp_amount as int,
            vault >= 0,
            lp_amount >= 0,
    ;
    lemma_div_bounds(p, lp_supply as int);
    let q = p / (lp_supply as int);
    assert(q <= vault as int) by (nonlinear_arith)
        requires
            q * lp_supply as int <= vault as int * lp_amount as int,
            lp_amount <= lp_supply,
            lp_amount >= 1,
            q >= 0,
    ;
}

/// A deposit into a pool with supply never mints more than the deposit's
/// proportional share of either reserve: `lp * vault_x <= amount_x * lp_supply`
/// and `lp * vault_y <= amount_y * lp_supply`, so existing holders are not
/// diluted.
pub proof fn lemma_deposit_no_dilution(
    vault_x: u64,
    vault_y: u64,
    lp_supply: u64,
    amount_x: u64,
    amount_y: u64,
)
    ensures
        deposit_lp_spec(vault_x, vault_y, lp_supply, amount_x, amount_y) matches Ok(lp) ==> {
            &&& lp as int * vault_x as int <= amount_x as int * lp_supply as int
            &&& lp as int * vault_y as int <= amount_y as int * lp_supply as int
        },
{
    if vault_x > 0 && vault_y > 0 {
        lemma_share_bound(amount_x, lp_supply, vault_x);
        lemma_share_bound(amount_y, lp_supply, vault_y);
        let lp_x = lp_share(amount_x, lp_supply, vault_x);
        let lp_y = lp_share(amount_y, lp_supply, vault_y);
        let lp = if lp_x <= lp_y { lp_x } else { lp_y };
        assert(lp * vault_x as int <= lp_x * vault_x as int) by (nonlinear_arith)
            requires
                lp <= lp_x,
                vault_x >= 0,
        ;
        assert(lp * vault_y as int <= lp_y * vault_y as int) by (nonlinear_arith)
            requires
                lp <= lp_y,
                vault_y >= 0,
        ;
    }
}

proof fn lemma_share_bound(amount: u64, lp_supply: u64, vault: u64)
    requires
        vault > 0,
    ensures
        0 <= lp_share(amount, lp_supply, vault),
        lp_share(amount, lp_supply, vault) * vault as int <= amount as int * lp_supply as int,
        lp_share(amount, lp_supply, vault) <= amount as int * lp_supply as int,
{
    let p = amount as int * lp_supply as int;
    assert(p >= 0) by (nonlinear_arith)
        requires
            p == amount as int * lp_supply as int,
            amount >= 0,
            lp_supply >= 0,
    ;
    lemma_div_bounds(p, vault as int);
    let q = p / (vault as int);
    assert(q <= p) by (nonlinear_arith)
        requires
            q * vault as int <= p,
            vault >= 1,
            q >= 0,
    ;
}

/// A quotient is at most `b` when the dividend is at most `b` times the divisor.
proof fn lemma_quotient_at_most(n: int, d: int, b: int)
    requires
        n >= 0,
        d > 0,
        n <= b * d,
    ensures
        n / d <= b,
{
    lemma_div_bounds(n, d);
    assert(n / d <= b) by (nonlinear_arith)
        requires
            (n / d) * d <= n,
            n <= b * d,
            d > 0,
    ;
}

/// Swapping X for Y and at once swapping the Y received back never returns
/// more X than was put in.
pub proof fn lemma_swap_round_trip(vault_x: u64, vault_y: u64, amount_in: u64, fee_rate: u16)
    requires
        fee_rate as u64 <= FEE_DENOMINATOR,
        vault_x + amount_in <= u64::MAX,
    ensures
        swap_spec(vault_x, vault_y, amount_in, fee_rate) matches Ok((out, _)) ==> (swap_spec(
            (vault_y - out) as u64,
            (vault_x + amount_in) as u64,
            out,
            fee_rate,
        ) matches Ok((back, _)) ==> back <= amount_in),
{
    if let Ok((out, _)) = swap_spec(vault_x, vault_y, amount_in, fee_rate) {
        let x = vault_x as int;
        let y = vault_y as int;
        let a = amount_in as int;
        let af = amount_after_fee(amount_in, fee_rate);
        lemma_after_fee_bounds(amount_in, fee_rate);
        lemma_swap_output_bounds(x, y, a, af);
        let o = swap_output(vault_x, vault_y, af);
        assert(y * af >= 0) by (nonlinear_arith)
            requires
                y >= 0,
                af >= 0,
        ;
        lemma_div_bounds(y * af, x + af);
        assert(o == out as int);
        // the Y received is worth no more than `amount_in` at the new reserves:
        // o * (x + a) <= y * a, that is o * x <= (y - o) * a
        assert(o * x <= (y - o) * a) by (nonlinear_arith)
            requires
                o * (x + af) <= y * af,
                0 <= af <= a,
                0 <= o <= y,
                x >= 0,
        ;
        if let Ok((back, _)) = swap_spec((vault_y - out) as u64, (vault_x + amount_in) as u64, out, fee_rate) {
            let rest = y - o;
            let t = amount_after_fee(out, fee_rate);
            lemma_after_fee_bounds(out, fee_rate);
            assert((x + a) * t >= 0) by (nonlinear_arith)
                requires
                    x + a >= 0,
                    t >= 0,
            ;
            assert(rest >= 1);
            assert((x + a) * t <= a * (rest + t)) by (nonlinear_arith)
                requires
                    o * x <= rest * a,
                    0 <= t <= o,
                    x >= 0,
                    a >= 0,
            ;
            lemma_quotient_at_most((x + a) * t, rest + t, a);
        }
    }
}

/// Depositing into a pool with LP supply and at once burning the LP minted
/// never returns more of either token than was deposited.
pub proof fn lemma_deposit_withdraw_round_trip(
    vault_x: u64,
    vault_y: u64,
    lp_supply: u64,
    amount_x: u64,
    amount_y: u64,
)
    requires
        vault_x + amount_x <= u64::MAX,
        vault_y + amount_y <= u64::MAX,
    ensures
        deposit_lp_spec(vault_x, vault_y, lp_supply, amount_x, amount_y) matches Ok(lp) ==> (
        lp_supply + lp <= u64::MAX ==> (withdraw_spec(
            (vault_x + amount_x) as u64,
            (vault_y + amount_y) as u64,
            (lp_supply + lp) as u64,
            lp,
        ) matches Ok((x_out, y_out)) ==> x_out <= amount_x && y_out <= amount_y)),
{
    if let Ok(lp) = deposit_lp_spec(vault_x, vault_y, lp_supply, amount_x, amount_y) {
        if lp_supply + lp <= u64::MAX {
            lemma_deposit_no_dilution(vault_x, vault_y, lp_supply, amount_x, amount_y);
            let l = lp_supply as int;
            let m = lp as int;
            let vx = vault_x as int;
            let vy = vault_y as int;
            let ax = amount_x as int;
            let ay = amount_y as int;
            assert((vx + ax) * m >= 0 && (vy + ay) * m >= 0) by (nonlinear_arith)
                requires
                    vx + ax >= 0,
                    vy + ay >= 0,
                    m >= 0,
            ;
            assert((vx + ax) * m <= ax * (l + m)) by (nonlinear_arith)
                requires
                    m * vx <= ax * l,
            ;
            assert((vy + ay) * m <= ay * (l + m)) by (nonlinear_arith)
                requires
                    m * vy <= ay * l,
            ;
            assert(m > 0);
            lemma_quotient_at_most((vx + ax) * m, l + m, ax);
            lemma_quotient_at_most((vy + ay) * m, l + m, ay);
        }
    }
}

/// What a swap pays, in plain arithmetic: with `kept = amount_in - fee` the
/// input left after the fee, `kept` is `amount_in * (10_000 - fee_rate) /
/// 10_000` rounded down and the output is `vault_out * kept / (vault_in +
/// kept)` rounded down, never zero. An empty input or reserve is refused.
pub proof fn lemma_swap_pays_the_curve(vault_in: u64, vault_out: u64, amount_in: u64, fee_rate: u16)
    requires
        fee_rate as u64 <= FEE_DENOMINATOR,
    ensures
        swap_spec(vault_in, vault_out, amount_in, fee_rate) matches Ok((out, fee)) ==> {
            let kept = amount_in - fee;
            &&& fee <= amount_in
            &&& kept * 10_000 <= amount_in * (10_000 - fee_rate)
            &&& amount_in * (10_000 - fee_rate) < (kept + 1) * 10_000
            &&& out * (vault_in + kept) <= vault_out * kept
            &&& vault_out * kept < (out + 1) * (vault_in + kept)
            &&& out > 0
        },
        amount_in == 0 || vault_in == 0 || vault_out == 0 ==> swap_spec(
            vault_in,
            vault_out,
            amount_in,
            fee_rate,
        ) == Err::<(u64, u64), AmmError>(AmmError::ZeroAmount),
{
    if amount_in > 0 && vault_in > 0 && vault_out > 0 {
        let keep = 10_000 - fee_rate as int;
        let scaled = amount_in as int * keep;
        assert(scaled >= 0) by (nonlinear_arith)
            requires
                scaled == amount_in as int * keep,
                keep >= 0,
        ;
        lemma_div_bounds(scaled, 10_000);
        lemma_after_fee_bounds(amount_in, fee_rate);
        let after = amount_after_fee(amount_in, fee_rate);
        assert(vault_out as int * after >= 0) by (nonlinear_arith)
            requires
                after >= 0,
        ;
        lemma_div_bounds(vault_out as int * after, vault_in as int + after);
        lemma_swap_output_bounds(vault_in as int, vault_out as int, amount_in as int, after);
    }
}

/// What a deposit into a pool with supply mints, in plain arithmetic: the
/// largest `lp` with `lp * vault_x <= amount_x * lp_supply` and `lp * vault_y
/// <= amount_y * lp_supply`, that is the smaller proportional share rounded
/// down.
pub proof fn lemma_deposit_mints_the_smaller_share(
    vault_x: u64,
    vault_y: u64,
    lp_supply: u64,
    amount_x: u64,
    amount_y: u64,
)
    ensures
        deposit_lp_spec(vault_x, vault_y, lp_supply, amount_x, amount_y) matches Ok(lp) ==> {
            &&& lp > 0
            &&& lp * vault_x <= amount_x * lp_supply
            &&& lp * vault_y <= amount_y * lp_supply
            &&& ((lp + 1) * vault_x > amount_x * lp_supply || (lp + 1) * vault_y > amount_y
                * lp_supply)
        },
        vault_x == 0 || vault_y == 0 ==> deposit_lp_spec(
            vault_x,
            vault_y,
            lp_supply,
            amount_x,
            amount_y,
        ) == Err::<u64, AmmError>(AmmError::MathOverflow),
{
    if vault_x > 0 && vault_y > 0 {
        lemma_deposit_no_dilution(vault_x, vault_y, lp_supply, amount_x, amount_y);
        let px = amount_x as int * lp_supply as int;
        let py = amount_y as int * lp_supply as int;
        lemma_share_bound(amount_x, lp_supply, vault_x);
        lemma_share_bound(amount_y, lp_supply, vault_y);
        lemma_div_bounds(px, vault_x as int);
        lemma_div_bounds(py, vault_y as int);
    }
}

/// What a withdrawal returns, in plain arithmetic: `vault * lp_amount /
/// lp_supply` of each token, rounded down. Burning nothing, or from no
/// supply, is refused, and so is burning more than the supply.
pub proof fn lemma_withdraw_pays_the_share(vault_x: u64, vault_y: u64, lp_supply: u64, lp_amount: u64)
    ensures
        withdraw_spec(vault_x, vault_y, lp_supply, lp_amount) matches Ok((x_out, y_out)) ==> {
            &&& x_out > 0 && y_out > 0
            &&& x_out * lp_supply <= vault_x * lp_amount
            &&& vault_x * lp_amount < (x_out + 1) * lp_supply
            &&& y_out * lp_supply <= vault_y * lp_amount
            &&& vault_y * lp_amount < (y_out + 1) * lp_supply
        },
        lp_amount == 0 || lp_supply == 0 ==> withdraw_spec(vault_x, vault_y, lp_supply, lp_amount)
            == Err::<(u64, u64), AmmError>(AmmError::ZeroLpAmount),
        0 < lp_supply < lp_amount ==> withdraw_spec(vault_x, vault_y, lp_supply, lp_amount) == Err::<
            (u64, u64),
            AmmError,
        >(AmmError::MathOverflow),
{
    if lp_amount > 0 && lp_supply > 0 && lp_amount <= lp_supply {
        lemma_pro_rata_bounds(vault_x, lp_amount, lp_supply);
        lemma_pro_rata_bounds(vault_y, lp_amount, lp_supply);
        assert(vault_x as int * lp_amount as int >= 0 && vault_y as int * lp_amount as int >= 0)
            by (nonlinear_arith);
        lemma_div_bounds(vault_x as int * lp_amount as int, lp_supply as int);
        lemma_div_bounds(vault_y as int * lp_amount as int, lp_supply as int);
    }
}

// ---------------------------------------------------------------------------
// Executable functions
// ---------------------------------------------------------------------------

/// Integer square root by Newton's method.
fn integer_sqrt(n: u128) -> (r: u128)
    requires
        n < u128::MAX,
    ensures
        is_floor_sqrt(n as int, r as int),
{
    if n == 0 {
        assert(0int * 0int == 0 && (0int + 1) * (0int + 1) == 1) by (nonlinear_arith);
        return 0;
    }
    let mut x = n;
    let mut y = (x + 1) / 2;
    proof {
        vstd::arithmetic::div_mod::lemma_div_by_self(n as int);
        assert((n as int) < (n as int + 1) * (n as int + 1)) by (nonlinear_arith)
            requires
                n >= 1,
        ;
    }
    while y < x
        invariant
            1 <= x <= n,
            n < u128::MAX,
            y as int == (x as int + n as int / x as int) / 2,
            (n as int) < (x as int + 1) * (x as int + 1),
        decreases x,
    {
        proof {
            lemma_newton_step_above(n as int, x as int);
            assert((n as int) < (y as int + 1) * (y as int + 1));
            if y == 0 {
                assert((0int + 1) * (0int + 1) == 1) by (nonlinear_arith);
            }
        }
        x = y;
        proof {
            lemma_newton_sum_bound(n as int, x as int);
        }
        y = (x + n / x) / 2;
    }
    proof {
        lemma_newton_stop(n as int, x as int);
    }
    x
}

/// LP tokens for the first deposit into an empty pool: `sqrt(amount_x * amount_y)`.
pub fn calculate_initial_lp_tokens(amount_x: u64, amount_y: u64) -> (r: Result<u64, AmmError>)
    ensures
        r == initial_lp_spec(amount_x, amount_y),
        r matches Ok(lp) ==> lp > 0 && is_floor_sqrt(amount_x * amount_y, lp as int),
{
    proof {
        lemma_u64_product_fits(amount_x, amount_y);
    }
    let product = (amount_x as u128) * (amount_y as u128);
    let root = integer_sqrt(product);
    proof {
        lemma_sqrt_of_product_fits(amount_x, amount_y, root as int);
    }
    let lp = root as u64;
    proof {
        lemma_floor_sqrt_unique(amount_x * amount_y, root as int);
    }
    if lp > 0 {
        proof {
            if amount_x == 0 || amount_y == 0 {
                assert(amount_x as int * amount_y as int == 0) by (nonlinear_arith)
                    requires
                        amount_x == 0 || amount_y == 0,
                ;
                assert(lp as int * lp as int >= 1) by (nonlinear_arith)
                    requires
                        lp >= 1,
                ;
            }
        }
        Ok(lp)
    } else {
        proof {
            if amount_x > 0 && amount_y > 0 {
                assert(amount_x as int * amount_y as int >= 1) by (nonlinear_arith)
                    requires
                        amount_x >= 1,
                        amount_y >= 1,
                ;
            }
        }
        Err(AmmError::ZeroLpAmount)
    }
}

/// LP tokens to mint for a deposit: the square-root rule for an empty pool
/// (`lp_supply == 0`), the proportional rule otherwise.
pub fn lp_tokens(vault_x: u64, vault_y: u64, lp_supply: u64, amount_x: u64, amount_y: u64) -> (r:
    Result<u64, AmmError>)
    ensures
        r == lp_tokens_spec(vault_x, vault_y, lp_supply, amount_x, amount_y),
{
    if lp_supply == 0 {
        calculate_initial_lp_tokens(amount_x, amount_y)
    } else {
        calculate_deposit_lp(vault_x, vault_y, lp_supply, amount_x, amount_y)
    }
}

fn share_of(amount: u64, lp_supply: u64, vault: u64) -> (r: u128)
    requires
        vault > 0,
    ensures
        r as int == lp_share(amount, lp_supply, vault),
{
    proof {
        lemma_u64_product_fits(amount, lp_supply);
        lemma_share_bound(amount, lp_supply, vault);
    }
    let product = (amount as u128) * (lp_supply as u128);
    product / (vault as u128)
}

/// LP tokens for a deposit into a pool with supply: the smaller of
/// `amount_x * lp_supply / vault_x` and `amount_y * lp_supply / vault_y`;
/// `MathOverflow` for an empty vault or a share beyond `u64`, `ZeroLpAmount`
/// for a share of zero.
pub fn calculate_deposit_lp(
    vault_x: u64,
    vault_y: u64,
    lp_supply: u64,
    amount_x: u64,
    amount_y: u64,
) -> (r: Result<u64, AmmError>)
    ensures
        r == deposit_lp_spec(vault_x, vault_y, lp_supply, amount_x, amount_y),
        r matches Ok(lp) ==> lp as int * vault_x as int <= amount_x as int * lp_supply as int
            && lp as int * vault_y as int <= amount_y as int * lp_supply as int,
{
    if vault_x == 0 {
        return Err(AmmError::MathOverflow);
    }
    let lp_x = share_of(amount_x, lp_supply, vault_x);
    if vault_y == 0 {
        return Err(AmmError::MathOverflow);
    }
    let lp_y = share_of(amount_y, lp_supply, vault_y);
    let lp = if lp_x <= lp_y { lp_x } else { lp_y };
    proof {
        lemma_deposit_no_dilution(vault_x, vault_y, lp_supply, amount_x, amount_y);
    }
    if lp > u64::MAX as u128 {
        Err(AmmError::MathOverflow)
    } else if lp > 0 {
        Ok(lp as u64)
    } else {
        Err(AmmError::ZeroLpAmount)
    }
}

/// Constant-product swap of `amount_in` into `vault_in`, paying out of
/// `vault_out`; returns `(amount_out, fee)`.
pub fn calculate_swap(vault_in: u64, vault_out: u64, amount_in: u64, fee_rate: u16) -> (r: Result<
    (u64, u64),
    AmmError,
>)
    requires
        fee_rate as u64 <= FEE_DENOMINATOR,
    ensures
        r == swap_spec(vault_in, vault_out, amount_in, fee_rate),
        r matches Ok((out, fee)) ==> {
            &&& 0 < out < vault_out
            &&& fee <= amount_in
            &&& (vault_in as int + amount_in as int) * (vault_out as int - out as int)
                >= vault_in as int * vault_out as int
        },
{
    proof {
        lemma_swap_keeps_product(vault_in, vault_out, amount_in, fee_rate);
    }
    if amount_in == 0 {
        return Err(AmmError::ZeroAmount);
    }
    if !(vault_in > 0 && vault_out > 0) {
        return Err(AmmError::ZeroAmount);
    }
    let keep: u64 = FEE_DENOMINATOR - fee_rate as u64;
    proof {
        lemma_u64_product_fits(amount_in, keep);
        lemma_after_fee_bounds(amount_in, fee_rate);
    }
    let scaled = (amount_in as u128) * (keep as u128);
    let after_fee = (scaled / (FEE_DENOMINATOR as u128)) as u64;
    let fee = amount_in - after_fee;
    let denom = (vault_in as u128) + (after_fee as u128);
    proof {
        lemma_u64_product_fits(vault_out, after_fee);
        lemma_swap_output_bounds(vault_in as int, vault_out as int, amount_in as int, after_fee as int);
    }
    let numer = (vault_out as u128) * (after_fee as u128);
    let amount_out = (numer / denom) as u64;
    if amount_out > 0 {
        Ok((amount_out, fee))
    } else {
        Err(AmmError::ZeroAmount)
    }
}

/// Swap in either direction: `x_to_y` sends X in and takes Y out, otherwise
/// the reverse.
pub fn swap_tokens(vault_x: u64, vault_y: u64, amount_in: u64, fee_rate: u16, x_to_y: bool) -> (r:
    Result<(u64, u64), AmmError>)
    requires
        fee_rate as u64 <= FEE_DENOMINATOR,
    ensures
        x_to_y ==> r == swap_spec(vault_x, vault_y, amount_in, fee_rate),
        !x_to_y ==> r == swap_spec(vault_y, vault_x, amount_in, fee_rate),
{
    if x_to_y {
        calculate_swap(vault_x, vault_y, amount_in, fee_rate)
    } else {
        calculate_swap(vault_y, vault_x, amount_in, fee_rate)
    }
}

fn pro_rata(vault: u64, lp_amount: u64, lp_supply: u64) -> (r: u64)
    requires
        0 < lp_amount <= lp_supply,
    ensures
        r as int == (vault as int * lp_amount as int) / (lp_supply as int),
        r <= vault,
{
    proof {
        lemma_u64_product_fits(vault, lp_amount);
    }
    let product = (vault as u128) * (lp_amount as u128);
    proof {
        lemma_pro_rata_bounds(vault, lp_amount, lp_supply);
    }
    (product / (lp_supply as u128)) as u64
}

/// Amounts of X and Y returned for burning `lp_amount` of `lp_supply`:
/// `vault * lp_amount / lp_supply` of each.
pub fn calculate_withdraw(vault_x: u64, vault_y: u64, lp_supply: u64, lp_amount: u64) -> (r: Result<
    (u64, u64),
    AmmError,
>)
    ensures
        r == withdraw_spec(vault_x, vault_y, lp_supply, lp_amount),
        r matches Ok((x_out, y_out)) ==> x_out <= vault_x && y_out <= vault_y,
{
    if lp_amount == 0 {
        return Err(AmmError::ZeroLpAmount);
    }
    if lp_supply == 0 {
        return Err(AmmError::ZeroLpAmount);
    }
    if lp_amount > lp_supply {
        return Err(AmmError::MathOverflow);
    }
    let x_out = pro_rata(vault_x, lp_amount, lp_supply);
    let y_out = pro_rata(vault_y, lp_amount, lp_supply);
    if !(x_out > 0 && y_out > 0) {
        return Err(AmmError::ZeroAmount);
    }
    Ok((x_out, y_out))
}

} // verus!
