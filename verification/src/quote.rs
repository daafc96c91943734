//! The quote: which way the trade runs through the pool, what the pool's
//! constant-product formula gives for it, and the worst counter-amount that
//! the trader accepts under a slippage bound.

use vstd::prelude::*;
use crate::address::Address;

verus! {

/// One hundred percent, in basis points.
pub const BPS_DENOMINATOR: u64 = 10000;

/// The addresses that identify a pool and the market under it.
#[derive(Clone, Copy, Debug, PartialEq, Eq)]
pub struct PoolKeys {
    pub amm_program: Address,
    pub amm_pool: Address,
    pub market_program: Address,
    pub market: Address,
    pub amm_coin_mint: Address,
    pub amm_pc_mint: Address,
}

/// The reserves of both vaults and the fee rate, as sampled at one instant.
#[derive(Clone, Copy, Debug, PartialEq, Eq, Structural)]
pub struct VaultAmounts {
    pub pool_pc_vault_amount: u64,
    pub pool_coin_vault_amount: u64,
    pub swap_fee_numerator: u64,
    pub swap_fee_denominator: u64,
}

/// Which of the pool's two tokens is paid in.
#[derive(Clone, Copy, Debug, PartialEq, Eq, Structural)]
pub enum SwapDirection {
    CoinToPc,
    PcToCoin,
}

/// Why no quote could be given.
#[derive(Clone, Copy, Debug, PartialEq, Eq, Structural)]
pub enum QuoteError {
    /// The reserves could not be sampled.
    ReservesUnavailable,
    /// The two mints are not the pool's two mints, one on each side.
    MintMismatch,
    /// The slippage bound is above 10000 basis points.
    SlippageOutOfRange,
    /// One of the vaults is empty.
    ZeroLiquidity,
    /// The fee rate is missing: its denominator is zero, or it is not below one.
    MissingFee,
    /// The pool holds no more than the amount asked out of it.
    InsufficientLiquidity,
    /// The counter-amount does not fit in 64 bits.
    AmountOverflow,
}

/// `a / b`, rounded up.
pub open spec fn ceil_div(a: int, b: int) -> int {
    (a + (b - 1)) / b
}

/// The direction of a trade from `input` to `output` through a pool of
/// `coin` and `pc`: the input decides it, and the output has to be the other
/// side.
pub open spec fn direction_of(
    coin: Seq<u8>,
    pc: Seq<u8>,
    input: Seq<u8>,
    output: Seq<u8>,
) -> Result<SwapDirection, QuoteError> {
    if input == coin && output == pc {
        Ok(SwapDirection::CoinToPc)
    } else if input == pc && output == coin {
        Ok(SwapDirection::PcToCoin)
    } else {
        Err(QuoteError::MintMismatch)
    }
}

impl VaultAmounts {
    /// The reserve of the token that the trader pays in.
    pub open spec fn reserve_in(self, direction: SwapDirection) -> int {
        match direction {
            SwapDirection::CoinToPc => self.pool_coin_vault_amount as int,
            SwapDirection::PcToCoin => self.pool_pc_vault_amount as int,
        }
    }

    /// The reserve of the token that the trader receives.
    pub open spec fn reserve_out(self, direction: SwapDirection) -> int {
        match direction {
            SwapDirection::CoinToPc => self.pool_pc_vault_amount as int,
            SwapDirection::PcToCoin => self.pool_coin_vault_amount as int,
        }
    }

    /// Both vaults hold something.
    pub open spec fn has_liquidity(self) -> bool {
        self.pool_pc_vault_amount > 0 && self.pool_coin_vault_amount > 0
    }

    /// The fee rate is a fraction below one.
    pub open spec fn has_fee(self) -> bool {
        0 <= self.swap_fee_numerator < self.swap_fee_denominator
    }

    /// The fee on `amount_in`: the fee rate of it, rounded up.
    pub open spec fn fee(self, amount_in: u64) -> int {
        ceil_div(amount_in * self.swap_fee_numerator, self.swap_fee_denominator as int)
    }

    /// What comes out for `amount_in` paid in: the fee is taken from the
    /// input, and the rest trades along the constant product, rounded down.
    pub open spec fn amount_out(self, direction: SwapDirection, amount_in: u64) -> int {
        let net = amount_in - self.fee(amount_in);
        self.reserve_out(direction) * net / (self.reserve_in(direction) + net)
    }

    /// What has to reach the pool for `amount_out` to come out along the
    /// constant product, rounded up.
    pub open spec fn net_input(self, direction: SwapDirection, amount_out: u64) -> int {
        ceil_div(
            self.reserve_in(direction) * amount_out,
            self.reserve_out(direction) - amount_out,
        )
    }

    /// What has to be paid in for `amount_out` to come out: the net input
    /// and the fee on top, rounded up.
    pub open spec fn amount_in(self, direction: SwapDirection, amount_out: u64) -> int {
        ceil_div(
            self.net_input(direction, amount_out) * self.swap_fee_denominator,
            self.swap_fee_denominator - self.swap_fee_numerator,
        )
    }

    /// The counter-amount of a trade before any slippage bound: the output
    /// for an exact input (`base_in`), the input for an exact output.
    pub open spec fn counter_amount(
        self,
        direction: SwapDirection,
        amount: u64,
        base_in: bool,
    ) -> Result<u64, QuoteError> {
        if !self.has_liquidity() {
            Err(QuoteError::ZeroLiquidity)
        } else if !self.has_fee() {
            Err(QuoteError::MissingFee)
        } else if base_in {
            Ok(self.amount_out(direction, amount) as u64)
        } else if amount >= self.reserve_out(direction) {
            Err(QuoteError::InsufficientLiquidity)
        } else if self.amount_in(direction, amount) > u64::MAX {
            Err(QuoteError::AmountOverflow)
        } else {
            Ok(self.amount_in(direction, amount) as u64)
        }
    }

    /// The worst counter-amount that the trader accepts: the counter-amount
    /// moved against the trader by `slippage_bps`.
    pub open spec fn threshold(
        self,
        direction: SwapDirection,
        amount: u64,
        base_in: bool,
        slippage_bps: u64,
    ) -> Result<u64, QuoteError> {
        if slippage_bps > BPS_DENOMINATOR {
            Err(QuoteError::SlippageOutOfRange)
        } else {
            match self.counter_amount(direction, amount, base_in) {
                Err(e) => Err(e),
                Ok(quoted) => with_slippage(quoted, slippage_bps, base_in),
            }
        }
    }
}

/// A quoted amount moved by `slippage_bps` against the trader: down for an
/// output that the trader is to receive at least (`base_in`), up for an input
/// that the trader is to pay at most. Rounded down.
pub open spec fn slipped(quoted: u64, slippage_bps: u64, base_in: bool) -> int {
    if base_in {
        quoted * (BPS_DENOMINATOR - slippage_bps) / (BPS_DENOMINATOR as int)
    } else {
        quoted * (BPS_DENOMINATOR + slippage_bps) / (BPS_DENOMINATOR as int)
    }
}

/// The bound that a quoted amount gives under `slippage_bps`, where the bound
/// is in range and the result fits in 64 bits.
pub open spec fn with_slippage(quoted: u64, slippage_bps: u64, base_in: bool) -> Result<
    u64,
    QuoteError,
> {
    if slippage_bps > BPS_DENOMINATOR {
        Err(QuoteError::SlippageOutOfRange)
    } else if slipped(quoted, slippage_bps, base_in) > u64::MAX {
        Err(QuoteError::AmountOverflow)
    } else {
        Ok(slipped(quoted, slippage_bps, base_in) as u64)
    }
}

/// The threshold of a trade between two mints through a pool.
pub open spec fn quoted_threshold(
    keys: PoolKeys,
    vaults: VaultAmounts,
    input: Seq<u8>,
    output: Seq<u8>,
    amount: u64,
    base_in: bool,
    slippage_bps: u64,
) -> Result<u64, QuoteError> {
    match direction_of(keys.amm_coin_mint@, keys.amm_pc_mint@, input, output) {
        Err(e) => Err(e),
        Ok(direction) => vaults.threshold(direction, amount, base_in, slippage_bps),
    }
}

/// Finds the direction of a trade from `input_mint` to `output_mint`.
pub fn swap_direction(keys: &PoolKeys, input_mint: &Address, output_mint: &Address) -> (direction: Result<
    SwapDirection,
    QuoteError,
>)
    ensures
        direction == direction_of(
            keys.amm_coin_mint@,
            keys.amm_pc_mint@,
            input_mint@,
            output_mint@,
        ),
{
    if input_mint.same_as(&keys.amm_coin_mint) && output_mint.same_as(&keys.amm_pc_mint) {
        Ok(SwapDirection::CoinToPc)
    } else if input_mint.same_as(&keys.amm_pc_mint) && output_mint.same_as(&keys.amm_coin_mint) {
        Ok(SwapDirection::PcToCoin)
    } else {
        Err(QuoteError::MintMismatch)
    }
}

proof fn lemma_quotient_at_most(x: int, d: int, k: int)
    by (nonlinear_arith)
    requires
        d > 0,
        x < k * d + d,
    ensures
        x / d <= k,
{
}

proof fn lemma_quotient_at_least(x: int, d: int, k: int)
    by (nonlinear_arith)
    requires
        d > 0,
        k * d <= x,
    ensures
        k <= x / d,
{
}

proof fn lemma_product_bounds(a: int, b: int, c: int)
    by (nonlinear_arith)
    requires
        0 <= a,
        0 <= b <= c,
    ensures
        0 <= a * b <= a * c,
        a * b == b * a,
        a * c == c * a,
{
}

proof fn lemma_floor_bounds(x: int, d: int)
    by (nonlinear_arith)
    requires
        0 <= x,
        0 < d,
    ensures
        0 <= x / d,
        (x / d) * d <= x < (x / d) * d + d,
{
}

proof fn lemma_ceil_bounds(x: int, d: int)
    requires
        0 <= x,
        0 < d,
    ensures
        0 <= ceil_div(x, d),
        x <= ceil_div(x, d) * d < x + d,
{
    lemma_floor_bounds(x + d - 1, d);
}

proof fn lemma_product_fits(a: u64, b: u64)
    ensures
        0 <= a * b <= 0xffff_ffff_ffff_fffe_0000_0000_0000_0001,
{
    lemma_product_bounds(a as int, b as int, 0xffff_ffff_ffff_ffff);
    lemma_product_bounds(0xffff_ffff_ffff_ffff, a as int, 0xffff_ffff_ffff_ffff);
}

/// `a / b` rounded up, for a dividend that leaves room for the rounding.
fn ceil_div_u128(a: u128, b: u128) -> (q: u128)
    requires
        b > 0,
        a + b - 1 <= u128::MAX,
    ensures
        q == ceil_div(a as int, b as int),
{
    (a + (b - 1)) / b
}

/// The counter-amount of a trade before any slippage bound: what comes out
/// for `amount` paid in (`swap_base_in`), or what has to be paid in for
/// `amount` to come out.
pub fn swap_exact_amount(
    vaults: &VaultAmounts,
    direction: SwapDirection,
    amount: u64,
    swap_base_in: bool,
) -> (quoted: Result<u64, QuoteError>)
    ensures
        quoted == vaults.counter_amount(direction, amount, swap_base_in),
{
    if vaults.pool_pc_vault_amount == 0 || vaults.pool_coin_vault_amount == 0 {
        return Err(QuoteError::ZeroLiquidity);
    }
    if vaults.swap_fee_numerator >= vaults.swap_fee_denominator {
        return Err(QuoteError::MissingFee);
    }
    let (reserve_in, reserve_out): (u64, u64) = match direction {
        SwapDirection::CoinToPc => (vaults.pool_coin_vault_amount, vaults.pool_pc_vault_amount),
        SwapDirection::PcToCoin => (vaults.pool_pc_vault_amount, vaults.pool_coin_vault_amount),
    };
    let numerator: u128 = vaults.swap_fee_numerator as u128;
    let denominator: u128 = vaults.swap_fee_denominator as u128;
    if swap_base_in {
        proof {
            lemma_exact_input_keeps_product(*vaults, direction, amount);
            lemma_product_fits(amount, vaults.swap_fee_numerator);
        }
        let fee: u128 = ceil_div_u128(amount as u128 * numerator, denominator);
        let net: u128 = amount as u128 - fee;
        proof {
            lemma_product_fits(reserve_out, net as u64);
        }
        let out: u128 = reserve_out as u128 * net / (reserve_in as u128 + net);
        Ok(out as u64)
    } else {
        if amount >= reserve_out {
            return Err(QuoteError::InsufficientLiquidity);
        }
        proof {
            lemma_exact_output_keeps_product(*vaults, direction, amount);
            lemma_product_fits(reserve_in, amount);
        }
        let net: u128 = ceil_div_u128(
            reserve_in as u128 * amount as u128,
            (reserve_out - amount) as u128,
        );
        if net > u64::MAX as u128 {
            return Err(QuoteError::AmountOverflow);
        }
        proof {
            lemma_product_fits(net as u64, vaults.swap_fee_denominator);
        }
        let gross: u128 = ceil_div_u128(net * denominator, denominator - numerator);
        if gross > u64::MAX as u128 {
            Err(QuoteError::AmountOverflow)
        } else {
            Ok(gross as u64)
        }
    }
}

/// Moves a quoted amount against the trader by `slippage_bps`: a lower
/// bound on what is received (`swap_base_in`), an upper bound on what is paid.
pub fn amount_with_slippage(quoted: u64, slippage_bps: u64, swap_base_in: bool) -> (bound: Result<
    u64,
    QuoteError,
>)
    ensures
        bound == with_slippage(quoted, slippage_bps, swap_base_in),
{
    if slippage_bps > BPS_DENOMINATOR {
        return Err(QuoteError::SlippageOutOfRange);
    }
    let factor: u128 = if swap_base_in {
        (BPS_DENOMINATOR - slippage_bps) as u128
    } else {
        (BPS_DENOMINATOR + slippage_bps) as u128
    };
    proof {
        lemma_product_bounds(quoted as int, factor as int, 20000);
    }
    let moved: u128 = quoted as u128 * factor / (BPS_DENOMINATOR as u128);
    if moved > u64::MAX as u128 {
        Err(QuoteError::AmountOverflow)
    } else {
        Ok(moved as u64)
    }
}

/// The worst counter-amount that the trader accepts for a trade in a known
/// direction: the counter-amount under the slippage bound.
pub fn swap_with_slippage(
    vaults: &VaultAmounts,
    direction: SwapDirection,
    amount: u64,
    swap_base_in: bool,
    slippage_bps: u64,
) -> (threshold: Result<u64, QuoteError>)
    ensures
        threshold == vaults.threshold(direction, amount, swap_base_in, slippage_bps),
{
    if slippage_bps > BPS_DENOMINATOR {
        return Err(QuoteError::SlippageOutOfRange);
    }
    match swap_exact_amount(vaults, direction, amount, swap_base_in) {
        Err(e) => Err(e),
        Ok(quoted) => amount_with_slippage(quoted, slippage_bps, swap_base_in),
    }
}

/// The quote step: the direction of the trade and its threshold, or why
/// there is none.
pub fn quote_threshold(
    keys: &PoolKeys,
    vaults: &VaultAmounts,
    input_mint: &Address,
    output_mint: &Address,
    amount: u64,
    swap_base_in: bool,
    slippage_bps: u64,
) -> (threshold: Result<u64, QuoteError>)
    ensures
        threshold == quoted_threshold(
            *keys,
            *vaults,
            input_mint@,
            output_mint@,
            amount,
            swap_base_in,
            slippage_bps,
        ),
{
    match swap_direction(keys, input_mint, output_mint) {
        Err(e) => Err(e),
        Ok(direction) => swap_with_slippage(vaults, direction, amount, swap_base_in, slippage_bps),
    }
}

/// Where a trade has a direction, the input mint alone tells it: the coin
/// goes in exactly when the input is the pool's coin mint.
pub proof fn lemma_direction_follows_input(
    coin: Seq<u8>,
    pc: Seq<u8>,
    input: Seq<u8>,
    output: Seq<u8>,
)
    requires
        direction_of(coin, pc, input, output) is Ok,
    ensures
        direction_of(coin, pc, input, output) == Ok::<SwapDirection, QuoteError>(
            SwapDirection::CoinToPc,
        ) <==> input == coin,
{
}

/// An exact input trades along the constant product: the fee is at least the
/// fee rate of the input and at most the input, what comes out is less than
/// the reserve, and the product of the reserves after the trade, the fee left
/// aside, is no smaller than before.
pub proof fn lemma_exact_input_keeps_product(
    vaults: VaultAmounts,
    direction: SwapDirection,
    amount_in: u64,
)
    requires
        vaults.has_liquidity(),
        vaults.has_fee(),
    ensures
        0 <= vaults.fee(amount_in) <= amount_in,
        amount_in * vaults.swap_fee_numerator <= vaults.fee(amount_in)
            * vaults.swap_fee_denominator,
        0 <= vaults.amount_out(direction, amount_in) < vaults.reserve_out(direction),
        vaults.reserve_in(direction) * vaults.reserve_out(direction) <= (vaults.reserve_in(
            direction,
        ) + amount_in - vaults.fee(amount_in)) * (vaults.reserve_out(direction)
            - vaults.amount_out(direction, amount_in)),
{
    let numerator = vaults.swap_fee_numerator as int;
    let denominator = vaults.swap_fee_denominator as int;
    let reserve_in = vaults.reserve_in(direction);
    let reserve_out = vaults.reserve_out(direction);
    let fee = vaults.fee(amount_in);
    lemma_product_bounds(amount_in as int, numerator, denominator);
    lemma_ceil_bounds(amount_in * numerator, denominator);
    lemma_quotient_at_most(amount_in * numerator + denominator - 1, denominator, amount_in as int);
    let net = amount_in - fee;
    let out = vaults.amount_out(direction, amount_in);
    lemma_product_bounds(reserve_out, net, reserve_in + net);
    lemma_floor_bounds(reserve_out * net, reserve_in + net);
    assert(out < reserve_out) by (nonlinear_arith)
        requires
            out * (reserve_in + net) <= reserve_out * net,
            0 <= net,
            0 < reserve_in,
            0 < reserve_out,
            0 <= out,
    ;
    assert(reserve_in * reserve_out <= (reserve_in + net) * (reserve_out - out))
        by (nonlinear_arith)
        requires
            out * (reserve_in + net) <= reserve_out * net,
    ;
}

/// An exact output trades along the constant product: what has to reach the
/// pool leaves the product of the reserves no smaller than before, and what
/// is paid in covers it once the fee rate is taken off.
pub proof fn lemma_exact_output_keeps_product(
    vaults: VaultAmounts,
    direction: SwapDirection,
    amount_out: u64,
)
    requires
        vaults.has_liquidity(),
        vaults.has_fee(),
        amount_out < vaults.reserve_out(direction),
    ensures
        0 <= vaults.net_input(direction, amount_out) <= vaults.amount_in(direction, amount_out),
        vaults.reserve_in(direction) * vaults.reserve_out(direction) <= (vaults.reserve_in(
            direction,
        ) + vaults.net_input(direction, amount_out)) * (vaults.reserve_out(direction)
            - amount_out),
        vaults.net_input(direction, amount_out) * vaults.swap_fee_denominator
            <= vaults.amount_in(direction, amount_out) * (vaults.swap_fee_denominator
            - vaults.swap_fee_numerator),
{
    let denominator = vaults.swap_fee_denominator as int;
    let kept = vaults.swap_fee_denominator - vaults.swap_fee_numerator;
    let reserve_in = vaults.reserve_in(direction);
    let reserve_out = vaults.reserve_out(direction);
    let net = vaults.net_input(direction, amount_out);
    lemma_product_bounds(reserve_in, amount_out as int, amount_out as int);
    lemma_ceil_bounds(reserve_in * amount_out, reserve_out - amount_out);
    assert(reserve_in * reserve_out <= (reserve_in + net) * (reserve_out - amount_out))
        by (nonlinear_arith)
        requires
            reserve_in * amount_out <= net * (reserve_out - amount_out),
    ;
    lemma_product_bounds(net, kept, denominator);
    lemma_ceil_bounds(net * denominator, kept);
    lemma_quotient_at_least(net * denominator + kept - 1, kept, net);
}

/// A wider slippage bound never makes the threshold stricter: the least
/// accepted output does not rise, the most accepted input does not fall.
pub proof fn lemma_slipped_monotone(quoted: u64, tight: u64, loose: u64, base_in: bool)
    requires
        tight <= loose <= BPS_DENOMINATOR,
    ensures
        base_in ==> slipped(quoted, loose, base_in) <= slipped(quoted, tight, base_in),
        !base_in ==> slipped(quoted, tight, base_in) <= slipped(quoted, loose, base_in),
        0 <= slipped(quoted, loose, base_in),
        base_in ==> slipped(quoted, tight, base_in) <= quoted,
        !base_in ==> quoted <= slipped(quoted, tight, base_in),
{
    lemma_product_bounds(quoted as int, BPS_DENOMINATOR - loose, BPS_DENOMINATOR - tight);
    lemma_product_bounds(quoted as int, BPS_DENOMINATOR - tight, BPS_DENOMINATOR as int);
    lemma_product_bounds(quoted as int, BPS_DENOMINATOR + tight, BPS_DENOMINATOR + loose);
    lemma_product_bounds(quoted as int, BPS_DENOMINATOR as int, BPS_DENOMINATOR + tight);
}

/// Over bounds from 0 to 10000 basis points the threshold of a trade is
/// monotone: as the bound widens it does not rise for an exact input and does
/// not fall for an exact output. A threshold that exists under the wider bound
/// exists under the tighter one, and for an exact input also the other way.
pub proof fn lemma_threshold_monotone(
    vaults: VaultAmounts,
    direction: SwapDirection,
    amount: u64,
    base_in: bool,
    tight: u64,
    loose: u64,
)
    requires
        tight <= loose <= BPS_DENOMINATOR,
    ensures
        vaults.threshold(direction, amount, base_in, loose) is Ok ==> vaults.threshold(
            direction,
            amount,
            base_in,
            tight,
        ) is Ok,
        base_in && vaults.threshold(direction, amount, base_in, tight) is Ok ==> vaults.threshold(
            direction,
            amount,
            base_in,
            loose,
        ) is Ok,
        vaults.threshold(direction, amount, base_in, tight) matches Ok(strict) ==> (vaults.threshold(
            direction,
            amount,
            base_in,
            loose,
        ) matches Ok(lax) ==> (if base_in {
            lax <= strict
        } else {
            strict <= lax
        })),
{
    if let Ok(quoted) = vaults.counter_amount(direction, amount, base_in) {
        lemma_slipped_monotone(quoted, tight, loose, base_in);
    }
}

/// With no slippage allowed the threshold is the counter-amount itself.
pub proof fn lemma_zero_slippage_is_exact(
    vaults: VaultAmounts,
    direction: SwapDirection,
    amount: u64,
    base_in: bool,
)
    ensures
        vaults.threshold(direction, amount, base_in, 0) == vaults.counter_amount(
            direction,
            amount,
            base_in,
        ),
{
}

/// The threshold lies on the trader's unfavourable side of the counter-amount
/// and no further from it than the bound allows: within `slippage_bps` ten
/// thousandths of it, rounded down.
pub proof fn lemma_threshold_within_bound(
    vaults: VaultAmounts,
    direction: SwapDirection,
    amount: u64,
    base_in: bool,
    slippage_bps: u64,
)
    requires
        vaults.threshold(direction, amount, base_in, slippage_bps) is Ok,
    ensures
        vaults.counter_amount(direction, amount, base_in) matches Ok(quoted) && ({
            let threshold = vaults.threshold(direction, amount, base_in, slippage_bps)->Ok_0;
            if base_in {
                &&& threshold <= quoted
                &&& quoted * (BPS_DENOMINATOR - slippage_bps) < (threshold + 1) * BPS_DENOMINATOR
                &&& slippage_bps == BPS_DENOMINATOR ==> threshold == 0
            } else {
                &&& quoted <= threshold
                &&& threshold * BPS_DENOMINATOR <= quoted * (BPS_DENOMINATOR + slippage_bps)
            }
        }),
{
    let quoted = vaults.counter_amount(direction, amount, base_in)->Ok_0;
    lemma_slipped_monotone(quoted, slippage_bps, slippage_bps, base_in);
    if slippage_bps == BPS_DENOMINATOR {
        assert(quoted * (BPS_DENOMINATOR - slippage_bps) == 0) by (nonlinear_arith)
            requires
                BPS_DENOMINATOR - slippage_bps == 0,
        ;
    }
}

} // verus!
