use raydium_swap::address::Address;
use raydium_swap::quote::{
    amount_with_slippage, quote_threshold, swap_direction, swap_exact_amount, swap_with_slippage,
    PoolKeys, QuoteError, SwapDirection, VaultAmounts, BPS_DENOMINATOR,
};

fn address(byte: u8) -> Address {
    Address::new([byte; 32])
}

fn keys() -> PoolKeys {
    PoolKeys {
        amm_program: address(1),
        amm_pool: address(2),
        market_program: address(3),
        market: address(4),
        amm_coin_mint: address(5),
        amm_pc_mint: address(6),
    }
}

fn vaults(pc: u64, coin: u64, numerator: u64, denominator: u64) -> VaultAmounts {
    VaultAmounts {
        pool_pc_vault_amount: pc,
        pool_coin_vault_amount: coin,
        swap_fee_numerator: numerator,
        swap_fee_denominator: denominator,
    }
}

fn deep_pool() -> VaultAmounts {
    vaults(50_000_000_000, 2_000_000_000_000, 25, 10000)
}

#[test]
fn direction_follows_the_input_mint() {
    assert_eq!(swap_direction(&keys(), &address(5), &address(6)), Ok(SwapDirection::CoinToPc));
    assert_eq!(swap_direction(&keys(), &address(6), &address(5)), Ok(SwapDirection::PcToCoin));
}

#[test]
fn direction_rejects_mints_outside_the_pool() {
    assert_eq!(swap_direction(&keys(), &address(9), &address(6)), Err(QuoteError::MintMismatch));
    assert_eq!(swap_direction(&keys(), &address(5), &address(9)), Err(QuoteError::MintMismatch));
    assert_eq!(swap_direction(&keys(), &address(5), &address(5)), Err(QuoteError::MintMismatch));
    assert_eq!(swap_direction(&keys(), &address(6), &address(6)), Err(QuoteError::MintMismatch));
    assert_eq!(swap_direction(&keys(), &address(8), &address(9)), Err(QuoteError::MintMismatch));
}

#[test]
fn direction_differs_in_one_byte_only() {
    let mut bytes = [5u8; 32];
    bytes[31] = 4;
    assert_eq!(
        swap_direction(&keys(), &Address::new(bytes), &address(6)),
        Err(QuoteError::MintMismatch)
    );
}

#[test]
fn exact_input_takes_fee_then_trades_along_the_product() {
    // fee = ceil(100 * 25 / 10000) = 1, net = 99, out = 1000 * 99 / 1099 = 90
    assert_eq!(
        swap_exact_amount(&vaults(1000, 1000, 25, 10000), SwapDirection::CoinToPc, 100, true),
        Ok(90)
    );
    // coin in: out = 3000 * 99 / 1099 = 270; pc in: out = 1000 * 99 / 3099 = 31
    assert_eq!(
        swap_exact_amount(&vaults(3000, 1000, 25, 10000), SwapDirection::CoinToPc, 100, true),
        Ok(270)
    );
    assert_eq!(
        swap_exact_amount(&vaults(3000, 1000, 25, 10000), SwapDirection::PcToCoin, 100, true),
        Ok(31)
    );
}

#[test]
fn exact_input_without_fee() {
    assert_eq!(
        swap_exact_amount(&vaults(1000, 1000, 0, 10000), SwapDirection::CoinToPc, 100, true),
        Ok(90)
    );
    assert_eq!(
        swap_exact_amount(&vaults(1000, 1000, 0, 1), SwapDirection::CoinToPc, 0, true),
        Ok(0)
    );
}

#[test]
fn exact_output_rounds_up_and_adds_the_fee() {
    // net = ceil(1000 * 100 / 900) = 112, gross = ceil(112 * 10000 / 9975) = 113
    assert_eq!(
        swap_exact_amount(&vaults(1000, 1000, 25, 10000), SwapDirection::CoinToPc, 100, false),
        Ok(113)
    );
    assert_eq!(
        swap_exact_amount(&vaults(3000, 1000, 25, 10000), SwapDirection::PcToCoin, 100, false),
        Ok(335)
    );
    assert_eq!(
        swap_exact_amount(&vaults(3000, 1000, 25, 10000), SwapDirection::CoinToPc, 100, false),
        Ok(36)
    );
}

#[test]
fn largest_reserves_and_amounts_do_not_overflow() {
    let max = u64::MAX;
    assert_eq!(
        swap_exact_amount(&vaults(max, max, 0, 1), SwapDirection::CoinToPc, max, true),
        Ok(9223372036854775807)
    );
    assert_eq!(
        swap_exact_amount(&vaults(max, max, 9999, 10000), SwapDirection::CoinToPc, max, true),
        Ok(1844489958375117)
    );
}

#[test]
fn zero_liquidity_on_either_side_fails() {
    for base_in in [true, false] {
        for direction in [SwapDirection::CoinToPc, SwapDirection::PcToCoin] {
            assert_eq!(
                swap_exact_amount(&vaults(0, 1000, 25, 10000), direction, 100, base_in),
                Err(QuoteError::ZeroLiquidity)
            );
            assert_eq!(
                swap_exact_amount(&vaults(1000, 0, 25, 10000), direction, 100, base_in),
                Err(QuoteError::ZeroLiquidity)
            );
            assert_eq!(
                swap_with_slippage(&vaults(0, 0, 25, 10000), direction, 100, base_in, 50),
                Err(QuoteError::ZeroLiquidity)
            );
        }
    }
}

#[test]
fn missing_fee_fails() {
    let direction = SwapDirection::CoinToPc;
    assert_eq!(
        swap_exact_amount(&vaults(1000, 1000, 0, 0), direction, 100, true),
        Err(QuoteError::MissingFee)
    );
    assert_eq!(
        swap_exact_amount(&vaults(1000, 1000, 25, 0), direction, 100, false),
        Err(QuoteError::MissingFee)
    );
    assert_eq!(
        swap_exact_amount(&vaults(1000, 1000, 10000, 10000), direction, 100, true),
        Err(QuoteError::MissingFee)
    );
    assert_eq!(
        swap_exact_amount(&vaults(1000, 1000, 10001, 10000), direction, 100, false),
        Err(QuoteError::MissingFee)
    );
}

#[test]
fn zero_liquidity_is_reported_before_a_missing_fee() {
    assert_eq!(
        swap_exact_amount(&vaults(0, 1000, 0, 0), SwapDirection::CoinToPc, 100, true),
        Err(QuoteError::ZeroLiquidity)
    );
}

#[test]
fn exact_output_needs_more_than_it_takes_out() {
    let pool = vaults(1000, 500, 25, 10000);
    assert_eq!(
        swap_exact_amount(&pool, SwapDirection::CoinToPc, 1000, false),
        Err(QuoteError::InsufficientLiquidity)
    );
    assert_eq!(
        swap_exact_amount(&pool, SwapDirection::CoinToPc, 1001, false),
        Err(QuoteError::InsufficientLiquidity)
    );
    assert_eq!(
        swap_exact_amount(&pool, SwapDirection::PcToCoin, 500, false),
        Err(QuoteError::InsufficientLiquidity)
    );
    // the last unit that can be taken out: net = ceil(500 * 999 / 1) = 499500
    assert_eq!(swap_exact_amount(&pool, SwapDirection::CoinToPc, 999, false), Ok(500752));
}

#[test]
fn exact_output_that_costs_more_than_64_bits_fails() {
    let max = u64::MAX;
    assert_eq!(
        swap_exact_amount(&vaults(max, max, 1, 2), SwapDirection::CoinToPc, max - 1, false),
        Err(QuoteError::AmountOverflow)
    );
}

#[test]
fn slippage_moves_the_amount_against_the_trader() {
    let sell: Vec<u64> = [0, 1, 50, 100, 5000, 9999, 10000]
        .iter()
        .map(|bps| amount_with_slippage(12345, *bps, true).unwrap())
        .collect();
    assert_eq!(sell, vec![12345, 12343, 12283, 12221, 6172, 1, 0]);
    let buy: Vec<u64> = [0, 1, 50, 100, 5000, 9999, 10000]
        .iter()
        .map(|bps| amount_with_slippage(12345, *bps, false).unwrap())
        .collect();
    assert_eq!(buy, vec![12345, 12346, 12406, 12468, 18517, 24688, 24690]);
}

#[test]
fn slippage_above_one_hundred_percent_is_rejected() {
    assert_eq!(amount_with_slippage(12345, 10001, true), Err(QuoteError::SlippageOutOfRange));
    assert_eq!(amount_with_slippage(12345, u64::MAX, false), Err(QuoteError::SlippageOutOfRange));
    assert_eq!(
        swap_with_slippage(&deep_pool(), SwapDirection::CoinToPc, 100, true, 10001),
        Err(QuoteError::SlippageOutOfRange)
    );
    // the bound is looked at before the pool
    assert_eq!(
        swap_with_slippage(&vaults(0, 0, 0, 0), SwapDirection::CoinToPc, 100, true, 10001),
        Err(QuoteError::SlippageOutOfRange)
    );
    assert_eq!(BPS_DENOMINATOR, 10000);
}

#[test]
fn upper_bound_beyond_64_bits_is_rejected() {
    assert_eq!(amount_with_slippage(u64::MAX, 1, false), Err(QuoteError::AmountOverflow));
    assert_eq!(amount_with_slippage(u64::MAX, 0, false), Ok(u64::MAX));
    assert_eq!(amount_with_slippage(u64::MAX, 1, true), Ok(18444899399302180659));
    assert_eq!(amount_with_slippage(u64::MAX, 10000, true), Ok(0));
}

#[test]
fn zero_slippage_gives_the_unslipped_quote() {
    let pools = [deep_pool(), vaults(1000, 1000, 25, 10000), vaults(3000, 1000, 0, 1)];
    for pool in pools.iter() {
        for direction in [SwapDirection::CoinToPc, SwapDirection::PcToCoin] {
            for base_in in [true, false] {
                for amount in [0u64, 1, 99, 500, 999] {
                    assert_eq!(
                        swap_with_slippage(pool, direction, amount, base_in, 0),
                        swap_exact_amount(pool, direction, amount, base_in)
                    );
                }
            }
        }
    }
    // errors pass through as well
    assert_eq!(
        swap_with_slippage(&vaults(0, 5, 1, 2), SwapDirection::CoinToPc, 1, true, 0),
        swap_exact_amount(&vaults(0, 5, 1, 2), SwapDirection::CoinToPc, 1, true)
    );
}

#[test]
fn wider_slippage_never_makes_the_threshold_stricter() {
    let pool = deep_pool();
    for direction in [SwapDirection::CoinToPc, SwapDirection::PcToCoin] {
        let mut last_sell = u64::MAX;
        let mut last_buy = 0u64;
        let mut bps = 0u64;
        while bps <= 10000 {
            let sell = swap_with_slippage(&pool, direction, 1_000_000_000, true, bps).unwrap();
            let buy = swap_with_slippage(&pool, direction, 1_000_000_000, false, bps).unwrap();
            assert!(sell <= last_sell);
            assert!(buy >= last_buy);
            last_sell = sell;
            last_buy = buy;
            bps += 7;
        }
    }
}

#[test]
fn half_a_percent_on_one_native_unit() {
    let pool = deep_pool();
    // selling 1_000_000_000 of the coin: quoted 24_925_068, at least 99.5% of it
    assert_eq!(swap_exact_amount(&pool, SwapDirection::CoinToPc, 1_000_000_000, true), Ok(24925068));
    assert_eq!(
        swap_with_slippage(&pool, SwapDirection::CoinToPc, 1_000_000_000, true, 50),
        Ok(24800442)
    );
    // buying 1_000_000_000 of the coin: quoted 25_075_195, at most 100.5% of it
    assert_eq!(
        swap_exact_amount(&pool, SwapDirection::PcToCoin, 1_000_000_000, false),
        Ok(25075195)
    );
    assert_eq!(
        swap_with_slippage(&pool, SwapDirection::PcToCoin, 1_000_000_000, false, 50),
        Ok(25200570)
    );
    assert_eq!(
        swap_with_slippage(&pool, SwapDirection::CoinToPc, 1_000_000_000, false, 50),
        Ok(41123216204)
    );
}

#[test]
fn threshold_stays_within_the_bound_of_the_quote() {
    let pool = deep_pool();
    let quoted = swap_exact_amount(&pool, SwapDirection::CoinToPc, 1_000_000_000, true).unwrap();
    let least = swap_with_slippage(&pool, SwapDirection::CoinToPc, 1_000_000_000, true, 50).unwrap();
    assert!(least <= quoted);
    assert!((quoted - least) as u128 * 10000 <= quoted as u128 * 50 + 9999);
    let cost = swap_exact_amount(&pool, SwapDirection::PcToCoin, 1_000_000_000, false).unwrap();
    let most = swap_with_slippage(&pool, SwapDirection::PcToCoin, 1_000_000_000, false, 50).unwrap();
    assert!(cost <= most);
    assert!((most - cost) as u128 * 10000 <= cost as u128 * 50);
}

#[test]
fn full_slippage_accepts_any_output() {
    let pool = deep_pool();
    assert_eq!(swap_exact_amount(&pool, SwapDirection::PcToCoin, 500, true), Ok(19919));
    assert_eq!(swap_with_slippage(&pool, SwapDirection::PcToCoin, 500, true, 10000), Ok(0));
    assert_eq!(swap_with_slippage(&pool, SwapDirection::PcToCoin, 500, false, 10000), Ok(28));
}

#[test]
fn quote_step_finds_direction_then_threshold() {
    let pool = vaults(3000, 1000, 25, 10000);
    assert_eq!(quote_threshold(&keys(), &pool, &address(5), &address(6), 100, true, 0), Ok(270));
    assert_eq!(quote_threshold(&keys(), &pool, &address(6), &address(5), 100, true, 0), Ok(31));
    assert_eq!(quote_threshold(&keys(), &pool, &address(6), &address(5), 100, true, 100), Ok(30));
    assert_eq!(quote_threshold(&keys(), &pool, &address(5), &address(6), 100, false, 100), Ok(36));
}

#[test]
fn quote_step_reports_a_mint_mismatch_first() {
    assert_eq!(
        quote_threshold(&keys(), &vaults(0, 0, 0, 0), &address(9), &address(6), 100, true, 10001),
        Err(QuoteError::MintMismatch)
    );
    assert_eq!(
        quote_threshold(&keys(), &vaults(0, 7, 1, 2), &address(5), &address(6), 100, true, 50),
        Err(QuoteError::ZeroLiquidity)
    );
}

#[test]
fn exact_input_never_shrinks_the_product_of_the_reserves() {
    let pools = [deep_pool(), vaults(1000, 1000, 25, 10000), vaults(3, 7, 1, 2), vaults(1, 1, 0, 1)];
    for pool in pools.iter() {
        for amount in [0u64, 1, 2, 99, 1000, 1_000_000_000, u64::MAX] {
            let fee = (amount as u128 * pool.swap_fee_numerator as u128)
                .div_ceil(pool.swap_fee_denominator as u128);
            let net = amount as u128 - fee;
            let (coin, pc) = (pool.pool_coin_vault_amount as u128, pool.pool_pc_vault_amount as u128);
            let out = swap_exact_amount(pool, SwapDirection::CoinToPc, amount, true).unwrap() as u128;
            assert!(out < pc);
            assert!((coin + net) * (pc - out) >= coin * pc);
            let out = swap_exact_amount(pool, SwapDirection::PcToCoin, amount, true).unwrap() as u128;
            assert!(out < coin);
            assert!((pc + net) * (coin - out) >= coin * pc);
        }
    }
}

#[test]
fn exact_output_never_shrinks_the_product_of_the_reserves() {
    let pools = [deep_pool(), vaults(1000, 1000, 25, 10000), vaults(3, 7, 1, 2), vaults(2, 2, 0, 1)];
    for pool in pools.iter() {
        for amount in [0u64, 1, 2, 99, 999, 1_000_000_000] {
            let (coin, pc) = (pool.pool_coin_vault_amount as u128, pool.pool_pc_vault_amount as u128);
            let kept = (pool.swap_fee_denominator - pool.swap_fee_numerator) as u128;
            if (amount as u128) < pc {
                let paid =
                    swap_exact_amount(pool, SwapDirection::CoinToPc, amount, false).unwrap() as u128;
                // what is left of the payment once the fee rate is taken off
                let net = paid * kept / pool.swap_fee_denominator as u128;
                assert!((coin + net) * (pc - amount as u128) >= coin * pc);
            }
            if (amount as u128) < coin {
                let paid =
                    swap_exact_amount(pool, SwapDirection::PcToCoin, amount, false).unwrap() as u128;
                let net = paid * kept / pool.swap_fee_denominator as u128;
                assert!((pc + net) * (coin - amount as u128) >= coin * pc);
            }
        }
    }
}
