use vstd::prelude::*;

use vstd::arithmetic::div_mod::lemma_multiply_divide_le;
use vstd::arithmetic::div_mod::lemma_remainder_lower;
use vstd::arithmetic::mul::lemma_mul_inequality;

use crate::errors::VaultError;
use crate::events::DepositEvent;
use crate::events::WithdrawEvent;
use crate::state::ProtocolConfig;
use crate::state::UserPosition;
use crate::valuation::spec_user_balance;
use crate::valuation::spec_user_value_pool;
use crate::valuation::valuation_ok;

verus! {

/// Shares minted for a deposit. The first depositor sets the unit price
/// one-to-one; afterwards the deposit buys shares at the pool's current
/// price, rounded down, priced against the pool value before this deposit
/// is credited.
pub open spec fn spec_shares_to_mint(c: ProtocolConfig, treasury_balance: u64, amount: u64) -> int {
    if c.total_shares == 0 {
        amount as int
    } else {
        amount * c.total_shares / spec_user_value_pool(c, treasury_balance)
    }
}

/// Why a deposit is rejected, if it is; checks run in exactly this order.
pub open spec fn spec_deposit_error(
    c: ProtocolConfig,
    p: UserPosition,
    treasury_balance: u64,
    amount: u64,
    min_shares: u64,
) -> Option<VaultError> {
    if c.is_paused {
        Some(VaultError::ProtocolPaused)
    } else if amount == 0 {
        Some(VaultError::InvalidAmount)
    } else if !valuation_ok(c, treasury_balance) {
        Some(VaultError::MathOverflow)
    } else if c.total_shares > 0 && spec_user_value_pool(c, treasury_balance) == 0 {
        Some(VaultError::MathOverflow)
    } else if spec_shares_to_mint(c, treasury_balance, amount) > u64::MAX {
        Some(VaultError::MathOverflow)
    } else if spec_shares_to_mint(c, treasury_balance, amount) < min_shares {
        Some(VaultError::SlippageExceeded)
    } else if p.deposited_amount + amount > u64::MAX {
        Some(VaultError::MathOverflow)
    } else if p.user_shares + spec_shares_to_mint(c, treasury_balance, amount) > u64::MAX {
        Some(VaultError::MathOverflow)
    } else if p.high_water_mark + amount > u64::MAX {
        Some(VaultError::MathOverflow)
    } else if c.total_shares + spec_shares_to_mint(c, treasury_balance, amount) > u64::MAX {
        Some(VaultError::MathOverflow)
    } else {
        None
    }
}

/// Deposit `amount` into the pool.
///
/// `treasury_balance` is the treasury's balance before this deposit is
/// credited: shares are priced against the pre-deposit pool. On success the
/// surrounding system owes the treasury a transfer of `amount` from the
/// user; on failure nothing changes. A deposit raises the user's high-water
/// mark by exactly the amount put in.
pub fn deposit(
    config: &mut ProtocolConfig,
    position: &mut UserPosition,
    treasury_balance: u64,
    amount: u64,
    min_shares: u64,
    now: i64,
) -> (r: Result<DepositEvent, VaultError>)
    requires
        treasury_balance + amount <= u64::MAX,
    ensures
        match spec_deposit_error(*old(config), *old(position), treasury_balance, amount,
            min_shares) {
            Some(e) => r == Err::<DepositEvent, VaultError>(e) && *final(config) == *old(config)
                && *final(position) == *old(position),
            None => ({
                let minted = spec_shares_to_mint(*old(config), treasury_balance, amount);
                &&& r == Ok::<DepositEvent, VaultError>((DepositEvent {
                    user: old(position).owner,
                    amount,
                    shares_minted: minted as u64,
                    treasury_balance: (treasury_balance + amount) as u64,
                    timestamp: now,
                }))
                &&& *final(position) == (UserPosition {
                    deposited_amount: (old(position).deposited_amount + amount) as u64,
                    user_shares: (old(position).user_shares + minted) as u64,
                    high_water_mark: (old(position).high_water_mark + amount) as u64,
                    ..*old(position)
                })
                &&& *final(config) == (ProtocolConfig {
                    total_shares: (old(config).total_shares + minted) as u64,
                    ..*old(config)
                })
            }),
        },
        // The first deposit into an empty pool mints exactly the amount deposited.
        r is Ok && old(config).total_shares == 0 ==> r->Ok_0.shares_minted == amount,
        // Shares enter the user's position and the pool total in lockstep.
        r is Ok ==> final(config).total_shares - old(config).total_shares
            == final(position).user_shares - old(position).user_shares,
{
    if config.is_paused {
        return Err(VaultError::ProtocolPaused);
    }
    if amount == 0 {
        return Err(VaultError::InvalidAmount);
    }
    if config.total_trading_deployed > u64::MAX - treasury_balance {
        return Err(VaultError::MathOverflow);
    }
    let total_value = treasury_balance + config.total_trading_deployed;
    if config.accumulated_fees > total_value {
        return Err(VaultError::MathOverflow);
    }
    let user_value_pool = total_value - config.accumulated_fees;

    let shares_to_mint: u64 = if config.total_shares == 0 {
        amount
    } else {
        if user_value_pool == 0 {
            return Err(VaultError::MathOverflow);
        }
        proof {
            assert((amount as int) * (config.total_shares as int) <= u128::MAX)
                by (nonlinear_arith)
                requires
                    amount <= u64::MAX,
                    config.total_shares <= u64::MAX,
            ;
        }
        let wide = (amount as u128) * (config.total_shares as u128);
        let quotient = wide / (user_value_pool as u128);
        if quotient > u64::MAX as u128 {
            return Err(VaultError::MathOverflow);
        }
        quotient as u64
    };
    if shares_to_mint < min_shares {
        return Err(VaultError::SlippageExceeded);
    }

    if amount > u64::MAX - position.deposited_amount {
        return Err(VaultError::MathOverflow);
    }
    if shares_to_mint > u64::MAX - position.user_shares {
        return Err(VaultError::MathOverflow);
    }
    if amount > u64::MAX - position.high_water_mark {
        return Err(VaultError::MathOverflow);
    }
    if shares_to_mint > u64::MAX - config.total_shares {
        return Err(VaultError::MathOverflow);
    }

    position.deposited_amount = position.deposited_amount + amount;
    position.user_shares = position.user_shares + shares_to_mint;
    position.high_water_mark = position.high_water_mark + amount;
    config.total_shares = config.total_shares + shares_to_mint;

    Ok(
        DepositEvent {
            user: position.owner,
            amount,
            shares_minted: shares_to_mint,
            treasury_balance: treasury_balance + amount,
            timestamp: now,
        },
    )
}

/// Shares burned to pay out `amount`: the amount at the pool's current
/// price, rounded down.
pub open spec fn spec_shares_to_burn(c: ProtocolConfig, treasury_balance: u64, amount: u64) -> int {
    amount * c.total_shares / spec_user_value_pool(c, treasury_balance)
}

/// The high-water mark after burning down to `new_shares`: shrunk in
/// proportion to the shares kept, so partial withdrawals keep the per-share
/// baseline and do not distort future fees.
pub open spec fn spec_scaled_high_water_mark(p: UserPosition, new_shares: int) -> int {
    if p.user_shares == 0 {
        0
    } else {
        p.high_water_mark * new_shares / (p.user_shares as int)
    }
}

/// Why a withdrawal is rejected, if it is; checks run in exactly this
/// order. In particular: a user whose nominal balance covers the amount is
/// still rejected with `InsufficientLiquidity` when the treasury's liquid
/// funds do not, since deployed capital is not directly withdrawable.
pub open spec fn spec_withdraw_error(
    c: ProtocolConfig,
    p: UserPosition,
    treasury_balance: u64,
    amount: u64,
    max_shares: u64,
) -> Option<VaultError> {
    if c.is_paused {
        Some(VaultError::ProtocolPaused)
    } else if !valuation_ok(c, treasury_balance) {
        Some(VaultError::MathOverflow)
    } else if spec_user_balance(c, p, treasury_balance) < amount {
        Some(VaultError::InsufficientBalance)
    } else if treasury_balance < amount {
        Some(VaultError::InsufficientLiquidity)
    } else if spec_user_value_pool(c, treasury_balance) == 0 {
        Some(VaultError::MathOverflow)
    } else if spec_shares_to_burn(c, treasury_balance, amount) > max_shares {
        Some(VaultError::SlippageExceeded)
    } else {
        None
    }
}

/// Withdraw `amount` asset units from the pool.
///
/// On success the burned shares leave the user's position and the pool
/// total together, the high-water mark shrinks proportionally, and the
/// surrounding system owes the user a transfer of `amount` out of the
/// treasury, signed with the pool's own authority. On failure nothing
/// changes.
pub fn withdraw(
    config: &mut ProtocolConfig,
    position: &mut UserPosition,
    treasury_balance: u64,
    amount: u64,
    max_shares: u64,
    now: i64,
) -> (r: Result<WithdrawEvent, VaultError>)
    requires
        old(position).user_shares <= old(config).total_shares,
    ensures
        match spec_withdraw_error(*old(config), *old(position), treasury_balance, amount,
            max_shares) {
            Some(e) => r == Err::<WithdrawEvent, VaultError>(e) && *final(config) == *old(config)
                && *final(position) == *old(position),
            None => ({
                let burned = spec_shares_to_burn(*old(config), treasury_balance, amount);
                let new_shares = old(position).user_shares - burned;
                &&& r == Ok::<WithdrawEvent, VaultError>((WithdrawEvent {
                    user: old(position).owner,
                    amount,
                    shares_burned: burned as u64,
                    remaining_shares: new_shares as u64,
                    timestamp: now,
                }))
                &&& *final(position) == (UserPosition {
                    user_shares: new_shares as u64,
                    high_water_mark: spec_scaled_high_water_mark(*old(position), new_shares) as u64,
                    ..*old(position)
                })
                &&& *final(config) == (ProtocolConfig {
                    total_shares: (old(config).total_shares - burned) as u64,
                    ..*old(config)
                })
            }),
        },
        // The burned shares never exceed the user's own, and the pool keeps
        // the position's invariant.
        final(position).user_shares <= final(config).total_shares,
        // A withdrawal never raises the high-water mark.
        final(position).high_water_mark <= old(position).high_water_mark,
        // Shares leave the user's position and the pool total in lockstep.
        r is Ok ==> old(config).total_shares - final(config).total_shares
            == old(position).user_shares - final(position).user_shares,
{
    if config.is_paused {
        return Err(VaultError::ProtocolPaused);
    }
    let valued = match crate::valuation::calculate_user_balance_internal(
        config,
        position,
        treasury_balance,
    ) {
        Ok(v) => v,
        Err(e) => {
            return Err(e);
        },
    };
    let user_balance = valued.0;
    let user_value_pool = valued.1;
    if user_balance < amount {
        return Err(VaultError::InsufficientBalance);
    }
    if treasury_balance < amount {
        return Err(VaultError::InsufficientLiquidity);
    }
    if user_value_pool == 0 {
        return Err(VaultError::MathOverflow);
    }

    proof {
        assert((amount as int) * (config.total_shares as int) <= u128::MAX) by (nonlinear_arith)
            requires
                amount <= u64::MAX,
                config.total_shares <= u64::MAX,
        ;
    }
    let wide = (amount as u128) * (config.total_shares as u128);
    let burn128 = wide / (user_value_pool as u128);
    proof {
        let u = position.user_shares as int;
        let s = config.total_shares as int;
        let v = user_value_pool as int;
        if s > 0 {
            // amount <= floor(u * v / s), so amount * s <= u * v, so the
            // burned shares floor(amount * s / v) stay within u.
            lemma_mul_inequality(amount as int, u * v / s, s);
            lemma_remainder_lower(u * v, s);
            assert((u * v / s) * s == s * (u * v / s)) by (nonlinear_arith);
            assert(amount * s <= u * v);
            assert(u * v == v * u) by (nonlinear_arith);
            lemma_multiply_divide_le(amount * s, v, u);
        } else {
            // No shares outstanding: the balance check forced amount == 0,
            // so nothing is burned.
            assert(amount == 0);
            assert((amount as int) * (config.total_shares as int) == 0) by (nonlinear_arith)
                requires
                    amount == 0,
            ;
        }
    }
    let shares_to_burn = burn128 as u64;
    if shares_to_burn > max_shares {
        return Err(VaultError::SlippageExceeded);
    }

    let original_shares = position.user_shares;
    position.user_shares = position.user_shares - shares_to_burn;
    if original_shares > 0 {
        proof {
            assert((position.high_water_mark as int) * (position.user_shares as int)
                <= u128::MAX) by (nonlinear_arith)
                requires
                    position.high_water_mark <= u64::MAX,
                    position.user_shares <= u64::MAX,
            ;
            lemma_mul_inequality(
                position.user_shares as int,
                original_shares as int,
                position.high_water_mark as int,
            );
            assert((position.user_shares as int) * (position.high_water_mark as int) == (
            position.high_water_mark as int) * (position.user_shares as int))
                by (nonlinear_arith);
            assert((original_shares as int) * (position.high_water_mark as int) == (
            position.high_water_mark as int) * (original_shares as int)) by (nonlinear_arith);
            lemma_multiply_divide_le(
                (position.high_water_mark as int) * (position.user_shares as int),
                original_shares as int,
                position.high_water_mark as int,
            );
        }
        let scaled = ((position.high_water_mark as u128) * (position.user_shares as u128)) / (
        original_shares as u128);
        position.high_water_mark = scaled as u64;
    } else {
        position.high_water_mark = 0;
    }
    config.total_shares = config.total_shares - shares_to_burn;

    Ok(
        WithdrawEvent {
            user: position.owner,
            amount,
            shares_burned: shares_to_burn,
            remaining_shares: position.user_shares,
            timestamp: now,
        },
    )
}

} // verus!
