use vstd::prelude::*;

use vstd::arithmetic::div_mod::lemma_multiply_divide_le;
use vstd::arithmetic::mul::lemma_mul_inequality;

use crate::errors::VaultError;
use crate::events::CapitalDeployedEvent;
use crate::events::CapitalReturnedEvent;
use crate::state::AccountId;
use crate::state::ProtocolConfig;
use crate::state::BPS_DENOMINATOR;
use crate::state::TRADING_ALLOCATION_BPS;

verus! {

/// The most the operator may take out of the treasury: 90% of its current
/// balance, rounded down; the remaining 10% stays liquid for withdrawals.
pub open spec fn spec_max_deployable(treasury_balance: u64) -> int {
    treasury_balance * TRADING_ALLOCATION_BPS / (BPS_DENOMINATOR as int)
}

/// The protocol's cut of a profit: `profit * bps`, rounded down to whole
/// basis points.
pub open spec fn spec_performance_fee(profit: int, bps: u16) -> int {
    profit * bps / (BPS_DENOMINATOR as int)
}

/// Why a deployment is rejected, if it is; checks run in exactly this order.
pub open spec fn spec_deploy_error(
    c: ProtocolConfig,
    caller: AccountId,
    treasury_balance: u64,
    amount: u64,
) -> Option<VaultError> {
    if caller != c.trading_bot {
        Some(VaultError::UnauthorizedTradingBot)
    } else if amount > spec_max_deployable(treasury_balance) {
        Some(VaultError::ExceedsMaxDeployment)
    } else if c.total_trading_deployed + amount > u64::MAX {
        Some(VaultError::MathOverflow)
    } else {
        None
    }
}

/// Operator-only: move `amount` of the treasury into the operator's hands
/// for external trading.
///
/// On success the surrounding system owes the operator a transfer of
/// `amount` out of the treasury, signed with the pool's own authority, and
/// the deployed total grows by exactly the amount moved.
pub fn deploy_capital_for_trading(
    config: &mut ProtocolConfig,
    caller: AccountId,
    treasury_balance: u64,
    amount: u64,
    now: i64,
) -> (r: Result<CapitalDeployedEvent, VaultError>)
    ensures
        match spec_deploy_error(*old(config), caller, treasury_balance, amount) {
            Some(e) => r == Err::<CapitalDeployedEvent, VaultError>(e) && *final(config) == *old(
                config,
            ),
            None => ({
                &&& r == Ok::<CapitalDeployedEvent, VaultError>((CapitalDeployedEvent {
                    amount,
                    total_deployed: (old(config).total_trading_deployed + amount) as u64,
                    treasury_remaining: (treasury_balance - amount) as u64,
                    timestamp: now,
                }))
                &&& *final(config) == (ProtocolConfig {
                    total_trading_deployed: (old(config).total_trading_deployed + amount) as u64,
                    ..*old(config)
                })
            }),
        },
{
    if caller != config.trading_bot {
        return Err(VaultError::UnauthorizedTradingBot);
    }
    proof {
        lemma_mul_inequality(
            TRADING_ALLOCATION_BPS as int,
            BPS_DENOMINATOR as int,
            treasury_balance as int,
        );
        assert((treasury_balance as int) * (TRADING_ALLOCATION_BPS as int) == (
        TRADING_ALLOCATION_BPS as int) * (treasury_balance as int)) by (nonlinear_arith);
        assert((BPS_DENOMINATOR as int) * (treasury_balance as int) == (treasury_balance as int)
            * (BPS_DENOMINATOR as int)) by (nonlinear_arith);
        lemma_multiply_divide_le(
            (treasury_balance as int) * (TRADING_ALLOCATION_BPS as int),
            BPS_DENOMINATOR as int,
            treasury_balance as int,
        );
    }
    let wide = (treasury_balance as u128) * (TRADING_ALLOCATION_BPS as u128);
    let max_deployable = (wide / (BPS_DENOMINATOR as u128)) as u64;
    if amount > max_deployable {
        return Err(VaultError::ExceedsMaxDeployment);
    }
    if amount > u64::MAX - config.total_trading_deployed {
        return Err(VaultError::MathOverflow);
    }
    config.total_trading_deployed = config.total_trading_deployed + amount;
    Ok(
        CapitalDeployedEvent {
            amount,
            total_deployed: config.total_trading_deployed,
            treasury_remaining: treasury_balance - amount,
            timestamp: now,
        },
    )
}

/// The pool-level fee a capital return accrues: a cut of the gross profit,
/// zero when the return closes at or below the deployed amount.
pub open spec fn spec_return_fee(
    c: ProtocolConfig,
    returned_amount: u64,
    original_deployed: u64,
) -> int {
    if returned_amount > original_deployed {
        spec_performance_fee(returned_amount - original_deployed, c.performance_fee_bps)
    } else {
        0
    }
}

/// Why a capital return is rejected, if it is; checks run in exactly this
/// order.
pub open spec fn spec_return_error(
    c: ProtocolConfig,
    caller: AccountId,
    returned_amount: u64,
    original_deployed: u64,
) -> Option<VaultError> {
    if caller != c.trading_bot {
        Some(VaultError::UnauthorizedTradingBot)
    } else if original_deployed > c.total_trading_deployed {
        Some(VaultError::InvalidAmount)
    } else if returned_amount > original_deployed && returned_amount - original_deployed
        > i64::MAX {
        Some(VaultError::MathOverflow)
    } else if returned_amount < original_deployed && original_deployed - returned_amount
        > i64::MAX {
        Some(VaultError::MathOverflow)
    } else if c.accumulated_fees + spec_return_fee(c, returned_amount, original_deployed)
        > u64::MAX {
        Some(VaultError::MathOverflow)
    } else {
        None
    }
}

/// Operator-only: return capital from trading, recognizing profit or loss.
///
/// `original_deployed` is how much of the outstanding deployment this
/// return closes out (partial returns are allowed); `returned_amount` is
/// what actually comes back, and the surrounding system owes the treasury
/// that transfer from the operator. `treasury_balance` is the treasury's
/// balance once the return is credited, reported in the event. A profit
/// accrues the pool-level provisional fee into `accumulated_fees` at once,
/// diluting the shareholder pool until crystallized per user; a loss
/// charges no fee and is borne by all shareholders proportionally.
pub fn return_capital_from_trading(
    config: &mut ProtocolConfig,
    caller: AccountId,
    treasury_balance: u64,
    returned_amount: u64,
    original_deployed: u64,
    now: i64,
) -> (r: Result<CapitalReturnedEvent, VaultError>)
    requires
        old(config).wf(),
    ensures
        match spec_return_error(*old(config), caller, returned_amount, original_deployed) {
            Some(e) => r == Err::<CapitalReturnedEvent, VaultError>(e) && *final(config) == *old(
                config,
            ),
            None => ({
                let fee = spec_return_fee(*old(config), returned_amount, original_deployed);
                &&& r == Ok::<CapitalReturnedEvent, VaultError>((CapitalReturnedEvent {
                    amount: returned_amount,
                    profit_or_loss: (returned_amount - original_deployed) as i64,
                    new_treasury_balance: treasury_balance,
                    timestamp: now,
                }))
                &&& *final(config) == (ProtocolConfig {
                    total_trading_deployed: (old(config).total_trading_deployed
                        - original_deployed) as u64,
                    accumulated_fees: (old(config).accumulated_fees + fee) as u64,
                    ..*old(config)
                })
            }),
        },
        // The accrued fee never exceeds the gross profit, and a loss
        // accrues nothing.
        r is Ok ==> final(config).accumulated_fees - old(config).accumulated_fees <= (
        if returned_amount > original_deployed {
            (returned_amount - original_deployed) as int
        } else {
            0int
        }),
{
    if caller != config.trading_bot {
        return Err(VaultError::UnauthorizedTradingBot);
    }
    if original_deployed > config.total_trading_deployed {
        return Err(VaultError::InvalidAmount);
    }

    let profit_or_loss: i64 = if returned_amount > original_deployed {
        let diff = returned_amount - original_deployed;
        if diff > i64::MAX as u64 {
            return Err(VaultError::MathOverflow);
        }
        diff as i64
    } else {
        let diff = original_deployed - returned_amount;
        if diff > i64::MAX as u64 {
            return Err(VaultError::MathOverflow);
        }
        -(diff as i64)
    };

    let fee: u64 = if profit_or_loss > 0 {
        let profit = profit_or_loss as u64;
        proof {
            lemma_mul_inequality(
                config.performance_fee_bps as int,
                BPS_DENOMINATOR as int,
                profit as int,
            );
            assert((profit as int) * (config.performance_fee_bps as int) == (
            config.performance_fee_bps as int) * (profit as int)) by (nonlinear_arith);
            assert((BPS_DENOMINATOR as int) * (profit as int) == (profit as int) * (
            BPS_DENOMINATOR as int)) by (nonlinear_arith);
            lemma_multiply_divide_le(
                (profit as int) * (config.performance_fee_bps as int),
                BPS_DENOMINATOR as int,
                profit as int,
            );
        }
        let wide = (profit as u128) * (config.performance_fee_bps as u128);
        (wide / (BPS_DENOMINATOR as u128)) as u64
    } else {
        0
    };
    if fee > u64::MAX - config.accumulated_fees {
        return Err(VaultError::MathOverflow);
    }

    config.total_trading_deployed = config.total_trading_deployed - original_deployed;
    config.accumulated_fees = config.accumulated_fees + fee;

    Ok(
        CapitalReturnedEvent {
            amount: returned_amount,
            profit_or_loss,
            new_treasury_balance: treasury_balance,
            timestamp: now,
        },
    )
}

} // verus!
