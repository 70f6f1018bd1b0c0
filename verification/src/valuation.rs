use vstd::prelude::*;

use vstd::arithmetic::div_mod::lemma_multiply_divide_le;
use vstd::arithmetic::mul::lemma_mul_inequality;

use crate::errors::VaultError;
use crate::state::ProtocolConfig;
use crate::state::UserPosition;

verus! {

/// Everything the pool is worth: liquid treasury funds plus capital the
/// operator holds externally.
pub open spec fn spec_total_value(c: ProtocolConfig, treasury_balance: u64) -> int {
    treasury_balance + c.total_trading_deployed
}

/// The part of the pool that belongs to the shareholders: total value less
/// the fees already owed to the admin.
pub open spec fn spec_user_value_pool(c: ProtocolConfig, treasury_balance: u64) -> int {
    spec_total_value(c, treasury_balance) - c.accumulated_fees
}

/// The valuation is representable: the total value fits in 64 bits and the
/// accumulated fees do not exceed the tracked value. A valuation outside
/// these bounds signals corrupted state and is reported as an overflow.
pub open spec fn valuation_ok(c: ProtocolConfig, treasury_balance: u64) -> bool {
    &&& spec_total_value(c, treasury_balance) <= u64::MAX
    &&& c.accumulated_fees <= spec_total_value(c, treasury_balance)
}

/// A user's current claim on the pool: their proportional slice of the
/// shareholder pool, rounded down. No shares outstanding means no claim,
/// whatever the position says.
pub open spec fn spec_user_balance(
    c: ProtocolConfig,
    p: UserPosition,
    treasury_balance: u64,
) -> int {
    if c.total_shares == 0 {
        0
    } else {
        p.user_shares * spec_user_value_pool(c, treasury_balance) / (c.total_shares as int)
    }
}

/// Value a user's holding: returns the user's redeemable balance, the
/// shareholder pool and the total pool value. Pure and read-only; every
/// mutating operation prices against exactly this computation.
pub fn calculate_user_balance_internal(
    config: &ProtocolConfig,
    position: &UserPosition,
    treasury_balance: u64,
) -> (r: Result<(u64, u64, u64), VaultError>)
    requires
        position.user_shares <= config.total_shares,
    ensures
        r is Ok <==> valuation_ok(*config, treasury_balance),
        r is Err ==> r->Err_0 == VaultError::MathOverflow,
        r is Ok ==> ({
            &&& r->Ok_0.0 == spec_user_balance(*config, *position, treasury_balance)
            &&& r->Ok_0.1 == spec_user_value_pool(*config, treasury_balance)
            &&& r->Ok_0.2 == spec_total_value(*config, treasury_balance)
            &&& r->Ok_0.0 <= r->Ok_0.1
        }),
{
    if config.total_trading_deployed > u64::MAX - treasury_balance {
        return Err(VaultError::MathOverflow);
    }
    let total_value = treasury_balance + config.total_trading_deployed;
    if config.accumulated_fees > total_value {
        return Err(VaultError::MathOverflow);
    }
    let user_value_pool = total_value - config.accumulated_fees;

    if config.total_shares == 0 {
        return Ok((0, user_value_pool, total_value));
    }

    proof {
        assert((position.user_shares as int) * (user_value_pool as int) <= u128::MAX)
            by (nonlinear_arith)
            requires
                position.user_shares <= u64::MAX,
                user_value_pool <= u64::MAX,
        ;
        lemma_mul_inequality(
            position.user_shares as int,
            config.total_shares as int,
            user_value_pool as int,
        );
        lemma_multiply_divide_le(
            (position.user_shares as int) * (user_value_pool as int),
            config.total_shares as int,
            user_value_pool as int,
        );
    }
    let wide = (position.user_shares as u128) * (user_value_pool as u128);
    let user_balance = (wide / (config.total_shares as u128)) as u64;

    Ok((user_balance, user_value_pool, total_value))
}

/// A user's redeemable balance alone.
pub fn calculate_user_balance(
    config: &ProtocolConfig,
    position: &UserPosition,
    treasury_balance: u64,
) -> (r: Result<u64, VaultError>)
    requires
        position.user_shares <= config.total_shares,
    ensures
        r is Ok <==> valuation_ok(*config, treasury_balance),
        r is Err ==> r->Err_0 == VaultError::MathOverflow,
        r is Ok ==> r->Ok_0 == spec_user_balance(*config, *position, treasury_balance),
{
    match calculate_user_balance_internal(config, position, treasury_balance) {
        Ok((user_balance, _, _)) => Ok(user_balance),
        Err(e) => Err(e),
    }
}

/// Pool-wide figures: the shareholders' value, the fees awaiting sweep and
/// the shares outstanding.
pub fn get_protocol_stats(config: &ProtocolConfig, treasury_balance: u64) -> (r: Result<
    (u64, u64, u64),
    VaultError,
>)
    ensures
        r is Ok <==> valuation_ok(*config, treasury_balance),
        r is Err ==> r->Err_0 == VaultError::MathOverflow,
        r is Ok ==> ({
            &&& r->Ok_0.0 == spec_user_value_pool(*config, treasury_balance)
            &&& r->Ok_0.1 == config.accumulated_fees
            &&& r->Ok_0.2 == config.total_shares
        }),
{
    if config.total_trading_deployed > u64::MAX - treasury_balance {
        return Err(VaultError::MathOverflow);
    }
    let total_value = treasury_balance + config.total_trading_deployed;
    if config.accumulated_fees > total_value {
        return Err(VaultError::MathOverflow);
    }
    Ok((total_value - config.accumulated_fees, config.accumulated_fees, config.total_shares))
}

/// Per-user figures: the user's redeemable balance, the fees they have paid
/// over their lifetime, and when their fees were last collected.
pub fn get_user_stats(
    config: &ProtocolConfig,
    position: &UserPosition,
    treasury_balance: u64,
) -> (r: Result<(u64, u64, i64), VaultError>)
    requires
        position.user_shares <= config.total_shares,
    ensures
        r is Ok <==> valuation_ok(*config, treasury_balance),
        r is Err ==> r->Err_0 == VaultError::MathOverflow,
        r is Ok ==> ({
            &&& r->Ok_0.0 == spec_user_balance(*config, *position, treasury_balance)
            &&& r->Ok_0.1 == position.lifetime_fees_paid
            &&& r->Ok_0.2 == position.last_fee_collection
        }),
{
    match calculate_user_balance_internal(config, position, treasury_balance) {
        Ok((user_balance, _, _)) => Ok(
            (user_balance, position.lifetime_fees_paid, position.last_fee_collection),
        ),
        Err(e) => Err(e),
    }
}

} // verus!
