use vstd::prelude::*;

use vstd::arithmetic::div_mod::lemma_div_pos_is_pos;
use vstd::arithmetic::div_mod::lemma_multiply_divide_le;
use vstd::arithmetic::div_mod::lemma_remainder_lower;
use vstd::arithmetic::mul::lemma_mul_inequality;
use vstd::arithmetic::mul::lemma_mul_nonnegative;

use crate::capital::spec_performance_fee;
use crate::errors::VaultError;
use crate::events::FeeCollectedEvent;
use crate::events::FeesWithdrawnEvent;
use crate::state::AccountId;
use crate::state::ProtocolConfig;
use crate::state::UserPosition;
use crate::state::BPS_DENOMINATOR;
use crate::state::FEE_COLLECTION_INTERVAL;
use crate::valuation::calculate_user_balance_internal;
use crate::valuation::spec_user_balance;
use crate::valuation::spec_user_value_pool;
use crate::valuation::valuation_ok;

verus! {

/// A user is due for fee collection once the interval has elapsed since
/// their last collection.
pub open spec fn spec_fee_eligible(p: UserPosition, now: i64) -> bool {
    now >= p.last_fee_collection + FEE_COLLECTION_INTERVAL
}

/// Whether `now` is late enough to collect this user's fees.
pub fn check_fee_eligibility(position: &UserPosition, now: i64) -> (eligible: bool)
    requires
        position.wf(),
    ensures
        eligible == spec_fee_eligible(*position, now),
{
    now >= position.last_fee_collection && now - position.last_fee_collection
        >= FEE_COLLECTION_INTERVAL
}

/// The part of a user's current balance above their own high-water mark.
/// A balance at or below the mark yields no profit: unrealized losses are
/// never fee-charged.
pub open spec fn spec_user_profit(c: ProtocolConfig, p: UserPosition, treasury_balance: u64) -> int {
    let balance = spec_user_balance(c, p, treasury_balance);
    if balance > p.high_water_mark {
        balance - p.high_water_mark
    } else {
        0
    }
}

/// The performance fee owed on a user's profit over their mark.
pub open spec fn spec_user_fee(c: ProtocolConfig, p: UserPosition, treasury_balance: u64) -> int {
    spec_performance_fee(spec_user_profit(c, p, treasury_balance), c.performance_fee_bps)
}

/// The fee converted into shares at the pool's current price: these shares
/// are burned from the user so the fee's value moves to `accumulated_fees`.
pub open spec fn spec_shares_to_reduce(
    c: ProtocolConfig,
    p: UserPosition,
    treasury_balance: u64,
) -> int {
    if spec_user_fee(c, p, treasury_balance) > 0 {
        spec_user_fee(c, p, treasury_balance) * c.total_shares / spec_user_value_pool(
            c,
            treasury_balance,
        )
    } else {
        0
    }
}

/// Why crystallizing one user's fee is rejected, if it is, once the caller
/// and the eligibility window have been checked.
pub open spec fn spec_crystallize_error(
    c: ProtocolConfig,
    p: UserPosition,
    treasury_balance: u64,
) -> Option<VaultError> {
    if !valuation_ok(c, treasury_balance) {
        Some(VaultError::MathOverflow)
    } else if p.lifetime_fees_paid + spec_user_fee(c, p, treasury_balance) > u64::MAX {
        Some(VaultError::MathOverflow)
    } else if c.accumulated_fees + spec_user_fee(c, p, treasury_balance) > u64::MAX {
        Some(VaultError::MathOverflow)
    } else {
        None
    }
}

/// The position once a fee is crystallized: shares and mark move only when
/// a fee is actually charged; the collection clock restarts either way.
pub open spec fn spec_position_after_fee(
    c: ProtocolConfig,
    p: UserPosition,
    treasury_balance: u64,
    now: i64,
) -> UserPosition {
    let fee = spec_user_fee(c, p, treasury_balance);
    if fee > 0 {
        UserPosition {
            user_shares: (p.user_shares - spec_shares_to_reduce(c, p, treasury_balance)) as u64,
            high_water_mark: (spec_user_balance(c, p, treasury_balance) - fee) as u64,
            lifetime_fees_paid: (p.lifetime_fees_paid + fee) as u64,
            last_fee_collection: now,
            ..p
        }
    } else {
        UserPosition { last_fee_collection: now, ..p }
    }
}

/// The pool configuration once a user's fee is crystallized: the burned
/// shares leave the total and the fee joins the accumulated fees.
pub open spec fn spec_config_after_fee(
    c: ProtocolConfig,
    p: UserPosition,
    treasury_balance: u64,
) -> ProtocolConfig {
    let fee = spec_user_fee(c, p, treasury_balance);
    if fee > 0 {
        ProtocolConfig {
            total_shares: (c.total_shares - spec_shares_to_reduce(c, p, treasury_balance)) as u64,
            accumulated_fees: (c.accumulated_fees + fee) as u64,
            ..c
        }
    } else {
        c
    }
}

/// Bounds of one fee crystallization: the fee is never negative and never
/// exceeds the profit over the user's own mark, the burned shares never
/// exceed the user's own, and when a fee is charged the user's new mark
/// (balance less fee) is no lower than the old one — the mark only
/// ratchets upward here.
pub proof fn lemma_crystallize_in_range(c: ProtocolConfig, p: UserPosition, treasury_balance: u64)
    requires
        c.wf(),
        p.user_shares <= c.total_shares,
        valuation_ok(c, treasury_balance),
    ensures
        0 <= spec_user_fee(c, p, treasury_balance) <= spec_user_profit(c, p, treasury_balance),
        spec_user_profit(c, p, treasury_balance) <= spec_user_balance(c, p, treasury_balance),
        0 <= spec_user_balance(c, p, treasury_balance) <= spec_user_value_pool(
            c,
            treasury_balance,
        ),
        0 <= spec_shares_to_reduce(c, p, treasury_balance) <= p.user_shares,
        spec_user_fee(c, p, treasury_balance) > 0 ==> spec_user_value_pool(c, treasury_balance)
            > 0 && c.total_shares > 0 && spec_user_balance(c, p, treasury_balance)
            - spec_user_fee(c, p, treasury_balance) >= p.high_water_mark,
{
    let u = p.user_shares as int;
    let s = c.total_shares as int;
    let v = spec_user_value_pool(c, treasury_balance);
    let balance = spec_user_balance(c, p, treasury_balance);
    let profit = spec_user_profit(c, p, treasury_balance);
    let fee = spec_user_fee(c, p, treasury_balance);

    // The balance sits between zero and the shareholder pool.
    if s > 0 {
        lemma_mul_nonnegative(u, v);
        lemma_div_pos_is_pos(u * v, s);
        lemma_mul_inequality(u, s, v);
        lemma_multiply_divide_le(u * v, s, v);
    }
    assert(0 <= balance <= v);
    assert(0 <= profit <= balance);

    // The fee is a rounded-down fraction of the profit, at most 100%.
    lemma_mul_nonnegative(profit, c.performance_fee_bps as int);
    lemma_div_pos_is_pos(profit * c.performance_fee_bps, BPS_DENOMINATOR as int);
    lemma_mul_inequality(c.performance_fee_bps as int, BPS_DENOMINATOR as int, profit);
    assert(profit * c.performance_fee_bps == c.performance_fee_bps * profit) by (nonlinear_arith);
    assert((BPS_DENOMINATOR as int) * profit == profit * (BPS_DENOMINATOR as int))
        by (nonlinear_arith);
    lemma_multiply_divide_le(profit * c.performance_fee_bps, BPS_DENOMINATOR as int, profit);
    assert(0 <= fee <= profit);

    if fee > 0 {
        // A positive fee needs a positive balance, hence a priced pool.
        assert(balance > 0);
        assert(s > 0);
        if v == 0 {
            assert(u * 0 == 0) by (nonlinear_arith);
            assert(balance == 0);
        }
        assert(v > 0);
        // fee <= balance = floor(u * v / s), so fee * s <= u * v, so the
        // burned shares floor(fee * s / v) stay within u.
        lemma_mul_inequality(fee, u * v / s, s);
        lemma_remainder_lower(u * v, s);
        assert((u * v / s) * s == s * (u * v / s)) by (nonlinear_arith);
        assert(fee * s <= u * v);
        assert(u * v == v * u) by (nonlinear_arith);
        lemma_multiply_divide_le(fee * s, v, u);
        lemma_mul_nonnegative(fee, s);
        lemma_div_pos_is_pos(fee * s, v);
    }
    assert(0 <= spec_shares_to_reduce(c, p, treasury_balance) <= p.user_shares);
}

/// Crystallize one user's performance fee against their own high-water
/// mark, assuming the caller and the eligibility window are already
/// checked. Charges the fee by burning the fee's worth of shares at the
/// current price, raises the mark to the fee-adjusted balance, and
/// restarts the user's collection clock; with no profit over the mark only
/// the clock moves. Returns the fee charged.
fn crystallize_user_fee(
    config: &mut ProtocolConfig,
    position: &mut UserPosition,
    treasury_balance: u64,
    now: i64,
) -> (r: Result<u64, VaultError>)
    requires
        old(config).wf(),
        old(position).wf(),
        old(position).user_shares <= old(config).total_shares,
        now >= 0,
    ensures
        match spec_crystallize_error(*old(config), *old(position), treasury_balance) {
            Some(e) => r == Err::<u64, VaultError>(e) && *final(config) == *old(config)
                && *final(position) == *old(position),
            None => ({
                &&& r == Ok::<u64, VaultError>((spec_user_fee(*old(config), *old(position),
                    treasury_balance) as u64))
                &&& *final(position) == spec_position_after_fee(*old(config), *old(position),
                    treasury_balance, now)
                &&& *final(config) == spec_config_after_fee(*old(config), *old(position),
                    treasury_balance)
            }),
        },
        final(position).user_shares <= final(config).total_shares,
        final(position).high_water_mark >= old(position).high_water_mark,
        final(position).wf(),
        old(config).total_shares - final(config).total_shares == old(position).user_shares
            - final(position).user_shares,
        r is Ok ==> r->Ok_0 <= spec_user_profit(*old(config), *old(position), treasury_balance),
        r is Ok ==> (spec_user_balance(*old(config), *old(position), treasury_balance)
            <= old(position).high_water_mark ==> r->Ok_0 == 0),
{
    let valued = match calculate_user_balance_internal(config, position, treasury_balance) {
        Ok(v) => v,
        Err(e) => {
            return Err(e);
        },
    };
    let current_balance = valued.0;
    let user_value_pool = valued.1;

    proof {
        lemma_crystallize_in_range(*config, *position, treasury_balance);
    }

    let profit = if current_balance > position.high_water_mark {
        current_balance - position.high_water_mark
    } else {
        0
    };
    let wide = (profit as u128) * (config.performance_fee_bps as u128);
    let fee = (wide / (BPS_DENOMINATOR as u128)) as u64;

    if fee > u64::MAX - position.lifetime_fees_paid {
        return Err(VaultError::MathOverflow);
    }
    if fee > u64::MAX - config.accumulated_fees {
        return Err(VaultError::MathOverflow);
    }

    if fee > 0 {
        proof {
            assert((fee as int) * (config.total_shares as int) <= u128::MAX) by (nonlinear_arith)
                requires
                    fee <= u64::MAX,
                    config.total_shares <= u64::MAX,
            ;
        }
        let wide_shares = (fee as u128) * (config.total_shares as u128);
        let shares_to_reduce = (wide_shares / (user_value_pool as u128)) as u64;

        position.user_shares = position.user_shares - shares_to_reduce;
        position.high_water_mark = current_balance - fee;
        position.lifetime_fees_paid = position.lifetime_fees_paid + fee;
        config.total_shares = config.total_shares - shares_to_reduce;
        config.accumulated_fees = config.accumulated_fees + fee;
    }
    position.last_fee_collection = now;

    Ok(fee)
}

/// Why a single-user fee collection is rejected, if it is; the caller and
/// the eligibility window are checked before any arithmetic.
pub open spec fn spec_collect_error(
    c: ProtocolConfig,
    p: UserPosition,
    caller: AccountId,
    treasury_balance: u64,
    now: i64,
) -> Option<VaultError> {
    if caller != c.admin && caller != c.trading_bot {
        Some(VaultError::UnauthorizedCaller)
    } else if !spec_fee_eligible(p, now) {
        Some(VaultError::FeeCollectionTooSoon)
    } else {
        spec_crystallize_error(c, p, treasury_balance)
    }
}

/// Admin- or operator-only: crystallize one user's performance fee.
///
/// Returns the fee event when a fee was charged, `None` when the user had
/// no profit over their mark (their collection clock still restarts).
pub fn collect_user_fees(
    config: &mut ProtocolConfig,
    position: &mut UserPosition,
    caller: AccountId,
    treasury_balance: u64,
    now: i64,
) -> (r: Result<Option<FeeCollectedEvent>, VaultError>)
    requires
        old(config).wf(),
        old(position).wf(),
        old(position).user_shares <= old(config).total_shares,
        now >= 0,
    ensures
        match spec_collect_error(*old(config), *old(position), caller, treasury_balance, now) {
            Some(e) => r == Err::<Option<FeeCollectedEvent>, VaultError>(e) && *final(config)
                == *old(config) && *final(position) == *old(position),
            None => ({
                let fee = spec_user_fee(*old(config), *old(position), treasury_balance);
                &&& *final(position) == spec_position_after_fee(*old(config), *old(position),
                    treasury_balance, now)
                &&& *final(config) == spec_config_after_fee(*old(config), *old(position),
                    treasury_balance)
                &&& fee > 0 ==> r == Ok::<Option<FeeCollectedEvent>, VaultError>(
                    Some(FeeCollectedEvent {
                        user: old(position).owner,
                        fee: fee as u64,
                        shares_reduced: spec_shares_to_reduce(*old(config), *old(position),
                            treasury_balance) as u64,
                        timestamp: now,
                    }),
                )
                &&& fee <= 0 ==> r == Ok::<Option<FeeCollectedEvent>, VaultError>(None)
            }),
        },
        // The high-water mark is a ratchet: collection never lowers it.
        final(position).high_water_mark >= old(position).high_water_mark,
        final(position).user_shares <= final(config).total_shares,
        // A user at or below their mark is charged nothing.
        r is Ok && spec_user_balance(*old(config), *old(position), treasury_balance)
            <= old(position).high_water_mark ==> r == Ok::<Option<FeeCollectedEvent>, VaultError>(
            None,
        ) && *final(config) == *old(config),
        // Shares leave the user's position and the pool total in lockstep.
        old(config).total_shares - final(config).total_shares == old(position).user_shares
            - final(position).user_shares,
{
    if caller != config.admin && caller != config.trading_bot {
        return Err(VaultError::UnauthorizedCaller);
    }
    if !(now >= position.last_fee_collection && now - position.last_fee_collection
        >= FEE_COLLECTION_INTERVAL) {
        return Err(VaultError::FeeCollectionTooSoon);
    }

    let owner = position.owner;
    let original_shares = position.user_shares;
    let fee = match crystallize_user_fee(config, position, treasury_balance, now) {
        Ok(fee) => fee,
        Err(e) => {
            return Err(e);
        },
    };
    proof {
        lemma_crystallize_in_range(*old(config), *old(position), treasury_balance);
    }
    if fee > 0 {
        Ok(
            Some(
                FeeCollectedEvent {
                    user: owner,
                    fee,
                    shares_reduced: original_shares - position.user_shares,
                    timestamp: now,
                },
            ),
        )
    } else {
        Ok(None)
    }
}

/// Total shares held across a ledger of positions.
pub open spec fn sum_shares(ps: Seq<UserPosition>) -> int
    decreases ps.len(),
{
    if ps.len() == 0 {
        0
    } else {
        ps[0].user_shares + sum_shares(ps.drop_first())
    }
}

/// Share counts are unsigned, so a ledger's total is never negative.
pub proof fn lemma_sum_shares_nonneg(ps: Seq<UserPosition>)
    ensures
        sum_shares(ps) >= 0,
    decreases ps.len(),
{
    if ps.len() > 0 {
        lemma_sum_shares_nonneg(ps.drop_first());
    }
}

/// What one batch fee collection does, position by position from the
/// front: an ineligible user is skipped untouched, an eligible one has
/// their fee crystallized against the pool state as updated by the users
/// before them. `None` means the batch fails as a whole — one shared
/// arithmetic overflow aborts everything, since the batch shares one pool
/// accumulator — and the result carries the final configuration, the
/// rewritten ledger and the total fee charged.
pub open spec fn spec_batch_outcome(
    c: ProtocolConfig,
    ps: Seq<UserPosition>,
    treasury_balance: u64,
    now: i64,
) -> Option<(ProtocolConfig, Seq<UserPosition>, int)>
    decreases ps.len(),
{
    if ps.len() == 0 {
        Some((c, Seq::<UserPosition>::empty(), 0))
    } else {
        let p = ps[0];
        if !spec_fee_eligible(p, now) {
            match spec_batch_outcome(c, ps.drop_first(), treasury_balance, now) {
                Some(outcome) => Some((outcome.0, seq![p] + outcome.1, outcome.2)),
                None => None,
            }
        } else if spec_crystallize_error(c, p, treasury_balance) is Some {
            None
        } else {
            let fee = spec_user_fee(c, p, treasury_balance);
            let c1 = spec_config_after_fee(c, p, treasury_balance);
            let p1 = spec_position_after_fee(c, p, treasury_balance, now);
            match spec_batch_outcome(c1, ps.drop_first(), treasury_balance, now) {
                Some(outcome) => if fee + outcome.2 > u64::MAX {
                    None
                } else {
                    Some((outcome.0, seq![p1] + outcome.1, fee + outcome.2))
                },
                None => None,
            }
        }
    }
}

/// A successful batch charges a total fee that fits in 64 bits and keeps
/// one record per position handed in.
pub proof fn lemma_batch_total_bounds(
    c: ProtocolConfig,
    ps: Seq<UserPosition>,
    treasury_balance: u64,
    now: i64,
)
    ensures
        spec_batch_outcome(c, ps, treasury_balance, now) matches Some(outcome) ==> 0 <= outcome.2
            <= u64::MAX && outcome.1.len() == ps.len(),
    decreases ps.len(),
{
    if ps.len() > 0 {
        let p = ps[0];
        if !spec_fee_eligible(p, now) {
            lemma_batch_total_bounds(c, ps.drop_first(), treasury_balance, now);
        } else if spec_crystallize_error(c, p, treasury_balance) is None {
            lemma_batch_total_bounds(
                spec_config_after_fee(c, p, treasury_balance),
                ps.drop_first(),
                treasury_balance,
                now,
            );
            let profit = spec_user_profit(c, p, treasury_balance);
            lemma_mul_nonnegative(profit, c.performance_fee_bps as int);
            lemma_div_pos_is_pos(profit * c.performance_fee_bps, BPS_DENOMINATOR as int);
        }
    }
}

/// The rest of a batch, grafted onto what an in-progress run has done so
/// far: `done` records already rewritten and `total` fee already charged.
spec fn spec_batch_continue(
    c: ProtocolConfig,
    rest: Seq<UserPosition>,
    treasury_balance: u64,
    now: i64,
    done: Seq<UserPosition>,
    total: int,
) -> Option<(ProtocolConfig, Seq<UserPosition>, int)> {
    match spec_batch_outcome(c, rest, treasury_balance, now) {
        Some(outcome) => if total + outcome.2 > u64::MAX {
            None
        } else {
            Some((outcome.0, done + outcome.1, total + outcome.2))
        },
        None => None,
    }
}

/// Admin- or operator-only: crystallize fees for a whole ledger of users
/// in one atomic operation.
///
/// Ineligible users are silently skipped, never an error; any arithmetic
/// failure aborts the entire batch with nothing changed, because the batch
/// shares the one pool accumulator. Returns the total fee charged.
pub fn collect_batch_fees(
    config: &mut ProtocolConfig,
    positions: &mut Vec<UserPosition>,
    caller: AccountId,
    treasury_balance: u64,
    now: i64,
) -> (r: Result<u64, VaultError>)
    requires
        old(config).wf(),
        forall|j: int|
            0 <= j < old(positions)@.len() ==> (#[trigger] old(positions)@[j]).wf(),
        sum_shares(old(positions)@) <= old(config).total_shares,
        now >= 0,
    ensures
        (caller != old(config).admin && caller != old(config).trading_bot) ==> r == Err::<
            u64,
            VaultError,
        >(VaultError::UnauthorizedCaller) && *final(config) == *old(config) && final(positions)@
            == old(positions)@,
        (caller == old(config).admin || caller == old(config).trading_bot) ==> match
            spec_batch_outcome(*old(config), old(positions)@, treasury_balance, now) {
            Some(outcome) => r == Ok::<u64, VaultError>((outcome.2 as u64)) && *final(config)
                == outcome.0 && final(positions)@ == outcome.1,
            None => r == Err::<u64, VaultError>(VaultError::MathOverflow) && *final(config)
                == *old(config) && final(positions)@ == old(positions)@,
        },
{
    if caller != config.admin && caller != config.trading_bot {
        return Err(VaultError::UnauthorizedCaller);
    }

    let ghost c0 = *config;
    let ghost ps0 = positions@;
    let mut cfg = *config;
    let mut updated: Vec<UserPosition> = Vec::new();
    let mut total_fees: u64 = 0;
    let n = positions.len();
    proof {
        assert(ps0.subrange(0, n as int) =~= ps0);
        lemma_batch_total_bounds(c0, ps0, treasury_balance, now);
        let o = spec_batch_outcome(c0, ps0, treasury_balance, now);
        if o is Some {
            assert(Seq::<UserPosition>::empty() + o->Some_0.1 =~= o->Some_0.1);
        }
    }
    let mut i: usize = 0;
    while i < n
        invariant
            n == ps0.len(),
            positions@ == ps0,
            *config == c0,
            c0.wf(),
            cfg.wf(),
            now >= 0,
            caller == c0.admin || caller == c0.trading_bot,
            forall|j: int| 0 <= j < ps0.len() ==> (#[trigger] ps0[j]).wf(),
            i <= n,
            sum_shares(ps0.subrange(i as int, n as int)) <= cfg.total_shares,
            spec_batch_outcome(c0, ps0, treasury_balance, now) == spec_batch_continue(
                cfg,
                ps0.subrange(i as int, n as int),
                treasury_balance,
                now,
                updated@,
                total_fees as int,
            ),
        decreases n - i,
    {
        let ghost rest_i = ps0.subrange(i as int, n as int);
        let ghost rest_next = ps0.subrange(i as int + 1, n as int);
        proof {
            assert(rest_i.len() == n - i);
            assert(rest_i[0] == ps0[i as int]);
            assert(rest_i.drop_first() =~= rest_next);
            lemma_sum_shares_nonneg(rest_next);
            assert(sum_shares(rest_i) == rest_i[0].user_shares + sum_shares(rest_i.drop_first()));
        }
        let p = positions[i];
        let eligible = now >= p.last_fee_collection && now - p.last_fee_collection
            >= FEE_COLLECTION_INTERVAL;
        if eligible {
            let ghost cfg_before = cfg;
            let mut touched = p;
            let fee = match crystallize_user_fee(&mut cfg, &mut touched, treasury_balance, now) {
                Ok(fee) => fee,
                Err(e) => {
                    return Err(e);
                },
            };
            proof {
                lemma_crystallize_in_range(cfg_before, p, treasury_balance);
                lemma_batch_total_bounds(cfg, rest_next, treasury_balance, now);
            }
            if fee > u64::MAX - total_fees {
                return Err(VaultError::MathOverflow);
            }
            proof {
                let o = spec_batch_outcome(cfg, rest_next, treasury_balance, now);
                if o is Some {
                    assert(updated@ + (seq![touched] + o->Some_0.1) =~= updated@.push(touched)
                        + o->Some_0.1);
                }
            }
            total_fees = total_fees + fee;
            updated.push(touched);
        } else {
            proof {
                let o = spec_batch_outcome(cfg, rest_next, treasury_balance, now);
                if o is Some {
                    assert(updated@ + (seq![p] + o->Some_0.1) =~= updated@.push(p) + o->Some_0.1);
                }
            }
            updated.push(p);
        }
        i = i + 1;
    }
    proof {
        assert(ps0.subrange(n as int, n as int) =~= Seq::<UserPosition>::empty());
        assert(updated@ + Seq::<UserPosition>::empty() =~= updated@);
    }
    *config = cfg;
    *positions = updated;
    Ok(total_fees)
}

/// Why an admin fee sweep is rejected, if it is.
pub open spec fn spec_sweep_error(c: ProtocolConfig, caller: AccountId) -> Option<VaultError> {
    if caller != c.admin {
        Some(VaultError::UnauthorizedAdmin)
    } else if c.accumulated_fees == 0 {
        Some(VaultError::NoFeesToCollect)
    } else {
        None
    }
}

/// Admin-only: sweep the entire accumulated fee balance.
///
/// On success the surrounding system owes the admin a transfer of the
/// returned event's amount out of the treasury, signed with the pool's own
/// authority; the accumulated fees drop to zero and the sweep is stamped.
pub fn collect_performance_fees(config: &mut ProtocolConfig, caller: AccountId, now: i64) -> (r:
    Result<FeesWithdrawnEvent, VaultError>)
    ensures
        match spec_sweep_error(*old(config), caller) {
            Some(e) => r == Err::<FeesWithdrawnEvent, VaultError>(e)
                && *final(config) == *old(config),
            None => r == Ok::<FeesWithdrawnEvent, VaultError>((FeesWithdrawnEvent {
                amount: old(config).accumulated_fees,
                timestamp: now,
            })) && *final(config) == (ProtocolConfig {
                accumulated_fees: 0,
                last_fee_sweep: now,
                ..*old(config)
            }),
        },
{
    if caller != config.admin {
        return Err(VaultError::UnauthorizedAdmin);
    }
    let fees = config.accumulated_fees;
    if fees == 0 {
        return Err(VaultError::NoFeesToCollect);
    }
    config.accumulated_fees = 0;
    config.last_fee_sweep = now;
    Ok(FeesWithdrawnEvent { amount: fees, timestamp: now })
}

} // verus!
