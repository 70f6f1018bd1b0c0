use grid_vault::capital::deploy_capital_for_trading;
use grid_vault::capital::return_capital_from_trading;
use grid_vault::errors::VaultError;
use grid_vault::fees::check_fee_eligibility;
use grid_vault::fees::collect_batch_fees;
use grid_vault::fees::collect_performance_fees;
use grid_vault::fees::collect_user_fees;
use grid_vault::flows::deposit;
use grid_vault::flows::withdraw;
use grid_vault::state::create_user_position;
use grid_vault::state::initialize_protocol;
use grid_vault::state::pause_protocol;
use grid_vault::state::unpause_protocol;
use grid_vault::state::ProtocolConfig;
use grid_vault::state::UserPosition;
use grid_vault::state::FEE_COLLECTION_INTERVAL;
use grid_vault::state::PERFORMANCE_FEE_BPS;
use grid_vault::valuation::calculate_user_balance;
use grid_vault::valuation::calculate_user_balance_internal;
use grid_vault::valuation::get_protocol_stats;
use grid_vault::valuation::get_user_stats;

const ADMIN: u64 = 1;
const BOT: u64 = 2;
const TREASURY: u64 = 3;
const USER: u64 = 7;

fn fresh() -> (ProtocolConfig, UserPosition) {
    (initialize_protocol(ADMIN, BOT, TREASURY), create_user_position(USER, 0))
}

#[test]
fn initialize_sets_empty_pool() {
    let config = initialize_protocol(ADMIN, BOT, TREASURY);
    assert_eq!(config.admin, ADMIN);
    assert_eq!(config.trading_bot, BOT);
    assert_eq!(config.treasury, TREASURY);
    assert_eq!(config.total_shares, 0);
    assert_eq!(config.total_trading_deployed, 0);
    assert_eq!(config.accumulated_fees, 0);
    assert_eq!(config.performance_fee_bps, PERFORMANCE_FEE_BPS);
    assert!(!config.is_paused);
    assert_eq!(config.last_fee_sweep, 0);
}

#[test]
fn create_position_starts_blank() {
    let position = create_user_position(USER, 42);
    assert_eq!(position.owner, USER);
    assert_eq!(position.deposited_amount, 0);
    assert_eq!(position.user_shares, 0);
    assert_eq!(position.high_water_mark, 0);
    assert_eq!(position.last_fee_collection, 42);
    assert_eq!(position.lifetime_fees_paid, 0);
    assert!(position.is_active);
}

#[test]
fn first_deposit_mints_one_share_per_unit() {
    let (mut config, mut position) = fresh();
    let event = deposit(&mut config, &mut position, 0, 1000, 0, 10).unwrap();
    assert_eq!(event.user, USER);
    assert_eq!(event.amount, 1000);
    assert_eq!(event.shares_minted, 1000);
    assert_eq!(event.treasury_balance, 1000);
    assert_eq!(event.timestamp, 10);
    assert_eq!(config.total_shares, 1000);
    assert_eq!(position.user_shares, 1000);
    assert_eq!(position.deposited_amount, 1000);
    assert_eq!(position.high_water_mark, 1000);
}

#[test]
fn deposit_zero_is_rejected() {
    let (mut config, mut position) = fresh();
    assert_eq!(
        deposit(&mut config, &mut position, 0, 0, 0, 10),
        Err(VaultError::InvalidAmount)
    );
    assert_eq!(config.total_shares, 0);
}

#[test]
fn deposit_respects_slippage_floor() {
    let (mut config, mut position) = fresh();
    assert_eq!(
        deposit(&mut config, &mut position, 0, 1000, 1001, 10),
        Err(VaultError::SlippageExceeded)
    );
    assert_eq!(position.user_shares, 0);
}

#[test]
fn deposit_overflowing_valuation_is_rejected() {
    let (mut config, mut position) = fresh();
    config.total_trading_deployed = u64::MAX;
    assert_eq!(
        deposit(&mut config, &mut position, 1, 5, 0, 10),
        Err(VaultError::MathOverflow)
    );
}

#[test]
fn later_deposit_is_priced_against_pool_value() {
    let (mut config, mut alice) = fresh();
    deposit(&mut config, &mut alice, 0, 3, 0, 1).unwrap();
    // Trading profit of 1 (fee rounds to zero) reprices the 3 shares to a
    // pool of 4.
    deploy_capital_for_trading(&mut config, BOT, 3, 2, 2).unwrap();
    return_capital_from_trading(&mut config, BOT, 4, 3, 2, 3).unwrap();
    assert_eq!(config.accumulated_fees, 0);
    // Bob's 5 units buy floor(5 * 3 / 4) = 3 shares.
    let mut bob = create_user_position(8, 0);
    let event = deposit(&mut config, &mut bob, 4, 5, 0, 4).unwrap();
    assert_eq!(event.shares_minted, 3);
    assert_eq!(config.total_shares, 6);
    // Conservation across both positions.
    assert_eq!(alice.user_shares + bob.user_shares, config.total_shares);
}

#[test]
fn round_trip_returns_no_more_than_deposited() {
    let (mut config, mut alice) = fresh();
    deposit(&mut config, &mut alice, 0, 3, 0, 1).unwrap();
    deploy_capital_for_trading(&mut config, BOT, 3, 2, 2).unwrap();
    return_capital_from_trading(&mut config, BOT, 4, 3, 2, 3).unwrap();
    let mut bob = create_user_position(8, 0);
    deposit(&mut config, &mut bob, 4, 5, 0, 4).unwrap();
    // Bob's claim right after depositing 5 is 4: rounding loss, no gain.
    let claim = calculate_user_balance(&config, &bob, 9).unwrap();
    assert!(claim <= 5);
    assert_eq!(claim, 4);
    // Withdrawing the whole claim leaves the rounding residue behind.
    let event = withdraw(&mut config, &mut bob, 9, claim, u64::MAX, 5).unwrap();
    assert_eq!(event.amount, 4);
    assert_eq!(event.shares_burned, 2);
    let residue = calculate_user_balance(&config, &bob, 5).unwrap();
    assert_eq!(residue, 1);
    assert!(event.amount + residue <= 5);
    // The mark scales with the shares kept: floor(5 * 1 / 3) = 1.
    assert_eq!(bob.high_water_mark, 1);
}

#[test]
fn deposits_only_round_trip_is_exact() {
    // With no capital movement and no fees the pool stays at one unit per
    // share, so a round trip returns exactly what went in.
    let (mut config, mut alice) = fresh();
    let mut bob = create_user_position(8, 0);
    deposit(&mut config, &mut alice, 0, 600, 0, 1).unwrap();
    let minted = deposit(&mut config, &mut bob, 600, 400, 0, 2).unwrap();
    assert_eq!(minted.shares_minted, 400);
    assert_eq!(calculate_user_balance(&config, &bob, 1000).unwrap(), 400);
    let event = withdraw(&mut config, &mut bob, 1000, 400, 400, 3).unwrap();
    assert_eq!(event.amount, 400);
    assert_eq!(event.shares_burned, 400);
    assert_eq!(event.remaining_shares, 0);
    assert_eq!(bob.high_water_mark, 0);
    assert_eq!(calculate_user_balance(&config, &bob, 600).unwrap(), 0);
    assert_eq!(calculate_user_balance(&config, &alice, 600).unwrap(), 600);
    assert_eq!(alice.user_shares + bob.user_shares, config.total_shares);
}

#[test]
fn withdraw_burns_proportionally_and_scales_mark() {
    let (mut config, mut position) = fresh();
    deposit(&mut config, &mut position, 0, 1000, 0, 1).unwrap();
    let event = withdraw(&mut config, &mut position, 1000, 300, 300, 2).unwrap();
    assert_eq!(event.shares_burned, 300);
    assert_eq!(event.remaining_shares, 700);
    assert_eq!(position.user_shares, 700);
    assert_eq!(config.total_shares, 700);
    assert_eq!(position.high_water_mark, 700);
}

#[test]
fn withdraw_more_than_claim_is_rejected() {
    let (mut config, mut position) = fresh();
    deposit(&mut config, &mut position, 0, 1000, 0, 1).unwrap();
    assert_eq!(
        withdraw(&mut config, &mut position, 1000, 1001, u64::MAX, 2),
        Err(VaultError::InsufficientBalance)
    );
    assert_eq!(position.user_shares, 1000);
}

#[test]
fn withdraw_beyond_liquidity_is_rejected_despite_claim() {
    let (mut config, mut position) = fresh();
    deposit(&mut config, &mut position, 0, 1000, 0, 1).unwrap();
    deploy_capital_for_trading(&mut config, BOT, 1000, 900, 2).unwrap();
    // The claim of 1000 covers 200, but only 100 is liquid.
    assert_eq!(calculate_user_balance(&config, &position, 100).unwrap(), 1000);
    assert_eq!(
        withdraw(&mut config, &mut position, 100, 200, u64::MAX, 3),
        Err(VaultError::InsufficientLiquidity)
    );
    assert_eq!(config.total_shares, 1000);
}

#[test]
fn withdraw_respects_slippage_ceiling() {
    let (mut config, mut position) = fresh();
    deposit(&mut config, &mut position, 0, 1000, 0, 1).unwrap();
    assert_eq!(
        withdraw(&mut config, &mut position, 1000, 300, 299, 2),
        Err(VaultError::SlippageExceeded)
    );
}

#[test]
fn paused_protocol_rejects_flows_but_not_bookkeeping() {
    let (mut config, mut position) = fresh();
    deposit(&mut config, &mut position, 0, 1000, 0, 1).unwrap();
    assert_eq!(pause_protocol(&mut config, USER), Err(VaultError::UnauthorizedAdmin));
    pause_protocol(&mut config, ADMIN).unwrap();
    assert!(config.is_paused);
    assert_eq!(
        deposit(&mut config, &mut position, 1000, 5, 0, 2),
        Err(VaultError::ProtocolPaused)
    );
    assert_eq!(
        withdraw(&mut config, &mut position, 1000, 5, u64::MAX, 2),
        Err(VaultError::ProtocolPaused)
    );
    // Capital movement stays available while paused.
    deploy_capital_for_trading(&mut config, BOT, 1000, 100, 3).unwrap();
    assert_eq!(unpause_protocol(&mut config, USER), Err(VaultError::UnauthorizedAdmin));
    unpause_protocol(&mut config, ADMIN).unwrap();
    assert!(!config.is_paused);
    deposit(&mut config, &mut position, 900, 5, 0, 4).unwrap();
}

#[test]
fn deployment_is_capped_at_ninety_percent() {
    let (mut config, mut position) = fresh();
    deposit(&mut config, &mut position, 0, 1000, 0, 1).unwrap();
    assert_eq!(
        deploy_capital_for_trading(&mut config, USER, 1000, 1, 2),
        Err(VaultError::UnauthorizedTradingBot)
    );
    assert_eq!(
        deploy_capital_for_trading(&mut config, BOT, 1000, 901, 2),
        Err(VaultError::ExceedsMaxDeployment)
    );
    let event = deploy_capital_for_trading(&mut config, BOT, 1000, 900, 2).unwrap();
    assert_eq!(event.total_deployed, 900);
    assert_eq!(event.treasury_remaining, 100);
    assert_eq!(config.total_trading_deployed, 900);
}

#[test]
fn deployment_cap_rounds_down() {
    let (mut config, mut position) = fresh();
    deposit(&mut config, &mut position, 0, 999, 0, 1).unwrap();
    // floor(999 * 9000 / 10000) = 899.
    assert_eq!(
        deploy_capital_for_trading(&mut config, BOT, 999, 900, 2),
        Err(VaultError::ExceedsMaxDeployment)
    );
    deploy_capital_for_trading(&mut config, BOT, 999, 899, 2).unwrap();
}

#[test]
fn profitable_return_accrues_quarter_fee() {
    let (mut config, mut position) = fresh();
    deposit(&mut config, &mut position, 0, 1000, 0, 1).unwrap();
    deploy_capital_for_trading(&mut config, BOT, 1000, 900, 2).unwrap();
    assert_eq!(
        return_capital_from_trading(&mut config, USER, 1100, 1000, 900, 3),
        Err(VaultError::UnauthorizedTradingBot)
    );
    let event = return_capital_from_trading(&mut config, BOT, 1100, 1000, 900, 3).unwrap();
    assert_eq!(event.amount, 1000);
    assert_eq!(event.profit_or_loss, 100);
    assert_eq!(event.new_treasury_balance, 1100);
    // fee = floor(100 * 2500 / 10000) = 25, accrued pool-wide at once.
    assert_eq!(config.accumulated_fees, 25);
    assert_eq!(config.total_trading_deployed, 0);
}

#[test]
fn losing_return_accrues_no_fee() {
    let (mut config, mut position) = fresh();
    deposit(&mut config, &mut position, 0, 1000, 0, 1).unwrap();
    deploy_capital_for_trading(&mut config, BOT, 1000, 900, 2).unwrap();
    let event = return_capital_from_trading(&mut config, BOT, 900, 800, 900, 3).unwrap();
    assert_eq!(event.profit_or_loss, -100);
    assert_eq!(config.accumulated_fees, 0);
    assert_eq!(config.total_trading_deployed, 0);
    // The loss lands on the shareholders: the claim drops to 900.
    assert_eq!(calculate_user_balance(&config, &position, 900).unwrap(), 900);
}

#[test]
fn partial_return_keeps_remainder_deployed() {
    let (mut config, mut position) = fresh();
    deposit(&mut config, &mut position, 0, 1000, 0, 1).unwrap();
    deploy_capital_for_trading(&mut config, BOT, 1000, 900, 2).unwrap();
    assert_eq!(
        return_capital_from_trading(&mut config, BOT, 1000, 950, 901, 3),
        Err(VaultError::InvalidAmount)
    );
    return_capital_from_trading(&mut config, BOT, 500, 400, 400, 3).unwrap();
    assert_eq!(config.total_trading_deployed, 500);
}

#[test]
fn full_cycle_scenario() {
    let (mut config, mut position) = fresh();
    deposit(&mut config, &mut position, 0, 1000, 0, 10).unwrap();
    assert_eq!(config.total_shares, 1000);
    assert_eq!(position.high_water_mark, 1000);
    deploy_capital_for_trading(&mut config, BOT, 1000, 900, 11).unwrap();
    return_capital_from_trading(&mut config, BOT, 1100, 1000, 900, 12).unwrap();
    assert_eq!(config.accumulated_fees, 25);
    assert_eq!(config.total_trading_deployed, 0);
    // Pool value 1075 = 1000 principal + 100 profit - 25 provisional fee.
    assert_eq!(calculate_user_balance(&config, &position, 1100).unwrap(), 1075);

    let now = FEE_COLLECTION_INTERVAL + 20;
    let event = collect_user_fees(&mut config, &mut position, ADMIN, 1100, now)
        .unwrap()
        .unwrap();
    // Profit over the mark is 75; fee = floor(75 * 0.25) = 18; the fee's
    // worth of shares is floor(18 * 1000 / 1075) = 16.
    assert_eq!(event.fee, 18);
    assert_eq!(event.shares_reduced, 16);
    assert_eq!(position.user_shares, 984);
    assert_eq!(position.high_water_mark, 1075 - 18);
    assert_eq!(position.lifetime_fees_paid, 18);
    assert_eq!(position.last_fee_collection, now);
    assert_eq!(config.total_shares, 984);
    assert_eq!(config.accumulated_fees, 43);

    // Sweep what has accumulated.
    assert_eq!(
        collect_performance_fees(&mut config, USER, now + 1),
        Err(VaultError::UnauthorizedAdmin)
    );
    let sweep = collect_performance_fees(&mut config, ADMIN, now + 1).unwrap();
    assert_eq!(sweep.amount, 43);
    assert_eq!(config.accumulated_fees, 0);
    assert_eq!(config.last_fee_sweep, now + 1);
    assert_eq!(
        collect_performance_fees(&mut config, ADMIN, now + 2),
        Err(VaultError::NoFeesToCollect)
    );
}

#[test]
fn fee_collection_gates_on_caller_and_clock() {
    let (mut config, mut position) = fresh();
    deposit(&mut config, &mut position, 0, 1000, 0, 1).unwrap();
    assert_eq!(
        collect_user_fees(&mut config, &mut position, USER, 1000, FEE_COLLECTION_INTERVAL),
        Err(VaultError::UnauthorizedCaller)
    );
    assert_eq!(
        collect_user_fees(&mut config, &mut position, ADMIN, 1000, FEE_COLLECTION_INTERVAL - 1),
        Err(VaultError::FeeCollectionTooSoon)
    );
    // The operator may collect too, right at the boundary.
    let charged = collect_user_fees(&mut config, &mut position, BOT, 1000, FEE_COLLECTION_INTERVAL)
        .unwrap();
    assert_eq!(charged, None);
}

#[test]
fn eligibility_boundary_is_exact() {
    let position = create_user_position(USER, 100);
    assert!(!check_fee_eligibility(&position, 99 + FEE_COLLECTION_INTERVAL));
    assert!(check_fee_eligibility(&position, 100 + FEE_COLLECTION_INTERVAL));
}

#[test]
fn user_below_mark_pays_nothing() {
    let (mut config, mut position) = fresh();
    deposit(&mut config, &mut position, 0, 1000, 0, 1).unwrap();
    deploy_capital_for_trading(&mut config, BOT, 1000, 900, 2).unwrap();
    return_capital_from_trading(&mut config, BOT, 900, 800, 900, 3).unwrap();
    // Balance 900 sits below the mark of 1000: no fee, mark untouched.
    let now = FEE_COLLECTION_INTERVAL + 5;
    let charged = collect_user_fees(&mut config, &mut position, ADMIN, 900, now).unwrap();
    assert_eq!(charged, None);
    assert_eq!(position.high_water_mark, 1000);
    assert_eq!(position.user_shares, 1000);
    assert_eq!(position.lifetime_fees_paid, 0);
    assert_eq!(config.accumulated_fees, 0);
    assert_eq!(position.last_fee_collection, now);
}

#[test]
fn fee_never_exceeds_profit() {
    let (mut config, mut position) = fresh();
    deposit(&mut config, &mut position, 0, 4, 0, 1).unwrap();
    deploy_capital_for_trading(&mut config, BOT, 4, 3, 2).unwrap();
    return_capital_from_trading(&mut config, BOT, 7, 6, 3, 3).unwrap();
    // Profit 3, pool fee floor(3 * 0.25) = 0; user profit 3, fee 0.
    assert_eq!(config.accumulated_fees, 0);
    let charged = collect_user_fees(&mut config, &mut position, ADMIN, 7, FEE_COLLECTION_INTERVAL)
        .unwrap();
    assert_eq!(charged, None);
}

#[test]
fn batch_skips_ineligible_and_charges_the_rest() {
    let (mut config, mut alice) = fresh();
    let mut bob = create_user_position(8, 0);
    deposit(&mut config, &mut alice, 0, 600, 0, 1).unwrap();
    deposit(&mut config, &mut bob, 600, 400, 0, 1).unwrap();
    deploy_capital_for_trading(&mut config, BOT, 1000, 900, 2).unwrap();
    return_capital_from_trading(&mut config, BOT, 1100, 1000, 900, 3).unwrap();
    assert_eq!(config.accumulated_fees, 25);

    // Bob collected recently; only Alice is due.
    bob.last_fee_collection = FEE_COLLECTION_INTERVAL;
    let mut ledger = vec![alice, bob];
    let now = FEE_COLLECTION_INTERVAL + 10;
    assert_eq!(
        collect_batch_fees(&mut config, &mut ledger, USER, 1100, now),
        Err(VaultError::UnauthorizedCaller)
    );
    let total = collect_batch_fees(&mut config, &mut ledger, BOT, 1100, now).unwrap();
    // Alice's claim: floor(600 * 1075 / 1000) = 645; profit 45; fee 11.
    assert_eq!(total, 11);
    assert_eq!(ledger[0].lifetime_fees_paid, 11);
    assert_eq!(ledger[0].high_water_mark, 645 - 11);
    assert_eq!(ledger[0].last_fee_collection, now);
    // floor(11 * 1000 / 1075) = 10 shares burned from Alice and the pool.
    assert_eq!(ledger[0].user_shares, 590);
    assert_eq!(config.total_shares, 990);
    assert_eq!(config.accumulated_fees, 36);
    // Bob untouched.
    assert_eq!(ledger[1], bob);
    // Conservation after the batch.
    assert_eq!(ledger[0].user_shares + ledger[1].user_shares, config.total_shares);
}

#[test]
fn batch_aborts_wholesale_on_overflow() {
    let (mut config, mut alice) = fresh();
    let mut bob = create_user_position(8, 0);
    deposit(&mut config, &mut alice, 0, 600, 0, 1).unwrap();
    deposit(&mut config, &mut bob, 600, 400, 0, 1).unwrap();
    deploy_capital_for_trading(&mut config, BOT, 1000, 900, 2).unwrap();
    return_capital_from_trading(&mut config, BOT, 1100, 1000, 900, 3).unwrap();
    // Alice's fee cannot be booked: her lifetime counter would overflow.
    alice.lifetime_fees_paid = u64::MAX;
    // Bob comes first and would be charged, but the batch shares one pool
    // accumulator: the overflow aborts everything with no partial commit.
    let mut ledger = vec![bob, alice];
    let now = FEE_COLLECTION_INTERVAL + 10;
    assert_eq!(
        collect_batch_fees(&mut config, &mut ledger, ADMIN, 1100, now),
        Err(VaultError::MathOverflow)
    );
    assert_eq!(ledger[0], bob);
    assert_eq!(ledger[1], alice);
    assert_eq!(config.total_shares, 1000);
    assert_eq!(config.accumulated_fees, 25);
}

#[test]
fn batch_of_nobody_charges_nothing() {
    let (mut config, _) = fresh();
    let mut ledger: Vec<UserPosition> = vec![];
    assert_eq!(collect_batch_fees(&mut config, &mut ledger, ADMIN, 0, 50), Ok(0));
}

#[test]
fn protocol_stats_report_pool_value() {
    let (mut config, mut position) = fresh();
    deposit(&mut config, &mut position, 0, 1000, 0, 1).unwrap();
    deploy_capital_for_trading(&mut config, BOT, 1000, 900, 2).unwrap();
    return_capital_from_trading(&mut config, BOT, 1100, 1000, 900, 3).unwrap();
    let (tvl, fees, shares) = get_protocol_stats(&config, 1100).unwrap();
    assert_eq!(tvl, 1075);
    assert_eq!(fees, 25);
    assert_eq!(shares, 1000);
}

#[test]
fn user_stats_report_claim_and_history() {
    let (mut config, mut position) = fresh();
    deposit(&mut config, &mut position, 0, 1000, 0, 1).unwrap();
    let (balance, paid, last) = get_user_stats(&config, &position, 1000).unwrap();
    assert_eq!(balance, 1000);
    assert_eq!(paid, 0);
    assert_eq!(last, 0);
}

#[test]
fn corrupted_valuation_is_reported_as_overflow() {
    let (mut config, position) = fresh();
    config.accumulated_fees = 10;
    // Fees exceed the tracked value: state corruption, not a balance.
    assert_eq!(
        calculate_user_balance_internal(&config, &position, 5),
        Err(VaultError::MathOverflow)
    );
    assert_eq!(get_protocol_stats(&config, 5), Err(VaultError::MathOverflow));
}

#[test]
fn empty_pool_claim_is_zero() {
    let (config, position) = fresh();
    assert_eq!(calculate_user_balance(&config, &position, 500).unwrap(), 0);
}
