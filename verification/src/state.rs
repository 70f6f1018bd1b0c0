use vstd::prelude::*;

use crate::errors::VaultError;

verus! {

/// Opaque identity of an account. The engine never looks inside an
/// identity; it only compares identities for equality.
pub type AccountId = u64;

/// Performance fee rate fixed at initialization, in basis points (2500 = 25%).
pub const PERFORMANCE_FEE_BPS: u16 = 2500;

/// Basis-point denominator: 10000 basis points are 100%.
pub const BPS_DENOMINATOR: u64 = 10000;

/// How long a user must wait between two fee collections, in seconds (30 days).
pub const FEE_COLLECTION_INTERVAL: i64 = 30 * 24 * 60 * 60;

/// Largest fraction of the treasury the operator may hold externally, in
/// basis points (9000 = 90%); the rest is a mandatory liquidity reserve.
pub const TRADING_ALLOCATION_BPS: u16 = 9000;

/// Pool-wide durable state; a single instance lives for the protocol's lifetime.
#[derive(Debug, Clone, Copy, PartialEq, Eq)]
pub struct ProtocolConfig {
    /// Identity allowed to pause, unpause and sweep fees.
    pub admin: AccountId,
    /// Identity allowed to deploy and return trading capital.
    pub trading_bot: AccountId,
    /// The treasury account the pool's assets sit in.
    pub treasury: AccountId,
    /// Total ownership units outstanding over all positions.
    pub total_shares: u64,
    /// Capital currently held externally by the operator.
    pub total_trading_deployed: u64,
    /// Fees owed to the admin but not yet swept, in asset units.
    pub accumulated_fees: u64,
    /// Performance fee rate in basis points, never rewritten after initialization.
    pub performance_fee_bps: u16,
    /// While true, deposits and withdrawals are rejected.
    pub is_paused: bool,
    /// When the admin last swept the accumulated fees.
    pub last_fee_sweep: i64,
}

impl ProtocolConfig {
    /// The fee rate never exceeds 100%: initialization fixes it at
    /// [`PERFORMANCE_FEE_BPS`] and no operation rewrites it. Every bound of
    /// the fee arithmetic rests on this.
    pub open spec fn wf(self) -> bool {
        self.performance_fee_bps <= BPS_DENOMINATOR
    }
}

/// Per-depositor durable state, created once per user and never deleted;
/// a position with no shares remains a valid, inactive record.
#[derive(Debug, Clone, Copy, PartialEq, Eq)]
pub struct UserPosition {
    /// The depositor this record belongs to.
    pub owner: AccountId,
    /// Lifetime gross deposits, informational only.
    pub deposited_amount: u64,
    /// This user's ownership units; the only persisted unit of ownership.
    pub user_shares: u64,
    /// Highest value, in asset units, this user's holding has been charged
    /// fees against. Raised by deposits and fee crystallization, shrunk only
    /// proportionally on withdrawal, never written down for unrealized loss.
    pub high_water_mark: u64,
    /// When this user's fees were last collected, in wall-clock seconds.
    pub last_fee_collection: i64,
    /// Total performance fees this user has ever been charged.
    pub lifetime_fees_paid: u64,
    /// Set at creation; a position is never deactivated.
    pub is_active: bool,
}

impl UserPosition {
    /// Timestamps are wall-clock seconds and therefore never negative.
    pub open spec fn wf(self) -> bool {
        self.last_fee_collection >= 0
    }
}

/// Create the pool-wide configuration: an empty, unpaused pool with the
/// fixed fee rate and nothing deployed.
pub fn initialize_protocol(
    admin: AccountId,
    trading_bot: AccountId,
    treasury: AccountId,
) -> (config: ProtocolConfig)
    ensures
        config == (ProtocolConfig {
            admin,
            trading_bot,
            treasury,
            total_shares: 0,
            total_trading_deployed: 0,
            accumulated_fees: 0,
            performance_fee_bps: PERFORMANCE_FEE_BPS,
            is_paused: false,
            last_fee_sweep: 0,
        }),
        config.wf(),
{
    ProtocolConfig {
        admin,
        trading_bot,
        treasury,
        total_shares: 0,
        total_trading_deployed: 0,
        accumulated_fees: 0,
        performance_fee_bps: PERFORMANCE_FEE_BPS,
        is_paused: false,
        last_fee_sweep: 0,
    }
}

/// Create a user's position record: no shares, no baseline, and the fee
/// clock started at the current time.
pub fn create_user_position(owner: AccountId, now: i64) -> (position: UserPosition)
    requires
        now >= 0,
    ensures
        position == (UserPosition {
            owner,
            deposited_amount: 0,
            user_shares: 0,
            high_water_mark: 0,
            last_fee_collection: now,
            lifetime_fees_paid: 0,
            is_active: true,
        }),
        position.wf(),
{
    UserPosition {
        owner,
        deposited_amount: 0,
        user_shares: 0,
        high_water_mark: 0,
        last_fee_collection: now,
        lifetime_fees_paid: 0,
        is_active: true,
    }
}

/// Admin-only: reject deposits and withdrawals until unpaused. Fee
/// collection, capital movements and the admin sweep stay available.
pub fn pause_protocol(config: &mut ProtocolConfig, caller: AccountId) -> (r: Result<
    (),
    VaultError,
>)
    ensures
        caller != old(config).admin ==> r == Err::<(), VaultError>(
            VaultError::UnauthorizedAdmin,
        ) && *final(config) == *old(config),
        caller == old(config).admin ==> r == Ok::<(), VaultError>(()) && *final(config) == (
        ProtocolConfig { is_paused: true, ..*old(config) }),
{
    if caller != config.admin {
        return Err(VaultError::UnauthorizedAdmin);
    }
    config.is_paused = true;
    Ok(())
}

/// Admin-only: let deposits and withdrawals through again.
pub fn unpause_protocol(config: &mut ProtocolConfig, caller: AccountId) -> (r: Result<
    (),
    VaultError,
>)
    ensures
        caller != old(config).admin ==> r == Err::<(), VaultError>(
            VaultError::UnauthorizedAdmin,
        ) && *final(config) == *old(config),
        caller == old(config).admin ==> r == Ok::<(), VaultError>(()) && *final(config) == (
        ProtocolConfig { is_paused: false, ..*old(config) }),
{
    if caller != config.admin {
        return Err(VaultError::UnauthorizedAdmin);
    }
    config.is_paused = false;
    Ok(())
}

} // verus!
