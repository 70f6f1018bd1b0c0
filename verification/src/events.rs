use vstd::prelude::*;

use crate::state::AccountId;

verus! {

/// Record of a successful deposit, returned to the surrounding system for
/// publication.
#[derive(Debug, Clone, Copy, PartialEq, Eq)]
pub struct DepositEvent {
    pub user: AccountId,
    /// Asset units moved into the treasury.
    pub amount: u64,
    pub shares_minted: u64,
    /// Treasury balance once the deposit has been credited.
    pub treasury_balance: u64,
    pub timestamp: i64,
}

/// Record of a successful withdrawal.
#[derive(Debug, Clone, Copy, PartialEq, Eq)]
pub struct WithdrawEvent {
    pub user: AccountId,
    /// Asset units owed to the user out of the treasury.
    pub amount: u64,
    pub shares_burned: u64,
    pub remaining_shares: u64,
    pub timestamp: i64,
}

/// Record of capital handed to the trading operator.
#[derive(Debug, Clone, Copy, PartialEq, Eq)]
pub struct CapitalDeployedEvent {
    pub amount: u64,
    /// Capital held externally once this deployment is counted.
    pub total_deployed: u64,
    pub treasury_remaining: u64,
    pub timestamp: i64,
}

/// Record of capital returned by the trading operator.
#[derive(Debug, Clone, Copy, PartialEq, Eq)]
pub struct CapitalReturnedEvent {
    /// Asset units actually returned to the treasury.
    pub amount: u64,
    /// Returned amount minus the deployed amount it closes out.
    pub profit_or_loss: i64,
    pub new_treasury_balance: u64,
    pub timestamp: i64,
}

/// Record of a performance fee crystallized against one user.
#[derive(Debug, Clone, Copy, PartialEq, Eq)]
pub struct FeeCollectedEvent {
    pub user: AccountId,
    /// Fee in asset units, moved from the user's claim to the accumulated fees.
    pub fee: u64,
    pub shares_reduced: u64,
    pub timestamp: i64,
}

/// Record of the admin sweeping the accumulated fees.
#[derive(Debug, Clone, Copy, PartialEq, Eq)]
pub struct FeesWithdrawnEvent {
    pub amount: u64,
    pub timestamp: i64,
}

} // verus!
