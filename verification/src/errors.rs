use vstd::prelude::*;

verus! {

/// Every way an operation of the vault can be rejected.
///
/// A rejected operation leaves the durable state exactly as it was: the
/// contracts of the mutating operations promise the old configuration and
/// position back whenever one of these is returned.
#[derive(Debug, Clone, Copy, PartialEq, Eq)]
pub enum VaultError {
    /// A zero or otherwise malformed amount.
    InvalidAmount,
    /// The user's claim on the pool is smaller than the amount asked for.
    InsufficientBalance,
    /// The treasury's liquid funds are smaller than the amount asked for,
    /// even though the user's nominal claim may cover it.
    InsufficientLiquidity,
    /// A checked arithmetic step left the representable range.
    MathOverflow,
    /// Deposits and withdrawals are rejected while the protocol is paused.
    ProtocolPaused,
    /// The caller is not the designated trading operator.
    UnauthorizedTradingBot,
    /// The caller is not the admin.
    UnauthorizedAdmin,
    /// A deployment would leave the treasury below its liquidity reserve.
    ExceedsMaxDeployment,
    /// The per-user fee collection interval has not elapsed yet.
    FeeCollectionTooSoon,
    /// There are no accumulated fees to sweep.
    NoFeesToCollect,
    /// The caller is neither the admin nor the trading operator.
    UnauthorizedCaller,
    /// A batch holds more users than one operation can process.
    TooManyUsers,
    /// A record handed to an operation does not belong to it.
    InvalidAccounts,
    /// The share count left the caller's slippage bound.
    SlippageExceeded,
}

} // verus!
