//! Shared data model: contract classification, per-asset treasury figures,
//! and the vault's error taxonomy.

use vstd::prelude::*;

verus! {

/// Identifier of a principal known to the ledger platform.  The platform
/// hands out opaque, unforgeable addresses; the accounting core only ever
/// compares them for equality, so an address is carried as a plain number.
pub type Address = u64;

/// Identifier of an asset contract, carried the same way as [`Address`].
pub type AssetId = u64;

/// How a payroll agreement pays out.
#[derive(Clone, Copy, Debug, PartialEq, Eq)]
pub enum ContractType {
    FixedRate,
    Milestone,
    PayAsYouGo,
}

/// Where a payroll agreement stands in its lifecycle.
#[derive(Clone, Copy, Debug, PartialEq, Eq)]
pub enum ContractStatus {
    Draft,
    Active,
    Completed,
    Cancelled,
}

/// Record describing one payroll agreement between an employer and an
/// employee.  Kept as a shared data type; the vault itself does not read it.
#[derive(Clone, Copy, Debug, PartialEq, Eq)]
pub struct ContractMetadata {
    pub employer: Address,
    pub employee: Address,
    pub contract_type: ContractType,
    pub status: ContractStatus,
    pub amount: i128,
    pub asset: AssetId,
}

/// Per-asset treasury figures returned by the vault's query surface.
///
/// `total_liquidity` is derived, not stored: it is the custodied balance
/// minus `total_locked`, so surplus funds that arrived outside the deposit
/// path are visible without a bookkeeping entry of their own.
#[derive(Clone, Copy, Debug, PartialEq, Eq)]
pub struct TreasuryStats {
    pub total_deposits: i128,
    pub total_locked: i128,
    pub total_fees: i128,
    pub total_liquidity: i128,
}

/// Typed failures of the vault's operations.
///
/// `AssetAlreadyWhitelisted` and `AssetNotProtocol` are reserved extension
/// points: no current operation returns them.
#[derive(Clone, Copy, Debug, PartialEq, Eq)]
pub enum VaultError {
    AdminNotSet,
    NotAuthorized,
    ContractPaused,
    AssetNotWhitelisted,
    InvalidAmount,
    SelfTransfer,
    TransferFailed,
    AssetAlreadyWhitelisted,
    AssetNotProtocol,
    InsufficientBalance,
    InsufficientLockedFunds,
}

} // verus!
