//! Accounting core of a custodial treasury vault.
//!
//! The vault escrows assets on behalf of depositors, tracks per-asset
//! obligations (deposited vs. locked vs. freely distributable liquidity),
//! and releases funds only under administrator authorization and only for
//! whitelisted assets.
//!
//! The surrounding ledger platform (transaction ordering, persistence,
//! cryptographic authorization, and the asset contracts themselves) is an
//! external collaborator.  It is represented here by explicit models:
//! principals and asset contracts are opaque identifiers, the asset ledger
//! is the [`token::TokenLedger`] type, and the platform's authorization
//! capability is the [`auth::Authorizer`] type, so that every privileged
//! call's authorization demand is visible in its contract.

pub mod auth;
pub mod common;
pub mod identity;
pub mod token;
pub mod vault;
