//! The treasury vault: authorization guard, pause gate, asset whitelist,
//! and the per-asset ledger of deposited and locked funds.
//!
//! Per asset the vault stores three counters.  `total_deposits` is the
//! cumulative net amount attributed to the asset, `total_locked` the part
//! of the custodied balance earmarked as an obligation, and `total_fees` a
//! reserved slot that no current operation writes.  The derived
//! `total_liquidity` is never stored: it is the live custodied balance
//! minus `total_locked`, so funds that arrived outside the deposit path
//! are visible as surplus without a bookkeeping entry.
//!
//! Every money-moving operation validates before it writes: a returned
//! error leaves the vault and the asset ledger exactly as they were.

use vstd::prelude::*;

use crate::auth::Authorizer;
use crate::common::Address;
use crate::common::AssetId;
use crate::common::TreasuryStats;
use crate::common::VaultError;
use crate::token::TokenLedger;
use std::collections::HashMap;
use std::collections::HashSet;

verus! {

broadcast use vstd::std_specs::hash::group_hash_axioms;

/// One pause-state change, as the vault publishes it to the platform's
/// append-only event log: the new state, the administrator that ordered
/// it, and the platform timestamp at that moment.
#[derive(Clone, Copy, Debug, PartialEq, Eq)]
pub struct PauseEvent {
    pub paused: bool,
    pub admin: Address,
    pub timestamp: u64,
}

/// Stored counters of one asset's ledger row.
#[derive(Clone, Copy, Debug, PartialEq, Eq)]
struct LedgerRow {
    deposits: i128,
    locked: i128,
    fees: i128,
}

/// The treasury vault's own state: administrator, pause flag, protocol
/// asset, whitelist, per-asset ledger rows, and the pause event log.
///
/// `address` is the vault's own principal identifier: the holder under
/// which the asset ledger records the custodied balances.
pub struct VaultContract {
    address: Address,
    admin: Option<Address>,
    paused: bool,
    protocol_asset: Option<AssetId>,
    whitelist: HashSet<AssetId>,
    ledger: HashMap<AssetId, LedgerRow>,
    events: Vec<PauseEvent>,
}

impl VaultContract {
    /// The vault's own principal identifier.
    pub closed spec fn vault_address(self) -> Address {
        self.address
    }

    /// The stored administrator, if initialization has happened.
    pub closed spec fn admin_id(self) -> Option<Address> {
        self.admin
    }

    /// Whether the pause gate is closed.
    pub closed spec fn is_paused(self) -> bool {
        self.paused
    }

    /// The designated protocol asset, if any.
    pub closed spec fn protocol_asset_id(self) -> Option<AssetId> {
        self.protocol_asset
    }

    /// Whether `asset` is on the whitelist.
    pub closed spec fn whitelisted(self, asset: AssetId) -> bool {
        self.whitelist@.contains(asset)
    }

    /// Cumulative net deposits attributed to `asset`.
    pub closed spec fn deposits_of(self, asset: AssetId) -> int {
        if self.ledger@.dom().contains(asset) {
            self.ledger@[asset].deposits as int
        } else {
            0
        }
    }

    /// The part of `asset`'s custodied balance earmarked as an obligation.
    pub closed spec fn locked_of(self, asset: AssetId) -> int {
        if self.ledger@.dom().contains(asset) {
            self.ledger@[asset].locked as int
        } else {
            0
        }
    }

    /// The reserved fee counter of `asset`; no operation writes it.
    pub closed spec fn fees_of(self, asset: AssetId) -> int {
        if self.ledger@.dom().contains(asset) {
            self.ledger@[asset].fees as int
        } else {
            0
        }
    }

    /// The pause events published so far, oldest first.
    pub closed spec fn events_log(self) -> Seq<PauseEvent> {
        self.events@
    }

    /// Derived liquidity of `asset`: the custodied balance not spoken for
    /// by locked obligations.
    pub open spec fn liquidity_of(self, t: TokenLedger, asset: AssetId) -> int {
        t.balance(asset, self.vault_address()) - self.locked_of(asset)
    }

    /// The vault's funds-coverage invariant for one asset: the custodied
    /// balance answers for every locked obligation.  It holds of a fresh
    /// vault, every operation here preserves it, and only an external
    /// actor moving funds out of the vault's holdings through a channel
    /// other than the vault can break it.
    pub open spec fn funds_cover_locked(self, t: TokenLedger, asset: AssetId) -> bool {
        self.locked_of(asset) <= t.balance(asset, self.vault_address())
    }

    /// Well-formedness: every ledger row keeps `0 <= locked <= deposits`
    /// and a non-negative fee counter.  Every operation preserves this, so
    /// a locked withdrawal can never drive `total_deposits` negative.
    pub closed spec fn wf(self) -> bool {
        forall|a: AssetId| #[trigger]
            self.ledger@.dom().contains(a) ==> {
                &&& 0 <= self.ledger@[a].locked <= self.ledger@[a].deposits
                &&& 0 <= self.ledger@[a].fees
            }
    }

    /// The platform's authorization demand of the admin-gated releases:
    /// once an administrator is stored, the call must carry its
    /// authorization (an unauthorized call aborts on the platform and is
    /// ruled out here up front).
    pub open spec fn admin_authorized(self, auth: Authorizer) -> bool {
        match self.admin_id() {
            Some(a) => auth.allows(a),
            None => true,
        }
    }

    /// Both counters of one asset bounded as `wf` promises.
    proof fn lemma_row_bounds(self, asset: AssetId)
        requires
            self.wf(),
        ensures
            0 <= self.locked_of(asset) <= self.deposits_of(asset),
            0 <= self.fees_of(asset),
    {
    }

    // ------------------------------------------------------------------
    // Frame predicates: which parts of the state an operation leaves alone.
    // ------------------------------------------------------------------

    /// Address, administrator, pause flag and protocol asset agree.
    pub open spec fn same_config(v1: VaultContract, v2: VaultContract) -> bool {
        &&& v1.vault_address() == v2.vault_address()
        &&& v1.admin_id() == v2.admin_id()
        &&& v1.is_paused() == v2.is_paused()
        &&& v1.protocol_asset_id() == v2.protocol_asset_id()
    }

    /// The whitelist answers alike for every asset.
    pub open spec fn same_whitelist(v1: VaultContract, v2: VaultContract) -> bool {
        forall|a: AssetId| v1.whitelisted(a) == v2.whitelisted(a)
    }

    /// Every asset's counters agree.
    pub open spec fn same_counters(v1: VaultContract, v2: VaultContract) -> bool {
        &&& forall|a: AssetId| v1.deposits_of(a) == v2.deposits_of(a)
        &&& forall|a: AssetId| v1.locked_of(a) == v2.locked_of(a)
        &&& forall|a: AssetId| v1.fees_of(a) == v2.fees_of(a)
    }

    /// Every asset's counters agree, except that `asset`'s may differ.
    pub open spec fn same_counters_except(
        v1: VaultContract,
        v2: VaultContract,
        asset: AssetId,
    ) -> bool {
        &&& forall|a: AssetId| a != asset ==> v1.deposits_of(a) == v2.deposits_of(a)
        &&& forall|a: AssetId| a != asset ==> v1.locked_of(a) == v2.locked_of(a)
        &&& forall|a: AssetId| a != asset ==> v1.fees_of(a) == v2.fees_of(a)
    }

    /// The event logs agree.
    pub open spec fn same_events(v1: VaultContract, v2: VaultContract) -> bool {
        v1.events_log() == v2.events_log()
    }

    // ------------------------------------------------------------------
    // Outcome functions: the exact answer of each operation, guard by
    // guard in the order the guards run.
    // ------------------------------------------------------------------

    /// Answer of the admin identity check: the stored administrator must
    /// exist and be the caller.
    pub open spec fn admin_check_result(self, admin: Address) -> Result<(), VaultError> {
        if self.admin_id() is None {
            Err(VaultError::AdminNotSet)
        } else if self.admin_id() != Some(admin) {
            Err(VaultError::NotAuthorized)
        } else {
            Ok(())
        }
    }

    /// Answer of an outbound release of `amount` of `asset` to `to`:
    /// positive amount, whitelisted asset, no self-transfer, enough
    /// custodied balance; a refusal of the external transfer primitive
    /// itself surfaces as `TransferFailed`.
    pub open spec fn transfer_out_result(
        self,
        t: TokenLedger,
        asset: AssetId,
        to: Address,
        amount: i128,
    ) -> Result<(), VaultError> {
        if amount <= 0 {
            Err(VaultError::InvalidAmount)
        } else if !self.whitelisted(asset) {
            Err(VaultError::AssetNotWhitelisted)
        } else if to == self.vault_address() {
            Err(VaultError::SelfTransfer)
        } else if t.balance(asset, self.vault_address()) < amount {
            Err(VaultError::InsufficientBalance)
        } else if TokenLedger::transfer_result(t, asset, self.vault_address(), to, amount)
            is Err {
            Err(VaultError::TransferFailed)
        } else {
            Ok(())
        }
    }

    /// Answer of an inbound pull of `amount` of `asset` from `from`: the
    /// same amount, whitelist and self-transfer guards; the pull itself
    /// (which presumes the holder's balance and pre-granted allowance)
    /// surfaces a refusal as `TransferFailed`.
    pub open spec fn transfer_in_result(
        self,
        t: TokenLedger,
        asset: AssetId,
        from: Address,
        amount: i128,
    ) -> Result<(), VaultError> {
        if amount <= 0 {
            Err(VaultError::InvalidAmount)
        } else if !self.whitelisted(asset) {
            Err(VaultError::AssetNotWhitelisted)
        } else if from == self.vault_address() {
            Err(VaultError::SelfTransfer)
        } else if TokenLedger::transfer_result(t, asset, from, self.vault_address(), amount)
            is Err {
            Err(VaultError::TransferFailed)
        } else {
            Ok(())
        }
    }

    /// Answer of [`Self::initialize`]: initialization happens exactly
    /// once; the stored administrator is immutable afterwards, so a second
    /// attempt is answered as an authorization failure.
    pub open spec fn initialize_result(self, admin: Address) -> Result<(), VaultError> {
        if self.admin_id() is Some {
            Err(VaultError::NotAuthorized)
        } else {
            Ok(())
        }
    }

    /// Answer of [`Self::deposit`].
    pub open spec fn deposit_result(
        self,
        t: TokenLedger,
        from: Address,
        amount: i128,
        asset: AssetId,
    ) -> Result<(), VaultError> {
        if self.is_paused() {
            Err(VaultError::ContractPaused)
        } else {
            self.transfer_in_result(t, asset, from, amount)
        }
    }

    /// Answer of [`Self::withdraw`].
    pub open spec fn withdraw_result(
        self,
        t: TokenLedger,
        to: Address,
        amount: i128,
        asset: AssetId,
    ) -> Result<(), VaultError> {
        if self.admin_id() is None {
            Err(VaultError::AdminNotSet)
        } else if self.is_paused() {
            Err(VaultError::ContractPaused)
        } else if amount > self.locked_of(asset) {
            Err(VaultError::InsufficientLockedFunds)
        } else {
            self.transfer_out_result(t, asset, to, amount)
        }
    }

    /// Answer of [`Self::withdraw_available`]: only liquidity in excess of
    /// the locked obligations may leave through this path.
    pub open spec fn withdraw_available_result(
        self,
        t: TokenLedger,
        to: Address,
        amount: i128,
        asset: AssetId,
    ) -> Result<(), VaultError> {
        if self.admin_id() is None {
            Err(VaultError::AdminNotSet)
        } else if self.is_paused() {
            Err(VaultError::ContractPaused)
        } else if amount > self.liquidity_of(t, asset) {
            Err(VaultError::InsufficientBalance)
        } else {
            self.transfer_out_result(t, asset, to, amount)
        }
    }

    /// Answer of [`Self::set_pause`]: pausing an already paused vault is
    /// refused (a deliberate choice, surfacing double-pause attempts);
    /// unpausing is always accepted.
    pub open spec fn set_pause_result(self, admin: Address, paused: bool) -> Result<
        bool,
        VaultError,
    > {
        if self.admin_id() is None {
            Err(VaultError::AdminNotSet)
        } else if self.admin_id() != Some(admin) {
            Err(VaultError::NotAuthorized)
        } else if paused && self.is_paused() {
            Err(VaultError::ContractPaused)
        } else {
            Ok(true)
        }
    }

    // ------------------------------------------------------------------
    // Construction and queries.
    // ------------------------------------------------------------------

    /// A fresh, uninitialized vault registered under `address`: no
    /// administrator, active (not paused), nothing whitelisted, every
    /// counter zero, no events.
    pub fn new(address: Address) -> (v: VaultContract)
        ensures
            v.wf(),
            v.vault_address() == address,
            v.admin_id() is None,
            !v.is_paused(),
            v.protocol_asset_id() is None,
            forall|a: AssetId| !v.whitelisted(a),
            forall|a: AssetId|
                v.deposits_of(a) == 0 && v.locked_of(a) == 0 && v.fees_of(a) == 0,
            v.events_log() == Seq::<PauseEvent>::empty(),
    {
        VaultContract {
            address,
            admin: None,
            paused: false,
            protocol_asset: None,
            whitelist: HashSet::new(),
            ledger: HashMap::new(),
            events: Vec::new(),
        }
    }

    /// The vault's own principal identifier, for callers that need to
    /// grant it an allowance or inspect its custodied balance.
    pub fn address(&self) -> (r: Address)
        ensures
            r == self.vault_address(),
    {
        self.address
    }

    /// The pause events published so far, oldest first.
    pub fn pause_events(&self) -> (r: &Vec<PauseEvent>)
        ensures
            r@ == self.events_log(),
    {
        &self.events
    }

    /// Whether `asset` may take part in money movement.
    pub fn is_asset_whitelisted(&self, asset: AssetId) -> (r: bool)
        ensures
            r == self.whitelisted(asset),
    {
        self.is_whitelisted(asset)
    }

    /// The stored counters of `asset` together with the derived liquidity,
    /// composed from the live custodied balance.
    pub fn get_treasury_stats(&self, token: &TokenLedger, asset: AssetId) -> (r: TreasuryStats)
        requires
            self.wf(),
            token.wf(),
        ensures
            r.total_deposits == self.deposits_of(asset),
            r.total_locked == self.locked_of(asset),
            r.total_fees == self.fees_of(asset),
            r.total_liquidity == self.liquidity_of(*token, asset),
    {
        let row = self.ledger_row(asset);
        let balance = token.balance_of(asset, self.address);
        proof {
            self.lemma_row_bounds(asset);
            token.lemma_balance_nonneg(asset, self.address);
        }
        let liquidity = balance - row.locked;
        TreasuryStats {
            total_deposits: row.deposits,
            total_locked: row.locked,
            total_fees: row.fees,
            total_liquidity: liquidity,
        }
    }

    // ------------------------------------------------------------------
    // Administration.
    // ------------------------------------------------------------------

    /// Store the administrator.  Happens exactly once: a vault whose
    /// administrator is already set refuses to replace it, since nobody —
    /// the stored administrator included — may rotate it here.
    pub fn initialize(&mut self, auth: &Authorizer, admin: Address) -> (r: Result<
        (),
        VaultError,
    >)
        requires
            old(self).wf(),
            auth.allows(admin),
        ensures
            final(self).wf(),
            r == old(self).initialize_result(admin),
            r is Ok ==> {
                &&& final(self).admin_id() == Some(admin)
                &&& final(self).vault_address() == old(self).vault_address()
                &&& final(self).is_paused() == old(self).is_paused()
                &&& final(self).protocol_asset_id() == old(self).protocol_asset_id()
                &&& Self::same_whitelist(*old(self), *final(self))
                &&& Self::same_counters(*old(self), *final(self))
                &&& Self::same_events(*old(self), *final(self))
            },
            r is Err ==> *final(self) == *old(self),
    {
        match self.admin {
            Some(_) => Err(VaultError::NotAuthorized),
            None => {
                self.admin = Some(admin);
                Ok(())
            },
        }
    }

    /// Open or close the pause gate.  On success the flag is written and a
    /// pause event carrying the administrator and the platform timestamp
    /// `now` is appended to the log.
    pub fn set_pause(&mut self, auth: &Authorizer, admin: Address, paused: bool, now: u64) -> (r:
        Result<bool, VaultError>)
        requires
            old(self).wf(),
            auth.allows(admin),
        ensures
            final(self).wf(),
            r == old(self).set_pause_result(admin, paused),
            r is Ok ==> {
                &&& final(self).is_paused() == paused
                &&& final(self).events_log() == old(self).events_log().push(
                    (PauseEvent { paused, admin, timestamp: now }),
                )
                &&& final(self).vault_address() == old(self).vault_address()
                &&& final(self).admin_id() == old(self).admin_id()
                &&& final(self).protocol_asset_id() == old(self).protocol_asset_id()
                &&& Self::same_whitelist(*old(self), *final(self))
                &&& Self::same_counters(*old(self), *final(self))
            },
            r is Err ==> *final(self) == *old(self),
    {
        let stored = match self.admin {
            Some(a) => a,
            None => {
                return Err(VaultError::AdminNotSet);
            },
        };
        if stored != admin {
            return Err(VaultError::NotAuthorized);
        }
        if paused && self.fail_if_paused() {
            return Err(VaultError::ContractPaused);
        }
        self.paused = paused;
        self.events.push(PauseEvent { paused, admin, timestamp: now });
        Ok(true)
    }

    /// Designate `asset` as the protocol's native unit and whitelist it
    /// unconditionally, even if it was removed from the whitelist before.
    pub fn set_protocol_asset(&mut self, auth: &Authorizer, admin: Address, asset: AssetId) -> (r:
        Result<(), VaultError>)
        requires
            old(self).wf(),
            auth.allows(admin),
        ensures
            final(self).wf(),
            r == old(self).admin_check_result(admin),
            r is Ok ==> {
                &&& final(self).protocol_asset_id() == Some(asset)
                &&& final(self).whitelisted(asset)
                &&& forall|a: AssetId|
                    a != asset ==> final(self).whitelisted(a) == old(self).whitelisted(a)
                &&& final(self).vault_address() == old(self).vault_address()
                &&& final(self).admin_id() == old(self).admin_id()
                &&& final(self).is_paused() == old(self).is_paused()
                &&& Self::same_counters(*old(self), *final(self))
                &&& Self::same_events(*old(self), *final(self))
            },
            r is Err ==> *final(self) == *old(self),
    {
        match self.check_admin(admin) {
            Err(e) => Err(e),
            Ok(()) => {
                self.protocol_asset = Some(asset);
                self.internal_whitelist_asset(asset, true);
                Ok(())
            },
        }
    }

    /// Add `asset` to the whitelist (`allowed` true) or strike it
    /// (`allowed` false).
    pub fn whitelist_asset(
        &mut self,
        auth: &Authorizer,
        admin: Address,
        asset: AssetId,
        allowed: bool,
    ) -> (r: Result<(), VaultError>)
        requires
            old(self).wf(),
            auth.allows(admin),
        ensures
            final(self).wf(),
            r == old(self).admin_check_result(admin),
            r is Ok ==> {
                &&& final(self).whitelisted(asset) == allowed
                &&& forall|a: AssetId|
                    a != asset ==> final(self).whitelisted(a) == old(self).whitelisted(a)
                &&& Self::same_config(*old(self), *final(self))
                &&& Self::same_counters(*old(self), *final(self))
                &&& Self::same_events(*old(self), *final(self))
            },
            r is Err ==> *final(self) == *old(self),
    {
        match self.check_admin(admin) {
            Err(e) => Err(e),
            Ok(()) => {
                self.internal_whitelist_asset(asset, allowed);
                Ok(())
            },
        }
    }

    /// Strike `asset` from the whitelist.
    pub fn blacklist_asset(&mut self, auth: &Authorizer, admin: Address, asset: AssetId) -> (r:
        Result<(), VaultError>)
        requires
            old(self).wf(),
            auth.allows(admin),
        ensures
            final(self).wf(),
            r == old(self).admin_check_result(admin),
            r is Ok ==> {
                &&& !final(self).whitelisted(asset)
                &&& forall|a: AssetId|
                    a != asset ==> final(self).whitelisted(a) == old(self).whitelisted(a)
                &&& Self::same_config(*old(self), *final(self))
                &&& Self::same_counters(*old(self), *final(self))
                &&& Self::same_events(*old(self), *final(self))
            },
            r is Err ==> *final(self) == *old(self),
    {
        match self.check_admin(admin) {
            Err(e) => Err(e),
            Ok(()) => {
                self.internal_whitelist_asset(asset, false);
                Ok(())
            },
        }
    }

    // ------------------------------------------------------------------
    // Money movement.
    // ------------------------------------------------------------------

    /// Pull `amount` of `asset` from `from` into custody and earmark it:
    /// on success both `total_deposits` and `total_locked` rise by exactly
    /// `amount`, and so does the custodied balance.  The counters are
    /// touched only after the inbound transfer has succeeded, so a failed
    /// call changes nothing.
    ///
    /// The caller's authorization is the platform's demand; a counter that
    /// would leave the 128-bit range would abort on the platform and is
    /// ruled out up front (the pause gate answers first, as it runs
    /// first).
    pub fn deposit(
        &mut self,
        token: &mut TokenLedger,
        auth: &Authorizer,
        from: Address,
        amount: i128,
        asset: AssetId,
    ) -> (r: Result<(), VaultError>)
        requires
            old(self).wf(),
            old(token).wf(),
            auth.allows(from),
            old(self).is_paused() || old(self).deposits_of(asset) + amount <= i128::MAX,
        ensures
            final(self).wf(),
            final(token).wf(),
            r == old(self).deposit_result(*old(token), from, amount, asset),
            r is Ok ==> {
                &&& final(self).deposits_of(asset) == old(self).deposits_of(asset) + amount
                &&& final(self).locked_of(asset) == old(self).locked_of(asset) + amount
                &&& final(self).fees_of(asset) == old(self).fees_of(asset)
                &&& Self::same_counters_except(*old(self), *final(self), asset)
                &&& Self::same_config(*old(self), *final(self))
                &&& Self::same_whitelist(*old(self), *final(self))
                &&& Self::same_events(*old(self), *final(self))
                &&& final(token).balance(asset, old(self).vault_address()) == old(token).balance(
                    asset,
                    old(self).vault_address(),
                ) + amount
                &&& final(token).balance(asset, from) == old(token).balance(asset, from) - amount
                &&& forall|a: AssetId, h: Address|
                    !(a == asset && (h == from || h == old(self).vault_address())) ==> final(token).balance(a, h) == old(token).balance(a, h)
            },
            r is Err ==> *final(self) == *old(self) && *final(token) == *old(token),
            final(self).liquidity_of(*final(token), asset) == old(self).liquidity_of(
                *old(token),
                asset,
            ),
            forall|a: AssetId|
                old(self).funds_cover_locked(*old(token), a) ==> final(self).funds_cover_locked(
                    *final(token),
                    a,
                ),
    {
        if self.fail_if_paused() {
            return Err(VaultError::ContractPaused);
        }
        match self.internal_transfer_from(token, asset, from, amount) {
            Err(e) => Err(e),
            Ok(()) => {
                let row = self.ledger_row(asset);
                proof {
                    self.lemma_row_bounds(asset);
                }
                self.ledger.insert(
                    asset,
                    LedgerRow {
                        deposits: row.deposits + amount,
                        locked: row.locked + amount,
                        fees: row.fees,
                    },
                );
                Ok(())
            },
        }
    }

    /// Release `amount` of `asset`'s locked funds to `to`.  The safety
    /// rail: no more than `total_locked` may leave through this path.  On
    /// success both counters fall by exactly `amount`; since every row
    /// keeps `locked <= deposits`, the decrement can never drive
    /// `total_deposits` negative, so no clamping is needed or performed.
    pub fn withdraw(
        &mut self,
        token: &mut TokenLedger,
        auth: &Authorizer,
        to: Address,
        amount: i128,
        asset: AssetId,
    ) -> (r: Result<(), VaultError>)
        requires
            old(self).wf(),
            old(token).wf(),
            old(self).admin_authorized(*auth),
        ensures
            final(self).wf(),
            final(token).wf(),
            r == old(self).withdraw_result(*old(token), to, amount, asset),
            r is Ok ==> {
                &&& final(self).deposits_of(asset) == old(self).deposits_of(asset) - amount
                &&& final(self).locked_of(asset) == old(self).locked_of(asset) - amount
                &&& final(self).fees_of(asset) == old(self).fees_of(asset)
                &&& Self::same_counters_except(*old(self), *final(self), asset)
                &&& Self::same_config(*old(self), *final(self))
                &&& Self::same_whitelist(*old(self), *final(self))
                &&& Self::same_events(*old(self), *final(self))
                &&& final(token).balance(asset, old(self).vault_address()) == old(token).balance(
                    asset,
                    old(self).vault_address(),
                ) - amount
                &&& final(token).balance(asset, to) == old(token).balance(asset, to) + amount
                &&& forall|a: AssetId, h: Address|
                    !(a == asset && (h == to || h == old(self).vault_address())) ==> final(token).balance(a, h) == old(token).balance(a, h)
            },
            r is Err ==> *final(self) == *old(self) && *final(token) == *old(token),
            final(self).liquidity_of(*final(token), asset) == old(self).liquidity_of(
                *old(token),
                asset,
            ),
            forall|a: AssetId|
                old(self).funds_cover_locked(*old(token), a) ==> final(self).funds_cover_locked(
                    *final(token),
                    a,
                ),
    {
        match self.admin {
            None => {
                return Err(VaultError::AdminNotSet);
            },
            Some(_) => {},
        }
        if self.fail_if_paused() {
            return Err(VaultError::ContractPaused);
        }
        let row = self.ledger_row(asset);
        if amount > row.locked {
            return Err(VaultError::InsufficientLockedFunds);
        }
        match self.internal_transfer(token, asset, to, amount) {
            Err(e) => Err(e),
            Ok(()) => {
                proof {
                    self.lemma_row_bounds(asset);
                }
                self.ledger.insert(
                    asset,
                    LedgerRow {
                        deposits: row.deposits - amount,
                        locked: row.locked - amount,
                        fees: row.fees,
                    },
                );
                Ok(())
            },
        }
    }

    /// Release `amount` of `asset`'s surplus liquidity — custodied balance
    /// beyond the locked obligations — to `to`, without touching the
    /// counters.  This is the sweep path for funds that arrived outside
    /// the deposit flow (direct transfers, future fee accrual).
    pub fn withdraw_available(
        &self,
        token: &mut TokenLedger,
        auth: &Authorizer,
        to: Address,
        amount: i128,
        asset: AssetId,
    ) -> (r: Result<(), VaultError>)
        requires
            self.wf(),
            old(token).wf(),
            self.admin_authorized(*auth),
        ensures
            final(token).wf(),
            r == self.withdraw_available_result(*old(token), to, amount, asset),
            r is Ok ==> {
                &&& final(token).balance(asset, self.vault_address()) == old(token).balance(
                    asset,
                    self.vault_address(),
                ) - amount
                &&& final(token).balance(asset, to) == old(token).balance(asset, to) + amount
                &&& forall|a: AssetId, h: Address|
                    !(a == asset && (h == to || h == self.vault_address())) ==> final(token).balance(a, h) == old(token).balance(a, h)
                &&& self.liquidity_of(*final(token), asset) == self.liquidity_of(
                    *old(token),
                    asset,
                ) - amount
                &&& self.funds_cover_locked(*final(token), asset)
            },
            r is Err ==> *final(token) == *old(token),
            forall|a: AssetId|
                self.funds_cover_locked(*old(token), a) ==> self.funds_cover_locked(
                    *final(token),
                    a,
                ),
    {
        match self.admin {
            None => {
                return Err(VaultError::AdminNotSet);
            },
            Some(_) => {},
        }
        if self.fail_if_paused() {
            return Err(VaultError::ContractPaused);
        }
        let balance = token.balance_of(asset, self.address);
        let row = self.ledger_row(asset);
        proof {
            self.lemma_row_bounds(asset);
            token.lemma_balance_nonneg(asset, self.address);
        }
        let available = balance - row.locked;
        if amount > available {
            return Err(VaultError::InsufficientBalance);
        }
        self.internal_transfer(token, asset, to, amount)
    }

    // ------------------------------------------------------------------
    // Internal guards and safe transfer wrappers.
    // ------------------------------------------------------------------

    /// Whether the pause gate refuses money movement right now.
    fn fail_if_paused(&self) -> (r: bool)
        ensures
            r == self.is_paused(),
    {
        self.paused
    }

    /// The stored administrator must exist and be `admin`.
    fn check_admin(&self, admin: Address) -> (r: Result<(), VaultError>)
        ensures
            r == self.admin_check_result(admin),
    {
        match self.admin {
            None => Err(VaultError::AdminNotSet),
            Some(stored) => {
                if stored != admin {
                    Err(VaultError::NotAuthorized)
                } else {
                    Ok(())
                }
            },
        }
    }

    /// Membership query behind [`Self::is_asset_whitelisted`].
    fn is_whitelisted(&self, asset: AssetId) -> (r: bool)
        ensures
            r == self.whitelisted(asset),
    {
        self.whitelist.contains(&asset)
    }

    /// Write (`allowed` true) or clear (`allowed` false) the whitelist
    /// marker of `asset`.
    fn internal_whitelist_asset(&mut self, asset: AssetId, allowed: bool)
        ensures
            final(self).whitelisted(asset) == allowed,
            forall|a: AssetId|
                a != asset ==> final(self).whitelisted(a) == old(self).whitelisted(a),
            final(self).vault_address() == old(self).vault_address(),
            final(self).admin_id() == old(self).admin_id(),
            final(self).is_paused() == old(self).is_paused(),
            final(self).protocol_asset_id() == old(self).protocol_asset_id(),
            Self::same_counters(*old(self), *final(self)),
            Self::same_events(*old(self), *final(self)),
            final(self).wf() == old(self).wf(),
    {
        if allowed {
            self.whitelist.insert(asset);
        } else {
            self.whitelist.remove(&asset);
        }
    }

    /// Outbound arm of the asset transfer gateway: validate, then move
    /// `amount` of `asset` from the vault's custody to `to`.  The only
    /// code path (with its inbound sibling) that invokes the external
    /// transfer primitive.
    fn internal_transfer(
        &self,
        token: &mut TokenLedger,
        asset: AssetId,
        to: Address,
        amount: i128,
    ) -> (r: Result<(), VaultError>)
        requires
            old(token).wf(),
        ensures
            final(token).wf(),
            r == self.transfer_out_result(*old(token), asset, to, amount),
            r is Ok ==> {
                &&& final(token).balance(asset, self.vault_address()) == old(token).balance(
                    asset,
                    self.vault_address(),
                ) - amount
                &&& final(token).balance(asset, to) == old(token).balance(asset, to) + amount
                &&& forall|a: AssetId, h: Address|
                    !(a == asset && (h == to || h == self.vault_address())) ==> final(token).balance(a, h) == old(token).balance(a, h)
            },
            r is Err ==> *final(token) == *old(token),
    {
        if amount <= 0 {
            return Err(VaultError::InvalidAmount);
        }
        if !self.is_whitelisted(asset) {
            return Err(VaultError::AssetNotWhitelisted);
        }
        if to == self.address {
            return Err(VaultError::SelfTransfer);
        }
        let balance = token.balance_of(asset, self.address);
        if amount > balance {
            return Err(VaultError::InsufficientBalance);
        }
        match token.transfer(asset, self.address, to, amount) {
            Ok(()) => Ok(()),
            Err(_) => Err(VaultError::TransferFailed),
        }
    }

    /// Inbound arm of the asset transfer gateway: validate, then pull
    /// `amount` of `asset` from `from`'s holdings into the vault's
    /// custody.  The pull presumes `from` pre-granted the vault a
    /// sufficient allowance through the external asset system; its
    /// refusal surfaces as `TransferFailed`.
    fn internal_transfer_from(
        &self,
        token: &mut TokenLedger,
        asset: AssetId,
        from: Address,
        amount: i128,
    ) -> (r: Result<(), VaultError>)
        requires
            old(token).wf(),
        ensures
            final(token).wf(),
            r == self.transfer_in_result(*old(token), asset, from, amount),
            r is Ok ==> {
                &&& final(token).balance(asset, self.vault_address()) == old(token).balance(
                    asset,
                    self.vault_address(),
                ) + amount
                &&& final(token).balance(asset, from) == old(token).balance(asset, from) - amount
                &&& forall|a: AssetId, h: Address|
                    !(a == asset && (h == from || h == self.vault_address())) ==> final(token).balance(a, h) == old(token).balance(a, h)
            },
            r is Err ==> *final(token) == *old(token),
    {
        if amount <= 0 {
            return Err(VaultError::InvalidAmount);
        }
        if !self.is_whitelisted(asset) {
            return Err(VaultError::AssetNotWhitelisted);
        }
        if from == self.address {
            return Err(VaultError::SelfTransfer);
        }
        match token.transfer(asset, from, self.address, amount) {
            Ok(()) => Ok(()),
            Err(_) => Err(VaultError::TransferFailed),
        }
    }

    // ------------------------------------------------------------------
    // Liquidity laws.
    // ------------------------------------------------------------------

    /// Liquidity reads the custodied balance against the locked
    /// obligations alone; the deposits counter plays no part.  Two vaults
    /// that agree on an asset's locked funds (and on their own address)
    /// report the same liquidity for it, whatever their deposit counters
    /// say.
    pub proof fn lemma_liquidity_independent_of_deposits(
        v1: VaultContract,
        v2: VaultContract,
        t: TokenLedger,
        asset: AssetId,
    )
        requires
            v1.vault_address() == v2.vault_address(),
            v1.locked_of(asset) == v2.locked_of(asset),
        ensures
            v1.liquidity_of(t, asset) == v2.liquidity_of(t, asset),
    {
    }

    /// An out-of-band change of the custodied balance — funds moved
    /// straight into the vault's holdings, outside the deposit path —
    /// shifts the reported liquidity by exactly that amount.  Together
    /// with the liquidity-preservation clause that `deposit` and
    /// `withdraw` each ensure, a surplus of `s` credited after any
    /// sequence of deposits and locked withdrawals is reported as exactly
    /// `s` more liquidity.
    pub proof fn lemma_liquidity_tracks_surplus(
        v: VaultContract,
        t0: TokenLedger,
        t1: TokenLedger,
        asset: AssetId,
        s: int,
    )
        requires
            t1.balance(asset, v.vault_address()) == t0.balance(asset, v.vault_address()) + s,
        ensures
            v.liquidity_of(t1, asset) == v.liquidity_of(t0, asset) + s,
    {
    }

    /// The "any sequence" form of the liquidity law.  Walk any chain of
    /// vault/ledger states in which each step keeps the asset's liquidity
    /// — which the contracts of `deposit` and `withdraw` promise of every
    /// call, succeed or fail — and the last state reads the same liquidity
    /// as the first.  With [`Self::lemma_liquidity_tracks_surplus`], an
    /// out-of-band credit of `s` after such a chain is reported as exactly
    /// `s` of liquidity.
    pub proof fn lemma_liquidity_over_sequence(
        vaults: Seq<VaultContract>,
        tokens: Seq<TokenLedger>,
        asset: AssetId,
    )
        requires
            vaults.len() == tokens.len(),
            vaults.len() >= 1,
            forall|i: int|
                0 <= i < vaults.len() - 1 ==> #[trigger] vaults[i + 1].liquidity_of(
                    tokens[i + 1],
                    asset,
                ) == vaults[i].liquidity_of(tokens[i], asset),
        ensures
            vaults.last().liquidity_of(tokens.last(), asset) == vaults.first().liquidity_of(
                tokens.first(),
                asset,
            ),
        decreases vaults.len(),
    {
        if vaults.len() > 1 {
            let n = vaults.len() as int;
            assert forall|i: int| 0 <= i < vaults.drop_last().len() - 1 implies #[trigger] vaults.drop_last()[i
                + 1].liquidity_of(tokens.drop_last()[i + 1], asset) == vaults.drop_last()[i].liquidity_of(
                tokens.drop_last()[i],
                asset,
            ) by {
                assert(vaults[i + 1].liquidity_of(tokens[i + 1], asset) == vaults[i].liquidity_of(
                    tokens[i],
                    asset,
                ));
            }
            Self::lemma_liquidity_over_sequence(
                vaults.drop_last(),
                tokens.drop_last(),
                asset,
            );
            assert(vaults[n - 2 + 1].liquidity_of(tokens[n - 2 + 1], asset) == vaults[n
                - 2].liquidity_of(tokens[n - 2], asset));
        }
    }

    /// Read `asset`'s ledger row; a row never written reads as zeros.
    fn ledger_row(&self, asset: AssetId) -> (r: LedgerRow)
        ensures
            r.deposits == self.deposits_of(asset),
            r.locked == self.locked_of(asset),
            r.fees == self.fees_of(asset),
    {
        match self.ledger.get(&asset) {
            Some(row) => *row,
            None => LedgerRow { deposits: 0, locked: 0, fees: 0 },
        }
    }
}

} // verus!
