//! Identity management: a root administrator, a manager access list, and
//! a two-phase (propose / claim) handover of the administrator role.
//!
//! This is the access-list companion of the treasury vault.  It keeps no
//! numeric counters; its state is the administrator, an optional proposed
//! successor, and the list of managers, plus the events it publishes.

use vstd::prelude::*;

use crate::auth::Authorizer;
use crate::common::Address;

verus! {

/// Typed failures of the identity operations.
///
/// `InvalidAddress` and `Unauthorized` are reserved extension points: no
/// current operation returns them.
#[derive(Clone, Copy, Debug, PartialEq, Eq)]
pub enum ContractError {
    NotAuthorized,
    AlreadyInitialized,
    NotInitialized,
    ManagerAlreadyExists,
    ManagerNotFound,
    InvalidAddress,
    TransferToSelf,
    NotProposedAdmin,
    Unauthorized,
}

/// Published when the contract is initialized.
#[derive(Clone, Copy, Debug, PartialEq, Eq)]
pub struct InitializedEvent {
    pub admin: Address,
}

/// Published when the administrator proposes a successor.
#[derive(Clone, Copy, Debug, PartialEq, Eq)]
pub struct AdminProposedEvent {
    pub current_admin: Address,
    pub proposed_admin: Address,
}

/// Published when a proposed successor claims the administrator role.
#[derive(Clone, Copy, Debug, PartialEq, Eq)]
pub struct AdminChangedEvent {
    pub previous_admin: Address,
    pub new_admin: Address,
}

/// Published when a manager is added.
#[derive(Clone, Copy, Debug, PartialEq, Eq)]
pub struct ManagerAddedEvent {
    pub manager: Address,
    pub admin: Address,
}

/// Published when a manager is removed.
#[derive(Clone, Copy, Debug, PartialEq, Eq)]
pub struct ManagerRemovedEvent {
    pub manager: Address,
    pub admin: Address,
}

/// One entry of the identity contract's event log.
#[derive(Clone, Copy, Debug, PartialEq, Eq)]
pub enum IdentityEvent {
    Initialized(InitializedEvent),
    AdminProposed(AdminProposedEvent),
    AdminChanged(AdminChangedEvent),
    ManagerAdded(ManagerAddedEvent),
    ManagerRemoved(ManagerRemovedEvent),
}

/// State of the identity management contract.
pub struct IdentityManagementContract {
    initialized: bool,
    admin: Option<Address>,
    proposed_admin: Option<Address>,
    managers: Vec<Address>,
    events: Vec<IdentityEvent>,
}

impl IdentityManagementContract {
    /// Whether [`Self::initialize`] has happened.
    pub closed spec fn spec_initialized(self) -> bool {
        self.initialized
    }

    /// The current administrator, if initialized.
    pub closed spec fn admin_of(self) -> Option<Address> {
        self.admin
    }

    /// The proposed successor, if any.
    pub closed spec fn proposed_of(self) -> Option<Address> {
        self.proposed_admin
    }

    /// The managers, in the order they were added.
    pub closed spec fn managers_seq(self) -> Seq<Address> {
        self.managers@
    }

    /// Whether `id` is on the manager list.
    pub open spec fn manager_listed(self, id: Address) -> bool {
        self.managers_seq().contains(id)
    }

    /// The events published so far, oldest first.
    pub closed spec fn events_log(self) -> Seq<IdentityEvent> {
        self.events@
    }

    /// Well-formedness: an initialized contract has an administrator, the
    /// manager list holds no duplicates, and its length stays within the
    /// platform's 32-bit list length.
    pub closed spec fn wf(self) -> bool {
        &&& self.initialized ==> self.admin is Some
        &&& forall|i: int, j: int|
            0 <= i < j < self.managers@.len() ==> self.managers@[i] != self.managers@[j]
        &&& self.managers@.len() <= u32::MAX
    }

    // ------------------------------------------------------------------
    // Outcome functions.
    // ------------------------------------------------------------------

    /// Answer of [`Self::initialize`]: only once.
    pub open spec fn initialize_result(self, admin: Address) -> Result<(), ContractError> {
        if self.spec_initialized() {
            Err(ContractError::AlreadyInitialized)
        } else {
            Ok(())
        }
    }

    /// The two leading guards every other operation runs: the contract
    /// must be initialized, and the caller must be the administrator.
    pub open spec fn admin_gate(self, caller: Address) -> Result<(), ContractError> {
        if !self.spec_initialized() {
            Err(ContractError::NotInitialized)
        } else if self.admin_of() is None {
            Err(ContractError::NotInitialized)
        } else if self.admin_of() != Some(caller) {
            Err(ContractError::NotAuthorized)
        } else {
            Ok(())
        }
    }

    /// Answer of [`Self::add_manager`].
    pub open spec fn add_manager_result(self, caller: Address, manager: Address) -> Result<
        (),
        ContractError,
    > {
        if self.admin_gate(caller) is Err {
            self.admin_gate(caller)
        } else if self.manager_listed(manager) {
            Err(ContractError::ManagerAlreadyExists)
        } else {
            Ok(())
        }
    }

    /// Answer of [`Self::remove_manager`].
    pub open spec fn remove_manager_result(self, caller: Address, manager: Address) -> Result<
        (),
        ContractError,
    > {
        if self.admin_gate(caller) is Err {
            self.admin_gate(caller)
        } else if !self.manager_listed(manager) {
            Err(ContractError::ManagerNotFound)
        } else {
            Ok(())
        }
    }

    /// Answer of [`Self::propose_admin`]: the administrator may not
    /// propose itself.
    pub open spec fn propose_admin_result(self, caller: Address, proposed: Address) -> Result<
        (),
        ContractError,
    > {
        if self.admin_gate(caller) is Err {
            self.admin_gate(caller)
        } else if Some(proposed) == self.admin_of() {
            Err(ContractError::TransferToSelf)
        } else {
            Ok(())
        }
    }

    /// Answer of [`Self::claim_admin`]: only the proposed successor may
    /// claim.
    pub open spec fn claim_admin_result(self, caller: Address) -> Result<(), ContractError> {
        if !self.spec_initialized() {
            Err(ContractError::NotInitialized)
        } else if self.proposed_of() != Some(caller) {
            Err(ContractError::NotProposedAdmin)
        } else {
            Ok(())
        }
    }

    // ------------------------------------------------------------------
    // Construction and operations.
    // ------------------------------------------------------------------

    /// A fresh, uninitialized identity contract.
    pub fn new() -> (c: IdentityManagementContract)
        ensures
            c.wf(),
            !c.spec_initialized(),
            c.admin_of() is None,
            c.proposed_of() is None,
            c.managers_seq() == Seq::<Address>::empty(),
            c.events_log() == Seq::<IdentityEvent>::empty(),
    {
        IdentityManagementContract {
            initialized: false,
            admin: None,
            proposed_admin: None,
            managers: Vec::new(),
            events: Vec::new(),
        }
    }

    /// Initialize the contract with a root administrator.  Happens only
    /// once; the administrator's authorization is demanded only when the
    /// guard passes, as the initialized check runs first.
    pub fn initialize(&mut self, auth: &Authorizer, admin: Address) -> (r: Result<
        (),
        ContractError,
    >)
        requires
            old(self).wf(),
            old(self).spec_initialized() || auth.allows(admin),
        ensures
            final(self).wf(),
            r == old(self).initialize_result(admin),
            r is Ok ==> {
                &&& final(self).spec_initialized()
                &&& final(self).admin_of() == Some(admin)
                &&& final(self).proposed_of() == old(self).proposed_of()
                &&& final(self).managers_seq() == Seq::<Address>::empty()
                &&& final(self).events_log() == old(self).events_log().push(
                    IdentityEvent::Initialized((InitializedEvent { admin })),
                )
            },
            r is Err ==> *final(self) == *old(self),
    {
        if self.initialized {
            return Err(ContractError::AlreadyInitialized);
        }
        self.admin = Some(admin);
        self.initialized = true;
        self.managers = Vec::new();
        self.events.push(IdentityEvent::Initialized(InitializedEvent { admin }));
        Ok(())
    }

    /// Add `manager` to the access list (administrator only).
    pub fn add_manager(&mut self, auth: &Authorizer, caller: Address, manager: Address) -> (r:
        Result<(), ContractError>)
        requires
            old(self).wf(),
            !old(self).spec_initialized() || auth.allows(caller),
            old(self).managers_seq().len() < u32::MAX,
        ensures
            final(self).wf(),
            r == old(self).add_manager_result(caller, manager),
            r is Ok ==> {
                &&& final(self).managers_seq() == old(self).managers_seq().push(manager)
                &&& final(self).manager_listed(manager)
                &&& final(self).admin_of() == old(self).admin_of()
                &&& final(self).proposed_of() == old(self).proposed_of()
                &&& final(self).spec_initialized() == old(self).spec_initialized()
                &&& final(self).events_log() == old(self).events_log().push(
                    IdentityEvent::ManagerAdded((ManagerAddedEvent { manager, admin: caller })),
                )
            },
            r is Err ==> *final(self) == *old(self),
    {
        match self.admin_gate_check(caller) {
            Err(e) => {
                return Err(e);
            },
            Ok(()) => {},
        }
        if self.contains_manager(manager) {
            return Err(ContractError::ManagerAlreadyExists);
        }
        proof {
            assert forall|i: int, j: int|
                0 <= i < j < old(self).managers@.len() + 1 implies old(self).managers@.push(
                manager,
            )[i] != old(self).managers@.push(manager)[j] by {
                if j == old(self).managers@.len() {
                    assert(old(self).managers@[i] == old(self).managers@.push(manager)[i]);
                    if old(self).managers@[i] == manager {
                        assert(old(self).managers@.contains(manager));
                    }
                }
            }
        }
        self.managers.push(manager);
        proof {
            assert(self.managers@[self.managers@.len() - 1] == manager);
        }
        self.events.push(IdentityEvent::ManagerAdded(ManagerAddedEvent {
            manager,
            admin: caller,
        }));
        Ok(())
    }

    /// Remove `manager` from the access list (administrator only).  The
    /// remaining managers keep their order.
    pub fn remove_manager(&mut self, auth: &Authorizer, caller: Address, manager: Address) -> (r:
        Result<(), ContractError>)
        requires
            old(self).wf(),
            !old(self).spec_initialized() || auth.allows(caller),
        ensures
            final(self).wf(),
            r == old(self).remove_manager_result(caller, manager),
            r is Ok ==> {
                &&& !final(self).manager_listed(manager)
                &&& forall|x: Address|
                    x != manager ==> final(self).manager_listed(x) == old(self).manager_listed(x)
                &&& final(self).managers_seq().len() == old(self).managers_seq().len() - 1
                &&& exists|i: int|
                    0 <= i < old(self).managers_seq().len() && old(self).managers_seq()[i]
                        == manager && final(self).managers_seq() == old(
                        self,
                    ).managers_seq().remove(i)
                &&& final(self).admin_of() == old(self).admin_of()
                &&& final(self).proposed_of() == old(self).proposed_of()
                &&& final(self).spec_initialized() == old(self).spec_initialized()
                &&& final(self).events_log() == old(self).events_log().push(
                    IdentityEvent::ManagerRemoved((ManagerRemovedEvent { manager, admin: caller })),
                )
            },
            r is Err ==> *final(self) == *old(self),
    {
        match self.admin_gate_check(caller) {
            Err(e) => {
                return Err(e);
            },
            Ok(()) => {},
        }
        match self.find_manager(manager) {
            None => Err(ContractError::ManagerNotFound),
            Some(i) => {
                proof {
                    lemma_distinct_remove_frame(self.managers@, i as int);
                }
                self.managers.remove(i);
                self.events.push(IdentityEvent::ManagerRemoved(ManagerRemovedEvent {
                    manager,
                    admin: caller,
                }));
                Ok(())
            },
        }
    }

    /// Propose a successor administrator (administrator only); replaces
    /// any earlier proposal.
    pub fn propose_admin(&mut self, auth: &Authorizer, caller: Address, proposed: Address) -> (r:
        Result<(), ContractError>)
        requires
            old(self).wf(),
            !old(self).spec_initialized() || auth.allows(caller),
        ensures
            final(self).wf(),
            r == old(self).propose_admin_result(caller, proposed),
            r is Ok ==> {
                &&& final(self).proposed_of() == Some(proposed)
                &&& final(self).admin_of() == old(self).admin_of()
                &&& final(self).spec_initialized() == old(self).spec_initialized()
                &&& final(self).managers_seq() == old(self).managers_seq()
                &&& final(self).events_log() == old(self).events_log().push(
                    IdentityEvent::AdminProposed(
                        (AdminProposedEvent { current_admin: caller, proposed_admin: proposed }),
                    ),
                )
            },
            r is Err ==> *final(self) == *old(self),
    {
        match self.admin_gate_check(caller) {
            Err(e) => {
                return Err(e);
            },
            Ok(()) => {},
        }
        if self.admin_is(proposed) {
            return Err(ContractError::TransferToSelf);
        }
        self.proposed_admin = Some(proposed);
        self.events.push(IdentityEvent::AdminProposed(AdminProposedEvent {
            current_admin: caller,
            proposed_admin: proposed,
        }));
        Ok(())
    }

    /// Claim the administrator role (proposed successor only).  On
    /// success the proposal is cleared.
    pub fn claim_admin(&mut self, auth: &Authorizer, caller: Address) -> (r: Result<
        (),
        ContractError,
    >)
        requires
            old(self).wf(),
            !old(self).spec_initialized() || auth.allows(caller),
        ensures
            final(self).wf(),
            r == old(self).claim_admin_result(caller),
            r is Ok ==> {
                &&& final(self).admin_of() == Some(caller)
                &&& final(self).proposed_of() is None
                &&& final(self).spec_initialized() == old(self).spec_initialized()
                &&& final(self).managers_seq() == old(self).managers_seq()
                &&& old(self).admin_of() matches Some(prev) && final(self).events_log() == old(
                    self,
                ).events_log().push(
                    IdentityEvent::AdminChanged(
                        (AdminChangedEvent { previous_admin: prev, new_admin: caller }),
                    ),
                )
            },
            r is Err ==> *final(self) == *old(self),
    {
        if !self.initialized {
            return Err(ContractError::NotInitialized);
        }
        let proposed = match self.proposed_admin {
            None => {
                return Err(ContractError::NotProposedAdmin);
            },
            Some(p) => p,
        };
        if proposed != caller {
            return Err(ContractError::NotProposedAdmin);
        }
        let previous = match self.admin {
            Some(a) => a,
            None => {
                return Err(ContractError::NotInitialized);
            },
        };
        self.admin = Some(proposed);
        self.proposed_admin = None;
        self.events.push(IdentityEvent::AdminChanged(AdminChangedEvent {
            previous_admin: previous,
            new_admin: proposed,
        }));
        Ok(())
    }

    /// The current administrator.
    pub fn get_admin(&self) -> (r: Result<Address, ContractError>)
        requires
            self.wf(),
        ensures
            !self.spec_initialized() ==> r == Err::<Address, ContractError>(
                ContractError::NotInitialized,
            ),
            self.spec_initialized() ==> (self.admin_of() matches Some(a) && r == Ok::<
                Address,
                ContractError,
            >(a)),
    {
        if !self.initialized {
            return Err(ContractError::NotInitialized);
        }
        match self.admin {
            Some(a) => Ok(a),
            None => Err(ContractError::NotInitialized),
        }
    }

    /// The proposed successor, if any.
    pub fn get_proposed_admin(&self) -> (r: Result<Option<Address>, ContractError>)
        ensures
            !self.spec_initialized() ==> r == Err::<Option<Address>, ContractError>(
                ContractError::NotInitialized,
            ),
            self.spec_initialized() ==> r == Ok::<Option<Address>, ContractError>(
                self.proposed_of(),
            ),
    {
        if !self.initialized {
            return Err(ContractError::NotInitialized);
        }
        Ok(self.proposed_admin)
    }

    /// Whether `address` is a manager.
    pub fn is_manager(&self, address: Address) -> (r: Result<bool, ContractError>)
        ensures
            !self.spec_initialized() ==> r == Err::<bool, ContractError>(
                ContractError::NotInitialized,
            ),
            self.spec_initialized() ==> r == Ok::<bool, ContractError>(
                self.manager_listed(address),
            ),
    {
        if !self.initialized {
            return Err(ContractError::NotInitialized);
        }
        Ok(self.contains_manager(address))
    }

    /// All managers, in the order they were added.
    pub fn get_managers(&self) -> (r: Result<Vec<Address>, ContractError>)
        ensures
            !self.spec_initialized() ==> r == Err::<Vec<Address>, ContractError>(
                ContractError::NotInitialized,
            ),
            self.spec_initialized() ==> (r matches Ok(v) && v@ == self.managers_seq()),
    {
        if !self.initialized {
            return Err(ContractError::NotInitialized);
        }
        let n = self.managers.len();
        let mut out: Vec<Address> = Vec::new();
        let mut i: usize = 0;
        while i < n
            invariant
                n == self.managers.len(),
                0 <= i <= n,
                out@ == self.managers@.subrange(0, i as int),
            decreases n - i,
        {
            out.push(self.managers[i]);
            proof {
                assert(out@ =~= self.managers@.subrange(0, i + 1));
            }
            i = i + 1;
        }
        proof {
            assert(out@ =~= self.managers@);
        }
        Ok(out)
    }

    /// How many managers are listed.
    pub fn get_manager_count(&self) -> (r: Result<u32, ContractError>)
        requires
            self.wf(),
        ensures
            !self.spec_initialized() ==> r == Err::<u32, ContractError>(
                ContractError::NotInitialized,
            ),
            self.spec_initialized() ==> r == Ok::<u32, ContractError>(
                self.managers_seq().len() as u32,
            ),
    {
        if !self.initialized {
            return Err(ContractError::NotInitialized);
        }
        Ok(self.managers.len() as u32)
    }

    /// Whether [`Self::initialize`] has happened.
    pub fn is_initialized(&self) -> (r: bool)
        ensures
            r == self.spec_initialized(),
    {
        self.initialized
    }

    /// The events published so far, oldest first.
    pub fn identity_events(&self) -> (r: &Vec<IdentityEvent>)
        ensures
            r@ == self.events_log(),
    {
        &self.events
    }

    // ------------------------------------------------------------------
    // Internal guards.
    // ------------------------------------------------------------------

    /// Run the initialized and administrator-identity guards.
    fn admin_gate_check(&self, caller: Address) -> (r: Result<(), ContractError>)
        ensures
            r == self.admin_gate(caller),
    {
        if !self.initialized {
            return Err(ContractError::NotInitialized);
        }
        match self.admin {
            None => Err(ContractError::NotInitialized),
            Some(a) => {
                if a != caller {
                    Err(ContractError::NotAuthorized)
                } else {
                    Ok(())
                }
            },
        }
    }

    /// Whether the stored administrator is exactly `id`.
    fn admin_is(&self, id: Address) -> (r: bool)
        ensures
            r == (self.admin_of() == Some(id)),
    {
        match self.admin {
            Some(a) => a == id,
            None => false,
        }
    }

    /// Position of `id` on the manager list, if it is there.
    fn find_manager(&self, id: Address) -> (r: Option<usize>)
        ensures
            match r {
                Some(i) => i < self.managers_seq().len() && self.managers_seq()[i as int] == id,
                None => !self.manager_listed(id),
            },
    {
        let n = self.managers.len();
        let mut i: usize = 0;
        while i < n
            invariant
                n == self.managers.len(),
                0 <= i <= n,
                forall|j: int| 0 <= j < i ==> self.managers@[j] != id,
            decreases n - i,
        {
            if self.managers[i] == id {
                return Some(i);
            }
            i = i + 1;
        }
        None
    }

    /// Membership scan of the manager list.
    fn contains_manager(&self, id: Address) -> (r: bool)
        ensures
            r == self.manager_listed(id),
    {
        match self.find_manager(id) {
            Some(i) => {
                proof {
                    assert(self.managers@[i as int] == id);
                }
                true
            },
            None => false,
        }
    }
}

/// Removing the only occurrence of `s[i]` from a duplicate-free list
/// removes exactly that address and keeps every other address's
/// membership.
proof fn lemma_distinct_remove_frame(s: Seq<Address>, i: int)
    requires
        forall|p: int, q: int| 0 <= p < q < s.len() ==> s[p] != s[q],
        0 <= i < s.len(),
    ensures
        !s.remove(i).contains(s[i]),
        forall|x: Address| x != s[i] ==> s.remove(i).contains(x) == s.contains(x),
        forall|p: int, q: int|
            0 <= p < q < s.remove(i).len() ==> s.remove(i)[p] != s.remove(i)[q],
{
    let t = s.remove(i);
    assert forall|p: int, q: int| 0 <= p < q < t.len() implies t[p] != t[q] by {
        let p0 = if p < i { p } else { p + 1 };
        let q0 = if q < i { q } else { q + 1 };
        assert(t[p] == s[p0]);
        assert(t[q] == s[q0]);
    }
    assert(!t.contains(s[i])) by {
        if t.contains(s[i]) {
            let j = choose|j: int| 0 <= j < t.len() && t[j] == s[i];
            let j0 = if j < i { j } else { j + 1 };
            assert(t[j] == s[j0]);
        }
    }
    assert forall|x: Address| x != s[i] implies t.contains(x) == s.contains(x) by {
        if s.contains(x) {
            let j = choose|j: int| 0 <= j < s.len() && s[j] == x;
            if j < i {
                assert(t[j] == x);
            } else {
                assert(t[j - 1] == x);
            }
            assert(t.contains(x));
        }
        if t.contains(x) {
            let j = choose|j: int| 0 <= j < t.len() && t[j] == x;
            let j0 = if j < i { j } else { j + 1 };
            assert(s[j0] == x);
            assert(s.contains(x));
        }
    }
}

} // verus!
