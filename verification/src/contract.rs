//! The treasury: its initialization, the checks at the start of its
//! operations, and what it reports of itself.

use vstd::prelude::*;
use crate::address::Address;
use crate::allowlist::{spec_replace, Allowlist};
use crate::errors::BackstopManagerErrors;
use crate::roles::{authorize, authorize_owner, check_scope, spec_authorize, spec_authorize_owner};
use crate::roles::{spec_scope_is_valid, Caller, CallerView, Manager, ManagerView};
use crate::storage::{Storage, StorageView};
use crate::timelock::{check_unlock_time, spec_check_unlock_time};

verus! {

/// A treasury: the address it holds assets under, and the entries it keeps
/// once it has been initialized.
#[derive(Debug)]
pub struct BackstopManager {
    contract: Address,
    storage: Option<Storage>,
}

/// What a `BackstopManager` stands for.
pub struct BackstopManagerView {
    pub contract: Seq<char>,
    pub storage: Option<StorageView>,
}

impl View for BackstopManager {
    type V = BackstopManagerView;

    closed spec fn view(&self) -> BackstopManagerView {
        BackstopManagerView {
            contract: self.contract@,
            storage: match self.storage {
                Some(e) => Some(e@),
                None => None,
            },
        }
    }
}

/// What holds of the entries of every treasury: the scope of the manager is
/// a legal scope, and neither list of approved contracts holds an address
/// twice.
pub open spec fn spec_valid_storage(e: StorageView) -> bool {
    &&& spec_scope_is_valid(e.manager.scope)
    &&& e.backstops.no_duplicates()
    &&& e.pools.no_duplicates()
}

/// What holds of every treasury, initialized or not.
pub open spec fn spec_valid(m: BackstopManagerView) -> bool {
    m.storage matches Some(e) ==> spec_valid_storage(e)
}

/// The outcome of authorizing `from`, against the stored owner and manager,
/// for an operation that asks for `scope`.
pub open spec fn spec_require_auth_with_scope(
    e: StorageView,
    from: CallerView,
    scope: u32,
) -> Result<(), BackstopManagerErrors> {
    spec_authorize(e.owner, e.manager, from, scope)
}

/// The outcome of validating a backstop and a pool against the stored lists.
pub open spec fn spec_require_backstop_and_pool_valid(
    e: StorageView,
    backstop: Seq<char>,
    pool_address: Seq<char>,
) -> Result<(), BackstopManagerErrors> {
    if e.backstops.contains(backstop) && e.pools.contains(pool_address) {
        Ok(())
    } else {
        Err(BackstopManagerErrors::InvalidContractAddress)
    }
}

/// The outcome of validating a backstop against the stored list.
pub open spec fn spec_require_backstop_valid(
    e: StorageView,
    backstop: Seq<char>,
) -> Result<(), BackstopManagerErrors> {
    if e.backstops.contains(backstop) {
        Ok(())
    } else {
        Err(BackstopManagerErrors::InvalidContractAddress)
    }
}

/// What every operation open to a manager checks first: that the treasury is
/// initialized and that `from` may perform an operation that asks for
/// `scope`. Gives the entries to go on with.
pub open spec fn spec_enter(
    m: BackstopManagerView,
    from: CallerView,
    scope: u32,
) -> Result<StorageView, BackstopManagerErrors> {
    match m.storage {
        None => Err(BackstopManagerErrors::UninitializedError),
        Some(e) => match spec_require_auth_with_scope(e, from, scope) {
            Err(refusal) => Err(refusal),
            Ok(_) => Ok(e),
        },
    }
}

/// What every operation reserved to the owner checks first.
pub open spec fn spec_enter_as_owner(
    m: BackstopManagerView,
    from: CallerView,
) -> Result<StorageView, BackstopManagerErrors> {
    match m.storage {
        None => Err(BackstopManagerErrors::UninitializedError),
        Some(e) => match spec_authorize_owner(e.owner, from) {
            Err(refusal) => Err(refusal),
            Ok(_) => Ok(e),
        },
    }
}

/// What every operation on a backstop checks first: what every operation of
/// its scope checks, then that the backstop and the pool it names are
/// approved.
pub open spec fn spec_enter_backstop(
    m: BackstopManagerView,
    from: CallerView,
    scope: u32,
    backstop: Seq<char>,
    pool_address: Seq<char>,
) -> Result<StorageView, BackstopManagerErrors> {
    match spec_enter(m, from, scope) {
        Err(refusal) => Err(refusal),
        Ok(e) => match spec_require_backstop_and_pool_valid(e, backstop, pool_address) {
            Err(refusal) => Err(refusal),
            Ok(_) => Ok(e),
        },
    }
}

/// Authorize an action based on a provided scope for `from`. If `from` is
/// the owner, then the action is authorized. If `from` is the manager, then
/// the manager is validated to have the appropriate scope.
///
/// ### Errors
/// * UnauthenticatedError - The host did not find the call signed by `from`
/// * UnauthorizedError - The caller is not authorized to perform the action
pub fn require_auth_with_scope(
    e: &Storage,
    from: &Caller,
    scope: u32,
) -> (outcome: Result<(), BackstopManagerErrors>)
    ensures
        outcome == spec_require_auth_with_scope(e@, from@, scope),
{
    let owner = crate::storage::get_owner(e);
    let manager = crate::storage::get_manager(e);
    authorize(&owner, &manager, from, scope)
}

/// Validate that the backstop and pool address are included in the valid
/// lists
///
/// ### Errors
/// * InvalidContractAddress - The backstop or pool address is not included
///   in the valid lists
pub fn require_backstop_and_pool_valid(
    e: &Storage,
    backstop: &Address,
    pool_address: &Address,
) -> (outcome: Result<(), BackstopManagerErrors>)
    ensures
        outcome == spec_require_backstop_and_pool_valid(e@, backstop@, pool_address@),
{
    if !crate::storage::is_valid_backstop(e, backstop) || !crate::storage::is_valid_pool(
        e,
        pool_address,
    ) {
        Err(BackstopManagerErrors::InvalidContractAddress)
    } else {
        Ok(())
    }
}

/// Validate that the backstop address is included in the valid list
///
/// ### Errors
/// * InvalidContractAddress - The backstop address is not included in the
///   valid list
pub fn require_backstop_valid(
    e: &Storage,
    backstop: &Address,
) -> (outcome: Result<(), BackstopManagerErrors>)
    ensures
        outcome == spec_require_backstop_valid(e@, backstop@),
{
    if crate::storage::is_valid_backstop(e, backstop) {
        Ok(())
    } else {
        Err(BackstopManagerErrors::InvalidContractAddress)
    }
}

/// The treasury that initializing `m` gives, or the refusal.
pub open spec fn spec_initialize(
    m: BackstopManagerView,
    owner: Seq<char>,
    manager: Seq<char>,
    admin_scope: u32,
    emitter: Seq<char>,
    bootstrapper: Seq<char>,
    backstop_token: Seq<char>,
    backstops: Seq<Seq<char>>,
    pools: Seq<Seq<char>>,
    unlock: u64,
    now: u64,
) -> Result<BackstopManagerView, BackstopManagerErrors> {
    if m.storage is Some {
        Err(BackstopManagerErrors::AlreadyInitializedError)
    } else if !spec_scope_is_valid(admin_scope) {
        Err(BackstopManagerErrors::InvalidScope)
    } else if spec_replace(backstops) is Err || spec_replace(pools) is Err {
        Err(BackstopManagerErrors::ContractListOverMax)
    } else if spec_check_unlock_time(unlock, now) is Err {
        Err(BackstopManagerErrors::InvalidUnlockTime)
    } else {
        Ok(
            BackstopManagerView {
                contract: m.contract,
                storage: Some(
                    StorageView {
                        owner,
                        manager: ManagerView { id: manager, scope: admin_scope },
                        emitter,
                        bootstrapper,
                        backstop_token,
                        backstops: spec_replace(backstops)->Ok_0,
                        pools: spec_replace(pools)->Ok_0,
                        unlock,
                    },
                ),
            },
        )
    }
}

impl BackstopManager {
    #[verifier::type_invariant]
    spec fn manager_scope_is_valid(self) -> bool {
        self@.storage matches Some(e) ==> spec_scope_is_valid(e.manager.scope)
    }

    /// The treasury that holds assets under `contract`, not yet initialized.
    pub fn new(contract: Address) -> (m: BackstopManager)
        ensures
            m@ == (BackstopManagerView { contract: contract@, storage: None }),
    {
        BackstopManager { contract, storage: None }
    }

    /// Initialize the backstop manager
    ///
    /// Every argument is checked before anything is written: a refused
    /// initialization leaves the treasury uninitialized or as it was. A
    /// treasury whose manager is its owner is open to the owner alone.
    ///
    /// ### Arguments
    /// * `owner` - The address of the owner of the funds
    /// * `manager` - The address of the manager of the funds
    /// * `admin_scope` - The scope of the manager
    /// * `emitter` - The address of the emitter contract
    /// * `bootstrapper` - The address of the backstop bootstrapper contract
    /// * `backstop_token` - The address of the backstop token the manager
    ///   can interact with
    /// * `backstops` - The addresses of the backstops the manager can
    ///   interact with initially
    /// * `pools` - The addresses of the pools the manager can interact with
    ///   initially
    /// * `unlock` - The time from which the owner can have the assets
    ///   released
    /// * `now` - The current time
    ///
    /// ### Errors
    /// * AlreadyInitializedError - The contract has already been initialized
    /// * InvalidScope - `admin_scope` is not a legal scope
    /// * ContractListOverMax - `backstops` or `pools` is too long
    /// * InvalidUnlockTime - `unlock` is not after `now`
    pub fn initialize(
        &mut self,
        owner: Address,
        manager: Address,
        admin_scope: u32,
        emitter: Address,
        bootstrapper: Address,
        backstop_token: Address,
        backstops: &Vec<Address>,
        pools: &Vec<Address>,
        unlock: u64,
        now: u64,
    ) -> (outcome: Result<(), BackstopManagerErrors>)
        ensures
            match spec_initialize(
                old(self)@,
                owner@,
                manager@,
                admin_scope,
                emitter@,
                bootstrapper@,
                backstop_token@,
                backstops.deep_view(),
                pools.deep_view(),
                unlock,
                now,
            ) {
                Ok(next) => outcome == Ok::<(), BackstopManagerErrors>(()) && final(self)@ == next,
                Err(refusal) => outcome == Err::<(), BackstopManagerErrors>(refusal) && final(self)@
                    == old(self)@,
            },
    {
        if self.storage.is_some() {
            return Err(BackstopManagerErrors::AlreadyInitializedError);
        }
        check_scope(admin_scope)?;
        let mut valid_backstops = Allowlist::new();
        valid_backstops.replace(backstops)?;
        let mut valid_pools = Allowlist::new();
        valid_pools.replace(pools)?;
        check_unlock_time(unlock, now)?;
        let entries = Storage::new(
            owner,
            Manager { id: manager, scope: admin_scope },
            emitter,
            bootstrapper,
            backstop_token,
            valid_backstops,
            valid_pools,
            unlock,
        );
        self.storage = Some(entries);
        Ok(())
    }

    /// The treasury that holds assets under `contract` and keeps `entries`.
    ///
    /// ### Errors
    /// * InvalidScope - The scope of the manager in `entries` is not a legal
    ///   scope
    pub fn restore(
        contract: Address,
        entries: Option<Storage>,
    ) -> (restored: Result<BackstopManager, BackstopManagerErrors>)
        ensures
            match restored {
                Ok(m) => {
                    &&& m@.contract == contract@
                    &&& match entries {
                        Some(e) => m@.storage == Some(e@) && spec_scope_is_valid(e@.manager.scope),
                        None => m@.storage is None,
                    }
                },
                Err(refusal) => {
                    &&& refusal == BackstopManagerErrors::InvalidScope
                    &&& entries matches Some(e) && !spec_scope_is_valid(e@.manager.scope)
                },
            },
    {
        match entries {
            None => Ok(BackstopManager { contract, storage: None }),
            Some(e) => {
                check_scope(crate::storage::get_manager(&e).scope)?;
                Ok(BackstopManager { contract, storage: Some(e) })
            },
        }
    }

    /// The entries that the treasury keeps, if it is initialized.
    pub fn entries(&self) -> (entries: Option<&Storage>)
        ensures
            match entries {
                Some(e) => self@.storage == Some(e@) && spec_scope_is_valid(e@.manager.scope),
                None => self@.storage is None,
            },
    {
        proof {
            use_type_invariant(self);
        }
        self.storage.as_ref()
    }

    /// Keeps `entries` in place of the entries of the treasury.
    pub(crate) fn keep(&mut self, entries: Storage)
        requires
            spec_scope_is_valid(entries@.manager.scope),
        ensures
            final(self)@ == (BackstopManagerView {
                contract: old(self)@.contract,
                storage: Some(entries@),
            }),
    {
        self.storage = Some(entries);
    }

    /// The address that the treasury holds assets under.
    pub fn address(&self) -> (contract: Address)
        ensures
            contract@ == self@.contract,
    {
        self.contract.clone()
    }

    /// Checks that the treasury is initialized and that `from` may perform
    /// an operation that asks for `scope`: what every such operation checks
    /// before anything else.
    ///
    /// ### Errors
    /// * UninitializedError - The treasury has not been initialized
    /// * UnauthenticatedError - The host did not find the call signed by
    ///   `from`
    /// * UnauthorizedError - `from` is neither the owner nor a manager of
    ///   at least `scope`
    pub fn require_scope(
        &self,
        from: &Caller,
        scope: u32,
    ) -> (outcome: Result<(), BackstopManagerErrors>)
        ensures
            outcome == match spec_enter(self@, from@, scope) {
                Ok(_) => Ok::<(), BackstopManagerErrors>(()),
                Err(refusal) => Err(refusal),
            },
    {
        let _ = self.enter(from, scope)?;
        Ok(())
    }

    /// Checks that the treasury is initialized and that `from` is its
    /// owner: what every operation reserved to the owner checks before
    /// anything else.
    ///
    /// ### Errors
    /// * UninitializedError - The treasury has not been initialized
    /// * UnauthenticatedError - The host did not find the call signed by
    ///   `from`
    /// * UnauthorizedError - `from` is not the owner
    pub fn require_owner(&self, from: &Caller) -> (outcome: Result<(), BackstopManagerErrors>)
        ensures
            outcome == match spec_enter_as_owner(self@, from@) {
                Ok(_) => Ok::<(), BackstopManagerErrors>(()),
                Err(refusal) => Err(refusal),
            },
    {
        let _ = self.enter_as_owner(from)?;
        Ok(())
    }

    /// The entries of the treasury, if it is initialized and `from` may
    /// perform an operation that asks for `scope`.
    pub(crate) fn enter(
        &self,
        from: &Caller,
        scope: u32,
    ) -> (entries: Result<&Storage, BackstopManagerErrors>)
        ensures
            match entries {
                Ok(e) => spec_enter(self@, from@, scope) == Ok::<
                    StorageView,
                    BackstopManagerErrors,
                >(e@) && spec_scope_is_valid(e@.manager.scope),
                Err(refusal) => spec_enter(self@, from@, scope) == Err::<
                    StorageView,
                    BackstopManagerErrors,
                >(refusal),
            },
    {
        proof {
            use_type_invariant(self);
        }
        match &self.storage {
            None => Err(BackstopManagerErrors::UninitializedError),
            Some(e) => {
                require_auth_with_scope(e, from, scope)?;
                Ok(e)
            },
        }
    }

    /// The entries of the treasury, if it is initialized and `from` may
    /// perform an operation reserved to the owner.
    pub(crate) fn enter_as_owner(
        &self,
        from: &Caller,
    ) -> (entries: Result<&Storage, BackstopManagerErrors>)
        ensures
            match entries {
                Ok(e) => spec_enter_as_owner(self@, from@) == Ok::<StorageView, BackstopManagerErrors>(
                    e@,
                ) && spec_scope_is_valid(e@.manager.scope),
                Err(refusal) => spec_enter_as_owner(self@, from@) == Err::<
                    StorageView,
                    BackstopManagerErrors,
                >(refusal),
            },
    {
        proof {
            use_type_invariant(self);
        }
        match &self.storage {
            None => Err(BackstopManagerErrors::UninitializedError),
            Some(e) => {
                let owner = crate::storage::get_owner(e);
                authorize_owner(&owner, from)?;
                Ok(e)
            },
        }
    }

    /// The entries of the treasury, if it is initialized, `from` may perform
    /// an operation that asks for `scope`, and `backstop` and `pool_address`
    /// are approved.
    pub(crate) fn enter_backstop(
        &self,
        from: &Caller,
        scope: u32,
        backstop: &Address,
        pool_address: &Address,
    ) -> (entries: Result<&Storage, BackstopManagerErrors>)
        ensures
            match entries {
                Ok(e) => spec_enter_backstop(self@, from@, scope, backstop@, pool_address@) == Ok::<
                    StorageView,
                    BackstopManagerErrors,
                >(e@) && spec_scope_is_valid(e@.manager.scope),
                Err(refusal) => spec_enter_backstop(self@, from@, scope, backstop@, pool_address@)
                    == Err::<StorageView, BackstopManagerErrors>(refusal),
            },
    {
        let e = self.enter(from, scope)?;
        require_backstop_and_pool_valid(e, backstop, pool_address)?;
        Ok(e)
    }

    /// Get owner
    pub fn owner(&self) -> (owner: Result<Address, BackstopManagerErrors>)
        ensures
            match owner {
                Ok(address) => self@.storage matches Some(e) && address@ == e.owner,
                Err(refusal) => self@.storage is None && refusal
                    == BackstopManagerErrors::UninitializedError,
            },
    {
        match &self.storage {
            Some(e) => Ok(crate::storage::get_owner(e)),
            None => Err(BackstopManagerErrors::UninitializedError),
        }
    }

    /// Get manager
    pub fn manager(&self) -> (manager: Result<Manager, BackstopManagerErrors>)
        ensures
            match manager {
                Ok(record) => self@.storage matches Some(e) && record@ == e.manager
                    && spec_scope_is_valid(record.scope),
                Err(refusal) => self@.storage is None && refusal
                    == BackstopManagerErrors::UninitializedError,
            },
    {
        proof {
            use_type_invariant(self);
        }
        match &self.storage {
            Some(e) => Ok(crate::storage::get_manager(e)),
            None => Err(BackstopManagerErrors::UninitializedError),
        }
    }

    /// Get the emitter contract
    pub fn emitter(&self) -> (emitter: Result<Address, BackstopManagerErrors>)
        ensures
            match emitter {
                Ok(address) => self@.storage matches Some(e) && address@ == e.emitter,
                Err(refusal) => self@.storage is None && refusal
                    == BackstopManagerErrors::UninitializedError,
            },
    {
        match &self.storage {
            Some(e) => Ok(crate::storage::get_emitter(e)),
            None => Err(BackstopManagerErrors::UninitializedError),
        }
    }

    /// Get the backstop bootstrapper contract
    pub fn backstop_bootstrapper(&self) -> (bootstrapper: Result<Address, BackstopManagerErrors>)
        ensures
            match bootstrapper {
                Ok(address) => self@.storage matches Some(e) && address@ == e.bootstrapper,
                Err(refusal) => self@.storage is None && refusal
                    == BackstopManagerErrors::UninitializedError,
            },
    {
        match &self.storage {
            Some(e) => Ok(crate::storage::get_backstop_bootstrapper(e)),
            None => Err(BackstopManagerErrors::UninitializedError),
        }
    }

    /// Get the backstop token, whose liquidity pool the contract trades in
    pub fn backstop_token(&self) -> (backstop_token: Result<Address, BackstopManagerErrors>)
        ensures
            match backstop_token {
                Ok(address) => self@.storage matches Some(e) && address@ == e.backstop_token,
                Err(refusal) => self@.storage is None && refusal
                    == BackstopManagerErrors::UninitializedError,
            },
    {
        match &self.storage {
            Some(e) => Ok(crate::storage::get_backstop_token(e)),
            None => Err(BackstopManagerErrors::UninitializedError),
        }
    }

    /// Get the backstops this contract can interact with
    pub fn backstops(&self) -> (backstops: Result<Vec<Address>, BackstopManagerErrors>)
        ensures
            match backstops {
                Ok(list) => self@.storage matches Some(e) && list.deep_view() == e.backstops
                    && e.backstops.no_duplicates(),
                Err(refusal) => self@.storage is None && refusal
                    == BackstopManagerErrors::UninitializedError,
            },
    {
        match &self.storage {
            Some(e) => Ok(crate::storage::get_valid_backstops(e)),
            None => Err(BackstopManagerErrors::UninitializedError),
        }
    }

    /// Get the pools this contract can interact with
    pub fn pools(&self) -> (pools: Result<Vec<Address>, BackstopManagerErrors>)
        ensures
            match pools {
                Ok(list) => self@.storage matches Some(e) && list.deep_view() == e.pools
                    && e.pools.no_duplicates(),
                Err(refusal) => self@.storage is None && refusal
                    == BackstopManagerErrors::UninitializedError,
            },
    {
        match &self.storage {
            Some(e) => Ok(crate::storage::get_valid_pools(e)),
            None => Err(BackstopManagerErrors::UninitializedError),
        }
    }

    /// Get the time from which the owner can have the assets released
    pub fn unlock(&self) -> (unlock: Result<u64, BackstopManagerErrors>)
        ensures
            match unlock {
                Ok(time) => self@.storage matches Some(e) && time == e.unlock,
                Err(refusal) => self@.storage is None && refusal
                    == BackstopManagerErrors::UninitializedError,
            },
    {
        match &self.storage {
            Some(e) => Ok(crate::storage::get_unlock(e)),
            None => Err(BackstopManagerErrors::UninitializedError),
        }
    }
}

} // verus!
