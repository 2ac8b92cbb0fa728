//! The operations by which the owner administers the treasury.

use vstd::prelude::*;
use crate::address::Address;
use crate::allowlist::{spec_append_if_absent, spec_replace, Allowlist};
use crate::contract::{spec_enter_as_owner, BackstopManager, BackstopManagerView};
use crate::errors::BackstopManagerErrors;
use crate::roles::{check_scope, spec_scope_is_valid, Caller, CallerView, Manager, ManagerView};
use crate::storage::StorageView;

verus! {

/// The treasury after the owner sets the manager, or the refusal.
pub open spec fn spec_set_manager(
    m: BackstopManagerView,
    from: CallerView,
    manager: Seq<char>,
    scope: u32,
) -> Result<BackstopManagerView, BackstopManagerErrors> {
    match spec_enter_as_owner(m, from) {
        Err(refusal) => Err(refusal),
        Ok(e) => if !spec_scope_is_valid(scope) {
            Err(BackstopManagerErrors::InvalidScope)
        } else {
            Ok(
                BackstopManagerView {
                    storage: Some(StorageView { manager: ManagerView { id: manager, scope }, ..e }),
                    ..m
                },
            )
        },
    }
}

/// The treasury after the owner sets the backstop bootstrapper, or the
/// refusal.
pub open spec fn spec_set_backstop_bootstrapper(
    m: BackstopManagerView,
    from: CallerView,
    bootstrapper: Seq<char>,
) -> Result<BackstopManagerView, BackstopManagerErrors> {
    match spec_enter_as_owner(m, from) {
        Err(refusal) => Err(refusal),
        Ok(e) => Ok(BackstopManagerView { storage: Some(StorageView { bootstrapper, ..e }), ..m }),
    }
}

/// The treasury after the owner sets the list of valid backstops, or the
/// refusal.
pub open spec fn spec_set_backstops(
    m: BackstopManagerView,
    from: CallerView,
    backstops: Seq<Seq<char>>,
) -> Result<BackstopManagerView, BackstopManagerErrors> {
    match spec_enter_as_owner(m, from) {
        Err(refusal) => Err(refusal),
        Ok(e) => match spec_replace(backstops) {
            Err(refusal) => Err(refusal),
            Ok(list) => Ok(
                BackstopManagerView { storage: Some(StorageView { backstops: list, ..e }), ..m },
            ),
        },
    }
}

/// The treasury after the owner sets the list of valid pools, or the
/// refusal.
pub open spec fn spec_set_pools(
    m: BackstopManagerView,
    from: CallerView,
    pools: Seq<Seq<char>>,
) -> Result<BackstopManagerView, BackstopManagerErrors> {
    match spec_enter_as_owner(m, from) {
        Err(refusal) => Err(refusal),
        Ok(e) => match spec_replace(pools) {
            Err(refusal) => Err(refusal),
            Ok(list) => Ok(
                BackstopManagerView { storage: Some(StorageView { pools: list, ..e }), ..m },
            ),
        },
    }
}

/// The treasury after the owner has the backstop of the emitter put on the
/// list of valid backstops, or the refusal.
pub open spec fn spec_update_backstop(
    m: BackstopManagerView,
    from: CallerView,
    backstop: Seq<char>,
) -> Result<BackstopManagerView, BackstopManagerErrors> {
    match spec_enter_as_owner(m, from) {
        Err(refusal) => Err(refusal),
        Ok(e) => Ok(
            BackstopManagerView {
                storage: Some(
                    StorageView {
                        backstops: spec_append_if_absent(e.backstops, backstop),
                        ..e
                    },
                ),
                ..m
            },
        ),
    }
}

impl BackstopManager {
    /// (Only Owner) Set the manager for the contract
    ///
    /// A refused call leaves the manager, id and scope, as it was.
    ///
    /// ### Arguments
    /// * `from` - The caller of the function
    /// * `manager` - The address of the manager
    /// * `scope` - The scope of the manager, from `SCOPE_LOW` to `SCOPE_HIGH`
    ///
    /// ### Errors
    /// * InvalidScope - `scope` is not a legal scope
    /// * Whatever `require_owner` refuses with
    pub fn set_manager(
        &mut self,
        from: &Caller,
        manager: Address,
        scope: u32,
    ) -> (outcome: Result<(), BackstopManagerErrors>)
        ensures
            match spec_set_manager(old(self)@, from@, manager@, scope) {
                Ok(next) => outcome == Ok::<(), BackstopManagerErrors>(()) && final(self)@ == next,
                Err(refusal) => outcome == Err::<(), BackstopManagerErrors>(refusal) && final(self)@
                    == old(self)@,
            },
    {
        let mut entries = self.enter_as_owner(from)?.clone();
        check_scope(scope)?;
        crate::storage::set_manager(&mut entries, &Manager { id: manager, scope });
        self.keep(entries);
        Ok(())
    }

    /// (Only Owner) Set the backstop bootstrapper contract
    ///
    /// ### Arguments
    /// * `from` - The caller of the function
    /// * `bootstrapper` - The address of the backstop bootstrapper contract
    ///
    /// ### Errors
    /// * Whatever `require_owner` refuses with
    pub fn set_backstop_bootstrapper(
        &mut self,
        from: &Caller,
        bootstrapper: Address,
    ) -> (outcome: Result<(), BackstopManagerErrors>)
        ensures
            match spec_set_backstop_bootstrapper(old(self)@, from@, bootstrapper@) {
                Ok(next) => outcome == Ok::<(), BackstopManagerErrors>(()) && final(self)@ == next,
                Err(refusal) => outcome == Err::<(), BackstopManagerErrors>(refusal) && final(self)@
                    == old(self)@,
            },
    {
        let mut entries = self.enter_as_owner(from)?.clone();
        crate::storage::set_backstop_bootstrapper(&mut entries, bootstrapper);
        self.keep(entries);
        Ok(())
    }

    /// (Only Owner) Set the list of valid backstops
    ///
    /// The list is overwritten, not merged. A refused call leaves it as it
    /// was.
    ///
    /// ### Arguments
    /// * `from` - The caller of the function
    /// * `backstops` - The addresses of the backstops the manager can
    ///   interact with
    ///
    /// ### Errors
    /// * ContractListOverMax - `backstops` is too long
    /// * Whatever `require_owner` refuses with
    pub fn set_backstops(
        &mut self,
        from: &Caller,
        backstops: &Vec<Address>,
    ) -> (outcome: Result<(), BackstopManagerErrors>)
        ensures
            match spec_set_backstops(old(self)@, from@, backstops.deep_view()) {
                Ok(next) => outcome == Ok::<(), BackstopManagerErrors>(()) && final(self)@ == next,
                Err(refusal) => outcome == Err::<(), BackstopManagerErrors>(refusal) && final(self)@
                    == old(self)@,
            },
    {
        let mut entries = self.enter_as_owner(from)?.clone();
        let mut valid_backstops = Allowlist::new();
        valid_backstops.replace(backstops)?;
        crate::storage::set_valid_backstops(&mut entries, valid_backstops);
        self.keep(entries);
        Ok(())
    }

    /// (Only Owner) Set the list of valid pools
    ///
    /// The list is overwritten, not merged. A refused call leaves it as it
    /// was.
    ///
    /// ### Arguments
    /// * `from` - The caller of the function
    /// * `pools` - The addresses of the pools the manager can interact with
    ///
    /// ### Errors
    /// * ContractListOverMax - `pools` is too long
    /// * Whatever `require_owner` refuses with
    pub fn set_pools(
        &mut self,
        from: &Caller,
        pools: &Vec<Address>,
    ) -> (outcome: Result<(), BackstopManagerErrors>)
        ensures
            match spec_set_pools(old(self)@, from@, pools.deep_view()) {
                Ok(next) => outcome == Ok::<(), BackstopManagerErrors>(()) && final(self)@ == next,
                Err(refusal) => outcome == Err::<(), BackstopManagerErrors>(refusal) && final(self)@
                    == old(self)@,
            },
    {
        let mut entries = self.enter_as_owner(from)?.clone();
        let mut valid_pools = Allowlist::new();
        valid_pools.replace(pools)?;
        crate::storage::set_valid_pools(&mut entries, valid_pools);
        self.keep(entries);
        Ok(())
    }

    /// (Only Owner) Put the backstop that the emitter reports on the list of
    /// valid backstops, unless it is on it. The length of the list is not
    /// bounded on this path.
    ///
    /// ### Arguments
    /// * `from` - The caller of the function
    /// * `backstop` - The backstop of the emitter, as the host read it
    ///
    /// ### Errors
    /// * Whatever `require_owner` refuses with
    pub fn update_backstop(
        &mut self,
        from: &Caller,
        backstop: &Address,
    ) -> (outcome: Result<(), BackstopManagerErrors>)
        ensures
            match spec_update_backstop(old(self)@, from@, backstop@) {
                Ok(next) => outcome == Ok::<(), BackstopManagerErrors>(()) && final(self)@ == next,
                Err(refusal) => outcome == Err::<(), BackstopManagerErrors>(refusal) && final(self)@
                    == old(self)@,
            },
    {
        let mut entries = self.enter_as_owner(from)?.clone();
        crate::storage::add_valid_backstop(&mut entries, backstop);
        self.keep(entries);
        Ok(())
    }
}

} // verus!
