//! The entries that an initialized treasury keeps between calls.

use vstd::prelude::*;
use crate::address::Address;
use crate::allowlist::Allowlist;
pub use crate::roles::Manager;
use crate::roles::ManagerView;

verus! {

/// The number of ledgers in a day, at five seconds a ledger.
pub const ONE_DAY_LEDGERS: u32 = 17280;

/// The lifetime, in ledgers, that the host gives the stored entries when it
/// extends them.
pub const LEDGER_BUMP: u32 = 120 * ONE_DAY_LEDGERS;

/// The remaining lifetime, in ledgers, under which the host extends the
/// stored entries.
pub const LEDGER_THRESHOLD: u32 = LEDGER_BUMP - 20 * ONE_DAY_LEDGERS;

/// The entries that an initialized treasury keeps between calls.
#[derive(Debug)]
pub struct Storage {
    owner: Address,
    manager: Manager,
    emitter: Address,
    bootstrapper: Address,
    backstop_token: Address,
    backstops: Allowlist,
    pools: Allowlist,
    unlock: u64,
}

/// What a `Storage` stands for.
pub struct StorageView {
    pub owner: Seq<char>,
    pub manager: ManagerView,
    pub emitter: Seq<char>,
    pub bootstrapper: Seq<char>,
    pub backstop_token: Seq<char>,
    pub backstops: Seq<Seq<char>>,
    pub pools: Seq<Seq<char>>,
    pub unlock: u64,
}

impl View for Storage {
    type V = StorageView;

    closed spec fn view(&self) -> StorageView {
        StorageView {
            owner: self.owner@,
            manager: self.manager@,
            emitter: self.emitter@,
            bootstrapper: self.bootstrapper@,
            backstop_token: self.backstop_token@,
            backstops: self.backstops@,
            pools: self.pools@,
            unlock: self.unlock,
        }
    }
}

impl Storage {
    /// The entries of a treasury, all of them set.
    pub fn new(
        owner: Address,
        manager: Manager,
        emitter: Address,
        bootstrapper: Address,
        backstop_token: Address,
        backstops: Allowlist,
        pools: Allowlist,
        unlock: u64,
    ) -> (e: Storage)
        ensures
            e@ == (StorageView {
                owner: owner@,
                manager: manager@,
                emitter: emitter@,
                bootstrapper: bootstrapper@,
                backstop_token: backstop_token@,
                backstops: backstops@,
                pools: pools@,
                unlock,
            }),
    {
        Storage { owner, manager, emitter, bootstrapper, backstop_token, backstops, pools, unlock }
    }
}

impl Clone for Storage {
    fn clone(&self) -> (copy: Storage)
        ensures
            copy@ == self@,
    {
        Storage {
            owner: self.owner.clone(),
            manager: self.manager.clone(),
            emitter: self.emitter.clone(),
            bootstrapper: self.bootstrapper.clone(),
            backstop_token: self.backstop_token.clone(),
            backstops: self.backstops.clone(),
            pools: self.pools.clone(),
            unlock: self.unlock,
        }
    }
}

/// Get the owner address
pub fn get_owner(e: &Storage) -> (owner: Address)
    ensures
        owner@ == e@.owner,
{
    e.owner.clone()
}

/// Set the owner address
pub fn set_owner(e: &mut Storage, owner: &Address)
    ensures
        final(e)@ == (StorageView { owner: owner@, ..old(e)@ }),
{
    e.owner = owner.clone();
}

/// Get the manager for the contract
pub fn get_manager(e: &Storage) -> (manager: Manager)
    ensures
        manager@ == e@.manager,
{
    e.manager.clone()
}

/// Set the manager for the contract
pub fn set_manager(e: &mut Storage, manager: &Manager)
    ensures
        final(e)@ == (StorageView { manager: manager@, ..old(e)@ }),
{
    e.manager = manager.clone();
}

/// Get the emitter address
pub fn get_emitter(e: &Storage) -> (emitter: Address)
    ensures
        emitter@ == e@.emitter,
{
    e.emitter.clone()
}

/// Set the emitter address
pub fn set_emitter(e: &mut Storage, emitter: &Address)
    ensures
        final(e)@ == (StorageView { emitter: emitter@, ..old(e)@ }),
{
    e.emitter = emitter.clone();
}

/// Get the backstop bootstrapper address
pub fn get_backstop_bootstrapper(e: &Storage) -> (bootstrapper: Address)
    ensures
        bootstrapper@ == e@.bootstrapper,
{
    e.bootstrapper.clone()
}

/// Set the backstop bootstrapper address
pub fn set_backstop_bootstrapper(e: &mut Storage, bootstrapper: Address)
    ensures
        final(e)@ == (StorageView { bootstrapper: bootstrapper@, ..old(e)@ }),
{
    e.bootstrapper = bootstrapper;
}

/// Get the backstop token
pub fn get_backstop_token(e: &Storage) -> (backstop_token: Address)
    ensures
        backstop_token@ == e@.backstop_token,
{
    e.backstop_token.clone()
}

/// Set the backstop token
pub fn set_backstop_token(e: &mut Storage, backstop_token: Address)
    ensures
        final(e)@ == (StorageView { backstop_token: backstop_token@, ..old(e)@ }),
{
    e.backstop_token = backstop_token;
}

/// Get an array of all valid backstops the vault can interact with
pub fn get_valid_backstops(e: &Storage) -> (backstops: Vec<Address>)
    ensures
        backstops.deep_view() == e@.backstops,
        e@.backstops.no_duplicates(),
{
    e.backstops.to_vec()
}

/// Set the valid backstop addresses
pub fn set_valid_backstops(e: &mut Storage, backstops: Allowlist)
    ensures
        final(e)@ == (StorageView { backstops: backstops@, ..old(e)@ }),
{
    e.backstops = backstops;
}

/// Get an array of all valid pools the vault can interact with
pub fn get_valid_pools(e: &Storage) -> (pools: Vec<Address>)
    ensures
        pools.deep_view() == e@.pools,
        e@.pools.no_duplicates(),
{
    e.pools.to_vec()
}

/// Set the valid pool addresses
pub fn set_valid_pools(e: &mut Storage, pools: Allowlist)
    ensures
        final(e)@ == (StorageView { pools: pools@, ..old(e)@ }),
{
    e.pools = pools;
}

/// Get the time from which the owner can have the assets released
pub fn get_unlock(e: &Storage) -> (unlock: u64)
    ensures
        unlock == e@.unlock,
{
    e.unlock
}

/// Whether `backstop` is on the list of valid backstops
pub fn is_valid_backstop(e: &Storage, backstop: &Address) -> (valid: bool)
    ensures
        valid == e@.backstops.contains(backstop@),
{
    e.backstops.validate(backstop)
}

/// Whether `pool` is on the list of valid pools
pub fn is_valid_pool(e: &Storage, pool: &Address) -> (valid: bool)
    ensures
        valid == e@.pools.contains(pool@),
{
    e.pools.validate(pool)
}

/// Put `backstop` on the list of valid backstops unless it is on it
pub fn add_valid_backstop(e: &mut Storage, backstop: &Address)
    ensures
        final(e)@ == (StorageView {
            backstops: crate::allowlist::spec_append_if_absent(old(e)@.backstops, backstop@),
            ..old(e)@
        }),
{
    let mut backstops = e.backstops.clone();
    backstops.append_if_absent(backstop);
    e.backstops = backstops;
}

} // verus!
