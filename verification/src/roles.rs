//! Who may do what: the owner, who may do everything, and the manager, who
//! may do what its scope reaches.

use vstd::prelude::*;
use crate::address::Address;
use crate::errors::BackstopManagerErrors;

verus! {

/// Scope that lets a manager claim emissions and proceeds and send tokens
/// back to the owner.
pub const SCOPE_LOW: u32 = 0;

/// Scope that also lets a manager deposit into a backstop and queue or
/// dequeue withdrawals.
pub const SCOPE_MEDIUM: u32 = 1;

/// Scope that also lets a manager withdraw, trade liquidity and start a
/// bootstrap.
pub const SCOPE_HIGH: u32 = 2;

/// The largest scope a manager can hold.
pub const MAX_SCOPE: u32 = 2;

/// The secondary principal: an identity and the scope it acts under.
#[derive(Debug, PartialEq, Eq)]
pub struct Manager {
    /// The address of the manager
    pub id: Address,
    /// The scope of the manager, from `SCOPE_LOW` to `SCOPE_HIGH`
    pub scope: u32,
}

/// What a `Manager` stands for.
pub struct ManagerView {
    pub id: Seq<char>,
    pub scope: u32,
}

impl View for Manager {
    type V = ManagerView;

    open spec fn view(&self) -> ManagerView {
        ManagerView { id: self.id@, scope: self.scope }
    }
}

impl Clone for Manager {
    fn clone(&self) -> (copy: Manager)
        ensures
            copy@ == self@,
    {
        Manager { id: self.id.clone(), scope: self.scope }
    }
}

/// The identity a call is made under, and whether the host found the call
/// signed by that identity.
#[derive(Debug, PartialEq, Eq)]
pub struct Caller {
    pub id: Address,
    pub authenticated: bool,
}

/// What a `Caller` stands for.
pub struct CallerView {
    pub id: Seq<char>,
    pub authenticated: bool,
}

impl View for Caller {
    type V = CallerView;

    open spec fn view(&self) -> CallerView {
        CallerView { id: self.id@, authenticated: self.authenticated }
    }
}

impl Caller {
    /// A caller whose signature the host has verified.
    pub fn signed(id: Address) -> (caller: Caller)
        ensures
            caller@ == (CallerView { id: id@, authenticated: true }),
    {
        Caller { id, authenticated: true }
    }

    /// A caller who only claims an identity.
    pub fn unsigned(id: Address) -> (caller: Caller)
        ensures
            caller@ == (CallerView { id: id@, authenticated: false }),
    {
        Caller { id, authenticated: false }
    }
}

/// Whether `scope` is a scope a manager can hold.
pub open spec fn spec_scope_is_valid(scope: u32) -> bool {
    scope <= MAX_SCOPE
}

/// Whether the identity `from` may perform an operation that asks for
/// `scope`: the owner always may, the manager if its scope reaches `scope`.
pub open spec fn spec_has_scope(
    owner: Seq<char>,
    manager: ManagerView,
    from: Seq<char>,
    scope: u32,
) -> bool {
    from == owner || (from == manager.id && manager.scope >= scope)
}

/// The outcome of authorizing `from` for an operation that asks for `scope`.
pub open spec fn spec_authorize(
    owner: Seq<char>,
    manager: ManagerView,
    from: CallerView,
    scope: u32,
) -> Result<(), BackstopManagerErrors> {
    if !from.authenticated {
        Err(BackstopManagerErrors::UnauthenticatedError)
    } else if spec_has_scope(owner, manager, from.id, scope) {
        Ok(())
    } else {
        Err(BackstopManagerErrors::UnauthorizedError)
    }
}

/// The outcome of authorizing `from` for an operation reserved to the owner.
pub open spec fn spec_authorize_owner(
    owner: Seq<char>,
    from: CallerView,
) -> Result<(), BackstopManagerErrors> {
    if !from.authenticated {
        Err(BackstopManagerErrors::UnauthenticatedError)
    } else if from.id == owner {
        Ok(())
    } else {
        Err(BackstopManagerErrors::UnauthorizedError)
    }
}

/// Checks that `scope` is a scope a manager can hold.
pub fn check_scope(scope: u32) -> (checked: Result<(), BackstopManagerErrors>)
    ensures
        checked == if spec_scope_is_valid(scope) {
            Ok::<(), BackstopManagerErrors>(())
        } else {
            Err(BackstopManagerErrors::InvalidScope)
        },
{
    if scope > MAX_SCOPE {
        Err(BackstopManagerErrors::InvalidScope)
    } else {
        Ok(())
    }
}

/// Authorizes `from` for an operation that asks for `scope`.
///
/// A caller the host has not authenticated is refused first; an
/// authenticated owner is let through whatever the scope; anyone else must be
/// the manager and hold at least `scope`.
pub fn authorize(
    owner: &Address,
    manager: &Manager,
    from: &Caller,
    scope: u32,
) -> (outcome: Result<(), BackstopManagerErrors>)
    ensures
        outcome == spec_authorize(owner@, manager@, from@, scope),
{
    if !from.authenticated {
        return Err(BackstopManagerErrors::UnauthenticatedError);
    }
    if from.id == *owner {
        return Ok(());
    }
    if manager.id != from.id || manager.scope < scope {
        return Err(BackstopManagerErrors::UnauthorizedError);
    }
    Ok(())
}

/// Authorizes `from` for an operation reserved to the owner.
pub fn authorize_owner(
    owner: &Address,
    from: &Caller,
) -> (outcome: Result<(), BackstopManagerErrors>)
    ensures
        outcome == spec_authorize_owner(owner@, from@),
{
    if !from.authenticated {
        return Err(BackstopManagerErrors::UnauthenticatedError);
    }
    if from.id == *owner {
        Ok(())
    } else {
        Err(BackstopManagerErrors::UnauthorizedError)
    }
}

/// Scopes are cumulative: whoever may perform an operation that asks for a
/// scope may perform every operation that asks for a lower one.
pub proof fn lemma_scope_is_cumulative(
    owner: Seq<char>,
    manager: ManagerView,
    from: CallerView,
    lower: u32,
    higher: u32,
)
    requires
        lower <= higher,
        spec_authorize(owner, manager, from, higher) is Ok,
    ensures
        spec_authorize(owner, manager, from, lower) is Ok,
{
}

/// An authenticated manager may perform exactly the operations that ask for
/// no more than its scope, unless it is also the owner.
pub proof fn lemma_manager_reaches_its_scope(owner: Seq<char>, manager: ManagerView, required: u32)
    requires
        manager.id != owner,
    ensures
        spec_authorize(
            owner,
            manager,
            CallerView { id: manager.id, authenticated: true },
            required,
        ) == if required <= manager.scope {
            Ok::<(), BackstopManagerErrors>(())
        } else {
            Err(BackstopManagerErrors::UnauthorizedError)
        },
{
}

/// An authenticated owner may perform every operation, whatever scope it
/// asks for and whatever manager is configured.
pub proof fn lemma_owner_is_always_authorized(owner: Seq<char>, manager: ManagerView, scope: u32)
    ensures
        spec_authorize(owner, manager, CallerView { id: owner, authenticated: true }, scope) is Ok,
        spec_authorize_owner(owner, CallerView { id: owner, authenticated: true }) is Ok,
{
}

/// An operation reserved to the owner is refused to everyone else, a
/// manager of the highest scope included.
pub proof fn lemma_owner_only_excludes_manager(owner: Seq<char>, from: CallerView)
    requires
        from.id != owner,
    ensures
        spec_authorize_owner(owner, from) is Err,
{
}

} // verus!
