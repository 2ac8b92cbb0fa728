//! The operations that move tokens out of the treasury on the word of the
//! owner or back to the owner.

use vstd::prelude::*;
use crate::address::Address;
use crate::contract::{spec_enter, spec_enter_as_owner, BackstopManager, BackstopManagerView};
use crate::errors::BackstopManagerErrors;
use crate::plan::{spec_direct, spec_plan_outcome, Action, ActionView, Holding, HoldingView};
use crate::plan::{Plan, PlanView};
use crate::roles::{Caller, CallerView, SCOPE_LOW};
use crate::timelock::{assert_unlocked, spec_assert_unlocked};

verus! {

/// What the owner sending tokens of the treasury to `to` decides.
pub open spec fn spec_transfer_token(
    m: BackstopManagerView,
    from: CallerView,
    token: Seq<char>,
    to: Seq<char>,
    amount: i128,
) -> Result<PlanView, BackstopManagerErrors> {
    match spec_enter_as_owner(m, from) {
        Err(refusal) => Err(refusal),
        Ok(_) => Ok(spec_direct(ActionView::Transfer { token, from: m.contract, to, amount })),
    }
}

/// What sending tokens of the treasury back to the owner decides.
pub open spec fn spec_refund_token(
    m: BackstopManagerView,
    from: CallerView,
    token: Seq<char>,
    amount: i128,
) -> Result<PlanView, BackstopManagerErrors> {
    match spec_enter(m, from, SCOPE_LOW) {
        Err(refusal) => Err(refusal),
        Ok(e) => Ok(
            spec_direct(ActionView::Transfer { token, from: m.contract, to: e.owner, amount }),
        ),
    }
}

/// The transfers that release `holdings` from `contract` to `owner`: each
/// holding whole, in order.
pub open spec fn spec_release(
    holdings: Seq<HoldingView>,
    contract: Seq<char>,
    owner: Seq<char>,
) -> Seq<ActionView> {
    Seq::new(
        holdings.len(),
        |i: int|
            ActionView::Transfer {
                token: holdings[i].token,
                from: contract,
                to: owner,
                amount: holdings[i].balance,
            },
    )
}

/// What releasing the holdings of the treasury to the owner decides.
pub open spec fn spec_claim_all(
    m: BackstopManagerView,
    from: CallerView,
    now: u64,
    holdings: Seq<HoldingView>,
) -> Result<Seq<ActionView>, BackstopManagerErrors> {
    match spec_enter_as_owner(m, from) {
        Err(refusal) => Err(refusal),
        Ok(e) => match spec_assert_unlocked(e.unlock, now) {
            Err(refusal) => Err(refusal),
            Ok(_) => Ok(spec_release(holdings, m.contract, e.owner)),
        },
    }
}

impl BackstopManager {
    /// (Only Owner) Transfer tokens from the manager contract to another
    /// address
    ///
    /// ### Arguments
    /// * `from` - The caller of the function
    /// * `token` - The address of the token to transfer
    /// * `to` - The address to transfer the tokens to
    /// * `amount` - The amount of tokens to transfer
    ///
    /// ### Errors
    /// * Whatever `require_owner` refuses with
    pub fn transfer_token(
        &self,
        from: &Caller,
        token: &Address,
        to: &Address,
        amount: i128,
    ) -> (outcome: Result<Plan, BackstopManagerErrors>)
        ensures
            spec_plan_outcome(outcome) == spec_transfer_token(self@, from@, token@, to@, amount),
    {
        let _ = self.enter_as_owner(from)?;
        Ok(
            Plan::direct(
                Action::Transfer {
                    token: token.clone(),
                    from: self.address(),
                    to: to.clone(),
                    amount,
                },
            ),
        )
    }

    /// (Manager, Low) Transfer tokens from the contract back to the owner
    ///
    /// ### Arguments
    /// * `from` - The caller of the function
    /// * `token` - The address of the token to transfer
    /// * `amount` - The amount of tokens to transfer
    ///
    /// ### Errors
    /// * Whatever `require_scope` refuses with
    pub fn refund_token(
        &self,
        from: &Caller,
        token: &Address,
        amount: i128,
    ) -> (outcome: Result<Plan, BackstopManagerErrors>)
        ensures
            spec_plan_outcome(outcome) == spec_refund_token(self@, from@, token@, amount),
    {
        let e = self.enter(from, SCOPE_LOW)?;
        Ok(
            Plan::direct(
                Action::Transfer {
                    token: token.clone(),
                    from: self.address(),
                    to: crate::storage::get_owner(e),
                    amount,
                },
            ),
        )
    }

    /// (Only Owner) Release what the treasury holds to the owner, once the
    /// unlock time has come.
    ///
    /// Each holding is transferred whole, in the order given.
    ///
    /// ### Arguments
    /// * `from` - The caller of the function
    /// * `now` - The current time
    /// * `holdings` - The tokens to release with the balance that the
    ///   treasury holds of each, as the host read them
    ///
    /// ### Errors
    /// * InvalidUnlockTime - `now` is before the unlock time
    /// * Whatever `require_owner` refuses with
    pub fn claim_all(
        &self,
        from: &Caller,
        now: u64,
        holdings: &Vec<Holding>,
    ) -> (outcome: Result<Vec<Action>, BackstopManagerErrors>)
        ensures
            match outcome {
                Ok(transfers) => spec_claim_all(self@, from@, now, holdings.deep_view()) == Ok::<
                    Seq<ActionView>,
                    BackstopManagerErrors,
                >(transfers.deep_view()),
                Err(refusal) => spec_claim_all(self@, from@, now, holdings.deep_view()) == Err::<
                    Seq<ActionView>,
                    BackstopManagerErrors,
                >(refusal),
            },
    {
        let e = self.enter_as_owner(from)?;
        assert_unlocked(crate::storage::get_unlock(e), now)?;
        let owner = crate::storage::get_owner(e);
        let mut transfers: Vec<Action> = Vec::new();
        let mut i: usize = 0;
        while i < holdings.len()
            invariant
                i <= holdings.len(),
                transfers.deep_view() =~= spec_release(
                    holdings.deep_view(),
                    self@.contract,
                    owner@,
                ).take(i as int),
            decreases holdings.len() - i,
        {
            let ghost before = transfers.deep_view();
            let transfer = Action::Transfer {
                token: holdings[i].token.clone(),
                from: self.address(),
                to: owner.clone(),
                amount: holdings[i].balance,
            };
            transfers.push(transfer);
            assert(transfers.deep_view() =~= before.push(transfer@));
            i += 1;
        }
        assert(transfers.deep_view() =~= spec_release(
            holdings.deep_view(),
            self@.contract,
            owner@,
        ));
        Ok(transfers)
    }
}

} // verus!
