//! The operations on the liquidity pool behind the backstop token.

use vstd::prelude::*;
use crate::address::Address;
use crate::contract::{spec_enter, BackstopManager, BackstopManagerView};
use crate::errors::BackstopManagerErrors;
use crate::invocation::{approval_ledger, join_composition, spec_approval_ledger};
use crate::invocation::{spec_join_composition, Invocation};
use crate::plan::{spec_direct, spec_plan_outcome, Action, ActionView, Plan, PlanView};
use crate::roles::{Caller, CallerView, SCOPE_HIGH};

verus! {

/// What joining the liquidity pool of the backstop token decides.
pub open spec fn spec_c_join_pool(
    m: BackstopManagerView,
    from: CallerView,
    pool_amount_out: i128,
    max_amounts_in: Seq<i128>,
    tokens: Seq<Seq<char>>,
    ledger_sequence: u32,
) -> Result<PlanView, BackstopManagerErrors> {
    match spec_enter(m, from, SCOPE_HIGH) {
        Err(refusal) => Err(refusal),
        Ok(e) => if tokens.len() > 0 && spec_approval_ledger(ledger_sequence) > u32::MAX {
            Err(BackstopManagerErrors::OverflowError)
        } else {
            Ok(
                PlanView {
                    authorizations: spec_join_composition(
                        tokens,
                        max_amounts_in,
                        m.contract,
                        e.backstop_token,
                        spec_approval_ledger(ledger_sequence) as u32,
                    ),
                    action: ActionView::JoinPool {
                        pool: e.backstop_token,
                        pool_amount_out,
                        max_amounts_in,
                        to: m.contract,
                    },
                },
            )
        },
    }
}

/// What leaving the liquidity pool of the backstop token decides.
pub open spec fn spec_c_exit_pool(
    m: BackstopManagerView,
    from: CallerView,
    burn_amount: i128,
    min_amounts_out: Seq<i128>,
) -> Result<PlanView, BackstopManagerErrors> {
    match spec_enter(m, from, SCOPE_HIGH) {
        Err(refusal) => Err(refusal),
        Ok(e) => Ok(
            spec_direct(
                ActionView::ExitPool {
                    pool: e.backstop_token,
                    burn_amount,
                    min_amounts_out,
                    to: m.contract,
                },
            ),
        ),
    }
}

impl BackstopManager {
    /// (Manager, High) Join the liquidity pool of the backstop token.
    ///
    /// For each token of the pool, the approval that lets the pool draw up
    /// to the maximum amount given for it is authorized ahead of the call.
    /// The approvals expire at the first window boundary after
    /// `ledger_sequence`. A caller who may join has to give an amount for
    /// each token of the pool; a caller who may not is refused whatever it
    /// gives.
    ///
    /// ### Arguments
    /// * `from` - The caller of the function
    /// * `pool_amount_out` - The amount of pool shares to mint
    /// * `max_amounts_in` - The maximum amount of tokens to deposit, one for
    ///   each token of the pool
    /// * `tokens` - The tokens of the liquidity pool, as the host read them
    /// * `ledger_sequence` - The current ledger
    ///
    /// ### Errors
    /// * OverflowError - No ledger number can hold the expiry of the
    ///   approvals
    /// * Whatever `require_scope` refuses with
    pub fn c_join_pool(
        &self,
        from: &Caller,
        pool_amount_out: i128,
        max_amounts_in: &Vec<i128>,
        tokens: &Vec<Address>,
        ledger_sequence: u32,
    ) -> (outcome: Result<Plan, BackstopManagerErrors>)
        requires
            spec_enter(self@, from@, SCOPE_HIGH) is Ok ==> tokens.len() <= max_amounts_in.len(),
        ensures
            spec_plan_outcome(outcome) == spec_c_join_pool(
                self@,
                from@,
                pool_amount_out,
                max_amounts_in@,
                tokens.deep_view(),
                ledger_sequence,
            ),
    {
        let e = self.enter(from, SCOPE_HIGH)?;
        let backstop_token = crate::storage::get_backstop_token(e);
        let authorizations = if tokens.len() > 0 {
            let expiration_ledger = approval_ledger(ledger_sequence)?;
            join_composition(
                tokens,
                max_amounts_in,
                &self.address(),
                &backstop_token,
                expiration_ledger,
            )
        } else {
            let none: Vec<Invocation> = Vec::new();
            assert(none.deep_view() =~= spec_join_composition(
                tokens.deep_view(),
                max_amounts_in@,
                self@.contract,
                e@.backstop_token,
                spec_approval_ledger(ledger_sequence) as u32,
            ));
            none
        };
        let amounts = max_amounts_in.clone();
        Ok(
            Plan {
                authorizations,
                action: Action::JoinPool {
                    pool: backstop_token,
                    pool_amount_out,
                    max_amounts_in: amounts,
                    to: self.address(),
                },
            },
        )
    }

    /// (Manager, High) Exit the liquidity pool of the backstop token.
    ///
    /// ### Arguments
    /// * `from` - The caller of the function
    /// * `burn_amount` - The amount of pool shares to burn
    /// * `min_amounts_out` - The minimum amount of tokens to receive
    ///
    /// ### Errors
    /// * Whatever `require_scope` refuses with
    pub fn c_exit_pool(
        &self,
        from: &Caller,
        burn_amount: i128,
        min_amounts_out: &Vec<i128>,
    ) -> (outcome: Result<Plan, BackstopManagerErrors>)
        ensures
            spec_plan_outcome(outcome) == spec_c_exit_pool(
                self@,
                from@,
                burn_amount,
                min_amounts_out@,
            ),
    {
        let e = self.enter(from, SCOPE_HIGH)?;
        let amounts = min_amounts_out.clone();
        Ok(
            Plan::direct(
                Action::ExitPool {
                    pool: crate::storage::get_backstop_token(e),
                    burn_amount,
                    min_amounts_out: amounts,
                    to: self.address(),
                },
            ),
        )
    }
}

} // verus!
