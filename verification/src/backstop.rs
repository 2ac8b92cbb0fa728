//! The operations on a backstop.

use vstd::prelude::*;
use crate::address::Address;
use crate::contract::{spec_enter_backstop, BackstopManager, BackstopManagerView};
use crate::errors::BackstopManagerErrors;
use crate::invocation::{deposit_composition, spec_deposit_composition};
use crate::plan::{spec_direct, spec_plan_outcome, Action, ActionView, Plan, PlanView};
use crate::roles::{Caller, CallerView, SCOPE_HIGH, SCOPE_LOW, SCOPE_MEDIUM};

verus! {

/// What claiming the backstop emissions of a pool decides.
pub open spec fn spec_b_claim(
    m: BackstopManagerView,
    from: CallerView,
    backstop: Seq<char>,
    pool_address: Seq<char>,
) -> Result<PlanView, BackstopManagerErrors> {
    match spec_enter_backstop(m, from, SCOPE_LOW, backstop, pool_address) {
        Err(refusal) => Err(refusal),
        Ok(_) => Ok(
            spec_direct(
                ActionView::BackstopClaim {
                    backstop,
                    from: m.contract,
                    pool_addresses: seq![pool_address],
                    to: m.contract,
                },
            ),
        ),
    }
}

/// What depositing into a backstop decides.
pub open spec fn spec_b_deposit(
    m: BackstopManagerView,
    from: CallerView,
    backstop: Seq<char>,
    pool_address: Seq<char>,
    amount: i128,
) -> Result<PlanView, BackstopManagerErrors> {
    match spec_enter_backstop(m, from, SCOPE_MEDIUM, backstop, pool_address) {
        Err(refusal) => Err(refusal),
        Ok(e) => Ok(
            PlanView {
                authorizations: spec_deposit_composition(
                    e.backstop_token,
                    m.contract,
                    backstop,
                    amount,
                ),
                action: ActionView::BackstopDeposit {
                    backstop,
                    from: m.contract,
                    pool_address,
                    amount,
                },
            },
        ),
    }
}

/// What queueing shares for withdrawal decides.
pub open spec fn spec_b_queue_withdrawal(
    m: BackstopManagerView,
    from: CallerView,
    backstop: Seq<char>,
    pool_address: Seq<char>,
    amount: i128,
) -> Result<PlanView, BackstopManagerErrors> {
    match spec_enter_backstop(m, from, SCOPE_MEDIUM, backstop, pool_address) {
        Err(refusal) => Err(refusal),
        Ok(_) => Ok(
            spec_direct(
                ActionView::BackstopQueueWithdrawal {
                    backstop,
                    from: m.contract,
                    pool_address,
                    amount,
                },
            ),
        ),
    }
}

/// What taking shares off the withdrawal queue decides.
pub open spec fn spec_b_dequeue_withdrawal(
    m: BackstopManagerView,
    from: CallerView,
    backstop: Seq<char>,
    pool_address: Seq<char>,
    amount: i128,
) -> Result<PlanView, BackstopManagerErrors> {
    match spec_enter_backstop(m, from, SCOPE_MEDIUM, backstop, pool_address) {
        Err(refusal) => Err(refusal),
        Ok(_) => Ok(
            spec_direct(
                ActionView::BackstopDequeueWithdrawal {
                    backstop,
                    from: m.contract,
                    pool_address,
                    amount,
                },
            ),
        ),
    }
}

/// What withdrawing queued shares decides.
pub open spec fn spec_b_withdraw(
    m: BackstopManagerView,
    from: CallerView,
    backstop: Seq<char>,
    pool_address: Seq<char>,
    amount: i128,
) -> Result<PlanView, BackstopManagerErrors> {
    match spec_enter_backstop(m, from, SCOPE_HIGH, backstop, pool_address) {
        Err(refusal) => Err(refusal),
        Ok(_) => Ok(
            spec_direct(
                ActionView::BackstopWithdraw { backstop, from: m.contract, pool_address, amount },
            ),
        ),
    }
}

impl BackstopManager {
    /// (Manager, Low) Claim backstop deposit emissions of a pool for the
    /// contract
    ///
    /// ### Arguments
    /// * `from` - The caller of the function
    /// * `backstop` - The address of the backstop contract
    /// * `pool_address` - The address of the pool to claim from
    ///
    /// ### Errors
    /// * InvalidContractAddress - The backstop or the pool is not approved
    /// * Whatever `require_scope` refuses with
    pub fn b_claim(
        &self,
        from: &Caller,
        backstop: &Address,
        pool_address: &Address,
    ) -> (outcome: Result<Plan, BackstopManagerErrors>)
        ensures
            spec_plan_outcome(outcome) == spec_b_claim(self@, from@, backstop@, pool_address@),
    {
        let _ = self.enter_backstop(from, SCOPE_LOW, backstop, pool_address)?;
        let mut pool_addresses: Vec<Address> = Vec::new();
        pool_addresses.push(pool_address.clone());
        assert(pool_addresses.deep_view() =~= seq![pool_address@]);
        Ok(
            Plan::direct(
                Action::BackstopClaim {
                    backstop: backstop.clone(),
                    from: self.address(),
                    pool_addresses,
                    to: self.address(),
                },
            ),
        )
    }

    /// (Manager, Medium) Deposit "amount" backstop tokens from the contract
    /// into the backstop for "pool_address"
    ///
    /// The transfer of the tokens to the backstop is authorized ahead of
    /// the deposit.
    ///
    /// ### Arguments
    /// * `from` - The caller of the function
    /// * `backstop` - The address of the backstop contract
    /// * `pool_address` - The address of the pool
    /// * `amount` - The amount of tokens to deposit
    ///
    /// ### Errors
    /// * InvalidContractAddress - The backstop or the pool is not approved
    /// * Whatever `require_scope` refuses with
    pub fn b_deposit(
        &self,
        from: &Caller,
        backstop: &Address,
        pool_address: &Address,
        amount: i128,
    ) -> (outcome: Result<Plan, BackstopManagerErrors>)
        ensures
            spec_plan_outcome(outcome) == spec_b_deposit(
                self@,
                from@,
                backstop@,
                pool_address@,
                amount,
            ),
    {
        let e = self.enter_backstop(from, SCOPE_MEDIUM, backstop, pool_address)?;
        let backstop_token = crate::storage::get_backstop_token(e);
        let authorizations = deposit_composition(&backstop_token, &self.address(), backstop, amount);
        Ok(
            Plan {
                authorizations,
                action: Action::BackstopDeposit {
                    backstop: backstop.clone(),
                    from: self.address(),
                    pool_address: pool_address.clone(),
                    amount,
                },
            },
        )
    }

    /// (Manager, Medium) Queue deposited pool shares from the contract for
    /// withdraw from a backstop of a pool
    ///
    /// ### Arguments
    /// * `from` - The caller of the function
    /// * `backstop` - The address of the backstop contract
    /// * `pool_address` - The address of the pool
    /// * `amount` - The amount of shares to queue for withdraw
    ///
    /// ### Errors
    /// * InvalidContractAddress - The backstop or the pool is not approved
    /// * Whatever `require_scope` refuses with
    pub fn b_queue_withdrawal(
        &self,
        from: &Caller,
        backstop: &Address,
        pool_address: &Address,
        amount: i128,
    ) -> (outcome: Result<Plan, BackstopManagerErrors>)
        ensures
            spec_plan_outcome(outcome) == spec_b_queue_withdrawal(
                self@,
                from@,
                backstop@,
                pool_address@,
                amount,
            ),
    {
        let _ = self.enter_backstop(from, SCOPE_MEDIUM, backstop, pool_address)?;
        Ok(
            Plan::direct(
                Action::BackstopQueueWithdrawal {
                    backstop: backstop.clone(),
                    from: self.address(),
                    pool_address: pool_address.clone(),
                    amount,
                },
            ),
        )
    }

    /// (Manager, Medium) Dequeue a currently queued pool share withdraw for
    /// the contract from the backstop of a pool
    ///
    /// ### Arguments
    /// * `from` - The caller of the function
    /// * `backstop` - The address of the backstop contract
    /// * `pool_address` - The address of the pool
    /// * `amount` - The amount of shares to dequeue
    ///
    /// ### Errors
    /// * InvalidContractAddress - The backstop or the pool is not approved
    /// * Whatever `require_scope` refuses with
    pub fn b_dequeue_withdrawal(
        &self,
        from: &Caller,
        backstop: &Address,
        pool_address: &Address,
        amount: i128,
    ) -> (outcome: Result<Plan, BackstopManagerErrors>)
        ensures
            spec_plan_outcome(outcome) == spec_b_dequeue_withdrawal(
                self@,
                from@,
                backstop@,
                pool_address@,
                amount,
            ),
    {
        let _ = self.enter_backstop(from, SCOPE_MEDIUM, backstop, pool_address)?;
        Ok(
            Plan::direct(
                Action::BackstopDequeueWithdrawal {
                    backstop: backstop.clone(),
                    from: self.address(),
                    pool_address: pool_address.clone(),
                    amount,
                },
            ),
        )
    }

    /// (Manager, High) Withdraw shares from the contract's withdraw queue
    /// for a backstop of a pool
    ///
    /// ### Arguments
    /// * `from` - The caller of the function
    /// * `backstop` - The address of the backstop contract
    /// * `pool_address` - The address of the pool
    /// * `amount` - The amount of shares to withdraw
    ///
    /// ### Errors
    /// * InvalidContractAddress - The backstop or the pool is not approved
    /// * Whatever `require_scope` refuses with
    pub fn b_withdraw(
        &self,
        from: &Caller,
        backstop: &Address,
        pool_address: &Address,
        amount: i128,
    ) -> (outcome: Result<Plan, BackstopManagerErrors>)
        ensures
            spec_plan_outcome(outcome) == spec_b_withdraw(
                self@,
                from@,
                backstop@,
                pool_address@,
                amount,
            ),
    {
        let _ = self.enter_backstop(from, SCOPE_HIGH, backstop, pool_address)?;
        Ok(
            Plan::direct(
                Action::BackstopWithdraw {
                    backstop: backstop.clone(),
                    from: self.address(),
                    pool_address: pool_address.clone(),
                    amount,
                },
            ),
        )
    }
}

} // verus!
