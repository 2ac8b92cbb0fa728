//! The operations on the backstop bootstrapper.

use vstd::prelude::*;
use crate::address::Address;
use crate::contract::{require_backstop_valid, spec_enter, spec_require_backstop_valid};
use crate::contract::{BackstopManager, BackstopManagerView};
use crate::errors::BackstopManagerErrors;
use crate::invocation::{bootstrap_claim_composition, spec_bootstrap_claim_composition};
use crate::invocation::{deposit_composition, spec_deposit_composition};
use crate::plan::{spec_direct, spec_plan_outcome, Action, ActionView, BootstrapConfig};
use crate::plan::{BootstrapConfigView, BootstrapReference, BootstrapReferenceView, Plan, PlanView};
use crate::roles::{Caller, CallerView, SCOPE_HIGH, SCOPE_LOW};
use crate::weight::{claim_share, spec_claim_share, WEIGHT_SCALE};

verus! {

/// The token at the place `index` among the tokens of the liquidity pool, or
/// the refusal of an index that names none.
pub open spec fn spec_token_at(
    tokens: Seq<Seq<char>>,
    index: u32,
) -> Result<Seq<char>, BackstopManagerErrors> {
    if index < tokens.len() {
        Ok(tokens[index as int])
    } else {
        Err(BackstopManagerErrors::InvalidTokenIndex)
    }
}

/// Picks the token at the place `index` among the tokens of the liquidity
/// pool.
///
/// ### Errors
/// * InvalidTokenIndex - The pool has no token at `index`
pub fn token_at(
    tokens: &Vec<Address>,
    index: u32,
) -> (token: Result<Address, BackstopManagerErrors>)
    ensures
        match token {
            Ok(address) => spec_token_at(tokens.deep_view(), index) == Ok::<
                Seq<char>,
                BackstopManagerErrors,
            >(address@),
            Err(e) => spec_token_at(tokens.deep_view(), index) == Err::<
                Seq<char>,
                BackstopManagerErrors,
            >(e),
        },
{
    if (index as usize) < tokens.len() {
        Ok(tokens[index as usize].clone())
    } else {
        Err(BackstopManagerErrors::InvalidTokenIndex)
    }
}

/// The token whose weight the claim of a bootstrap is computed with: the
/// token at the place `asset_index` among the tokens of the liquidity pool.
/// It is given to a caller who may claim, for a backstop that is approved.
pub open spec fn spec_bb_claim_token(
    m: BackstopManagerView,
    from: CallerView,
    backstop: Seq<char>,
    asset_index: u32,
    tokens: Seq<Seq<char>>,
) -> Result<Seq<char>, BackstopManagerErrors> {
    match spec_enter(m, from, SCOPE_LOW) {
        Err(refusal) => Err(refusal),
        Ok(e) => match spec_require_backstop_valid(e, backstop) {
            Err(refusal) => Err(refusal),
            Ok(_) => spec_token_at(tokens, asset_index),
        },
    }
}

/// What claiming the proceeds of `bootstrap` decides.
pub open spec fn spec_bb_claim_bootstrap(
    m: BackstopManagerView,
    from: CallerView,
    bootstrap: BootstrapReferenceView,
    backstop: Seq<char>,
    tokens: Seq<Seq<char>>,
) -> Result<PlanView, BackstopManagerErrors> {
    match spec_bb_claim_token(m, from, backstop, bootstrap.asset_index, tokens) {
        Err(refusal) => Err(refusal),
        Ok(_) => {
            let e = m.storage->0;
            let amount = spec_claim_share(
                bootstrap.pooled_amount as int,
                bootstrap.per_asset_weight as int,
                WEIGHT_SCALE as int,
            );
            if i128::MIN <= bootstrap.pooled_amount * bootstrap.per_asset_weight <= i128::MAX {
                Ok(
                    PlanView {
                        authorizations: spec_bootstrap_claim_composition(
                            backstop,
                            e.backstop_token,
                            m.contract,
                            bootstrap.target_pool,
                            amount as i128,
                        ),
                        action: ActionView::BootstrapClaim {
                            bootstrapper: e.bootstrapper,
                            from: m.contract,
                            bootstrap_id: bootstrap.bootstrap_id,
                        },
                    },
                )
            } else {
                Err(BackstopManagerErrors::OverflowError)
            }
        },
    }
}

/// What starting a bootstrap decides.
pub open spec fn spec_bb_start_bootstrap(
    m: BackstopManagerView,
    from: CallerView,
    bootstrap_token_index: u32,
    bootstrap_amount: i128,
    pair_min: i128,
    duration: u32,
    pool_address: Seq<char>,
    tokens: Seq<Seq<char>>,
    ledger_sequence: u32,
) -> Result<PlanView, BackstopManagerErrors> {
    match spec_enter(m, from, SCOPE_HIGH) {
        Err(refusal) => Err(refusal),
        Ok(e) => match spec_token_at(tokens, bootstrap_token_index) {
            Err(refusal) => Err(refusal),
            Ok(bootstrap_token) => if ledger_sequence + duration > u32::MAX {
                Err(BackstopManagerErrors::OverflowError)
            } else {
                Ok(
                    PlanView {
                        authorizations: spec_deposit_composition(
                            bootstrap_token,
                            m.contract,
                            e.bootstrapper,
                            bootstrap_amount,
                        ),
                        action: ActionView::Bootstrap {
                            bootstrapper: e.bootstrapper,
                            config: BootstrapConfigView {
                                bootstrapper: m.contract,
                                amount: bootstrap_amount,
                                close_ledger: (ledger_sequence + duration) as u32,
                                pair_min,
                                pool: pool_address,
                                token_index: bootstrap_token_index,
                            },
                        },
                    },
                )
            },
        },
    }
}

/// What taking back a cancelled bootstrap decides.
pub open spec fn spec_bb_refund_bootstrap(
    m: BackstopManagerView,
    from: CallerView,
    bootstrap_id: u32,
) -> Result<PlanView, BackstopManagerErrors> {
    match spec_enter(m, from, SCOPE_LOW) {
        Err(refusal) => Err(refusal),
        Ok(e) => Ok(
            spec_direct(
                ActionView::BootstrapRefund {
                    bootstrapper: e.bootstrapper,
                    from: m.contract,
                    bootstrap_id,
                },
            ),
        ),
    }
}

impl BackstopManager {
    /// (Manager, Low) Picks the token whose weight the claim of a bootstrap
    /// is computed with
    ///
    /// The host reads the weight of this token from the liquidity pool
    /// before it asks for the claim. Nothing is picked for a caller who may
    /// not claim or for a backstop that is not approved.
    ///
    /// ### Arguments
    /// * `from` - The caller of the function
    /// * `backstop` - The address of the backstop the bootstrap is for
    /// * `asset_index` - The place of the bootstrapped token among `tokens`
    /// * `tokens` - The tokens of the liquidity pool, as the host read them
    ///
    /// ### Errors
    /// * Whatever `require_scope` refuses with
    /// * InvalidContractAddress - The backstop is not approved
    /// * InvalidTokenIndex - The pool has no token at `asset_index`
    pub fn bb_claim_token(
        &self,
        from: &Caller,
        backstop: &Address,
        asset_index: u32,
        tokens: &Vec<Address>,
    ) -> (token: Result<Address, BackstopManagerErrors>)
        ensures
            match token {
                Ok(address) => spec_bb_claim_token(
                    self@,
                    from@,
                    backstop@,
                    asset_index,
                    tokens.deep_view(),
                ) == Ok::<Seq<char>, BackstopManagerErrors>(address@),
                Err(refusal) => spec_bb_claim_token(
                    self@,
                    from@,
                    backstop@,
                    asset_index,
                    tokens.deep_view(),
                ) == Err::<Seq<char>, BackstopManagerErrors>(refusal),
            },
    {
        let e = self.enter(from, SCOPE_LOW)?;
        require_backstop_valid(e, backstop)?;
        token_at(tokens, asset_index)
    }

    /// (Manager, Low) Claims the proceeds of a backstop bootstrapping
    ///
    /// The claim amount is the share of the backstop tokens minted by the
    /// bootstrap that falls to the weight of the bootstrapped token. The
    /// deposit of that amount into `backstop`, with the transfer inside it,
    /// is authorized ahead of the claim. Before anything is computed or
    /// authorized, `backstop` has to be an approved backstop and the
    /// bootstrapped token a token of the liquidity pool.
    ///
    /// ### Arguments
    /// * `from` - The caller of the function
    /// * `bootstrap` - What the host read of the bootstrap
    /// * `backstop` - The address of the backstop the bootstrap is for
    /// * `tokens` - The tokens of the liquidity pool, as the host read them
    ///
    /// ### Errors
    /// * Whatever `require_scope` refuses with
    /// * InvalidContractAddress - The backstop is not approved
    /// * InvalidTokenIndex - The pool has no token at the index of the
    ///   bootstrapped token
    /// * OverflowError - The weighted total does not fit 128 bits
    pub fn bb_claim_bootstrap(
        &self,
        from: &Caller,
        bootstrap: &BootstrapReference,
        backstop: &Address,
        tokens: &Vec<Address>,
    ) -> (outcome: Result<Plan, BackstopManagerErrors>)
        ensures
            spec_plan_outcome(outcome) == spec_bb_claim_bootstrap(
                self@,
                from@,
                bootstrap@,
                backstop@,
                tokens.deep_view(),
            ),
    {
        let e = self.enter(from, SCOPE_LOW)?;
        require_backstop_valid(e, backstop)?;
        let _ = token_at(tokens, bootstrap.asset_index)?;
        let backstop_token_amount = claim_share(
            bootstrap.pooled_amount,
            bootstrap.per_asset_weight,
            WEIGHT_SCALE,
        )?;
        let backstop_token = crate::storage::get_backstop_token(e);
        let authorizations = bootstrap_claim_composition(
            backstop,
            &backstop_token,
            &self.address(),
            &bootstrap.target_pool,
            backstop_token_amount,
        );
        Ok(
            Plan {
                authorizations,
                action: Action::BootstrapClaim {
                    bootstrapper: crate::storage::get_backstop_bootstrapper(e),
                    from: self.address(),
                    bootstrap_id: bootstrap.bootstrap_id,
                },
            },
        )
    }

    /// (Manager, High) Creates a Backstop Bootstrapping
    ///
    /// The transfer of the bootstrapped tokens to the bootstrapper is
    /// authorized ahead of the call. The bootstrap closes `duration`
    /// ledgers after `ledger_sequence`.
    ///
    /// ### Arguments
    /// * `from` - The caller of the function
    /// * `bootstrap_token_index` - The place of the bootstrap token among
    ///   `tokens`
    /// * `bootstrap_amount` - The amount of tokens to bootstrap
    /// * `pair_min` - The minimum amount of pair tokens to add
    /// * `duration` - The duration of the bootstrapping period
    /// * `pool_address` - The address of the pool
    /// * `tokens` - The tokens of the liquidity pool, as the host read them
    /// * `ledger_sequence` - The current ledger
    ///
    /// ### Errors
    /// * InvalidTokenIndex - The pool has no token at `bootstrap_token_index`
    /// * OverflowError - No ledger number can hold the closing ledger
    /// * Whatever `require_scope` refuses with
    pub fn bb_start_bootstrap(
        &self,
        from: &Caller,
        bootstrap_token_index: u32,
        bootstrap_amount: i128,
        pair_min: i128,
        duration: u32,
        pool_address: &Address,
        tokens: &Vec<Address>,
        ledger_sequence: u32,
    ) -> (outcome: Result<Plan, BackstopManagerErrors>)
        ensures
            spec_plan_outcome(outcome) == spec_bb_start_bootstrap(
                self@,
                from@,
                bootstrap_token_index,
                bootstrap_amount,
                pair_min,
                duration,
                pool_address@,
                tokens.deep_view(),
                ledger_sequence,
            ),
    {
        let e = self.enter(from, SCOPE_HIGH)?;
        let bootstrap_token = token_at(tokens, bootstrap_token_index)?;
        let close_ledger = match ledger_sequence.checked_add(duration) {
            Some(ledger) => ledger,
            None => {
                return Err(BackstopManagerErrors::OverflowError);
            },
        };
        let backstop_bootstrapper = crate::storage::get_backstop_bootstrapper(e);
        let authorizations = deposit_composition(
            &bootstrap_token,
            &self.address(),
            &backstop_bootstrapper,
            bootstrap_amount,
        );
        Ok(
            Plan {
                authorizations,
                action: Action::Bootstrap {
                    bootstrapper: backstop_bootstrapper,
                    config: BootstrapConfig {
                        bootstrapper: self.address(),
                        amount: bootstrap_amount,
                        close_ledger,
                        pair_min,
                        pool: pool_address.clone(),
                        token_index: bootstrap_token_index,
                    },
                },
            },
        )
    }

    /// (Manager, Low) Refunds a cancelled backstop bootstrapping
    ///
    /// ### Arguments
    /// * `from` - The caller of the function
    /// * `bootstrap_id` - The id of the bootstrap
    ///
    /// ### Errors
    /// * Whatever `require_scope` refuses with
    pub fn bb_refund_bootstrap(
        &self,
        from: &Caller,
        bootstrap_id: u32,
    ) -> (outcome: Result<Plan, BackstopManagerErrors>)
        ensures
            spec_plan_outcome(outcome) == spec_bb_refund_bootstrap(self@, from@, bootstrap_id),
    {
        let e = self.enter(from, SCOPE_LOW)?;
        Ok(
            Plan::direct(
                Action::BootstrapRefund {
                    bootstrapper: crate::storage::get_backstop_bootstrapper(e),
                    from: self.address(),
                    bootstrap_id,
                },
            ),
        )
    }
}

} // verus!
