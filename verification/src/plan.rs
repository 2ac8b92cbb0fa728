//! What an operation of the treasury decides, for the host to carry out.

use vstd::prelude::*;
use crate::address::Address;
use crate::invocation::{compose_chain, spec_compose_chain};
use crate::invocation::{Installed, InstalledView, Invocation, InvocationView};

verus! {

/// The terms under which a bootstrap is started.
#[derive(Debug, PartialEq, Eq)]
pub struct BootstrapConfig {
    /// The address that starts the bootstrap and supplies the tokens
    pub bootstrapper: Address,
    /// The amount of the bootstrapped token
    pub amount: i128,
    /// The ledger at which the bootstrap closes
    pub close_ledger: u32,
    /// The least amount of the other token that has to be paired
    pub pair_min: i128,
    /// The pool whose backstop the proceeds are for
    pub pool: Address,
    /// The place of the bootstrapped token among the tokens of the
    /// liquidity pool
    pub token_index: u32,
}

/// What a `BootstrapConfig` stands for.
pub struct BootstrapConfigView {
    pub bootstrapper: Seq<char>,
    pub amount: i128,
    pub close_ledger: u32,
    pub pair_min: i128,
    pub pool: Seq<char>,
    pub token_index: u32,
}

impl View for BootstrapConfig {
    type V = BootstrapConfigView;

    open spec fn view(&self) -> BootstrapConfigView {
        BootstrapConfigView {
            bootstrapper: self.bootstrapper@,
            amount: self.amount,
            close_ledger: self.close_ledger,
            pair_min: self.pair_min,
            pool: self.pool@,
            token_index: self.token_index,
        }
    }
}

/// What the host reads of a bootstrap before its proceeds are claimed. It is
/// read anew for each claim and never kept.
#[derive(Debug, PartialEq, Eq)]
pub struct BootstrapReference {
    /// The id of the bootstrap
    pub bootstrap_id: u32,
    /// The backstop tokens that the bootstrap minted in all
    pub pooled_amount: i128,
    /// The normalized weight, in the liquidity pool, of the bootstrapped token
    pub per_asset_weight: i128,
    /// The pool whose backstop the proceeds are for
    pub target_pool: Address,
    /// The place of the bootstrapped token among the tokens of the
    /// liquidity pool
    pub asset_index: u32,
}

/// What a `BootstrapReference` stands for.
pub struct BootstrapReferenceView {
    pub bootstrap_id: u32,
    pub pooled_amount: i128,
    pub per_asset_weight: i128,
    pub target_pool: Seq<char>,
    pub asset_index: u32,
}

impl View for BootstrapReference {
    type V = BootstrapReferenceView;

    open spec fn view(&self) -> BootstrapReferenceView {
        BootstrapReferenceView {
            bootstrap_id: self.bootstrap_id,
            pooled_amount: self.pooled_amount,
            per_asset_weight: self.per_asset_weight,
            target_pool: self.target_pool@,
            asset_index: self.asset_index,
        }
    }
}

/// An amount of a token that the treasury holds.
#[derive(Debug, PartialEq, Eq)]
pub struct Holding {
    pub token: Address,
    pub balance: i128,
}

/// What a `Holding` stands for.
pub struct HoldingView {
    pub token: Seq<char>,
    pub balance: i128,
}

impl View for Holding {
    type V = HoldingView;

    open spec fn view(&self) -> HoldingView {
        HoldingView { token: self.token@, balance: self.balance }
    }
}

impl DeepView for Holding {
    type V = HoldingView;

    open spec fn deep_view(&self) -> HoldingView {
        self@
    }
}

/// The call into another program that an operation of the treasury ends in.
/// The host makes the call; the treasury only says which.
#[derive(Debug, PartialEq, Eq)]
pub enum Action {
    /// Move `amount` of `token` from `from` to `to`.
    Transfer { token: Address, from: Address, to: Address, amount: i128 },
    /// Claim the backstop emissions of `from` for `pool_addresses`, to `to`.
    BackstopClaim { backstop: Address, from: Address, pool_addresses: Vec<Address>, to: Address },
    /// Deposit `amount` backstop tokens of `from` for `pool_address`.
    BackstopDeposit { backstop: Address, from: Address, pool_address: Address, amount: i128 },
    /// Queue `amount` shares of `from` for withdrawal.
    BackstopQueueWithdrawal {
        backstop: Address,
        from: Address,
        pool_address: Address,
        amount: i128,
    },
    /// Take `amount` shares of `from` off the withdrawal queue.
    BackstopDequeueWithdrawal {
        backstop: Address,
        from: Address,
        pool_address: Address,
        amount: i128,
    },
    /// Withdraw `amount` queued shares of `from`.
    BackstopWithdraw { backstop: Address, from: Address, pool_address: Address, amount: i128 },
    /// Mint `pool_amount_out` shares of the liquidity pool `pool` to `to`
    /// for no more than `max_amounts_in` of its tokens.
    JoinPool { pool: Address, pool_amount_out: i128, max_amounts_in: Vec<i128>, to: Address },
    /// Burn `burn_amount` shares of the liquidity pool `pool` for no less
    /// than `min_amounts_out` of its tokens, sent to `to`.
    ExitPool { pool: Address, burn_amount: i128, min_amounts_out: Vec<i128>, to: Address },
    /// Start a bootstrap under `config`.
    Bootstrap { bootstrapper: Address, config: BootstrapConfig },
    /// Claim the proceeds of the bootstrap `bootstrap_id` for `from`.
    BootstrapClaim { bootstrapper: Address, from: Address, bootstrap_id: u32 },
    /// Take back what `from` put into the cancelled bootstrap `bootstrap_id`.
    BootstrapRefund { bootstrapper: Address, from: Address, bootstrap_id: u32 },
}

/// What an `Action` stands for.
pub enum ActionView {
    Transfer { token: Seq<char>, from: Seq<char>, to: Seq<char>, amount: i128 },
    BackstopClaim {
        backstop: Seq<char>,
        from: Seq<char>,
        pool_addresses: Seq<Seq<char>>,
        to: Seq<char>,
    },
    BackstopDeposit { backstop: Seq<char>, from: Seq<char>, pool_address: Seq<char>, amount: i128 },
    BackstopQueueWithdrawal {
        backstop: Seq<char>,
        from: Seq<char>,
        pool_address: Seq<char>,
        amount: i128,
    },
    BackstopDequeueWithdrawal {
        backstop: Seq<char>,
        from: Seq<char>,
        pool_address: Seq<char>,
        amount: i128,
    },
    BackstopWithdraw {
        backstop: Seq<char>,
        from: Seq<char>,
        pool_address: Seq<char>,
        amount: i128,
    },
    JoinPool { pool: Seq<char>, pool_amount_out: i128, max_amounts_in: Seq<i128>, to: Seq<char> },
    ExitPool { pool: Seq<char>, burn_amount: i128, min_amounts_out: Seq<i128>, to: Seq<char> },
    Bootstrap { bootstrapper: Seq<char>, config: BootstrapConfigView },
    BootstrapClaim { bootstrapper: Seq<char>, from: Seq<char>, bootstrap_id: u32 },
    BootstrapRefund { bootstrapper: Seq<char>, from: Seq<char>, bootstrap_id: u32 },
}

impl View for Action {
    type V = ActionView;

    open spec fn view(&self) -> ActionView {
        match self {
            Action::Transfer { token, from, to, amount } => ActionView::Transfer {
                token: token@,
                from: from@,
                to: to@,
                amount: *amount,
            },
            Action::BackstopClaim { backstop, from, pool_addresses, to } => {
                ActionView::BackstopClaim {
                    backstop: backstop@,
                    from: from@,
                    pool_addresses: pool_addresses.deep_view(),
                    to: to@,
                }
            },
            Action::BackstopDeposit { backstop, from, pool_address, amount } => {
                ActionView::BackstopDeposit {
                    backstop: backstop@,
                    from: from@,
                    pool_address: pool_address@,
                    amount: *amount,
                }
            },
            Action::BackstopQueueWithdrawal { backstop, from, pool_address, amount } => {
                ActionView::BackstopQueueWithdrawal {
                    backstop: backstop@,
                    from: from@,
                    pool_address: pool_address@,
                    amount: *amount,
                }
            },
            Action::BackstopDequeueWithdrawal { backstop, from, pool_address, amount } => {
                ActionView::BackstopDequeueWithdrawal {
                    backstop: backstop@,
                    from: from@,
                    pool_address: pool_address@,
                    amount: *amount,
                }
            },
            Action::BackstopWithdraw { backstop, from, pool_address, amount } => {
                ActionView::BackstopWithdraw {
                    backstop: backstop@,
                    from: from@,
                    pool_address: pool_address@,
                    amount: *amount,
                }
            },
            Action::JoinPool { pool, pool_amount_out, max_amounts_in, to } => ActionView::JoinPool {
                pool: pool@,
                pool_amount_out: *pool_amount_out,
                max_amounts_in: max_amounts_in@,
                to: to@,
            },
            Action::ExitPool { pool, burn_amount, min_amounts_out, to } => ActionView::ExitPool {
                pool: pool@,
                burn_amount: *burn_amount,
                min_amounts_out: min_amounts_out@,
                to: to@,
            },
            Action::Bootstrap { bootstrapper, config } => ActionView::Bootstrap {
                bootstrapper: bootstrapper@,
                config: config@,
            },
            Action::BootstrapClaim { bootstrapper, from, bootstrap_id } => {
                ActionView::BootstrapClaim {
                    bootstrapper: bootstrapper@,
                    from: from@,
                    bootstrap_id: *bootstrap_id,
                }
            },
            Action::BootstrapRefund { bootstrapper, from, bootstrap_id } => {
                ActionView::BootstrapRefund {
                    bootstrapper: bootstrapper@,
                    from: from@,
                    bootstrap_id: *bootstrap_id,
                }
            },
        }
    }
}

impl DeepView for Action {
    type V = ActionView;

    open spec fn deep_view(&self) -> ActionView {
        self@
    }
}

/// What an operation of the treasury decides: the calls that it authorizes
/// ahead of time, and the call that the host is to make under them.
#[derive(Debug, PartialEq, Eq)]
pub struct Plan {
    /// The nested calls that the treasury authorizes for `action`
    pub authorizations: Vec<Invocation>,
    /// The call into another program that the host makes
    pub action: Action,
}

/// What a `Plan` stands for.
pub struct PlanView {
    pub authorizations: Seq<InvocationView>,
    pub action: ActionView,
}

impl View for Plan {
    type V = PlanView;

    open spec fn view(&self) -> PlanView {
        PlanView { authorizations: self.authorizations.deep_view(), action: self.action@ }
    }
}

/// What the outcome of an operation that ends in a call stands for.
pub open spec fn spec_plan_outcome<E>(outcome: Result<Plan, E>) -> Result<PlanView, E> {
    match outcome {
        Ok(plan) => Ok(plan@),
        Err(e) => Err(e),
    }
}

/// The plan of `action` with nothing authorized ahead of time.
pub open spec fn spec_direct(action: ActionView) -> PlanView {
    PlanView { authorizations: Seq::empty(), action }
}

impl Plan {
    /// The plan of `action` with nothing authorized ahead of time.
    pub fn direct(action: Action) -> (plan: Plan)
        ensures
            plan@ == spec_direct(action@),
    {
        let plan = Plan { authorizations: Vec::new(), action };
        assert(plan@.authorizations =~= Seq::empty());
        plan
    }

    /// Installs the pre-authorizations of the plan for the one call that the
    /// plan ends in.
    pub fn install(&self) -> (installed: Installed)
        ensures
            installed@ == (InstalledView {
                expected: spec_compose_chain(self@.authorizations),
                consumed: 0,
            }),
    {
        compose_chain(&self.authorizations)
    }
}

} // verus!
