//! What holds of the treasury across its operations, stated over the same
//! functions that the contracts of the operations are stated over.

use vstd::prelude::*;
use crate::administration::{spec_set_backstop_bootstrapper, spec_set_backstops};
use crate::administration::{spec_set_manager, spec_set_pools, spec_update_backstop};
use crate::allowlist::{lemma_append_if_absent, lemma_ordered_set, lemma_ordered_set_of_distinct};
use crate::allowlist::{spec_replace, MAX_VALID_LIST_LEN};
use crate::backstop::{spec_b_claim, spec_b_deposit, spec_b_dequeue_withdrawal};
use crate::backstop::{spec_b_queue_withdrawal, spec_b_withdraw};
use crate::bootstrap::{spec_bb_claim_bootstrap, spec_bb_claim_token, spec_bb_refund_bootstrap};
use crate::bootstrap::spec_bb_start_bootstrap;
use crate::contract::{spec_enter, spec_enter_as_owner, spec_initialize};
use crate::contract::{spec_require_backstop_and_pool_valid, spec_valid, BackstopManagerView};
use crate::custody::{spec_claim_all, spec_refund_token, spec_release, spec_transfer_token};
use crate::errors::BackstopManagerErrors;
use crate::invocation::{spec_approval_ledger, spec_approve, InvocationView};
use crate::invocation::APPROVAL_LEDGER_WINDOW;
use crate::liquidity::{spec_c_exit_pool, spec_c_join_pool};
use crate::plan::{ActionView, BootstrapReferenceView, HoldingView, PlanView};
use crate::roles::{CallerView, MAX_SCOPE, SCOPE_HIGH, SCOPE_LOW, SCOPE_MEDIUM};
use crate::storage::StorageView;

verus! {

/// The owner, once authenticated, passes the check at the start of every
/// operation of an initialized treasury, whatever scope the operation asks
/// for and whatever scope the manager holds.
pub proof fn lemma_owner_enters_every_operation(m: BackstopManagerView, scope: u32)
    requires
        m.storage is Some,
    ensures
        spec_enter(
            m,
            CallerView { id: m.storage->0.owner, authenticated: true },
            scope,
        ) == Ok::<StorageView, BackstopManagerErrors>(m.storage->0),
        spec_enter_as_owner(m, CallerView { id: m.storage->0.owner, authenticated: true }) == Ok::<
            StorageView,
            BackstopManagerErrors,
        >(m.storage->0),
{
}

/// The manager, once authenticated, passes the check at the start of the
/// operations that ask for no more than its scope, and is refused with
/// `UnauthorizedError` at the start of all others, those reserved to the
/// owner included.
pub proof fn lemma_manager_enters_up_to_its_scope(m: BackstopManagerView, scope: u32)
    requires
        m.storage is Some,
        m.storage->0.manager.id != m.storage->0.owner,
    ensures
        scope <= m.storage->0.manager.scope ==> spec_enter(
            m,
            CallerView { id: m.storage->0.manager.id, authenticated: true },
            scope,
        ) == Ok::<StorageView, BackstopManagerErrors>(m.storage->0),
        scope > m.storage->0.manager.scope ==> spec_enter(
            m,
            CallerView { id: m.storage->0.manager.id, authenticated: true },
            scope,
        ) == Err::<StorageView, BackstopManagerErrors>(BackstopManagerErrors::UnauthorizedError),
        spec_enter_as_owner(
            m,
            CallerView { id: m.storage->0.manager.id, authenticated: true },
        ) == Err::<StorageView, BackstopManagerErrors>(BackstopManagerErrors::UnauthorizedError),
{
}

/// Whoever passes the check of a scope passes the check of every lower one.
pub proof fn lemma_entering_is_cumulative(
    m: BackstopManagerView,
    from: CallerView,
    lower: u32,
    higher: u32,
)
    requires
        lower <= higher,
        spec_enter(m, from, higher) is Ok,
    ensures
        spec_enter(m, from, lower) is Ok,
{
}

/// A caller that the host has not authenticated passes no check of an
/// initialized treasury.
pub proof fn lemma_unauthenticated_caller_is_refused(
    m: BackstopManagerView,
    from: CallerView,
    scope: u32,
)
    requires
        m.storage is Some,
        !from.authenticated,
    ensures
        spec_enter(m, from, scope) == Err::<StorageView, BackstopManagerErrors>(
            BackstopManagerErrors::UnauthenticatedError,
        ),
        spec_enter_as_owner(m, from) == Err::<StorageView, BackstopManagerErrors>(
            BackstopManagerErrors::UnauthenticatedError,
        ),
{
}

/// Whether an operation that ends in a call was refused for want of
/// authority.
pub open spec fn spec_unauthorized(outcome: Result<PlanView, BackstopManagerErrors>) -> bool {
    outcome == Err::<PlanView, BackstopManagerErrors>(BackstopManagerErrors::UnauthorizedError)
}

/// Whether an operation that ends in a call passed the check at its start:
/// it was not refused for want of initialization, authentication or
/// authority.
pub open spec fn spec_entered(outcome: Result<PlanView, BackstopManagerErrors>) -> bool {
    &&& outcome != Err::<PlanView, BackstopManagerErrors>(
        BackstopManagerErrors::UninitializedError,
    )
    &&& outcome != Err::<PlanView, BackstopManagerErrors>(
        BackstopManagerErrors::UnauthenticatedError,
    )
    &&& outcome != Err::<PlanView, BackstopManagerErrors>(BackstopManagerErrors::UnauthorizedError)
}

/// The scope that each operation asks for. An authenticated caller who is
/// not the owner is refused with `UnauthorizedError` exactly where it is not
/// the manager or the scope of the manager is below the scope that the
/// operation asks for: `SCOPE_LOW` to refund a token, to claim emissions and
/// to claim or take back a bootstrap; `SCOPE_MEDIUM` to deposit and to queue
/// or dequeue a withdrawal; `SCOPE_HIGH` to withdraw, to join or leave the
/// liquidity pool and to start a bootstrap. To transfer a token is reserved
/// to the owner.
pub proof fn lemma_operations_ask_for_their_scope(
    m: BackstopManagerView,
    from: CallerView,
    address: Seq<char>,
    other: Seq<char>,
    amount: i128,
    second_amount: i128,
    amounts: Seq<i128>,
    tokens: Seq<Seq<char>>,
    index: u32,
    ledgers: u32,
    sequence: u32,
    bootstrap: BootstrapReferenceView,
)
    requires
        m.storage is Some,
        from.authenticated,
        from.id != m.storage->0.owner,
    ensures
        spec_unauthorized(spec_refund_token(m, from, address, amount)) <==> !(from.id
            == m.storage->0.manager.id && m.storage->0.manager.scope >= SCOPE_LOW),
        spec_unauthorized(spec_b_claim(m, from, address, other)) <==> !(from.id
            == m.storage->0.manager.id && m.storage->0.manager.scope >= SCOPE_LOW),
        spec_unauthorized(spec_bb_claim_bootstrap(m, from, bootstrap, address, tokens)) <==> !(
        from.id == m.storage->0.manager.id && m.storage->0.manager.scope >= SCOPE_LOW),
        spec_unauthorized(spec_bb_refund_bootstrap(m, from, index)) <==> !(from.id
            == m.storage->0.manager.id && m.storage->0.manager.scope >= SCOPE_LOW),
        spec_unauthorized(spec_b_deposit(m, from, address, other, amount)) <==> !(from.id
            == m.storage->0.manager.id && m.storage->0.manager.scope >= SCOPE_MEDIUM),
        spec_unauthorized(spec_b_queue_withdrawal(m, from, address, other, amount)) <==> !(from.id
            == m.storage->0.manager.id && m.storage->0.manager.scope >= SCOPE_MEDIUM),
        spec_unauthorized(spec_b_dequeue_withdrawal(m, from, address, other, amount)) <==> !(from.id
            == m.storage->0.manager.id && m.storage->0.manager.scope >= SCOPE_MEDIUM),
        spec_unauthorized(spec_b_withdraw(m, from, address, other, amount)) <==> !(from.id
            == m.storage->0.manager.id && m.storage->0.manager.scope >= SCOPE_HIGH),
        spec_unauthorized(spec_c_join_pool(m, from, amount, amounts, tokens, sequence)) <==> !(
        from.id == m.storage->0.manager.id && m.storage->0.manager.scope >= SCOPE_HIGH),
        spec_unauthorized(spec_c_exit_pool(m, from, amount, amounts)) <==> !(from.id
            == m.storage->0.manager.id && m.storage->0.manager.scope >= SCOPE_HIGH),
        spec_unauthorized(
            spec_bb_start_bootstrap(
                m,
                from,
                index,
                amount,
                second_amount,
                ledgers,
                address,
                tokens,
                sequence,
            ),
        ) <==> !(from.id == m.storage->0.manager.id && m.storage->0.manager.scope >= SCOPE_HIGH),
        spec_unauthorized(spec_transfer_token(m, from, address, other, amount)),
{
}

/// The owner, once authenticated, is let into every operation of an
/// initialized treasury, whatever manager is configured.
pub proof fn lemma_owner_is_let_into_every_operation(
    m: BackstopManagerView,
    address: Seq<char>,
    other: Seq<char>,
    amount: i128,
    second_amount: i128,
    amounts: Seq<i128>,
    tokens: Seq<Seq<char>>,
    index: u32,
    ledgers: u32,
    sequence: u32,
    bootstrap: BootstrapReferenceView,
    now: u64,
    holdings: Seq<HoldingView>,
    list: Seq<Seq<char>>,
)
    requires
        m.storage is Some,
    ensures
        ({
            let owner = CallerView { id: m.storage->0.owner, authenticated: true };
            &&& spec_entered(spec_transfer_token(m, owner, address, other, amount))
            &&& spec_entered(spec_refund_token(m, owner, address, amount))
            &&& spec_entered(spec_b_claim(m, owner, address, other))
            &&& spec_entered(spec_b_deposit(m, owner, address, other, amount))
            &&& spec_entered(spec_b_queue_withdrawal(m, owner, address, other, amount))
            &&& spec_entered(spec_b_dequeue_withdrawal(m, owner, address, other, amount))
            &&& spec_entered(spec_b_withdraw(m, owner, address, other, amount))
            &&& spec_entered(spec_c_join_pool(m, owner, amount, amounts, tokens, sequence))
            &&& spec_entered(spec_c_exit_pool(m, owner, amount, amounts))
            &&& spec_entered(spec_bb_claim_bootstrap(m, owner, bootstrap, address, tokens))
            &&& spec_entered(spec_bb_refund_bootstrap(m, owner, index))
            &&& spec_entered(
                spec_bb_start_bootstrap(
                    m,
                    owner,
                    index,
                    amount,
                    second_amount,
                    ledgers,
                    address,
                    tokens,
                    sequence,
                ),
            )
            &&& spec_set_manager(m, owner, address, index) is Ok <==> index <= MAX_SCOPE
            &&& spec_set_backstop_bootstrapper(m, owner, address) is Ok
            &&& spec_set_backstops(m, owner, list) is Ok <==> list.len() <= MAX_VALID_LIST_LEN
            &&& spec_set_pools(m, owner, list) is Ok <==> list.len() <= MAX_VALID_LIST_LEN
            &&& spec_update_backstop(m, owner, address) is Ok
            &&& spec_claim_all(m, owner, now, holdings) is Ok <==> now >= m.storage->0.unlock
        }),
{
}

/// Setting a manager with a scope above `MAX_SCOPE` fails for every caller,
/// and for the owner it fails with `InvalidScope`.
pub proof fn lemma_set_manager_refuses_invalid_scope(
    m: BackstopManagerView,
    from: CallerView,
    manager: Seq<char>,
    scope: u32,
)
    requires
        scope > MAX_SCOPE,
    ensures
        spec_set_manager(m, from, manager, scope) is Err,
        spec_enter_as_owner(m, from) is Ok ==> spec_set_manager(m, from, manager, scope) == Err::<
            BackstopManagerView,
            BackstopManagerErrors,
        >(BackstopManagerErrors::InvalidScope),
{
}

/// Setting a list of more than `MAX_VALID_LIST_LEN` addresses fails for
/// every caller, and for the owner it fails with `ContractListOverMax`.
pub proof fn lemma_set_list_refuses_long_list(
    m: BackstopManagerView,
    from: CallerView,
    list: Seq<Seq<char>>,
)
    requires
        list.len() > MAX_VALID_LIST_LEN,
    ensures
        spec_replace(list) == Err::<Seq<Seq<char>>, BackstopManagerErrors>(
            BackstopManagerErrors::ContractListOverMax,
        ),
        spec_set_backstops(m, from, list) is Err,
        spec_set_pools(m, from, list) is Err,
        spec_enter_as_owner(m, from) is Ok ==> spec_set_backstops(m, from, list) == Err::<
            BackstopManagerView,
            BackstopManagerErrors,
        >(BackstopManagerErrors::ContractListOverMax),
        spec_enter_as_owner(m, from) is Ok ==> spec_set_pools(m, from, list) == Err::<
            BackstopManagerView,
            BackstopManagerErrors,
        >(BackstopManagerErrors::ContractListOverMax),
{
}

/// An operation on a backstop that names a backstop or a pool that is not
/// approved ends in no call, whoever asks; asked by a caller who passes the
/// check of its scope, it fails with `InvalidContractAddress`. So does the
/// claim of a bootstrap for a backstop that is not approved: nothing is
/// authorized for that backstop and nothing is claimed.
pub proof fn lemma_unapproved_target_moves_nothing(
    m: BackstopManagerView,
    from: CallerView,
    backstop: Seq<char>,
    pool_address: Seq<char>,
    amount: i128,
    bootstrap: BootstrapReferenceView,
    tokens: Seq<Seq<char>>,
)
    requires
        m.storage matches Some(e) ==> !(e.backstops.contains(backstop) && e.pools.contains(
            pool_address,
        )),
    ensures
        spec_b_claim(m, from, backstop, pool_address) is Err,
        spec_b_deposit(m, from, backstop, pool_address, amount) is Err,
        spec_b_queue_withdrawal(m, from, backstop, pool_address, amount) is Err,
        spec_b_dequeue_withdrawal(m, from, backstop, pool_address, amount) is Err,
        spec_b_withdraw(m, from, backstop, pool_address, amount) is Err,
        spec_enter(m, from, SCOPE_LOW) is Ok ==> spec_b_claim(m, from, backstop, pool_address)
            == Err::<PlanView, BackstopManagerErrors>(
            BackstopManagerErrors::InvalidContractAddress,
        ),
        spec_enter(m, from, SCOPE_MEDIUM) is Ok ==> {
            &&& spec_b_deposit(m, from, backstop, pool_address, amount) == Err::<
                PlanView,
                BackstopManagerErrors,
            >(BackstopManagerErrors::InvalidContractAddress)
            &&& spec_b_queue_withdrawal(m, from, backstop, pool_address, amount) == Err::<
                PlanView,
                BackstopManagerErrors,
            >(BackstopManagerErrors::InvalidContractAddress)
            &&& spec_b_dequeue_withdrawal(m, from, backstop, pool_address, amount) == Err::<
                PlanView,
                BackstopManagerErrors,
            >(BackstopManagerErrors::InvalidContractAddress)
        },
        spec_enter(m, from, SCOPE_HIGH) is Ok ==> spec_b_withdraw(
            m,
            from,
            backstop,
            pool_address,
            amount,
        ) == Err::<PlanView, BackstopManagerErrors>(BackstopManagerErrors::InvalidContractAddress),
        (m.storage matches Some(e) ==> !e.backstops.contains(backstop)) ==> {
            &&& spec_bb_claim_token(m, from, backstop, bootstrap.asset_index, tokens) is Err
            &&& spec_bb_claim_bootstrap(m, from, bootstrap, backstop, tokens) is Err
            &&& spec_enter(m, from, SCOPE_LOW) is Ok ==> spec_bb_claim_bootstrap(
                m,
                from,
                bootstrap,
                backstop,
                tokens,
            ) == Err::<PlanView, BackstopManagerErrors>(
                BackstopManagerErrors::InvalidContractAddress,
            )
        },
{
}

/// The claim of a bootstrap whose token is no token of the liquidity pool
/// ends in no call, whoever asks; asked by a caller who may claim, for an
/// approved backstop, it fails with `InvalidTokenIndex`.
pub proof fn lemma_claim_refuses_token_index_out_of_range(
    m: BackstopManagerView,
    from: CallerView,
    bootstrap: BootstrapReferenceView,
    backstop: Seq<char>,
    tokens: Seq<Seq<char>>,
)
    requires
        bootstrap.asset_index >= tokens.len(),
    ensures
        spec_bb_claim_token(m, from, backstop, bootstrap.asset_index, tokens) is Err,
        spec_bb_claim_bootstrap(m, from, bootstrap, backstop, tokens) is Err,
        spec_enter(m, from, SCOPE_LOW) is Ok && m.storage->0.backstops.contains(backstop)
            ==> spec_bb_claim_bootstrap(m, from, bootstrap, backstop, tokens) == Err::<
            PlanView,
            BackstopManagerErrors,
        >(BackstopManagerErrors::InvalidTokenIndex),
{
}

/// A claim of a bootstrap that does end in a call is for an approved
/// backstop and for a token of the liquidity pool, and the host was told to
/// read the weight of that token.
pub proof fn lemma_claim_names_approved_backstop(
    m: BackstopManagerView,
    from: CallerView,
    bootstrap: BootstrapReferenceView,
    backstop: Seq<char>,
    tokens: Seq<Seq<char>>,
)
    requires
        spec_bb_claim_bootstrap(m, from, bootstrap, backstop, tokens) is Ok,
    ensures
        m.storage is Some,
        m.storage->0.backstops.contains(backstop),
        bootstrap.asset_index < tokens.len(),
        spec_bb_claim_token(m, from, backstop, bootstrap.asset_index, tokens) == Ok::<
            Seq<char>,
            BackstopManagerErrors,
        >(tokens[bootstrap.asset_index as int]),
{
}

/// Joining the liquidity pool authorizes one approval for each token of the
/// pool, in order, for the amount given for that token, and all approvals
/// expire at the same ledger: the first window boundary after the current
/// ledger, no more than one window away.
pub proof fn lemma_join_approvals_expire_at_next_boundary(
    m: BackstopManagerView,
    from: CallerView,
    pool_amount_out: i128,
    max_amounts_in: Seq<i128>,
    tokens: Seq<Seq<char>>,
    ledger_sequence: u32,
)
    requires
        spec_c_join_pool(m, from, pool_amount_out, max_amounts_in, tokens, ledger_sequence) is Ok,
    ensures
        ({
            let plan = spec_c_join_pool(
                m,
                from,
                pool_amount_out,
                max_amounts_in,
                tokens,
                ledger_sequence,
            )->Ok_0;
            let expiry = spec_approval_ledger(ledger_sequence);
            &&& plan.authorizations.len() == tokens.len()
            &&& tokens.len() > 0 ==> {
                &&& expiry <= u32::MAX
                &&& expiry % (APPROVAL_LEDGER_WINDOW as int) == 0
                &&& ledger_sequence < expiry <= ledger_sequence + APPROVAL_LEDGER_WINDOW
            }
            &&& forall|i: int|
                0 <= i < tokens.len() ==> #[trigger] plan.authorizations[i] == (InvocationView {
                    call: spec_approve(
                        tokens[i],
                        m.contract,
                        m.storage->0.backstop_token,
                        max_amounts_in[i],
                        expiry as u32,
                    ),
                    sub_invocations: Seq::empty(),
                })
        }),
        ledger_sequence < 4294900000 ==> spec_approval_ledger(ledger_sequence) <= u32::MAX,
{
}

/// An operation on a backstop that does end in a call names an approved
/// backstop and an approved pool.
pub proof fn lemma_backstop_call_names_approved_targets(
    m: BackstopManagerView,
    from: CallerView,
    backstop: Seq<char>,
    pool_address: Seq<char>,
    amount: i128,
)
    requires
        spec_b_claim(m, from, backstop, pool_address) is Ok || spec_b_deposit(
            m,
            from,
            backstop,
            pool_address,
            amount,
        ) is Ok || spec_b_queue_withdrawal(m, from, backstop, pool_address, amount) is Ok
            || spec_b_dequeue_withdrawal(m, from, backstop, pool_address, amount) is Ok
            || spec_b_withdraw(m, from, backstop, pool_address, amount) is Ok,
    ensures
        m.storage is Some,
        spec_require_backstop_and_pool_valid(m.storage->0, backstop, pool_address) is Ok,
        m.storage->0.backstops.contains(backstop),
        m.storage->0.pools.contains(pool_address),
{
}

/// The release to the owner fails with `InvalidUnlockTime` at every time
/// before the unlock time. At the unlock time and at every time after it, it
/// succeeds and transfers each holding whole to the owner.
pub proof fn lemma_release_waits_for_unlock(
    m: BackstopManagerView,
    from: CallerView,
    now: u64,
    holdings: Seq<HoldingView>,
)
    requires
        spec_enter_as_owner(m, from) is Ok,
    ensures
        now < m.storage->0.unlock ==> spec_claim_all(m, from, now, holdings) == Err::<
            Seq<ActionView>,
            BackstopManagerErrors,
        >(BackstopManagerErrors::InvalidUnlockTime),
        now >= m.storage->0.unlock ==> spec_claim_all(m, from, now, holdings) == Ok::<
            Seq<ActionView>,
            BackstopManagerErrors,
        >(spec_release(holdings, m.contract, m.storage->0.owner)),
        spec_release(holdings, m.contract, m.storage->0.owner).len() == holdings.len(),
        forall|i: int|
            0 <= i < holdings.len() ==> #[trigger] spec_release(
                holdings,
                m.contract,
                m.storage->0.owner,
            )[i] == (ActionView::Transfer {
                token: holdings[i].token,
                from: m.contract,
                to: m.storage->0.owner,
                amount: holdings[i].balance,
            }),
{
}

/// Nobody but the owner has the holdings released, at any time.
pub proof fn lemma_release_is_for_the_owner(
    m: BackstopManagerView,
    from: CallerView,
    now: u64,
    holdings: Seq<HoldingView>,
)
    requires
        spec_claim_all(m, from, now, holdings) is Ok,
    ensures
        m.storage is Some,
        from.authenticated,
        from.id == m.storage->0.owner,
        now >= m.storage->0.unlock,
{
}

/// A list of distinct addresses that the owner sets is the list that is
/// read back, in the same order.
pub proof fn lemma_set_backstops_round_trip(
    m: BackstopManagerView,
    from: CallerView,
    backstops: Seq<Seq<char>>,
)
    requires
        spec_enter_as_owner(m, from) is Ok,
        backstops.len() <= MAX_VALID_LIST_LEN,
        backstops.no_duplicates(),
    ensures
        spec_set_backstops(m, from, backstops) is Ok,
        spec_set_backstops(m, from, backstops)->Ok_0.storage is Some,
        spec_set_backstops(m, from, backstops)->Ok_0.storage->0.backstops == backstops,
{
    lemma_ordered_set_of_distinct(backstops);
}

/// A list of distinct addresses that the owner sets is the list that is
/// read back, in the same order.
pub proof fn lemma_set_pools_round_trip(
    m: BackstopManagerView,
    from: CallerView,
    pools: Seq<Seq<char>>,
)
    requires
        spec_enter_as_owner(m, from) is Ok,
        pools.len() <= MAX_VALID_LIST_LEN,
        pools.no_duplicates(),
    ensures
        spec_set_pools(m, from, pools) is Ok,
        spec_set_pools(m, from, pools)->Ok_0.storage is Some,
        spec_set_pools(m, from, pools)->Ok_0.storage->0.pools == pools,
{
    lemma_ordered_set_of_distinct(pools);
}

/// Setting a list replaces the list: what is read back after a second
/// setting does not depend on the first.
pub proof fn lemma_set_backstops_replaces(
    m: BackstopManagerView,
    from: CallerView,
    first: Seq<Seq<char>>,
    second: Seq<Seq<char>>,
)
    requires
        spec_set_backstops(m, from, first) is Ok,
        spec_set_backstops(m, from, second) is Ok,
    ensures
        spec_set_backstops(spec_set_backstops(m, from, first)->Ok_0, from, second)
            == spec_set_backstops(m, from, second),
{
}

/// Setting a list replaces the list: what is read back after a second
/// setting does not depend on the first.
pub proof fn lemma_set_pools_replaces(
    m: BackstopManagerView,
    from: CallerView,
    first: Seq<Seq<char>>,
    second: Seq<Seq<char>>,
)
    requires
        spec_set_pools(m, from, first) is Ok,
        spec_set_pools(m, from, second) is Ok,
    ensures
        spec_set_pools(spec_set_pools(m, from, first)->Ok_0, from, second) == spec_set_pools(
            m,
            from,
            second,
        ),
{
}

/// A treasury is initialized once: initializing an initialized treasury
/// fails with `AlreadyInitializedError`, and a successful initialization
/// leaves a treasury that is initialized.
pub proof fn lemma_initialize_once(
    m: BackstopManagerView,
    owner: Seq<char>,
    manager: Seq<char>,
    admin_scope: u32,
    emitter: Seq<char>,
    bootstrapper: Seq<char>,
    backstop_token: Seq<char>,
    backstops: Seq<Seq<char>>,
    pools: Seq<Seq<char>>,
    unlock: u64,
    now: u64,
)
    ensures
        m.storage is Some ==> spec_initialize(
            m,
            owner,
            manager,
            admin_scope,
            emitter,
            bootstrapper,
            backstop_token,
            backstops,
            pools,
            unlock,
            now,
        ) == Err::<BackstopManagerView, BackstopManagerErrors>(
            BackstopManagerErrors::AlreadyInitializedError,
        ),
        spec_initialize(
            m,
            owner,
            manager,
            admin_scope,
            emitter,
            bootstrapper,
            backstop_token,
            backstops,
            pools,
            unlock,
            now,
        ) matches Ok(next) ==> {
            &&& m.storage is None
            &&& next.storage is Some
            &&& next.contract == m.contract
            &&& next.storage->0.owner == owner
            &&& next.storage->0.unlock == unlock
            &&& unlock > now
            &&& spec_valid(next)
        },
{
    lemma_ordered_set(backstops);
    lemma_ordered_set(pools);
}

/// Every administrative operation keeps a valid treasury valid: the scope
/// of the manager stays a legal scope, and the lists of approved contracts
/// stay free of repeats.
pub proof fn lemma_administration_keeps_valid(
    m: BackstopManagerView,
    from: CallerView,
    address: Seq<char>,
    scope: u32,
    list: Seq<Seq<char>>,
)
    requires
        spec_valid(m),
    ensures
        spec_set_manager(m, from, address, scope) matches Ok(next) ==> spec_valid(next),
        spec_set_backstop_bootstrapper(m, from, address) matches Ok(next) ==> spec_valid(next),
        spec_set_backstops(m, from, list) matches Ok(next) ==> spec_valid(next),
        spec_set_pools(m, from, list) matches Ok(next) ==> spec_valid(next),
        spec_update_backstop(m, from, address) matches Ok(next) ==> spec_valid(next),
{
    lemma_ordered_set(list);
    if m.storage is Some {
        lemma_append_if_absent(m.storage->0.backstops, address);
    }
}

/// No administrative operation is open to anyone but the owner, and none
/// touches the owner, the unlock time, the emitter, the backstop token or the
/// address of the treasury: they stay as initialization set them.
pub proof fn lemma_administration_keeps_what_is_set_once(
    m: BackstopManagerView,
    from: CallerView,
    address: Seq<char>,
    scope: u32,
    list: Seq<Seq<char>>,
    next: BackstopManagerView,
)
    requires
        spec_set_manager(m, from, address, scope) == Ok::<
            BackstopManagerView,
            BackstopManagerErrors,
        >(next) || spec_set_backstop_bootstrapper(m, from, address) == Ok::<
            BackstopManagerView,
            BackstopManagerErrors,
        >(next) || spec_set_backstops(m, from, list) == Ok::<
            BackstopManagerView,
            BackstopManagerErrors,
        >(next) || spec_set_pools(m, from, list) == Ok::<
            BackstopManagerView,
            BackstopManagerErrors,
        >(next) || spec_update_backstop(m, from, address) == Ok::<
            BackstopManagerView,
            BackstopManagerErrors,
        >(next),
    ensures
        m.storage is Some,
        from.authenticated && from.id == m.storage->0.owner,
        next.storage is Some,
        next.contract == m.contract,
        next.storage->0.owner == m.storage->0.owner,
        next.storage->0.unlock == m.storage->0.unlock,
        next.storage->0.emitter == m.storage->0.emitter,
        next.storage->0.backstop_token == m.storage->0.backstop_token,
{
}

/// Putting the backstop of the emitter on the list keeps every backstop
/// that was approved, in its place, and approves the one reported; doing it
/// again changes nothing.
pub proof fn lemma_update_backstop_appends(
    m: BackstopManagerView,
    from: CallerView,
    backstop: Seq<char>,
)
    requires
        spec_valid(m),
        spec_update_backstop(m, from, backstop) is Ok,
    ensures
        m.storage->0.backstops.is_prefix_of(
            spec_update_backstop(m, from, backstop)->Ok_0.storage->0.backstops,
        ),
        spec_update_backstop(m, from, backstop)->Ok_0.storage->0.backstops.contains(backstop),
        spec_update_backstop(spec_update_backstop(m, from, backstop)->Ok_0, from, backstop)
            == spec_update_backstop(m, from, backstop),
{
    lemma_append_if_absent(m.storage->0.backstops, backstop);
}

} // verus!
