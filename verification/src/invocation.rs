//! The calls that the treasury authorizes ahead of time.
//!
//! A call into another program may make calls of its own that need the
//! authority of the treasury: a deposit draws the tokens it deposits. The
//! treasury authorizes such nested calls before it makes the outer call, by
//! naming each of them exactly: which contract, which function, which
//! arguments, and which calls inside that call in turn. A nested call that
//! is not named to the letter has to fail, and the outer call with it.

use vstd::prelude::*;
use crate::address::Address;
use crate::errors::BackstopManagerErrors;

verus! {

/// One argument of a call into another program.
#[derive(Debug, PartialEq, Eq)]
pub enum Value {
    Address(Address),
    I128(i128),
    U32(u32),
}

/// What a `Value` stands for.
pub enum ValueView {
    Address(Seq<char>),
    I128(i128),
    U32(u32),
}

impl View for Value {
    type V = ValueView;

    open spec fn view(&self) -> ValueView {
        match self {
            Value::Address(a) => ValueView::Address(a@),
            Value::I128(n) => ValueView::I128(*n),
            Value::U32(n) => ValueView::U32(*n),
        }
    }
}

impl DeepView for Value {
    type V = ValueView;

    open spec fn deep_view(&self) -> ValueView {
        self@
    }
}

impl Clone for Value {
    fn clone(&self) -> (copy: Value)
        ensures
            copy@ == self@,
    {
        match self {
            Value::Address(a) => Value::Address(a.clone()),
            Value::I128(n) => Value::I128(*n),
            Value::U32(n) => Value::U32(*n),
        }
    }
}

impl Value {
    /// Whether the two values are the same argument.
    pub fn matches(&self, other: &Value) -> (same: bool)
        ensures
            same == (self@ == other@),
    {
        match (self, other) {
            (Value::Address(a), Value::Address(b)) => a == b,
            (Value::I128(a), Value::I128(b)) => *a == *b,
            (Value::U32(a), Value::U32(b)) => *a == *b,
            _ => false,
        }
    }
}

/// A call into another program: the contract called, the function called on
/// it, and the arguments handed to it.
#[derive(Debug, PartialEq, Eq)]
pub struct Call {
    pub contract: Address,
    pub fn_name: String,
    pub args: Vec<Value>,
}

/// What a `Call` stands for.
pub struct CallView {
    pub contract: Seq<char>,
    pub fn_name: Seq<char>,
    pub args: Seq<ValueView>,
}

impl View for Call {
    type V = CallView;

    open spec fn view(&self) -> CallView {
        CallView {
            contract: self.contract@,
            fn_name: self.fn_name@,
            args: self.args.deep_view(),
        }
    }
}

impl DeepView for Call {
    type V = CallView;

    open spec fn deep_view(&self) -> CallView {
        self@
    }
}

/// The call that moves `amount` of `token` from `from` to `to`.
pub open spec fn spec_transfer(
    token: Seq<char>,
    from: Seq<char>,
    to: Seq<char>,
    amount: i128,
) -> CallView {
    CallView {
        contract: token,
        fn_name: "transfer"@,
        args: seq![ValueView::Address(from), ValueView::Address(to), ValueView::I128(amount)],
    }
}

/// The call that lets `spender` draw up to `amount` of `token` from `from`
/// until the ledger `expiration_ledger`.
pub open spec fn spec_approve(
    token: Seq<char>,
    from: Seq<char>,
    spender: Seq<char>,
    amount: i128,
    expiration_ledger: u32,
) -> CallView {
    CallView {
        contract: token,
        fn_name: "approve"@,
        args: seq![
            ValueView::Address(from),
            ValueView::Address(spender),
            ValueView::I128(amount),
            ValueView::U32(expiration_ledger),
        ],
    }
}

/// The call that deposits `amount` backstop tokens of `from` into `backstop`
/// for the pool `pool_address`.
pub open spec fn spec_deposit(
    backstop: Seq<char>,
    from: Seq<char>,
    pool_address: Seq<char>,
    amount: i128,
) -> CallView {
    CallView {
        contract: backstop,
        fn_name: "deposit"@,
        args: seq![
            ValueView::Address(from),
            ValueView::Address(pool_address),
            ValueView::I128(amount),
        ],
    }
}

impl Clone for Call {
    fn clone(&self) -> (copy: Call)
        ensures
            copy@ == self@,
    {
        let mut args: Vec<Value> = Vec::new();
        let mut i: usize = 0;
        while i < self.args.len()
            invariant
                i <= self.args.len(),
                args.deep_view() =~= self.args.deep_view().take(i as int),
            decreases self.args.len() - i,
        {
            let ghost before = args.deep_view();
            args.push(self.args[i].clone());
            assert(args.deep_view() =~= before.push(self.args[i as int]@));
            i += 1;
        }
        assert(self.args.deep_view().take(i as int) =~= self.args.deep_view());
        Call { contract: self.contract.clone(), fn_name: self.fn_name.clone(), args }
    }
}

impl Call {
    /// The call that moves `amount` of `token` from `from` to `to`.
    pub fn transfer(token: &Address, from: &Address, to: &Address, amount: i128) -> (call: Call)
        ensures
            call@ == spec_transfer(token@, from@, to@, amount),
    {
        let mut args: Vec<Value> = Vec::new();
        args.push(Value::Address(from.clone()));
        args.push(Value::Address(to.clone()));
        args.push(Value::I128(amount));
        let call = Call { contract: token.clone(), fn_name: String::from_str("transfer"), args };
        assert(call@.args =~= spec_transfer(token@, from@, to@, amount).args);
        call
    }

    /// The call that lets `spender` draw up to `amount` of `token` from
    /// `from` until the ledger `expiration_ledger`.
    pub fn approve(
        token: &Address,
        from: &Address,
        spender: &Address,
        amount: i128,
        expiration_ledger: u32,
    ) -> (call: Call)
        ensures
            call@ == spec_approve(token@, from@, spender@, amount, expiration_ledger),
    {
        let mut args: Vec<Value> = Vec::new();
        args.push(Value::Address(from.clone()));
        args.push(Value::Address(spender.clone()));
        args.push(Value::I128(amount));
        args.push(Value::U32(expiration_ledger));
        let call = Call { contract: token.clone(), fn_name: String::from_str("approve"), args };
        assert(call@.args =~= spec_approve(
            token@,
            from@,
            spender@,
            amount,
            expiration_ledger,
        ).args);
        call
    }

    /// The call that deposits `amount` backstop tokens of `from` into
    /// `backstop` for the pool `pool_address`.
    pub fn deposit(
        backstop: &Address,
        from: &Address,
        pool_address: &Address,
        amount: i128,
    ) -> (call: Call)
        ensures
            call@ == spec_deposit(backstop@, from@, pool_address@, amount),
    {
        let mut args: Vec<Value> = Vec::new();
        args.push(Value::Address(from.clone()));
        args.push(Value::Address(pool_address.clone()));
        args.push(Value::I128(amount));
        let call = Call { contract: backstop.clone(), fn_name: String::from_str("deposit"), args };
        assert(call@.args =~= spec_deposit(backstop@, from@, pool_address@, amount).args);
        call
    }

    /// Whether the two calls name the same contract, the same function and
    /// the same arguments.
    pub fn matches(&self, other: &Call) -> (same: bool)
        ensures
            same == (self@ == other@),
    {
        if self.contract != other.contract || self.fn_name != other.fn_name {
            return false;
        }
        if self.args.len() != other.args.len() {
            assert(self@.args.len() != other@.args.len());
            return false;
        }
        let mut i: usize = 0;
        while i < self.args.len()
            invariant
                i <= self.args.len(),
                self.args.len() == other.args.len(),
                forall|j: int| 0 <= j < i ==> self.args@[j]@ == other.args@[j]@,
            decreases self.args.len() - i,
        {
            if !self.args[i].matches(&other.args[i]) {
                assert(self@.args[i as int] != other@.args[i as int]);
                return false;
            }
            i += 1;
        }
        assert(self@.args =~= other@.args);
        true
    }
}

/// A call that the treasury authorizes ahead of time, with the calls that it
/// authorizes inside that call.
#[derive(Debug, PartialEq, Eq)]
pub struct Invocation {
    pub call: Call,
    pub sub_invocations: Vec<Invocation>,
}

/// What an `Invocation` stands for.
pub struct InvocationView {
    pub call: CallView,
    pub sub_invocations: Seq<InvocationView>,
}

/// What `invocation` stands for: its own call and, in order, what its
/// sub-invocations stand for.
pub open spec fn invocation_view(invocation: Invocation) -> InvocationView
    decreases invocation,
{
    InvocationView {
        call: invocation.call@,
        sub_invocations: Seq::new(
            invocation.sub_invocations@.len(),
            |i: int|
                if 0 <= i < invocation.sub_invocations@.len() {
                    invocation_view(invocation.sub_invocations@[i])
                } else {
                    arbitrary()
                },
        ),
    }
}

impl View for Invocation {
    type V = InvocationView;

    open spec fn view(&self) -> InvocationView {
        invocation_view(*self)
    }
}

impl DeepView for Invocation {
    type V = InvocationView;

    open spec fn deep_view(&self) -> InvocationView {
        self@
    }
}

/// The calls that `invocation` authorizes, in the order in which they are
/// made: its own call, then those of its sub-invocations.
pub open spec fn spec_expected_calls(invocation: InvocationView) -> Seq<CallView>
    decreases invocation, 0nat,
{
    seq![invocation.call] + spec_compose_chain(invocation.sub_invocations)
}

/// The calls that `roots` authorize, in the order in which they are made.
pub open spec fn spec_compose_chain(roots: Seq<InvocationView>) -> Seq<CallView>
    decreases roots, roots.len(),
{
    if roots.len() == 0 {
        Seq::empty()
    } else {
        spec_compose_chain(roots.drop_last()) + spec_expected_calls(roots.last())
    }
}

impl Invocation {
    /// The invocation of `call` that authorizes nothing inside it.
    pub fn leaf(call: Call) -> (invocation: Invocation)
        ensures
            invocation@ == (InvocationView { call: call@, sub_invocations: Seq::empty() }),
    {
        let invocation = Invocation { call, sub_invocations: Vec::new() };
        assert(invocation@.sub_invocations =~= Seq::empty());
        invocation
    }

    /// The invocation of `call` that authorizes `inner` inside it.
    pub fn around(call: Call, inner: Invocation) -> (invocation: Invocation)
        ensures
            invocation@ == (InvocationView { call: call@, sub_invocations: seq![inner@] }),
    {
        let mut sub_invocations: Vec<Invocation> = Vec::new();
        sub_invocations.push(inner);
        let invocation = Invocation { call, sub_invocations };
        assert(invocation@.sub_invocations =~= seq![inner@]);
        invocation
    }
}

/// Appends to `calls` the calls that `invocation` authorizes.
fn collect_expected_calls(invocation: &Invocation, calls: &mut Vec<Call>)
    ensures
        final(calls).deep_view() == old(calls).deep_view() + spec_expected_calls(invocation@),
    decreases invocation,
{
    let ghost start = calls.deep_view();
    calls.push(invocation.call.clone());
    assert(calls.deep_view() =~= start + seq![invocation@.call]);
    let mut i: usize = 0;
    assert(invocation@.sub_invocations.take(0) =~= Seq::empty());
    while i < invocation.sub_invocations.len()
        invariant
            i <= invocation.sub_invocations.len(),
            calls.deep_view() == start + seq![invocation@.call] + spec_compose_chain(
                invocation@.sub_invocations.take(i as int),
            ),
        decreases invocation.sub_invocations.len() - i,
    {
        let ghost subs = invocation@.sub_invocations;
        collect_expected_calls(&invocation.sub_invocations[i], calls);
        assert(subs.take(i + 1).drop_last() =~= subs.take(i as int));
        assert(subs.take(i + 1).last() == invocation.sub_invocations@[i as int]@);
        assert(calls.deep_view() =~= start + seq![invocation@.call] + spec_compose_chain(
            subs.take(i + 1),
        ));
        i += 1;
    }
    assert(invocation@.sub_invocations.take(i as int) =~= invocation@.sub_invocations);
    assert(calls.deep_view() =~= start + spec_expected_calls(invocation@));
}

/// The pre-authorizations of one top-level call, installed: the nested calls
/// that the treasury expects, in order, and how many of them were made.
///
/// Each expected call authorizes one nested call, once. A nested call passes
/// only if it is the next expected call, to the letter.
#[derive(Debug)]
pub struct Installed {
    expected: Vec<Call>,
    consumed: usize,
}

/// What an `Installed` stands for.
pub struct InstalledView {
    pub expected: Seq<CallView>,
    pub consumed: nat,
}

impl View for Installed {
    type V = InstalledView;

    closed spec fn view(&self) -> InstalledView {
        InstalledView { expected: self.expected.deep_view(), consumed: self.consumed as nat }
    }
}

/// Whether `actual` is the nested call that `installed` expects next.
pub open spec fn spec_expects(installed: InstalledView, actual: CallView) -> bool {
    installed.consumed < installed.expected.len() && installed.expected[installed.consumed as int]
        == actual
}

/// Whether the nested calls `actual`, made in order, are the calls that
/// `installed` expects next.
pub open spec fn spec_expects_all(installed: InstalledView, actual: Seq<CallView>) -> bool {
    &&& installed.consumed + actual.len() <= installed.expected.len()
    &&& forall|i: int|
        0 <= i < actual.len() ==> installed.expected[installed.consumed + i] == #[trigger] actual[i]
}

/// A run of nested calls is expected exactly if each call of it is expected
/// once those before it are used up.
pub proof fn lemma_expects_all_call_by_call(
    installed: InstalledView,
    first: CallView,
    rest: Seq<CallView>,
)
    ensures
        spec_expects_all(installed, seq![first] + rest) <==> spec_expects(installed, first)
            && spec_expects_all(
            InstalledView { consumed: installed.consumed + 1, ..installed },
            rest,
        ),
{
    let run = seq![first] + rest;
    let next = InstalledView { consumed: installed.consumed + 1, ..installed };
    if spec_expects_all(installed, run) {
        assert(run[0] == first);
        assert forall|i: int| 0 <= i < rest.len() implies next.expected[next.consumed + i]
            == #[trigger] rest[i] by {
            assert(run[i + 1] == rest[i]);
        }
    }
    if spec_expects(installed, first) && spec_expects_all(next, rest) {
        assert forall|i: int| 0 <= i < run.len() implies installed.expected[installed.consumed
            + i] == #[trigger] run[i] by {
            if i > 0 {
                assert(run[i] == rest[i - 1]);
            }
        }
    }
}

/// Installs the pre-authorizations `roots`: lays out, in the order in which
/// they will be made, the nested calls that the trees authorize.
pub fn compose_chain(roots: &Vec<Invocation>) -> (installed: Installed)
    ensures
        installed@ == (InstalledView {
            expected: spec_compose_chain(roots.deep_view()),
            consumed: 0,
        }),
{
    let mut expected: Vec<Call> = Vec::new();
    let mut i: usize = 0;
    assert(roots.deep_view().take(0) =~= Seq::empty());
    assert(expected.deep_view() =~= Seq::empty());
    while i < roots.len()
        invariant
            i <= roots.len(),
            expected.deep_view() == spec_compose_chain(roots.deep_view().take(i as int)),
        decreases roots.len() - i,
    {
        let ghost trees = roots.deep_view();
        collect_expected_calls(&roots[i], &mut expected);
        assert(trees.take(i + 1).drop_last() =~= trees.take(i as int));
        assert(trees.take(i + 1).last() == roots@[i as int]@);
        i += 1;
    }
    assert(roots.deep_view().take(i as int) =~= roots.deep_view());
    Installed { expected, consumed: 0 }
}

impl Installed {
    #[verifier::type_invariant]
    spec fn consumed_within_expected(self) -> bool {
        self.consumed <= self.expected.len()
    }

    /// The nested calls that are expected, made or not, in order.
    pub fn expected(&self) -> (calls: Vec<Call>)
        ensures
            calls.deep_view() == self@.expected,
    {
        let mut calls: Vec<Call> = Vec::new();
        let mut i: usize = 0;
        while i < self.expected.len()
            invariant
                i <= self.expected.len(),
                calls.deep_view() =~= self.expected.deep_view().take(i as int),
            decreases self.expected.len() - i,
        {
            let ghost before = calls.deep_view();
            calls.push(self.expected[i].clone());
            assert(calls.deep_view() =~= before.push(self.expected[i as int]@));
            i += 1;
        }
        assert(self.expected.deep_view().take(i as int) =~= self.expected.deep_view());
        calls
    }

    /// Checks a run of nested calls, made in the order given, against the
    /// expected calls.
    ///
    /// The run passes if each call is the next expected call when it is
    /// made. A run that passes uses up the calls it made; a run in which one
    /// call deviates uses up nothing.
    pub fn consume_all(&mut self, actual: &Vec<Call>) -> (passed: bool)
        ensures
            passed == spec_expects_all(old(self)@, actual.deep_view()),
            final(self)@.expected == old(self)@.expected,
            final(self)@.consumed == if passed {
                old(self)@.consumed + actual.deep_view().len()
            } else {
                old(self)@.consumed
            },
    {
        proof {
            use_type_invariant(&*self);
        }
        if actual.len() > self.expected.len() - self.consumed {
            return false;
        }
        let mut i: usize = 0;
        while i < actual.len()
            invariant
                i <= actual.len(),
                self.consumed + actual.len() <= self.expected.len(),
                forall|j: int|
                    0 <= j < i ==> self.expected.deep_view()[self.consumed + j]
                        == #[trigger] actual.deep_view()[j],
            decreases actual.len() - i,
        {
            if !self.expected[self.consumed + i].matches(&actual[i]) {
                assert(self.expected.deep_view()[self.consumed + i] != actual.deep_view()[i as int]);
                return false;
            }
            i += 1;
        }
        self.consumed = self.consumed + actual.len();
        true
    }

    /// How many expected calls have not been made yet.
    pub fn remaining(&self) -> (count: usize)
        ensures
            self@.consumed <= self@.expected.len(),
            count == self@.expected.len() - self@.consumed,
    {
        proof {
            use_type_invariant(self);
        }
        self.expected.len() - self.consumed
    }

    /// Checks the nested call `actual` against the next expected call.
    ///
    /// If contract, function and arguments are those expected, the expected
    /// call is used up and the call passes. Any other call, and any call
    /// once nothing is expected, is refused and uses nothing up: the
    /// top-level call it belongs to has to fail as a whole.
    pub fn consume(&mut self, actual: &Call) -> (passed: bool)
        ensures
            passed == spec_expects(old(self)@, actual@),
            final(self)@.expected == old(self)@.expected,
            final(self)@.consumed == if passed {
                old(self)@.consumed + 1
            } else {
                old(self)@.consumed
            },
    {
        proof {
            use_type_invariant(&*self);
        }
        if self.consumed < self.expected.len() && self.expected[self.consumed].matches(actual) {
            self.consumed = self.consumed + 1;
            true
        } else {
            false
        }
    }
}

/// The width of the windows of ledgers that approvals expire at the end of.
pub const APPROVAL_LEDGER_WINDOW: u32 = 100_000;

/// The ledger at which an approval given at ledger `sequence` expires: the
/// first window boundary after `sequence`.
pub open spec fn spec_approval_ledger(sequence: u32) -> int {
    (sequence / APPROVAL_LEDGER_WINDOW + 1) * APPROVAL_LEDGER_WINDOW
}

/// The expiry is a window boundary, lies after the ledger of the approval,
/// and no more than one window after it: approvals given in the same window
/// expire together.
pub proof fn lemma_approval_ledger_is_next_boundary(sequence: u32)
    ensures
        spec_approval_ledger(sequence) % (APPROVAL_LEDGER_WINDOW as int) == 0,
        sequence < spec_approval_ledger(sequence) <= sequence + APPROVAL_LEDGER_WINDOW,
{
}

/// Computes the ledger at which an approval given at ledger `sequence`
/// expires, or refuses with `OverflowError` where no ledger number can hold
/// it.
pub fn approval_ledger(sequence: u32) -> (expiry: Result<u32, BackstopManagerErrors>)
    ensures
        match expiry {
            Ok(ledger) => ledger == spec_approval_ledger(sequence),
            Err(e) => e == BackstopManagerErrors::OverflowError && spec_approval_ledger(sequence)
                > u32::MAX,
        },
{
    match (sequence / APPROVAL_LEDGER_WINDOW + 1).checked_mul(APPROVAL_LEDGER_WINDOW) {
        Some(ledger) => Ok(ledger),
        None => Err(BackstopManagerErrors::OverflowError),
    }
}

/// What a deposit into `backstop` needs authorized: the transfer of `amount`
/// backstop tokens from the treasury `custodian` to the backstop.
pub open spec fn spec_deposit_composition(
    backstop_token: Seq<char>,
    custodian: Seq<char>,
    backstop: Seq<char>,
    amount: i128,
) -> Seq<InvocationView> {
    seq![
        InvocationView {
            call: spec_transfer(backstop_token, custodian, backstop, amount),
            sub_invocations: Seq::empty(),
        },
    ]
}

/// What joining the liquidity pool `pool` needs authorized: for each token
/// of the pool, in order, the approval that lets the pool draw up to the
/// amount given for that token from the treasury `custodian`.
pub open spec fn spec_join_composition(
    tokens: Seq<Seq<char>>,
    max_amounts_in: Seq<i128>,
    custodian: Seq<char>,
    pool: Seq<char>,
    expiration_ledger: u32,
) -> Seq<InvocationView> {
    Seq::new(
        tokens.len(),
        |i: int|
            InvocationView {
                call: spec_approve(tokens[i], custodian, pool, max_amounts_in[i], expiration_ledger),
                sub_invocations: Seq::empty(),
            },
    )
}

/// What claiming a bootstrap needs authorized: the deposit of `amount`
/// backstop tokens of the treasury `custodian` into `backstop` for
/// `pool_address`, and inside it the transfer of those tokens to the
/// backstop.
pub open spec fn spec_bootstrap_claim_composition(
    backstop: Seq<char>,
    backstop_token: Seq<char>,
    custodian: Seq<char>,
    pool_address: Seq<char>,
    amount: i128,
) -> Seq<InvocationView> {
    seq![
        InvocationView {
            call: spec_deposit(backstop, custodian, pool_address, amount),
            sub_invocations: spec_deposit_composition(backstop_token, custodian, backstop, amount),
        },
    ]
}

/// Declares what a deposit into `backstop` needs authorized.
pub fn deposit_composition(
    backstop_token: &Address,
    custodian: &Address,
    backstop: &Address,
    amount: i128,
) -> (roots: Vec<Invocation>)
    ensures
        roots.deep_view() == spec_deposit_composition(
            backstop_token@,
            custodian@,
            backstop@,
            amount,
        ),
{
    let mut roots: Vec<Invocation> = Vec::new();
    roots.push(Invocation::leaf(Call::transfer(backstop_token, custodian, backstop, amount)));
    assert(roots.deep_view() =~= spec_deposit_composition(
        backstop_token@,
        custodian@,
        backstop@,
        amount,
    ));
    roots
}

/// Declares what joining the liquidity pool `pool` needs authorized.
pub fn join_composition(
    tokens: &Vec<Address>,
    max_amounts_in: &Vec<i128>,
    custodian: &Address,
    pool: &Address,
    expiration_ledger: u32,
) -> (roots: Vec<Invocation>)
    requires
        tokens.len() <= max_amounts_in.len(),
    ensures
        roots.deep_view() == spec_join_composition(
            tokens.deep_view(),
            max_amounts_in@,
            custodian@,
            pool@,
            expiration_ledger,
        ),
{
    let mut roots: Vec<Invocation> = Vec::new();
    let mut index: usize = 0;
    while index < tokens.len()
        invariant
            index <= tokens.len(),
            tokens.len() <= max_amounts_in.len(),
            roots.deep_view() =~= spec_join_composition(
                tokens.deep_view(),
                max_amounts_in@,
                custodian@,
                pool@,
                expiration_ledger,
            ).take(index as int),
        decreases tokens.len() - index,
    {
        let ghost before = roots.deep_view();
        let amount = max_amounts_in[index];
        let approval = Invocation::leaf(
            Call::approve(&tokens[index], custodian, pool, amount, expiration_ledger),
        );
        roots.push(approval);
        assert(roots.deep_view() =~= before.push(approval@));
        index += 1;
    }
    roots
}

/// Declares what claiming a bootstrap needs authorized.
pub fn bootstrap_claim_composition(
    backstop: &Address,
    backstop_token: &Address,
    custodian: &Address,
    pool_address: &Address,
    amount: i128,
) -> (roots: Vec<Invocation>)
    ensures
        roots.deep_view() == spec_bootstrap_claim_composition(
            backstop@,
            backstop_token@,
            custodian@,
            pool_address@,
            amount,
        ),
{
    let transfer = Invocation::leaf(Call::transfer(backstop_token, custodian, backstop, amount));
    let deposit = Invocation::around(
        Call::deposit(backstop, custodian, pool_address, amount),
        transfer,
    );
    let mut roots: Vec<Invocation> = Vec::new();
    roots.push(deposit);
    assert(roots.deep_view() =~= spec_bootstrap_claim_composition(
        backstop@,
        backstop_token@,
        custodian@,
        pool_address@,
        amount,
    ));
    roots
}

/// Trees that authorize nothing inside them expect one call each: their
/// own, in the order of the trees.
pub proof fn lemma_compose_chain_of_leaves(roots: Seq<InvocationView>)
    requires
        forall|i: int| 0 <= i < roots.len() ==> (#[trigger] roots[i]).sub_invocations.len() == 0,
    ensures
        spec_compose_chain(roots).len() == roots.len(),
        forall|i: int| 0 <= i < roots.len() ==> spec_compose_chain(roots)[i] == roots[i].call,
    decreases roots.len(),
{
    if roots.len() > 0 {
        let front = roots.drop_last();
        assert forall|i: int| 0 <= i < front.len() implies (#[trigger] front[i]).sub_invocations.len()
            == 0 by {
            assert(front[i] == roots[i]);
        }
        lemma_compose_chain_of_leaves(front);
        let last = roots.last();
        assert(last == roots[roots.len() - 1]);
        assert(last.sub_invocations =~= Seq::empty());
        assert(spec_compose_chain(last.sub_invocations) =~= Seq::empty());
        assert(spec_expected_calls(last) =~= seq![last.call]);
        assert forall|i: int| 0 <= i < roots.len() implies spec_compose_chain(roots)[i]
            == roots[i].call by {
            if i < front.len() {
                assert(front[i] == roots[i]);
            }
        }
    }
}

/// A deposit expects one nested call: the transfer to the backstop.
pub proof fn lemma_deposit_composition_expects(
    backstop_token: Seq<char>,
    custodian: Seq<char>,
    backstop: Seq<char>,
    amount: i128,
)
    ensures
        spec_compose_chain(spec_deposit_composition(backstop_token, custodian, backstop, amount))
            == seq![spec_transfer(backstop_token, custodian, backstop, amount)],
{
    let roots = spec_deposit_composition(backstop_token, custodian, backstop, amount);
    assert(roots[0].sub_invocations.len() == 0);
    lemma_compose_chain_of_leaves(roots);
    assert(spec_compose_chain(roots) =~= seq![
        spec_transfer(backstop_token, custodian, backstop, amount),
    ]);
}

/// Joining a pool of `tokens.len()` tokens expects as many nested calls:
/// for each token, in order, the approval of the amount given for it.
pub proof fn lemma_join_composition_expects(
    tokens: Seq<Seq<char>>,
    max_amounts_in: Seq<i128>,
    custodian: Seq<char>,
    pool: Seq<char>,
    expiration_ledger: u32,
)
    ensures
        spec_join_composition(tokens, max_amounts_in, custodian, pool, expiration_ledger).len()
            == tokens.len(),
        spec_compose_chain(
            spec_join_composition(tokens, max_amounts_in, custodian, pool, expiration_ledger),
        ).len() == tokens.len(),
        forall|i: int|
            0 <= i < tokens.len() ==> #[trigger] spec_compose_chain(
                spec_join_composition(tokens, max_amounts_in, custodian, pool, expiration_ledger),
            )[i] == spec_approve(tokens[i], custodian, pool, max_amounts_in[i], expiration_ledger),
{
    let roots = spec_join_composition(tokens, max_amounts_in, custodian, pool, expiration_ledger);
    lemma_compose_chain_of_leaves(roots);
}

/// The claim of a bootstrap expects two nested calls: the deposit into the
/// backstop, then the transfer that the deposit makes.
pub proof fn lemma_bootstrap_claim_composition_expects(
    backstop: Seq<char>,
    backstop_token: Seq<char>,
    custodian: Seq<char>,
    pool_address: Seq<char>,
    amount: i128,
)
    ensures
        spec_compose_chain(
            spec_bootstrap_claim_composition(
                backstop,
                backstop_token,
                custodian,
                pool_address,
                amount,
            ),
        ) == seq![
            spec_deposit(backstop, custodian, pool_address, amount),
            spec_transfer(backstop_token, custodian, backstop, amount),
        ],
{
    let roots = spec_bootstrap_claim_composition(
        backstop,
        backstop_token,
        custodian,
        pool_address,
        amount,
    );
    let deposit = spec_deposit(backstop, custodian, pool_address, amount);
    let transfer = spec_transfer(backstop_token, custodian, backstop, amount);
    let root = roots[0];
    lemma_deposit_composition_expects(backstop_token, custodian, backstop, amount);
    assert(spec_compose_chain(root.sub_invocations) == seq![transfer]);
    assert(spec_expected_calls(root) == seq![deposit] + seq![transfer]);
    assert(roots.len() == 1);
    assert(roots.last() == root);
    assert(roots.drop_last().len() == 0);
    assert(spec_compose_chain(roots.drop_last()) == Seq::<CallView>::empty());
    assert(spec_compose_chain(roots) == Seq::<CallView>::empty() + spec_expected_calls(root));
    assert(Seq::<CallView>::empty() + (seq![deposit] + seq![transfer]) =~= seq![deposit, transfer]);
}

} // verus!
