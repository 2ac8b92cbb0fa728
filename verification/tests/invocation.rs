use backstop_manager::address::Address;
use backstop_manager::errors::BackstopManagerErrors;
use backstop_manager::invocation::{approval_ledger, bootstrap_claim_composition, compose_chain};
use backstop_manager::invocation::{deposit_composition, join_composition};
use backstop_manager::invocation::{Call, Invocation, Value, APPROVAL_LEDGER_WINDOW};

fn addr(name: &str) -> Address {
    Address::from_str(name)
}

#[test]
fn transfer_names_from_to_amount() {
    let call = Call::transfer(&addr("token"), &addr("a"), &addr("b"), 7);
    assert_eq!(call.contract, addr("token"));
    assert_eq!(call.fn_name, "transfer");
    assert_eq!(call.args, vec![Value::Address(addr("a")), Value::Address(addr("b")), Value::I128(7)]);
}

#[test]
fn approve_names_from_spender_amount_expiry() {
    let call = Call::approve(&addr("token"), &addr("a"), &addr("b"), 7, 200000);
    assert_eq!(call.contract, addr("token"));
    assert_eq!(call.fn_name, "approve");
    assert_eq!(
        call.args,
        vec![
            Value::Address(addr("a")),
            Value::Address(addr("b")),
            Value::I128(7),
            Value::U32(200000)
        ]
    );
}

#[test]
fn deposit_names_from_pool_amount() {
    let call = Call::deposit(&addr("backstop"), &addr("a"), &addr("pool"), 7);
    assert_eq!(call.contract, addr("backstop"));
    assert_eq!(call.fn_name, "deposit");
    assert_eq!(
        call.args,
        vec![Value::Address(addr("a")), Value::Address(addr("pool")), Value::I128(7)]
    );
}

#[test]
fn calls_match_to_the_letter() {
    let call = Call::transfer(&addr("token"), &addr("a"), &addr("b"), 7);
    assert!(call.matches(&call.clone()));
    assert!(call.matches(&Call::transfer(&addr("token"), &addr("a"), &addr("b"), 7)));
    assert!(!call.matches(&Call::transfer(&addr("other"), &addr("a"), &addr("b"), 7)));
    assert!(!call.matches(&Call::transfer(&addr("token"), &addr("c"), &addr("b"), 7)));
    assert!(!call.matches(&Call::transfer(&addr("token"), &addr("a"), &addr("c"), 7)));
    assert!(!call.matches(&Call::transfer(&addr("token"), &addr("a"), &addr("b"), 8)));
    assert!(!call.matches(&Call::deposit(&addr("token"), &addr("a"), &addr("b"), 7)));
    assert!(!call.matches(&Call::approve(&addr("token"), &addr("a"), &addr("b"), 7, 0)));
    let shorter = Call {
        contract: addr("token"),
        fn_name: String::from("transfer"),
        args: vec![Value::Address(addr("a")), Value::Address(addr("b"))],
    };
    assert!(!call.matches(&shorter));
    assert!(!shorter.matches(&call));
}

#[test]
fn values_match_by_kind_and_content() {
    assert!(Value::I128(7).matches(&Value::I128(7)));
    assert!(!Value::I128(7).matches(&Value::I128(8)));
    assert!(!Value::I128(7).matches(&Value::U32(7)));
    assert!(Value::U32(7).matches(&Value::U32(7)));
    assert!(Value::Address(addr("a")).matches(&Value::Address(addr("a"))));
    assert!(!Value::Address(addr("a")).matches(&Value::Address(addr("b"))));
    assert!(!Value::Address(addr("a")).matches(&Value::I128(0)));
    assert_eq!(Value::Address(addr("a")).clone(), Value::Address(addr("a")));
}

#[test]
fn approval_ledger_is_the_next_boundary() {
    assert_eq!(APPROVAL_LEDGER_WINDOW, 100000);
    assert_eq!(approval_ledger(0), Ok(100000));
    assert_eq!(approval_ledger(100), Ok(100000));
    assert_eq!(approval_ledger(99999), Ok(100000));
    assert_eq!(approval_ledger(100000), Ok(200000));
    assert_eq!(approval_ledger(100001), Ok(200000));
    assert_eq!(approval_ledger(1234567), Ok(1300000));
    assert_eq!(approval_ledger(4294899999), Ok(4294900000));
}

#[test]
fn approval_ledger_refuses_what_no_ledger_number_holds() {
    assert_eq!(approval_ledger(4294900000), Err(BackstopManagerErrors::OverflowError));
    assert_eq!(approval_ledger(u32::MAX), Err(BackstopManagerErrors::OverflowError));
}

#[test]
fn deposit_composition_is_one_transfer() {
    let roots = deposit_composition(&addr("lp"), &addr("treasury"), &addr("backstop"), 5);
    assert_eq!(
        roots,
        vec![Invocation {
            call: Call::transfer(&addr("lp"), &addr("treasury"), &addr("backstop"), 5),
            sub_invocations: vec![],
        }]
    );
}

#[test]
fn join_composition_is_one_approval_for_each_token() {
    let tokens = vec![addr("blnd"), addr("usdc")];
    let roots = join_composition(&tokens, &vec![11, 26], &addr("treasury"), &addr("lp"), 100000);
    assert_eq!(roots.len(), 2);
    assert_eq!(
        roots,
        vec![
            Invocation::leaf(Call::approve(&addr("blnd"), &addr("treasury"), &addr("lp"), 11, 100000)),
            Invocation::leaf(Call::approve(&addr("usdc"), &addr("treasury"), &addr("lp"), 26, 100000)),
        ]
    );
    let none = join_composition(&vec![], &vec![11, 26], &addr("treasury"), &addr("lp"), 100000);
    assert_eq!(none, vec![]);
    let spare = join_composition(&vec![addr("blnd")], &vec![11, 26], &addr("treasury"), &addr("lp"), 1);
    assert_eq!(
        spare,
        vec![Invocation::leaf(Call::approve(&addr("blnd"), &addr("treasury"), &addr("lp"), 11, 1))]
    );
}

#[test]
fn bootstrap_claim_composition_nests_the_transfer_in_the_deposit() {
    let roots = bootstrap_claim_composition(
        &addr("backstop"),
        &addr("lp"),
        &addr("treasury"),
        &addr("pool"),
        9,
    );
    assert_eq!(
        roots,
        vec![Invocation {
            call: Call::deposit(&addr("backstop"), &addr("treasury"), &addr("pool"), 9),
            sub_invocations: vec![Invocation {
                call: Call::transfer(&addr("lp"), &addr("treasury"), &addr("backstop"), 9),
                sub_invocations: vec![],
            }],
        }]
    );
    assert_eq!(
        roots[0],
        Invocation::around(
            Call::deposit(&addr("backstop"), &addr("treasury"), &addr("pool"), 9),
            Invocation::leaf(Call::transfer(&addr("lp"), &addr("treasury"), &addr("backstop"), 9)),
        )
    );
}

#[test]
fn compose_chain_expects_calls_in_the_order_they_are_made() {
    let roots = bootstrap_claim_composition(
        &addr("backstop"),
        &addr("lp"),
        &addr("treasury"),
        &addr("pool"),
        9,
    );
    let mut installed = compose_chain(&roots);
    assert_eq!(installed.remaining(), 2);
    assert_eq!(
        installed.expected(),
        vec![
            Call::deposit(&addr("backstop"), &addr("treasury"), &addr("pool"), 9),
            Call::transfer(&addr("lp"), &addr("treasury"), &addr("backstop"), 9),
        ]
    );
    // the transfer is not expected before the deposit it is made in
    assert!(!installed.consume(&Call::transfer(&addr("lp"), &addr("treasury"), &addr("backstop"), 9)));
    assert_eq!(installed.remaining(), 2);
    assert!(installed.consume(&Call::deposit(&addr("backstop"), &addr("treasury"), &addr("pool"), 9)));
    assert_eq!(installed.remaining(), 1);
    assert!(installed.consume(&Call::transfer(&addr("lp"), &addr("treasury"), &addr("backstop"), 9)));
    assert_eq!(installed.remaining(), 0);
    // each authorization is good for one call
    assert!(!installed.consume(&Call::transfer(&addr("lp"), &addr("treasury"), &addr("backstop"), 9)));
    assert!(!installed.consume(&Call::deposit(&addr("backstop"), &addr("treasury"), &addr("pool"), 9)));
    assert_eq!(installed.remaining(), 0);
    assert_eq!(installed.expected().len(), 2);
}

#[test]
fn compose_chain_walks_trees_depth_first() {
    let call = |name: &str| Call { contract: addr(name), fn_name: String::from("f"), args: vec![] };
    let tree = |name: &str, subs: Vec<Invocation>| Invocation { call: call(name), sub_invocations: subs };
    let roots = vec![
        tree("a", vec![tree("b", vec![tree("c", vec![])]), tree("d", vec![])]),
        tree("e", vec![]),
        tree("f", vec![tree("g", vec![])]),
    ];
    let mut installed = compose_chain(&roots);
    assert_eq!(installed.remaining(), 7);
    for name in ["a", "b", "c", "d", "e", "f", "g"] {
        assert!(installed.consume(&call(name)));
    }
    assert_eq!(installed.remaining(), 0);
}

#[test]
fn compose_chain_of_nothing_expects_nothing() {
    let mut installed = compose_chain(&vec![]);
    assert_eq!(installed.remaining(), 0);
    assert!(!installed.consume(&Call::transfer(&addr("lp"), &addr("a"), &addr("b"), 0)));
}

#[test]
fn a_call_that_deviates_is_refused() {
    let roots = deposit_composition(&addr("lp"), &addr("treasury"), &addr("backstop"), 5);
    // another amount
    let mut installed = compose_chain(&roots);
    assert!(!installed.consume(&Call::transfer(&addr("lp"), &addr("treasury"), &addr("backstop"), 6)));
    // another target
    assert!(!installed.consume(&Call::transfer(&addr("lp"), &addr("treasury"), &addr("thief"), 5)));
    // another contract
    assert!(!installed.consume(&Call::transfer(&addr("usdc"), &addr("treasury"), &addr("backstop"), 5)));
    // another function
    assert!(!installed.consume(&Call::approve(&addr("lp"), &addr("treasury"), &addr("backstop"), 5, 0)));
    assert_eq!(installed.remaining(), 1);
    assert!(installed.consume(&Call::transfer(&addr("lp"), &addr("treasury"), &addr("backstop"), 5)));
}

#[test]
fn a_run_of_calls_passes_or_uses_nothing_up() {
    let roots = bootstrap_claim_composition(
        &addr("backstop"),
        &addr("lp"),
        &addr("treasury"),
        &addr("pool"),
        9,
    );
    let deposit = Call::deposit(&addr("backstop"), &addr("treasury"), &addr("pool"), 9);
    let transfer = Call::transfer(&addr("lp"), &addr("treasury"), &addr("backstop"), 9);
    let other = Call::transfer(&addr("lp"), &addr("treasury"), &addr("backstop"), 10);

    let mut installed = compose_chain(&roots);
    assert!(installed.consume_all(&vec![deposit.clone(), transfer.clone()]));
    assert_eq!(installed.remaining(), 0);
    assert!(installed.consume_all(&vec![]));
    assert!(!installed.consume_all(&vec![deposit.clone()]));

    // a run that deviates at its end uses up nothing of its start
    let mut installed = compose_chain(&roots);
    assert!(!installed.consume_all(&vec![deposit.clone(), other.clone()]));
    assert_eq!(installed.remaining(), 2);
    assert!(!installed.consume_all(&vec![transfer.clone(), deposit.clone()]));
    assert!(!installed.consume_all(&vec![deposit.clone(), transfer.clone(), transfer.clone()]));
    assert_eq!(installed.remaining(), 2);

    // a run may stop before everything expected was called
    assert!(installed.consume_all(&vec![deposit.clone()]));
    assert_eq!(installed.remaining(), 1);
    assert!(!installed.consume_all(&vec![deposit]));
    assert!(!installed.consume_all(&vec![other]));
    assert!(installed.consume_all(&vec![transfer]));
    assert_eq!(installed.remaining(), 0);
}
