use anchor_testing::initialize;
use anchor_testing::program_id;
use anchor_testing::Context;
use anchor_testing::Initialize;

#[test]
fn initialize_returns_success() {
    let r = initialize(Context { accounts: Initialize {} });
    assert_eq!(r, Ok(()));
}

#[test]
fn initialize_result_is_independent_of_the_context() {
    let first = initialize(Context { accounts: Initialize {} });
    let second = initialize(Context { accounts: Initialize {} });
    assert_eq!(first, second);
    assert_eq!(first, Ok(()));
}

#[test]
fn contexts_carry_no_state() {
    let a = Context { accounts: Initialize {} };
    let b = Context { accounts: Initialize {} };
    assert_eq!(a, b);
    assert_eq!(a.accounts, b.accounts);
}

#[test]
fn program_id_is_fixed() {
    assert_eq!(program_id(), "49Eh4ZK6EbcmYUUfWe1h54hDw3iatLgM8Qdvmyb9Unwt");
}
