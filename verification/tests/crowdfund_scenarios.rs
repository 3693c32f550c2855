use escrow_engine::crowdfund::Crowdfund;
use escrow_engine::errors::EscrowError;
use escrow_engine::gateway::Payment;
use escrow_engine::phase::{derive_phase, State};

const ENGINE: u64 = 99;
const RECIPIENT: u64 = 1;
const ALICE: u64 = 2;
const BOB: u64 = 3;
const TOKEN: u64 = 7;
const DEADLINE: u64 = 100;

fn funded_escrow(target: i128) -> Crowdfund {
    let mut cf = Crowdfund::new(ENGINE);
    assert_eq!(cf.initialize(RECIPIENT, DEADLINE, target, TOKEN, 0), Ok(()));
    cf
}

#[test]
fn derive_phase_running_before_deadline() {
    assert_eq!(derive_phase(100, 1000, 0, 99), State::Running);
    assert_eq!(derive_phase(100, 1000, 5000, 99), State::Running);
}

#[test]
fn derive_phase_after_deadline_depends_on_target() {
    assert_eq!(derive_phase(100, 1000, 1000, 100), State::Success);
    assert_eq!(derive_phase(100, 1000, 999, 100), State::Expired);
    assert_eq!(derive_phase(100, 1000, 1500, 250), State::Success);
}

#[test]
fn derive_phase_same_inputs_same_phase() {
    let a = derive_phase(100, 1000, 800, 101);
    let b = derive_phase(100, 1000, 800, 101);
    assert_eq!(a, b);
}

#[test]
fn initialize_records_config() {
    let cf = funded_escrow(1000);
    assert_eq!(cf.recipient(), Ok(RECIPIENT));
    assert_eq!(cf.deadline(), Ok(DEADLINE));
    assert_eq!(cf.started(), Ok(0));
    assert_eq!(cf.target(), Ok(1000));
    assert_eq!(cf.token(), Ok(TOKEN));
    assert_eq!(cf.state(10), Ok(0));
}

#[test]
fn double_initialize_fails_and_keeps_config() {
    let mut cf = funded_escrow(1000);
    let second = cf.initialize(5, 999, 1, 8, 50);
    assert_eq!(second, Err(EscrowError::StateViolation));
    assert_eq!(cf.recipient(), Ok(RECIPIENT));
    assert_eq!(cf.deadline(), Ok(DEADLINE));
    assert_eq!(cf.target(), Ok(1000));
    assert_eq!(cf.token(), Ok(TOKEN));
}

#[test]
fn uninitialized_operations_fail() {
    let mut cf = Crowdfund::new(ENGINE);
    assert_eq!(cf.recipient(), Err(EscrowError::StateViolation));
    assert_eq!(cf.state(0), Err(EscrowError::StateViolation));
    assert_eq!(cf.balance(ALICE, 0), Err(EscrowError::StateViolation));
    assert_eq!(cf.deposit(ALICE, 5, 0), Err(EscrowError::StateViolation));
    assert_eq!(cf.withdraw(ALICE, 0), Err(EscrowError::StateViolation));
}

#[test]
fn deposit_pulls_funds_and_records_claim() {
    let mut cf = funded_escrow(1000);
    let p = cf.deposit(ALICE, 400, 10);
    assert_eq!(p, Ok(Payment { token: TOKEN, from: ALICE, to: ENGINE, amount: 400 }));
    assert_eq!(cf.balance(ALICE, 10), Ok(400));
    let p2 = cf.deposit(ALICE, 100, 20);
    assert_eq!(p2, Ok(Payment { token: TOKEN, from: ALICE, to: ENGINE, amount: 100 }));
    assert_eq!(cf.balance(ALICE, 20), Ok(500));
    assert_eq!(cf.balance(BOB, 20), Ok(0));
}

#[test]
fn deposit_rejects_non_positive_amount() {
    let mut cf = funded_escrow(1000);
    assert_eq!(cf.deposit(ALICE, 0, 10), Err(EscrowError::PreconditionViolation));
    assert_eq!(cf.deposit(ALICE, -5, 10), Err(EscrowError::PreconditionViolation));
    assert_eq!(cf.balance(ALICE, 10), Ok(0));
}

#[test]
fn deposit_rejects_recipient() {
    let mut cf = funded_escrow(1000);
    assert_eq!(cf.deposit(RECIPIENT, 100, 10), Err(EscrowError::AuthorizationFailure));
}

#[test]
fn deposit_rejects_after_deadline() {
    let mut cf = funded_escrow(1000);
    assert_eq!(cf.deposit(ALICE, 100, DEADLINE), Err(EscrowError::StateViolation));
    assert_eq!(cf.deposit(ALICE, 100, DEADLINE + 5), Err(EscrowError::StateViolation));
}

#[test]
fn withdraw_rejects_while_running() {
    let mut cf = funded_escrow(1000);
    assert_eq!(cf.deposit(ALICE, 400, 10), Ok(Payment { token: TOKEN, from: ALICE, to: ENGINE, amount: 400 }));
    assert_eq!(cf.withdraw(ALICE, 50), Err(EscrowError::StateViolation));
}

#[test]
fn failed_escrow_refunds_each_depositor_their_own_deposit() {
    // Target 1000, deposits 400 + 400: the escrow expires at the deadline
    // with 800 in custody and each depositor reclaims exactly their 400.
    let mut cf = funded_escrow(1000);
    assert_eq!(cf.deposit(ALICE, 400, 10), Ok(Payment { token: TOKEN, from: ALICE, to: ENGINE, amount: 400 }));
    assert_eq!(cf.deposit(BOB, 400, 20), Ok(Payment { token: TOKEN, from: BOB, to: ENGINE, amount: 400 }));
    assert_eq!(cf.state(DEADLINE + 1), Ok(2));
    let wa = cf.withdraw(ALICE, DEADLINE + 1);
    assert_eq!(wa, Ok(Payment { token: TOKEN, from: ENGINE, to: ALICE, amount: 400 }));
    let wb = cf.withdraw(BOB, DEADLINE + 1);
    assert_eq!(wb, Ok(Payment { token: TOKEN, from: ENGINE, to: BOB, amount: 400 }));
    // The recipient is barred after expiry.
    assert_eq!(cf.withdraw(RECIPIENT, DEADLINE + 1), Err(EscrowError::AuthorizationFailure));
}

#[test]
fn successful_escrow_pays_recipient_everything() {
    // Target 1000, deposits 600 + 500: custody 1100 meets the target and the
    // recipient sweeps the full balance; depositors get nothing back.
    let mut cf = funded_escrow(1000);
    assert_eq!(cf.deposit(ALICE, 600, 10), Ok(Payment { token: TOKEN, from: ALICE, to: ENGINE, amount: 600 }));
    assert_eq!(cf.deposit(BOB, 500, 20), Ok(Payment { token: TOKEN, from: BOB, to: ENGINE, amount: 500 }));
    assert_eq!(cf.state(DEADLINE + 1), Ok(1));
    // A depositor cannot withdraw under the Success phase.
    assert_eq!(cf.withdraw(ALICE, DEADLINE + 1), Err(EscrowError::AuthorizationFailure));
    let w = cf.withdraw(RECIPIENT, DEADLINE + 1);
    assert_eq!(w, Ok(Payment { token: TOKEN, from: ENGINE, to: RECIPIENT, amount: 1100 }));
    // A second sweep finds custody already empty: a zero-value no-op.
    assert_eq!(cf.state(DEADLINE + 2), Ok(2));
    let again = cf.withdraw(RECIPIENT, DEADLINE + 2);
    assert_eq!(again, Err(EscrowError::AuthorizationFailure));
}

#[test]
fn second_refund_is_a_zero_value_no_op() {
    let mut cf = funded_escrow(1000);
    assert_eq!(cf.deposit(ALICE, 400, 10), Ok(Payment { token: TOKEN, from: ALICE, to: ENGINE, amount: 400 }));
    let first = cf.withdraw(ALICE, DEADLINE + 1);
    assert_eq!(first, Ok(Payment { token: TOKEN, from: ENGINE, to: ALICE, amount: 400 }));
    let second = cf.withdraw(ALICE, DEADLINE + 1);
    assert_eq!(second, Ok(Payment { token: TOKEN, from: ENGINE, to: ALICE, amount: 0 }));
    // An account that never deposited gets the same zero-value no-op.
    let stranger = cf.withdraw(BOB, DEADLINE + 1);
    assert_eq!(stranger, Ok(Payment { token: TOKEN, from: ENGINE, to: BOB, amount: 0 }));
}

#[test]
fn stale_claim_after_sweep_is_refused_as_a_transfer_failure() {
    // Once the recipient has swept, custody is empty but the deposit records
    // remain; the derived phase then reads Expired.  A depositor's refund
    // would order more than custody holds, so the engine refuses it the way
    // the gateway would.
    let mut cf = funded_escrow(1000);
    assert_eq!(cf.deposit(ALICE, 1200, 10), Ok(Payment { token: TOKEN, from: ALICE, to: ENGINE, amount: 1200 }));
    assert_eq!(cf.state(DEADLINE + 1), Ok(1));
    assert_eq!(
        cf.withdraw(RECIPIENT, DEADLINE + 1),
        Ok(Payment { token: TOKEN, from: ENGINE, to: RECIPIENT, amount: 1200 })
    );
    assert_eq!(cf.state(DEADLINE + 2), Ok(2));
    assert_eq!(cf.withdraw(ALICE, DEADLINE + 2), Err(EscrowError::ExternalTransferFailure));
}

#[test]
fn balance_reports_custody_to_recipient_on_success() {
    let mut cf = funded_escrow(500);
    assert_eq!(cf.deposit(ALICE, 600, 10), Ok(Payment { token: TOKEN, from: ALICE, to: ENGINE, amount: 600 }));
    assert_eq!(cf.balance(RECIPIENT, DEADLINE), Ok(600));
    assert_eq!(cf.balance(ALICE, DEADLINE), Ok(0));
    // Before the deadline the same query reports the depositor's own claim.
    assert_eq!(cf.balance(ALICE, 10), Ok(600));
}
