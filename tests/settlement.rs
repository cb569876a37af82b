use ink::env::test::{default_accounts, get_account_balance, run_test};
use ink::env::DefaultEnvironment;
use ink::primitives::AccountId;
use payable::{is_reconciled, platform_fee, Benefactor, Disbursement, Payable, SettlementError, Transfer};

fn account(n: u8) -> AccountId {
    AccountId::from([n; 32])
}

fn benefactor(id: AccountId, amount: u128) -> Benefactor {
    Benefactor { id, amount }
}

fn transfer(to: AccountId, amount: u128) -> Transfer {
    Transfer { to, amount }
}

/// Makes every transfer of the disbursement through ink's off-chain
/// environment, stopping at the first failure.
fn run(mut d: Disbursement) -> Result<(), SettlementError> {
    while let Some(t) = d.next_transfer() {
        let outcome = ink::env::transfer::<DefaultEnvironment>(t.to, t.amount);
        d = d.record(outcome)?;
    }
    Ok(())
}

fn balance(a: AccountId) -> u128 {
    get_account_balance::<DefaultEnvironment>(a).expect("Cannot get account balance")
}

#[test]
fn it_sends_funds() {
    run_test::<DefaultEnvironment, _>(|_| {
        let accounts = default_accounts::<DefaultEnvironment>();
        let company = accounts.frank;
        let total: u128 = 100;

        let expected_company_fee: u128 = 15;
        let receiver = Benefactor { id: accounts.django, amount: (total - 15) % 2 };
        let receiver2 = Benefactor { id: accounts.eve, amount: (total - 15) - receiver.amount };
        let benefactors = vec![receiver, receiver2];

        let contract = Payable::new(company, expected_company_fee);
        let disbursement = contract.distribute(total, benefactors.clone()).unwrap();
        run(disbursement).unwrap();

        assert_eq!(expected_company_fee, balance(company));
        for benefactor in benefactors {
            assert_eq!(benefactor.amount, balance(benefactor.id));
        }
        Ok(())
    })
    .unwrap();
}

#[test]
fn scenario_fee_fifteen_pays_platform_then_benefactors() {
    let (p, a, b) = (account(1), account(2), account(3));
    let engine = Payable::new(p, 15);
    let d = engine.distribute(100, vec![benefactor(a, 42), benefactor(b, 43)]).unwrap();
    assert_eq!(d.transfers(), &vec![transfer(p, 15), transfer(a, 42), transfer(b, 43)]);
    assert_eq!(d.paid_count(), 0);
    assert!(!d.is_settled());
}

#[test]
fn scenario_sum_above_payment_is_rejected() {
    let (p, a, b) = (account(1), account(2), account(3));
    let engine = Payable::new(p, 15);
    let r = engine.distribute(100, vec![benefactor(a, 42), benefactor(b, 44)]);
    assert!(matches!(r, Err(SettlementError::Reconciliation)));
}

#[test]
fn sum_below_payment_is_rejected() {
    let (p, a, b) = (account(1), account(2), account(3));
    let engine = Payable::new(p, 15);
    let r = engine.distribute(100, vec![benefactor(a, 42), benefactor(b, 42)]);
    assert!(matches!(r, Err(SettlementError::Reconciliation)));
}

#[test]
fn rejected_settlement_moves_no_value() {
    run_test::<DefaultEnvironment, _>(|accounts| {
        let engine = Payable::new(accounts.frank, 15);
        let r = engine.distribute(
            100,
            vec![benefactor(accounts.django, 42), benefactor(accounts.eve, 44)],
        );
        assert!(matches!(r, Err(SettlementError::Reconciliation)));
        assert_eq!(balance(accounts.frank), 0);
        assert_eq!(balance(accounts.django), 0);
        assert_eq!(balance(accounts.eve), 0);
        Ok(())
    })
    .unwrap();
}

#[test]
fn zero_fee_sends_everything_to_benefactors() {
    let (p, a, b) = (account(1), account(2), account(3));
    let engine = Payable::new(p, 0);
    let d = engine.distribute(50, vec![benefactor(a, 20), benefactor(b, 30)]).unwrap();
    assert_eq!(d.transfers(), &vec![transfer(p, 0), transfer(a, 20), transfer(b, 30)]);
    let r = engine.distribute(50, vec![benefactor(a, 20), benefactor(b, 20)]);
    assert!(matches!(r, Err(SettlementError::Reconciliation)));
}

#[test]
fn duplicate_accounts_are_paid_once_per_entry() {
    run_test::<DefaultEnvironment, _>(|accounts| {
        let engine = Payable::new(accounts.frank, 10);
        let d = engine
            .distribute(100, vec![benefactor(accounts.eve, 60), benefactor(accounts.eve, 30)])
            .unwrap();
        assert_eq!(
            d.transfers(),
            &vec![transfer(accounts.frank, 10), transfer(accounts.eve, 60), transfer(accounts.eve, 30)]
        );
        run(d).unwrap();
        assert_eq!(balance(accounts.frank), 10);
        assert_eq!(balance(accounts.eve), 90);
        Ok(())
    })
    .unwrap();
}

#[test]
fn transfers_follow_the_plan_in_order() {
    let (p, a, b) = (account(1), account(2), account(3));
    let engine = Payable::new(p, 20);
    let mut d = engine.distribute(10, vec![benefactor(a, 3), benefactor(b, 5)]).unwrap();
    let mut made = Vec::new();
    while let Some(t) = d.next_transfer() {
        made.push(t);
        d = d.record(Ok(())).unwrap();
        assert_eq!(d.paid_count(), made.len());
    }
    assert!(d.is_settled());
    assert_eq!(made, vec![transfer(p, 2), transfer(a, 3), transfer(b, 5)]);
}

#[test]
fn failed_transfer_stops_the_rest() {
    let (p, a, b) = (account(1), account(2), account(3));
    let engine = Payable::new(p, 20);
    let d = engine.distribute(10, vec![benefactor(a, 3), benefactor(b, 5)]).unwrap();
    let d = d.record(Ok(())).unwrap();
    assert_eq!(d.next_transfer(), Some(transfer(a, 3)));
    let r = d.record(Err(ink::env::Error::TransferFailed));
    assert_eq!(
        r.map(|d| d.paid_count()),
        Err(SettlementError::Transfer {
            index: 1,
            recipient: a,
            cause: ink::env::Error::TransferFailed,
        })
    );
}

#[test]
fn failed_platform_transfer_pays_nobody() {
    let (p, a) = (account(1), account(2));
    let engine = Payable::new(p, 50);
    let d = engine.distribute(10, vec![benefactor(a, 5)]).unwrap();
    let r = d.record(Err(ink::env::Error::Unknown));
    assert_eq!(
        r.map(|d| d.paid_count()),
        Err(SettlementError::Transfer { index: 0, recipient: p, cause: ink::env::Error::Unknown })
    );
}

#[test]
fn report_after_settlement_changes_nothing() {
    let p = account(1);
    let engine = Payable::new(p, 100);
    let d = engine.distribute(7, vec![]).unwrap();
    assert_eq!(d.transfers(), &vec![transfer(p, 7)]);
    let d = d.record(Ok(())).unwrap();
    assert!(d.is_settled());
    assert_eq!(d.next_transfer(), None);
    let d = d.record(Err(ink::env::Error::TransferFailed)).unwrap();
    assert_eq!(d.paid_count(), 1);
}

#[test]
fn platform_fee_rounds_down() {
    assert_eq!(platform_fee(100, 15), Some(15));
    assert_eq!(platform_fee(99, 15), Some(14));
    assert_eq!(platform_fee(0, 15), Some(0));
    assert_eq!(platform_fee(1000, 0), Some(0));
    assert_eq!(platform_fee(7, 250), Some(17));
}

#[test]
fn platform_fee_on_the_largest_payment() {
    assert_eq!(platform_fee(u128::MAX, 15), Some(51042355038140769519506191114765231718));
    assert_eq!(platform_fee(u128::MAX, 100), Some(u128::MAX));
    assert_eq!(platform_fee(u128::MAX, 101), None);
    assert_eq!(platform_fee(u128::MAX, u128::MAX), None);
}

#[test]
fn fee_of_largest_payment_reconciles() {
    let (p, a) = (account(1), account(2));
    let fee: u128 = 51042355038140769519506191114765231718;
    let engine = Payable::new(p, 15);
    let d = engine.distribute(u128::MAX, vec![benefactor(a, u128::MAX - fee)]).unwrap();
    assert_eq!(d.transfers(), &vec![transfer(p, fee), transfer(a, u128::MAX - fee)]);
}

#[test]
fn overflowing_amounts_are_rejected() {
    let (p, a, b) = (account(1), account(2), account(3));
    let engine = Payable::new(p, 0);
    let r = engine.distribute(u128::MAX, vec![benefactor(a, u128::MAX), benefactor(b, 1)]);
    assert!(matches!(r, Err(SettlementError::Reconciliation)));
    assert!(!is_reconciled(u128::MAX, 0, &vec![benefactor(a, u128::MAX), benefactor(b, 1)]));
}

#[test]
fn rate_above_one_hundred() {
    let p = account(1);
    let engine = Payable::new(p, 101);
    assert_eq!(engine.fee(), 101);
    assert_eq!(engine.company_id(), p);
    let d = engine.distribute(1, vec![]).unwrap();
    assert_eq!(d.transfers(), &vec![transfer(p, 1)]);
    let r = Payable::new(p, 200).distribute(100, vec![]);
    assert!(matches!(r, Err(SettlementError::Reconciliation)));
}

#[test]
fn empty_payment_reconciles_with_no_benefactors() {
    assert!(is_reconciled(0, 15, &vec![]));
    assert!(is_reconciled(100, 15, &vec![benefactor(account(2), 85)]));
    assert!(!is_reconciled(100, 15, &vec![]));
}
