use pallet_crowdfund::{
    AccountId, Balance, Balances, BlockNumber, Config, CurrencyError, DispatchError, Error, Event,
    FundIndex, FundInfo, Pallet,
};

const ALICE: AccountId = 1;
const BOB: AccountId = 2;
const CAROL: AccountId = 3;
const DAVE: AccountId = 4;
const DEPOSIT: Balance = 100;
const RETIREMENT: BlockNumber = 7;

fn config(min_contribution: Balance) -> Config {
    Config { submission_deposit: DEPOSIT, min_contribution, retirement_period: RETIREMENT }
}

fn setup(min_contribution: Balance) -> Pallet {
    let mut bank = Balances::new();
    bank.deposit_creating(ALICE, 1_000);
    bank.deposit_creating(CAROL, 50_000);
    bank.deposit_creating(DAVE, 2_000);
    Pallet::new(config(min_contribution), bank)
}

/// A pallet with fund 0 opened by ALICE for BOB at time 0: goal 30000, end 10.
fn with_fund(min_contribution: Balance) -> Pallet {
    let mut pallet = setup(min_contribution);
    assert_eq!(pallet.create(ALICE, BOB, 30_000, 10, 0), Ok(0));
    pallet
}

fn rejected<T>(e: Error) -> Result<T, DispatchError> {
    Err(DispatchError::Crowdfund(e))
}

/// Everything that can be observed of a pallet, for the accounts of these tests.
fn snapshot(pallet: &Pallet) -> (Vec<Balance>, Vec<Option<FundInfo>>, Vec<Balance>, FundIndex, Vec<Event>) {
    let who: Vec<AccountId> = vec![
        ALICE,
        BOB,
        CAROL,
        DAVE,
        Pallet::fund_account_id(0),
        Pallet::fund_account_id(1),
    ];
    let balances: Vec<Balance> = who.iter().map(|w| pallet.free_balance(*w)).collect();
    let funds: Vec<Option<FundInfo>> = vec![pallet.funds(0), pallet.funds(1)];
    let held: Vec<Balance> = who.iter().map(|w| pallet.contribution_get(0, w)).collect();
    (balances, funds, held, pallet.fund_count(), pallet.events().clone())
}

#[test]
fn create_deducts_deposit_and_counts_up() {
    let mut pallet = setup(100);
    assert_eq!(pallet.create(ALICE, BOB, 30_000, 10, 0), Ok(0));
    assert_eq!(pallet.free_balance(ALICE), 900);
    assert_eq!(pallet.free_balance(Pallet::fund_account_id(0)), 100);
    assert_eq!(
        pallet.funds(0),
        Some(FundInfo { beneficiary: BOB, deposit: 100, raised: 0, end: 10, goal: 30_000 })
    );
    assert_eq!(pallet.fund_count(), 1);
    assert_eq!(pallet.create(ALICE, BOB, 30_000, 10, 0), Ok(1));
    assert_eq!(pallet.free_balance(ALICE), 800);
    assert_eq!(pallet.free_balance(Pallet::fund_account_id(1)), 100);
    assert_eq!(pallet.fund_count(), 2);
    assert_eq!(pallet.events().clone(), vec![Event::Created(0, 0), Event::Created(1, 0)]);
}

#[test]
fn contribute_records_raised_and_balance() {
    let mut pallet = with_fund(100);
    assert_eq!(pallet.contribute(CAROL, 0, 500, 5), Ok(500));
    assert_eq!(pallet.funds(0).unwrap().raised, 500);
    assert_eq!(pallet.contribution_get(0, &CAROL), 500);
    assert_eq!(pallet.free_balance(CAROL), 49_500);
    assert_eq!(pallet.free_balance(Pallet::fund_account_id(0)), 600);
    assert_eq!(
        pallet.events().clone(),
        vec![Event::Created(0, 0), Event::Contributed(CAROL, 0, 500, 5)]
    );
}

#[test]
fn contribution_too_small_changes_nothing() {
    let mut pallet = with_fund(100);
    let before = snapshot(&pallet);
    assert_eq!(pallet.contribute(CAROL, 0, 50, 5), rejected(Error::ContributionTooSmall));
    assert_eq!(snapshot(&pallet), before);
    assert_eq!(pallet.contribute(CAROL, 0, 99, 5), rejected(Error::ContributionTooSmall));
    assert_eq!(pallet.contribute(CAROL, 0, 100, 5), Ok(100));
}

#[test]
fn contribution_period_over() {
    let mut pallet = with_fund(1);
    let before = snapshot(&pallet);
    assert_eq!(pallet.contribute(CAROL, 0, 1, 11), rejected(Error::ContributionPeriodOver));
    assert_eq!(pallet.contribute(CAROL, 0, 1, 10), rejected(Error::ContributionPeriodOver));
    assert_eq!(snapshot(&pallet), before);
    assert_eq!(pallet.contribute(CAROL, 0, 1, 9), Ok(1));
}

#[test]
fn dissolve_removes_fund_and_refunds_deposit() {
    let mut pallet = with_fund(100);
    assert_eq!(pallet.contribute(CAROL, 0, 500, 5), Ok(500));
    assert_eq!(pallet.dissolve(DAVE, 0, 10 + RETIREMENT), Ok(()));
    assert_eq!(pallet.funds(0), None);
    assert_eq!(pallet.contribution_get(0, &CAROL), 0);
    assert_eq!(pallet.free_balance(BOB), 100);
    assert_eq!(pallet.free_balance(Pallet::fund_account_id(0)), 500);
    assert_eq!(pallet.events().last(), Some(&Event::Dissolved(0, 17, DAVE)));
    assert_eq!(pallet.dispense(DAVE, 0, 18), rejected(Error::InvalidIndex));
    assert_eq!(pallet.dissolve(DAVE, 0, 18), rejected(Error::InvalidIndex));
}

#[test]
fn dispense_pays_beneficiary_everything() {
    let mut pallet = with_fund(100);
    assert_eq!(pallet.contribute(CAROL, 0, 29_000, 5), Ok(29_000));
    assert_eq!(pallet.contribute(DAVE, 0, 1_000, 9), Ok(1_000));
    assert_eq!(pallet.free_balance(Pallet::fund_account_id(0)), 30_100);
    assert_eq!(pallet.dispense(DAVE, 0, 10), Ok(()));
    assert_eq!(pallet.free_balance(BOB), 30_100);
    assert_eq!(pallet.free_balance(Pallet::fund_account_id(0)), 0);
    assert_eq!(pallet.funds(0), None);
    assert_eq!(pallet.events().last(), Some(&Event::Dispensed(0, 10, DAVE)));
    assert_eq!(pallet.withdraw(CAROL, 0, 11), rejected(Error::InvalidIndex));
    assert_eq!(pallet.contribution_get(0, &CAROL), 29_000);
}

#[test]
fn create_rejects_an_end_that_is_not_after_now() {
    let mut pallet = setup(100);
    let before = snapshot(&pallet);
    assert_eq!(pallet.create(ALICE, BOB, 30_000, 10, 10), rejected(Error::EndTooEarly));
    assert_eq!(pallet.create(ALICE, BOB, 30_000, 3, 10), rejected(Error::EndTooEarly));
    assert_eq!(snapshot(&pallet), before);
    assert_eq!(pallet.create(ALICE, BOB, 30_000, 11, 10), Ok(0));
}

#[test]
fn create_without_the_deposit_consumes_no_index() {
    let mut pallet = setup(100);
    let before = snapshot(&pallet);
    assert_eq!(
        pallet.create(BOB, BOB, 30_000, 10, 0),
        Err(DispatchError::Currency(CurrencyError::InsufficientBalance))
    );
    assert_eq!(snapshot(&pallet), before);
    assert_eq!(pallet.fund_count(), 0);
    assert_eq!(pallet.create(ALICE, BOB, 30_000, 10, 0), Ok(0));
}

#[test]
fn contribute_rejects_an_unknown_fund() {
    let mut pallet = with_fund(100);
    let before = snapshot(&pallet);
    assert_eq!(pallet.contribute(CAROL, 1, 500, 5), rejected(Error::InvalidIndex));
    assert_eq!(snapshot(&pallet), before);
}

#[test]
fn contribute_checks_the_amount_before_the_fund() {
    let mut pallet = with_fund(100);
    assert_eq!(pallet.contribute(CAROL, 1, 50, 5), rejected(Error::ContributionTooSmall));
    assert_eq!(pallet.contribute(CAROL, 0, 50, 11), rejected(Error::ContributionTooSmall));
}

#[test]
fn contribute_beyond_the_callers_means_changes_nothing() {
    let mut pallet = with_fund(100);
    let before = snapshot(&pallet);
    assert_eq!(
        pallet.contribute(DAVE, 0, 2_001, 5),
        Err(DispatchError::Currency(CurrencyError::InsufficientBalance))
    );
    assert_eq!(snapshot(&pallet), before);
    assert_eq!(pallet.contribute(DAVE, 0, 2_000, 5), Ok(2_000));
}

#[test]
fn contributions_accumulate_per_contributor() {
    let mut pallet = with_fund(100);
    assert_eq!(pallet.contribute(CAROL, 0, 500, 1), Ok(500));
    assert_eq!(pallet.contribute(DAVE, 0, 200, 2), Ok(200));
    assert_eq!(pallet.contribute(CAROL, 0, 300, 3), Ok(800));
    assert_eq!(pallet.funds(0).unwrap().raised, 1_000);
    assert_eq!(
        pallet.contribution_get(0, &CAROL) + pallet.contribution_get(0, &DAVE),
        pallet.funds(0).unwrap().raised
    );
    assert_eq!(pallet.free_balance(Pallet::fund_account_id(0)), DEPOSIT + 1_000);
}

#[test]
fn over_funding_is_accepted() {
    let mut pallet = with_fund(100);
    assert_eq!(pallet.contribute(CAROL, 0, 40_000, 1), Ok(40_000));
    assert_eq!(pallet.funds(0).unwrap().raised, 40_000);
    assert_eq!(pallet.dispense(ALICE, 0, 10), Ok(()));
    assert_eq!(pallet.free_balance(BOB), 40_100);
}

#[test]
fn withdraw_returns_the_contribution_after_a_failed_fund() {
    let mut pallet = with_fund(100);
    assert_eq!(pallet.contribute(CAROL, 0, 500, 5), Ok(500));
    assert_eq!(pallet.contribute(DAVE, 0, 200, 5), Ok(200));
    assert_eq!(pallet.withdraw(CAROL, 0, 10), Ok(500));
    assert_eq!(pallet.free_balance(CAROL), 50_000);
    assert_eq!(pallet.contribution_get(0, &CAROL), 0);
    assert_eq!(pallet.contribution_get(0, &DAVE), 200);
    assert_eq!(pallet.funds(0).unwrap().raised, 200);
    assert_eq!(pallet.free_balance(Pallet::fund_account_id(0)), 300);
    assert_eq!(pallet.events().last(), Some(&Event::Withdrew(CAROL, 0, 500, 10)));
    assert_eq!(pallet.withdraw(CAROL, 0, 11), rejected(Error::NoContribution));
    assert_eq!(pallet.withdraw(DAVE, 0, 10 + RETIREMENT + 5), Ok(200));
    assert_eq!(pallet.funds(0).unwrap().raised, 0);
}

#[test]
fn withdraw_is_refused_while_the_fund_is_live() {
    let mut pallet = with_fund(100);
    assert_eq!(pallet.contribute(CAROL, 0, 500, 5), Ok(500));
    let before = snapshot(&pallet);
    assert_eq!(pallet.withdraw(CAROL, 0, 9), rejected(Error::FundStillActive));
    assert_eq!(pallet.withdraw(ALICE, 0, 9), rejected(Error::FundStillActive));
    assert_eq!(pallet.withdraw(CAROL, 1, 9), rejected(Error::InvalidIndex));
    assert_eq!(snapshot(&pallet), before);
}

#[test]
fn withdraw_is_refused_once_the_goal_is_met() {
    let mut pallet = with_fund(100);
    assert_eq!(pallet.contribute(CAROL, 0, 30_000, 5), Ok(30_000));
    let before = snapshot(&pallet);
    assert_eq!(pallet.withdraw(CAROL, 0, 12), rejected(Error::FundStillActive));
    assert_eq!(snapshot(&pallet), before);
}

#[test]
fn withdraw_without_a_contribution_is_refused() {
    let mut pallet = with_fund(100);
    assert_eq!(pallet.contribute(CAROL, 0, 500, 5), Ok(500));
    let before = snapshot(&pallet);
    assert_eq!(pallet.withdraw(DAVE, 0, 12), rejected(Error::NoContribution));
    assert_eq!(snapshot(&pallet), before);
}

#[test]
fn dissolve_waits_for_the_end_and_the_retirement_period() {
    let mut pallet = with_fund(100);
    assert_eq!(pallet.contribute(CAROL, 0, 500, 5), Ok(500));
    let before = snapshot(&pallet);
    assert_eq!(pallet.dissolve(DAVE, 0, 9), rejected(Error::FundStillActive));
    assert_eq!(pallet.dissolve(DAVE, 0, 10), rejected(Error::FundNotRetired));
    assert_eq!(pallet.dissolve(DAVE, 0, 10 + RETIREMENT - 1), rejected(Error::FundNotRetired));
    assert_eq!(snapshot(&pallet), before);
    assert_eq!(pallet.dissolve(DAVE, 0, 10 + RETIREMENT), Ok(()));
}

#[test]
fn dissolve_is_refused_for_a_fund_that_met_its_goal() {
    let mut pallet = with_fund(100);
    assert_eq!(pallet.contribute(CAROL, 0, 30_000, 5), Ok(30_000));
    assert_eq!(pallet.dissolve(DAVE, 0, 10 + RETIREMENT + 100), rejected(Error::FundNotRetired));
    assert_eq!(pallet.funds(0).unwrap().raised, 30_000);
}

#[test]
fn dissolve_wipes_only_its_own_namespace() {
    let mut pallet = with_fund(100);
    assert_eq!(pallet.create(ALICE, BOB, 1_000, 20, 0), Ok(1));
    assert_eq!(pallet.contribute(CAROL, 0, 500, 5), Ok(500));
    assert_eq!(pallet.contribute(CAROL, 1, 700, 5), Ok(700));
    assert_eq!(pallet.dissolve(DAVE, 0, 17), Ok(()));
    assert_eq!(pallet.contribution_get(0, &CAROL), 0);
    assert_eq!(pallet.contribution_get(1, &CAROL), 700);
    assert_eq!(pallet.funds(1).unwrap().raised, 700);
    assert_eq!(pallet.free_balance(Pallet::fund_account_id(1)), 800);
}

#[test]
fn dispense_needs_the_end_and_the_goal() {
    let mut pallet = with_fund(100);
    assert_eq!(pallet.contribute(CAROL, 0, 500, 5), Ok(500));
    let before = snapshot(&pallet);
    assert_eq!(pallet.dispense(DAVE, 0, 9), rejected(Error::FundStillActive));
    assert_eq!(pallet.dispense(DAVE, 0, 10), rejected(Error::UnsuccessfulFund));
    assert_eq!(pallet.dispense(DAVE, 1, 10), rejected(Error::InvalidIndex));
    assert_eq!(snapshot(&pallet), before);
}

#[test]
fn dispense_is_refused_before_the_end_even_if_the_goal_is_met() {
    let mut pallet = with_fund(100);
    assert_eq!(pallet.contribute(CAROL, 0, 30_000, 5), Ok(30_000));
    assert_eq!(pallet.dispense(DAVE, 0, 9), rejected(Error::FundStillActive));
    assert_eq!(pallet.dispense(DAVE, 0, 10), Ok(()));
}

#[test]
fn dispense_that_the_beneficiary_cannot_hold_changes_nothing() {
    let mut bank = Balances::new();
    bank.deposit_creating(ALICE, 1_000);
    bank.deposit_creating(BOB, Balance::MAX);
    let mut pallet = Pallet::new(config(100), bank);
    assert_eq!(pallet.create(ALICE, BOB, 0, 10, 0), Ok(0));
    let before = snapshot(&pallet);
    assert_eq!(
        pallet.dispense(ALICE, 0, 10),
        Err(DispatchError::Currency(CurrencyError::Overflow))
    );
    assert_eq!(snapshot(&pallet), before);
    assert!(pallet.funds(0).is_some());
}

#[test]
fn indices_are_not_reused_after_a_fund_is_gone() {
    let mut pallet = setup(100);
    assert_eq!(pallet.create(ALICE, BOB, 0, 10, 0), Ok(0));
    assert_eq!(pallet.dispense(ALICE, 0, 10), Ok(()));
    assert_eq!(pallet.funds(0), None);
    assert_eq!(pallet.create(ALICE, BOB, 30_000, 20, 11), Ok(1));
    assert_eq!(pallet.create(ALICE, BOB, 30_000, 20, 11), Ok(2));
    assert_eq!(pallet.funds(0), None);
    assert_eq!(pallet.fund_count(), 3);
}

#[test]
fn books_agree_after_a_run_of_operations() {
    let mut pallet = setup(100);
    assert_eq!(pallet.create(ALICE, BOB, 5_000, 10, 0), Ok(0));
    assert_eq!(pallet.create(ALICE, BOB, 1_000, 12, 1), Ok(1));
    assert_eq!(pallet.contribute(CAROL, 0, 400, 2), Ok(400));
    assert_eq!(pallet.contribute(DAVE, 0, 300, 3), Ok(300));
    assert_eq!(pallet.contribute(CAROL, 1, 900, 4), Ok(900));
    assert_eq!(pallet.contribute(CAROL, 0, 100, 5), Ok(500));
    assert_eq!(pallet.withdraw(DAVE, 0, 10), Ok(300));
    for index in 0..2u32 {
        let fund = pallet.funds(index).unwrap();
        let contributed: Balance = [ALICE, BOB, CAROL, DAVE]
            .iter()
            .map(|who| pallet.contribution_get(index, who))
            .sum();
        assert_eq!(fund.raised, contributed);
        assert_eq!(
            pallet.free_balance(Pallet::fund_account_id(index)),
            fund.deposit + fund.raised
        );
    }
    assert_eq!(pallet.funds(0).unwrap().raised, 500);
    assert_eq!(pallet.funds(1).unwrap().raised, 900);
}

#[test]
fn ledger_entries_can_be_set_and_removed_directly() {
    let mut pallet = with_fund(100);
    assert_eq!(pallet.contribution_get(0, &CAROL), 0);
    pallet.contribution_put(0, &CAROL, &77);
    assert_eq!(pallet.contribution_get(0, &CAROL), 77);
    pallet.contribution_put(0, &CAROL, &78);
    pallet.contribution_put(0, &DAVE, &5);
    pallet.contribution_put(1, &CAROL, &9);
    assert_eq!(pallet.contribution_get(0, &CAROL), 78);
    pallet.contribution_kill(0, &CAROL);
    assert_eq!(pallet.contribution_get(0, &CAROL), 0);
    pallet.contribution_kill(0, &CAROL);
    assert_eq!(pallet.contribution_get(0, &CAROL), 0);
    assert_eq!(pallet.contribution_get(0, &DAVE), 5);
    pallet.crowdfund_kill(0);
    assert_eq!(pallet.contribution_get(0, &DAVE), 0);
    assert_eq!(pallet.contribution_get(1, &CAROL), 9);
    assert_eq!(pallet.funds(0).unwrap().raised, 0);
}

#[test]
fn config_is_kept() {
    let pallet = setup(100);
    assert_eq!(pallet.config(), config(100));
    assert_eq!(pallet.fund_count(), 0);
    assert!(pallet.events().is_empty());
}

#[test]
fn a_failed_fund_pays_every_contributor_back_and_then_its_deposit() {
    let mut pallet = with_fund(100);
    assert_eq!(pallet.contribute(CAROL, 0, 20_000, 1), Ok(20_000));
    assert_eq!(pallet.contribute(DAVE, 0, 2_000, 2), Ok(2_000));
    assert_eq!(pallet.contribute(ALICE, 0, 900, 3), Ok(900));
    assert_eq!(pallet.free_balance(Pallet::fund_account_id(0)), DEPOSIT + 22_900);
    assert_eq!(pallet.withdraw(ALICE, 0, 10), Ok(900));
    assert_eq!(pallet.withdraw(CAROL, 0, 11), Ok(20_000));
    assert_eq!(pallet.withdraw(DAVE, 0, 12), Ok(2_000));
    assert_eq!(pallet.funds(0).unwrap().raised, 0);
    assert_eq!(pallet.free_balance(Pallet::fund_account_id(0)), DEPOSIT);
    assert_eq!(pallet.dissolve(DAVE, 0, 17), Ok(()));
    assert_eq!(pallet.free_balance(Pallet::fund_account_id(0)), 0);
    assert_eq!(pallet.free_balance(ALICE), 900);
    assert_eq!(pallet.free_balance(BOB), DEPOSIT);
    assert_eq!(pallet.free_balance(CAROL), 50_000);
    assert_eq!(pallet.free_balance(DAVE), 2_000);
}

#[test]
fn each_call_that_takes_effect_reports_one_event() {
    let mut pallet = setup(100);
    let mut reported: usize = 0;
    assert_eq!(pallet.events().len(), reported);
    assert!(pallet.create(ALICE, BOB, 30_000, 10, 0).is_ok());
    reported += 1;
    assert_eq!(pallet.events().len(), reported);
    assert!(pallet.create(ALICE, BOB, 30_000, 10, 10).is_err());
    assert_eq!(pallet.events().len(), reported);
    assert!(pallet.contribute(CAROL, 0, 500, 5).is_ok());
    reported += 1;
    assert!(pallet.contribute(CAROL, 0, 5, 5).is_err());
    assert!(pallet.withdraw(CAROL, 0, 5).is_err());
    assert!(pallet.dispense(CAROL, 0, 10).is_err());
    assert_eq!(pallet.events().len(), reported);
    assert!(pallet.withdraw(CAROL, 0, 10).is_ok());
    reported += 1;
    assert!(pallet.dissolve(CAROL, 0, 16).is_err());
    assert!(pallet.dissolve(CAROL, 0, 17).is_ok());
    reported += 1;
    assert_eq!(pallet.events().len(), reported);
    assert_eq!(
        pallet.events().clone(),
        vec![
            Event::Created(0, 0),
            Event::Contributed(CAROL, 0, 500, 5),
            Event::Withdrew(CAROL, 0, 500, 10),
            Event::Dissolved(0, 17, CAROL),
        ]
    );
}
