use lending::interest::repayment_due;
use lending::ledger::LendingPool;
use lending::peer_to_peer_lending::{fund_loan, get_account_details, repay_loan, request_loan};
use lending::state::{
    AccountId, AccountType, ErrorCode, FundLoan, GetAccountDetails, Loan, LoanStatus, RepayLoan,
    RequestLoan,
};

const T0: i64 = 1_700_000_000;
const YEAR: i64 = 31_536_000;
const DAY: i64 = 86_400;

fn id(b: u8) -> AccountId {
    AccountId([b; 32])
}

fn pool() -> LendingPool {
    LendingPool::new(16, 16)
}

fn request(p: &mut LendingPool, who: u8, now: i64, amount: u64) -> Result<u64, ErrorCode> {
    request_loan(
        p,
        &RequestLoan { borrower: id(who), now },
        amount,
        String::from("bafycid"),
        now + DAY,
    )
}

#[test]
fn request_creates_requested_loan() {
    let mut p = pool();
    let addr = request(&mut p, 1, T0, 1000).unwrap();
    assert_eq!(addr, 0);
    let loans = p.get_all_loans();
    assert_eq!(loans.len(), 1);
    let l = &loans[0];
    assert_eq!(l.address, 0);
    assert_eq!(l.status, LoanStatus::Requested);
    assert_eq!(l.lender, AccountId([0; 32]));
    assert_eq!(l.borrower, id(1));
    assert_eq!(l.amount, 1000);
    assert_eq!(l.mortgage_cid, "bafycid");
    assert_eq!(l.due_date, T0 + DAY);
    assert_eq!(l.request_date, T0);
    assert_eq!(l.fund_date, None);
    assert_eq!(l.repay_date, None);
    assert_eq!(l.interest_accrued, None);
    assert_eq!(p.get_account_type(&id(1)), AccountType::Borrower);
}

#[test]
fn request_rejects_zero_amount() {
    let mut p = pool();
    assert_eq!(request(&mut p, 1, T0, 0), Err(ErrorCode::InvalidAmount));
    assert_eq!(p.get_all_loans().len(), 0);
    assert_eq!(p.get_account_type(&id(1)), AccountType::Unclassified);
}

#[test]
fn request_rejects_due_date_not_in_future() {
    let mut p = pool();
    let ctx = RequestLoan { borrower: id(1), now: T0 };
    assert_eq!(
        request_loan(&mut p, &ctx, 10, String::from("c"), T0),
        Err(ErrorCode::InvalidDueDate)
    );
    assert_eq!(
        request_loan(&mut p, &ctx, 10, String::from("c"), T0 - 1),
        Err(ErrorCode::InvalidDueDate)
    );
    assert_eq!(p.get_all_loans().len(), 0);
}

#[test]
fn lender_cannot_borrow() {
    let mut p = pool();
    request(&mut p, 1, T0, 500).unwrap();
    fund_loan(&mut p, &FundLoan { lender: id(2), now: T0 }, 0).unwrap();
    assert_eq!(p.get_account_type(&id(2)), AccountType::Lender);
    assert_eq!(request(&mut p, 2, T0, 10), Err(ErrorCode::LenderCannotBorrow));
    assert_eq!(p.get_all_loans().len(), 1);
}

#[test]
fn request_rejects_when_loans_full() {
    let mut p = LendingPool::new(4, 1);
    request(&mut p, 1, T0, 10).unwrap();
    assert_eq!(request(&mut p, 2, T0, 10), Err(ErrorCode::MaxLoansReached));
    assert_eq!(p.get_account_type(&id(2)), AccountType::Unclassified);
}

#[test]
fn request_rejects_when_accounts_full() {
    let mut p = LendingPool::new(1, 4);
    request(&mut p, 1, T0, 10).unwrap();
    assert_eq!(request(&mut p, 2, T0, 10), Err(ErrorCode::MaxAccountsReached));
    assert_eq!(p.get_all_loans().len(), 1);
    // An already classified participant needs no new entry.
    assert_eq!(request(&mut p, 1, T0, 10), Ok(1));
}

#[test]
fn fund_moves_exact_amount() {
    let mut p = pool();
    request(&mut p, 1, T0, 1234).unwrap();
    let t = fund_loan(&mut p, &FundLoan { lender: id(2), now: T0 + 5 }, 0).unwrap();
    assert_eq!(t.from, id(2));
    assert_eq!(t.to, id(1));
    assert_eq!(t.amount, 1234);
    let l = p.get_loan(0).unwrap();
    assert_eq!(l.status, LoanStatus::Funded);
    assert_eq!(l.lender, id(2));
    assert_eq!(l.fund_date, Some(T0 + 5));
    assert_eq!(p.get_account_type(&id(2)), AccountType::Lender);
}

#[test]
fn fund_twice_succeeds_once() {
    let mut p = pool();
    request(&mut p, 1, T0, 100).unwrap();
    assert!(fund_loan(&mut p, &FundLoan { lender: id(2), now: T0 }, 0).is_ok());
    let second = fund_loan(&mut p, &FundLoan { lender: id(3), now: T0 + 1 }, 0);
    assert_eq!(second.unwrap_err(), ErrorCode::LoanNotFundable);
    let l = p.get_loan(0).unwrap();
    assert_eq!(l.lender, id(2));
    assert_eq!(l.fund_date, Some(T0));
    assert_eq!(p.get_account_type(&id(3)), AccountType::Unclassified);
}

#[test]
fn fund_rejects_unknown_loan() {
    let mut p = pool();
    let r = fund_loan(&mut p, &FundLoan { lender: id(2), now: T0 }, 0);
    assert_eq!(r.unwrap_err(), ErrorCode::InvalidLoanIndex);
    assert_eq!(p.get_account_type(&id(2)), AccountType::Unclassified);
}

#[test]
fn fund_rejects_when_accounts_full() {
    let mut p = LendingPool::new(1, 4);
    request(&mut p, 1, T0, 10).unwrap();
    let r = fund_loan(&mut p, &FundLoan { lender: id(2), now: T0 }, 0);
    assert_eq!(r.unwrap_err(), ErrorCode::MaxAccountsReached);
    assert_eq!(p.get_loan(0).unwrap().status, LoanStatus::Requested);
}

#[test]
fn borrower_requests_again_but_cannot_lend() {
    let mut p = pool();
    request(&mut p, 1, T0, 100).unwrap();
    assert_eq!(request(&mut p, 1, T0, 200), Ok(1));
    assert_eq!(p.get_account_type(&id(1)), AccountType::Borrower);
    request(&mut p, 2, T0, 300).unwrap();
    for addr in 0..3u64 {
        let r = fund_loan(&mut p, &FundLoan { lender: id(1), now: T0 }, addr);
        assert_eq!(r.unwrap_err(), ErrorCode::BorrowerCannotLend);
    }
    assert_eq!(p.get_loan(2).unwrap().status, LoanStatus::Requested);
}

#[test]
fn repay_after_one_year_pays_thirty_percent() {
    let mut p = pool();
    let addr = request_loan(
        &mut p,
        &RequestLoan { borrower: id(1), now: T0 },
        1000,
        String::from("cid"),
        T0 + DAY,
    )
    .unwrap();
    fund_loan(&mut p, &FundLoan { lender: id(2), now: T0 }, addr).unwrap();
    let t = repay_loan(&mut p, &RepayLoan { borrower: id(1), now: T0 + YEAR }, addr).unwrap();
    assert_eq!(t.from, id(1));
    assert_eq!(t.to, id(2));
    assert_eq!(t.amount, 1300);
    let l = p.get_loan(addr).unwrap();
    assert_eq!(l.status, LoanStatus::Closed);
    assert_eq!(l.repay_date, Some(T0 + YEAR));
    assert_eq!(l.interest_accrued, Some(300));
}

#[test]
fn repay_truncates_interest() {
    let mut p = pool();
    request(&mut p, 1, T0, 1000).unwrap();
    fund_loan(&mut p, &FundLoan { lender: id(2), now: T0 }, 0).unwrap();
    // 1000 * 0.30 * 86400 / 31536000 = 0.8219...
    let t = repay_loan(&mut p, &RepayLoan { borrower: id(1), now: T0 + DAY }, 0).unwrap();
    assert_eq!(t.amount, 1000);
    assert_eq!(p.get_loan(0).unwrap().interest_accrued, Some(0));
}

#[test]
fn repay_rejects_unfunded_loan() {
    let mut p = pool();
    request(&mut p, 1, T0, 1000).unwrap();
    let r = repay_loan(&mut p, &RepayLoan { borrower: id(1), now: T0 }, 0);
    assert_eq!(r.unwrap_err(), ErrorCode::LoanNotRepayable);
    assert_eq!(p.get_loan(0).unwrap().status, LoanStatus::Requested);
}

#[test]
fn repay_rejects_closed_loan() {
    let mut p = pool();
    request(&mut p, 1, T0, 1000).unwrap();
    fund_loan(&mut p, &FundLoan { lender: id(2), now: T0 }, 0).unwrap();
    repay_loan(&mut p, &RepayLoan { borrower: id(1), now: T0 + 10 }, 0).unwrap();
    let r = repay_loan(&mut p, &RepayLoan { borrower: id(1), now: T0 + 20 }, 0);
    assert_eq!(r.unwrap_err(), ErrorCode::LoanNotRepayable);
}

#[test]
fn repay_rejects_other_caller() {
    let mut p = pool();
    request(&mut p, 1, T0, 1000).unwrap();
    let r = repay_loan(&mut p, &RepayLoan { borrower: id(3), now: T0 }, 0);
    assert!(r.is_err());
    fund_loan(&mut p, &FundLoan { lender: id(2), now: T0 }, 0).unwrap();
    let r = repay_loan(&mut p, &RepayLoan { borrower: id(3), now: T0 + YEAR }, 0);
    assert_eq!(r.unwrap_err(), ErrorCode::UnauthorizedBorrower);
    let r = repay_loan(&mut p, &RepayLoan { borrower: id(2), now: T0 + YEAR }, 0);
    assert_eq!(r.unwrap_err(), ErrorCode::UnauthorizedBorrower);
    assert_eq!(p.get_loan(0).unwrap().status, LoanStatus::Funded);
}

#[test]
fn repay_rejects_unknown_loan() {
    let mut p = pool();
    let r = repay_loan(&mut p, &RepayLoan { borrower: id(1), now: T0 }, 7);
    assert_eq!(r.unwrap_err(), ErrorCode::InvalidLoanIndex);
}

#[test]
fn repay_rejects_overflowing_total() {
    let mut p = pool();
    request(&mut p, 1, T0, u64::MAX).unwrap();
    fund_loan(&mut p, &FundLoan { lender: id(2), now: T0 }, 0).unwrap();
    let r = repay_loan(&mut p, &RepayLoan { borrower: id(1), now: T0 + YEAR }, 0);
    assert_eq!(r.unwrap_err(), ErrorCode::RepaymentOverflow);
    assert_eq!(p.get_loan(0).unwrap().status, LoanStatus::Funded);
    // At the funding instant nothing has accrued, so the principal fits.
    let t = repay_loan(&mut p, &RepayLoan { borrower: id(1), now: T0 }, 0).unwrap();
    assert_eq!(t.amount, u64::MAX);
}

#[test]
fn repayment_due_values() {
    assert_eq!(repayment_due(1000, T0, T0 + YEAR), Some((300, 1300)));
    assert_eq!(repayment_due(1000, T0, T0 + 2 * YEAR), Some((600, 1600)));
    assert_eq!(repayment_due(1000, T0, T0 + YEAR / 2), Some((150, 1150)));
    assert_eq!(repayment_due(7, T0, T0 + YEAR), Some((2, 9)));
    assert_eq!(repayment_due(1000, T0, T0), Some((0, 1000)));
    // Time running backwards accrues nothing.
    assert_eq!(repayment_due(1000, T0, T0 - YEAR), Some((0, 1000)));
    assert_eq!(repayment_due(u64::MAX, 5, 5), Some((0, u64::MAX)));
    assert_eq!(repayment_due(u64::MAX, 0, 1), None);
    assert_eq!(repayment_due(u64::MAX, 0, YEAR), None);
    // The widest span of time does not overflow the computation.
    assert_eq!(repayment_due(1, i64::MIN, i64::MAX), Some((175482725206, 175482725207)));
}

#[test]
fn account_details_lists_own_loans() {
    let mut p = pool();
    request(&mut p, 1, T0, 100).unwrap();
    request(&mut p, 3, T0, 200).unwrap();
    request(&mut p, 1, T0, 300).unwrap();
    fund_loan(&mut p, &FundLoan { lender: id(2), now: T0 }, 1).unwrap();

    let b = get_account_details(&p, &GetAccountDetails { user: id(1) }).unwrap();
    assert_eq!(b.account_type, AccountType::Borrower);
    let amounts: Vec<u64> = b.loans.iter().map(|l: &Loan| l.amount).collect();
    assert_eq!(amounts, vec![100, 300]);

    let l = get_account_details(&p, &GetAccountDetails { user: id(2) }).unwrap();
    assert_eq!(l.account_type, AccountType::Lender);
    assert_eq!(l.loans.len(), 1);
    assert_eq!(l.loans[0].address, 1);

    let none = get_account_details(&p, &GetAccountDetails { user: id(9) }).unwrap();
    assert_eq!(none.account_type, AccountType::Unclassified);
    assert!(none.loans.is_empty());
}

#[test]
fn all_loans_in_request_order() {
    let mut p = pool();
    request(&mut p, 1, T0, 5).unwrap();
    request(&mut p, 2, T0, 6).unwrap();
    request(&mut p, 3, T0, 7).unwrap();
    let all = p.get_all_loans();
    let seen: Vec<(u64, u64)> = all.iter().map(|l: &Loan| (l.address, l.amount)).collect();
    assert_eq!(seen, vec![(0, 5), (1, 6), (2, 7)]);
}

#[test]
fn update_loan_reports_missing_target() {
    let mut p = pool();
    request(&mut p, 1, T0, 5).unwrap();
    let mut l = p.get_loan(0).unwrap();
    l.address = 4;
    assert!(!p.update_loan(l));
    let mut l = p.get_loan(0).unwrap();
    l.mortgage_cid = String::from("other");
    assert!(p.update_loan(l));
    assert_eq!(p.get_loan(0).unwrap().mortgage_cid, "other");
    assert!(p.get_loan(1).is_none());
}

#[test]
fn classification_overwrites_entry() {
    let mut p = LendingPool::new(1, 1);
    assert_eq!(p.get_account_type(&id(4)), AccountType::Unclassified);
    p.set_account_type(&id(4), AccountType::Lender);
    p.set_account_type(&id(4), AccountType::Borrower);
    assert_eq!(p.get_account_type(&id(4)), AccountType::Borrower);
    assert!(!p.can_classify(&id(5)));
    assert!(p.can_classify(&id(4)));
}

#[test]
fn defaults() {
    assert_eq!(AccountType::default(), AccountType::Unclassified);
    assert_eq!(LoanStatus::default(), LoanStatus::Requested);
    let _ = LoanStatus::Defaulted;
}

#[test]
fn parts_round_trip() {
    let mut p = pool();
    request(&mut p, 1, T0, 5).unwrap();
    fund_loan(&mut p, &FundLoan { lender: id(2), now: T0 }, 0).unwrap();
    let (accounts, loans, max_accounts, max_loans) = p.into_parts();
    assert_eq!(accounts.len(), 2);
    assert_eq!(accounts[0].0, id(1));
    assert_eq!(accounts[0].1, AccountType::Borrower);
    assert_eq!(accounts[1].0, id(2));
    assert_eq!(accounts[1].1, AccountType::Lender);
    assert_eq!((max_accounts, max_loans), (16, 16));
    let q = LendingPool::from_parts(accounts, loans, max_accounts, max_loans).unwrap();
    assert_eq!(q.get_account_type(&id(2)), AccountType::Lender);
    assert_eq!(q.get_loan(0).unwrap().status, LoanStatus::Funded);
}

#[test]
fn from_parts_rejects_malformed_ledgers() {
    let dup = vec![(id(1), AccountType::Borrower), (id(1), AccountType::Lender)];
    assert!(LendingPool::from_parts(dup, Vec::new(), 4, 4).is_none());
    let over = vec![(id(1), AccountType::Borrower), (id(2), AccountType::Lender)];
    assert!(LendingPool::from_parts(over, Vec::new(), 1, 4).is_none());

    let mut p = pool();
    request(&mut p, 1, T0, 5).unwrap();
    let (accounts, mut loans, _, _) = p.into_parts();
    loans[0].address = 3;
    assert!(LendingPool::from_parts(accounts.clone(), loans, 4, 4).is_none());

    let mut p = pool();
    request(&mut p, 1, T0, 5).unwrap();
    let (_, mut loans, _, _) = p.into_parts();
    loans[0].status = LoanStatus::Funded;
    assert!(LendingPool::from_parts(accounts.clone(), loans, 4, 4).is_none());

    let mut p = pool();
    request(&mut p, 1, T0, 5).unwrap();
    let (_, loans, _, _) = p.into_parts();
    assert!(LendingPool::from_parts(accounts, loans, 4, 0).is_none());
}
