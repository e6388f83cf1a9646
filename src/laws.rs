use vstd::prelude::*;
use crate::interest::accrued_interest;
use crate::ledger::PoolView;
use crate::peer_to_peer_lending::{
    fund_outcome, funded_at, repay_outcome, request_outcome, requested_loan, TransferView,
};
use crate::state::{none_id, AccountType, ErrorCode, LoanStatus};

verus! {

/// A valid request from a participant that is not a lender creates a
/// `Requested` loan with no lender and classifies the caller `Borrower`; a
/// lender's request is refused.
pub proof fn lemma_request_creates_requested_loan(
    pool: PoolView,
    borrower: Seq<u8>,
    now: int,
    amount: nat,
    mortgage_cid: Seq<char>,
    due_date: int,
)
    requires
        pool.wf(),
        amount > 0,
        due_date > now,
        pool.loans.len() < pool.max_loans,
        pool.can_classify(borrower),
    ensures
        pool.account_type(borrower) == AccountType::Lender ==> request_outcome(
            pool,
            borrower,
            now,
            amount,
            mortgage_cid,
            due_date,
        ) == Err::<(PoolView, nat), ErrorCode>(ErrorCode::LenderCannotBorrow),
        pool.account_type(borrower) != AccountType::Lender ==> (request_outcome(
            pool,
            borrower,
            now,
            amount,
            mortgage_cid,
            due_date,
        ) matches Ok((p, a)) && {
            &&& p.wf()
            &&& a == pool.loans.len()
            &&& p.loans[a as int].status == LoanStatus::Requested
            &&& p.loans[a as int].lender == none_id()
            &&& p.loans[a as int].borrower == borrower
            &&& p.account_type(borrower) == AccountType::Borrower
        }),
{
    pool.lemma_after_set(borrower, AccountType::Borrower);
    let q = pool.with_accounts(pool.accounts_after_set(borrower, AccountType::Borrower));
    let p = q.with_loans(pool.loans.push(
        requested_loan(
            pool.loans.len(),
            borrower,
            amount,
            mortgage_cid,
            due_date,
            now,
        ),
    ));
    assert(p.accounts == q.accounts);
    assert forall|i: int| 0 <= i < p.loans.len() implies #[trigger] p.loans[i].address == i && p.loans[i].wf() by {
        if i < pool.loans.len() {
            assert(p.loans[i] == pool.loans[i]);
        }
    }
}

/// Funding a loan that is not `Requested` is refused as not fundable.
pub proof fn lemma_fund_requires_requested(pool: PoolView, lender: Seq<u8>, now: i64, address: int)
    requires
        0 <= address < pool.loans.len(),
        pool.loans[address].status != LoanStatus::Requested,
    ensures
        fund_outcome(pool, lender, now, address) is Err,
        fund_outcome(pool, lender, now, address)->Err_0 == ErrorCode::LoanNotFundable,
{
}

/// A successful funding marks the loan `Funded` at `now` with the funder as
/// lender, and moves exactly the loan's amount from funder to borrower.
pub proof fn lemma_fund_moves_amount(pool: PoolView, lender: Seq<u8>, now: i64, address: int)
    requires
        pool.wf(),
        fund_outcome(pool, lender, now, address) is Ok,
    ensures
        ({
            let (p, t) = fund_outcome(pool, lender, now, address)->Ok_0;
            &&& p.wf()
            &&& p.loans[address].status == LoanStatus::Funded
            &&& p.loans[address].fund_date == Some(now)
            &&& p.loans[address].lender == lender
            &&& p.account_type(lender) == AccountType::Lender
            &&& t.from == lender
            &&& t.to == pool.loans[address].borrower
            &&& t.amount == pool.loans[address].amount
        }),
{
    pool.lemma_after_set(lender, AccountType::Lender);
    let (p, t) = fund_outcome(pool, lender, now, address)->Ok_0;
    assert forall|i: int| 0 <= i < p.loans.len() implies #[trigger] p.loans[i].address == i && p.loans[i].wf() by {
        if i != address {
            assert(p.loans[i] == pool.loans[i]);
        }
    }
}

/// Repaying a loan that is not `Funded` is refused as not repayable.
pub proof fn lemma_repay_requires_funded(pool: PoolView, caller: Seq<u8>, now: i64, address: int)
    requires
        0 <= address < pool.loans.len(),
        pool.loans[address].status != LoanStatus::Funded,
    ensures
        repay_outcome(pool, caller, now, address) is Err,
        repay_outcome(pool, caller, now, address)->Err_0 == ErrorCode::LoanNotRepayable,
{
}

/// A successful repayment after `elapsed >= 0` seconds moves
/// `amount + floor(amount * 0.30 * elapsed / 31536000)` from borrower to
/// lender, and closes the loan with that interest recorded.
pub proof fn lemma_repay_amount(pool: PoolView, caller: Seq<u8>, now: i64, address: int)
    requires
        pool.wf(),
        repay_outcome(pool, caller, now, address) is Ok,
        now >= funded_at(pool.loans[address]),
    ensures
        ({
            let (p, t) = repay_outcome(pool, caller, now, address)->Ok_0;
            let loan = pool.loans[address];
            let elapsed = now - funded_at(loan);
            &&& p.wf()
            &&& t.amount == loan.amount + (loan.amount * 30 * elapsed) / 3153600000
            &&& t.from == loan.borrower
            &&& t.to == loan.lender
            &&& p.loans[address].status == LoanStatus::Closed
            &&& p.loans[address].repay_date == Some(now)
            &&& p.loans[address].interest_accrued == Some(
                ((loan.amount * 30 * elapsed) / 3153600000) as u64,
            )
            &&& p.accounts == pool.accounts
        }),
{
    let (p, t) = repay_outcome(pool, caller, now, address)->Ok_0;
    let loan = pool.loans[address];
    let elapsed = now - funded_at(loan);
    assert((loan.amount * 30 * elapsed) / 3153600000 >= 0) by (nonlinear_arith)
        requires
            elapsed >= 0,
    ;
    if elapsed == 0 {
        assert(loan.amount * 30 * elapsed == 0) by (nonlinear_arith)
            requires
                elapsed == 0,
        ;
    }
    assert forall|i: int, j: int|
        0 <= i < j < p.accounts.len() implies #[trigger] p.accounts[i].0 != #[trigger] p.accounts[j].0 by {
        assert(pool.accounts[i].0 != pool.accounts[j].0);
    }
    assert forall|i: int| 0 <= i < p.loans.len() implies #[trigger] p.loans[i].address == i && p.loans[i].wf() by {
        if i != address {
            assert(p.loans[i] == pool.loans[i]);
        }
    }
    assert(accrued_interest(loan.amount, elapsed) == (loan.amount * 30 * elapsed) / 3153600000);
}

/// Anyone but the loan's borrower is refused a repayment, whatever the
/// loan's state.
pub proof fn lemma_repay_only_by_borrower(pool: PoolView, caller: Seq<u8>, now: i64, address: int)
    requires
        0 <= address < pool.loans.len(),
        pool.loans[address].borrower != caller,
    ensures
        repay_outcome(pool, caller, now, address) is Err,
{
}

/// A loan that can be funded is funded once; a second funding of it, by
/// anyone at any time, is refused as not fundable.
pub proof fn lemma_fund_once(
    pool: PoolView,
    lender: Seq<u8>,
    now: i64,
    address: int,
    second_lender: Seq<u8>,
    second_now: i64,
)
    requires
        pool.wf(),
        0 <= address < pool.loans.len(),
        pool.loans[address].status == LoanStatus::Requested,
        pool.account_type(lender) != AccountType::Borrower,
        pool.can_classify(lender),
    ensures
        fund_outcome(pool, lender, now, address) is Ok,
        fund_outcome(fund_outcome(pool, lender, now, address)->Ok_0.0, second_lender, second_now, address)
            == Err::<(PoolView, TransferView), ErrorCode>(
            ErrorCode::LoanNotFundable,
        ),
{
}

/// A participant classified `Borrower` may request again, keeping its role
/// and leaving the classifications unchanged.
pub proof fn lemma_borrower_requests_again(
    pool: PoolView,
    id: Seq<u8>,
    now: int,
    amount: nat,
    mortgage_cid: Seq<char>,
    due_date: int,
)
    requires
        pool.wf(),
        pool.account_type(id) == AccountType::Borrower,
        amount > 0,
        due_date > now,
        pool.loans.len() < pool.max_loans,
    ensures
        request_outcome(pool, id, now, amount, mortgage_cid, due_date) matches Ok((p, _)) && {
            &&& p.account_type(id) == AccountType::Borrower
            &&& p.accounts == pool.accounts
        },
{
    let k = pool.account_index(id);
    assert(pool.accounts[k] == (id, AccountType::Borrower));
    assert(pool.accounts.update(k, (id, AccountType::Borrower)) =~= pool.accounts);
}

/// A participant classified `Borrower` is refused every funding: as a
/// borrower, on any loan that awaits funding.
pub proof fn lemma_borrower_cannot_lend(pool: PoolView, id: Seq<u8>, now: i64, address: int)
    requires
        pool.account_type(id) == AccountType::Borrower,
    ensures
        fund_outcome(pool, id, now, address) is Err,
        0 <= address < pool.loans.len() && pool.loans[address].status == LoanStatus::Requested
            ==> fund_outcome(pool, id, now, address)->Err_0 == ErrorCode::BorrowerCannotLend,
{
}

} // verus!
