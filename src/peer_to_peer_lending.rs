use vstd::prelude::*;
use crate::interest::{accrued_interest, repayment_due, total_repayment};
use crate::ledger::{loan_views, LendingPool, PoolView};
use crate::state::{
    none_id, AccountId, AccountType, ErrorCode, FundLoan, GetAccountDetails, Loan, LoanStatus,
    LoanView, RepayLoan, RequestLoan, Transfer, UserAccount,
};

verus! {

/// The mathematical value of a [`Transfer`].
pub struct TransferView {
    pub from: Seq<u8>,
    pub to: Seq<u8>,
    pub amount: nat,
}

impl View for Transfer {
    type V = TransferView;

    open spec fn view(&self) -> TransferView {
        TransferView { from: self.from@, to: self.to@, amount: self.amount as nat }
    }
}

/// The loan a request creates.
pub open spec fn requested_loan(
    address: nat,
    borrower: Seq<u8>,
    amount: nat,
    mortgage_cid: Seq<char>,
    due_date: int,
    now: int,
) -> LoanView {
    LoanView {
        address,
        borrower,
        lender: none_id(),
        amount,
        mortgage_cid,
        due_date,
        status: LoanStatus::Requested,
        request_date: now,
        fund_date: None,
        repay_date: None,
        interest_accrued: None,
    }
}

/// What a loan request does to `pool`: the new ledger and the new loan's
/// address, or why it is refused.
pub open spec fn request_outcome(
    pool: PoolView,
    borrower: Seq<u8>,
    now: int,
    amount: nat,
    mortgage_cid: Seq<char>,
    due_date: int,
) -> Result<(PoolView, nat), ErrorCode> {
    if amount == 0 {
        Err(ErrorCode::InvalidAmount)
    } else if due_date <= now {
        Err(ErrorCode::InvalidDueDate)
    } else if pool.account_type(borrower) == AccountType::Lender {
        Err(ErrorCode::LenderCannotBorrow)
    } else if pool.loans.len() >= pool.max_loans {
        Err(ErrorCode::MaxLoansReached)
    } else if !pool.can_classify(borrower) {
        Err(ErrorCode::MaxAccountsReached)
    } else {
        let address = pool.loans.len();
        let loan = requested_loan(address, borrower, amount, mortgage_cid, due_date, now);
        Ok(
            (
                pool.with_accounts(
                    pool.accounts_after_set(borrower, AccountType::Borrower),
                ).with_loans(pool.loans.push(loan)),
                address,
            ),
        )
    }
}

/// What funding the loan at `address` does to `pool`: the new ledger and the
/// payment from lender to borrower, or why it is refused.
pub open spec fn fund_outcome(pool: PoolView, lender: Seq<u8>, now: i64, address: int) -> Result<
    (PoolView, TransferView),
    ErrorCode,
> {
    if !(0 <= address < pool.loans.len()) {
        Err(ErrorCode::InvalidLoanIndex)
    } else {
        let loan = pool.loans[address];
        if loan.status != LoanStatus::Requested {
            Err(ErrorCode::LoanNotFundable)
        } else if pool.account_type(lender) == AccountType::Borrower {
            Err(ErrorCode::BorrowerCannotLend)
        } else if !pool.can_classify(lender) {
            Err(ErrorCode::MaxAccountsReached)
        } else {
            let funded = LoanView {
                lender,
                status: LoanStatus::Funded,
                fund_date: Some(now),
                ..loan
            };
            Ok(
                (
                    pool.with_accounts(
                        pool.accounts_after_set(lender, AccountType::Lender),
                    ).with_loans(pool.loans.update(address, funded)),
                    TransferView { from: lender, to: loan.borrower, amount: loan.amount },
                ),
            )
        }
    }
}

/// When a loan was funded, as a number of seconds.
pub open spec fn funded_at(loan: LoanView) -> int {
    match loan.fund_date {
        Some(t) => t as int,
        None => 0,
    }
}

/// What repaying the loan at `address` does to `pool`: the new ledger and
/// the payment from borrower to lender, or why it is refused.
pub open spec fn repay_outcome(pool: PoolView, caller: Seq<u8>, now: i64, address: int) -> Result<
    (PoolView, TransferView),
    ErrorCode,
> {
    if !(0 <= address < pool.loans.len()) {
        Err(ErrorCode::InvalidLoanIndex)
    } else {
        let loan = pool.loans[address];
        let elapsed = now - funded_at(loan);
        if loan.status != LoanStatus::Funded {
            Err(ErrorCode::LoanNotRepayable)
        } else if loan.borrower != caller {
            Err(ErrorCode::UnauthorizedBorrower)
        } else if total_repayment(loan.amount, elapsed) > u64::MAX {
            Err(ErrorCode::RepaymentOverflow)
        } else {
            let closed = LoanView {
                status: LoanStatus::Closed,
                repay_date: Some(now),
                interest_accrued: Some(accrued_interest(loan.amount, elapsed) as u64),
                ..loan
            };
            Ok(
                (
                    pool.with_loans(pool.loans.update(address, closed)),
                    TransferView {
                        from: caller,
                        to: loan.lender,
                        amount: total_repayment(loan.amount, elapsed),
                    },
                ),
            )
        }
    }
}

/// Records a request by `ctx.borrower` to borrow `amount`, secured by the
/// document `mortgage_cid`, until `due_date`; returns the loan's address.
/// No funds move.
pub fn request_loan(
    pool: &mut LendingPool,
    ctx: &RequestLoan,
    amount: u64,
    mortgage_cid: String,
    due_date: i64,
) -> (r: Result<u64, ErrorCode>)
    requires
        old(pool)@.wf(),
    ensures
        final(pool)@.wf(),
        match request_outcome(
            old(pool)@,
            ctx.borrower@,
            ctx.now as int,
            amount as nat,
            mortgage_cid@,
            due_date as int,
        ) {
            Ok((p, address)) => r == Ok::<u64, ErrorCode>(address as u64) && final(pool)@ == p,
            Err(e) => r == Err::<u64, ErrorCode>(e) && final(pool)@ == old(pool)@,
        },
{
    if amount == 0 {
        return Err(ErrorCode::InvalidAmount);
    }
    if due_date <= ctx.now {
        return Err(ErrorCode::InvalidDueDate);
    }
    let role = pool.get_account_type(&ctx.borrower);
    if role == AccountType::Lender {
        return Err(ErrorCode::LenderCannotBorrow);
    }
    let loan = Loan {
        address: 0,
        borrower: ctx.borrower,
        lender: AccountId::none(),
        amount,
        mortgage_cid,
        due_date,
        status: LoanStatus::Requested,
        request_date: ctx.now,
        fund_date: None,
        repay_date: None,
        interest_accrued: None,
    };
    if pool.is_full() {
        return Err(ErrorCode::MaxLoansReached);
    }
    if !pool.can_classify(&ctx.borrower) {
        return Err(ErrorCode::MaxAccountsReached);
    }
    let address = match pool.add_loan(loan) {
        Ok(a) => a,
        Err(e) => {
            return Err(e);
        },
    };
    pool.set_account_type(&ctx.borrower, AccountType::Borrower);
    Ok(address)
}

/// Funds the loan at `loan_address` by `ctx.lender`. On success the ledger
/// is updated and the returned transfer, of exactly the loan's amount from
/// lender to borrower, must be carried out by the host: should it fail, the
/// host discards the updated ledger.
pub fn fund_loan(pool: &mut LendingPool, ctx: &FundLoan, loan_address: u64) -> (r: Result<
    Transfer,
    ErrorCode,
>)
    requires
        old(pool)@.wf(),
    ensures
        final(pool)@.wf(),
        match fund_outcome(old(pool)@, ctx.lender@, ctx.now, loan_address as int) {
            Ok((p, t)) => (r matches Ok(x) && x@ == t) && final(pool)@ == p,
            Err(e) => r == Err::<Transfer, ErrorCode>(e) && final(pool)@ == old(pool)@,
        },
{
    let loan = match pool.get_loan(loan_address) {
        Some(l) => l,
        None => {
            return Err(ErrorCode::InvalidLoanIndex);
        },
    };
    if loan.status != LoanStatus::Requested {
        return Err(ErrorCode::LoanNotFundable);
    }
    if pool.get_account_type(&ctx.lender) == AccountType::Borrower {
        return Err(ErrorCode::BorrowerCannotLend);
    }
    if !pool.can_classify(&ctx.lender) {
        return Err(ErrorCode::MaxAccountsReached);
    }
    let transfer = Transfer { from: ctx.lender, to: loan.borrower, amount: loan.amount };
    let mut loan = loan;
    loan.lender = ctx.lender;
    loan.status = LoanStatus::Funded;
    loan.fund_date = Some(ctx.now);
    pool.update_loan(loan);
    pool.set_account_type(&ctx.lender, AccountType::Lender);
    Ok(transfer)
}

/// Repays the loan at `loan_address` by `ctx.borrower`, with interest up to
/// `ctx.now`. On success the ledger is updated and the returned transfer, of
/// the principal and interest from borrower to lender, must be carried out by
/// the host: should it fail, the host discards the updated ledger.
pub fn repay_loan(pool: &mut LendingPool, ctx: &RepayLoan, loan_address: u64) -> (r: Result<
    Transfer,
    ErrorCode,
>)
    requires
        old(pool)@.wf(),
    ensures
        final(pool)@.wf(),
        match repay_outcome(old(pool)@, ctx.borrower@, ctx.now, loan_address as int) {
            Ok((p, t)) => (r matches Ok(x) && x@ == t) && final(pool)@ == p,
            Err(e) => r == Err::<Transfer, ErrorCode>(e) && final(pool)@ == old(pool)@,
        },
{
    let loan = match pool.get_loan(loan_address) {
        Some(l) => l,
        None => {
            return Err(ErrorCode::InvalidLoanIndex);
        },
    };
    if loan.status != LoanStatus::Funded {
        return Err(ErrorCode::LoanNotRepayable);
    }
    if !(loan.borrower == ctx.borrower) {
        return Err(ErrorCode::UnauthorizedBorrower);
    }
    assert(pool@.loans[loan_address as int].wf());
    let fund_date = match loan.fund_date {
        Some(t) => t,
        None => {
            return Err(ErrorCode::LoanNotRepayable);
        },
    };
    let (interest, total) = match repayment_due(loan.amount, fund_date, ctx.now) {
        Some(due) => due,
        None => {
            return Err(ErrorCode::RepaymentOverflow);
        },
    };
    let transfer = Transfer { from: ctx.borrower, to: loan.lender, amount: total };
    let mut loan = loan;
    loan.status = LoanStatus::Closed;
    loan.repay_date = Some(ctx.now);
    loan.interest_accrued = Some(interest);
    pool.update_loan(loan);
    Ok(transfer)
}

/// The classification of `ctx.user` and every loan it borrowed or lent, in
/// ledger order. Never fails.
pub fn get_account_details(pool: &LendingPool, ctx: &GetAccountDetails) -> (r: Result<
    UserAccount,
    ErrorCode,
>)
    requires
        pool@.wf(),
    ensures
        r matches Ok(u) && u.account_type == pool@.account_type(ctx.user@) && loan_views(u.loans@)
            == pool@.loans_of(ctx.user@),
{
    Ok(
        UserAccount {
            account_type: pool.get_account_type(&ctx.user),
            loans: pool.loans_of(&ctx.user),
        },
    )
}

} // verus!
