use vstd::prelude::*;

verus! {

/// A participant's fixed-size public identifier.
#[derive(Clone, Copy, Debug)]
pub struct AccountId(pub [u8; 32]);

/// The identifier made of zero bytes, which stands for "no participant".
pub open spec fn none_id() -> Seq<u8> {
    Seq::new(32, |_i: int| 0u8)
}

impl View for AccountId {
    type V = Seq<u8>;

    open spec fn view(&self) -> Seq<u8> {
        self.0@
    }
}

impl AccountId {
    /// The sentinel identifier recorded as lender until a loan is funded.
    pub fn none() -> (r: AccountId)
        ensures
            r@ == none_id(),
    {
        let r = AccountId([0u8; 32]);
        assert(r@ =~= none_id());
        r
    }
}

impl PartialEq for AccountId {
    fn eq(&self, o: &AccountId) -> (r: bool) {
        let mut i: usize = 0;
        while i < 32
            invariant
                0 <= i <= 32,
                forall|j: int| 0 <= j < i ==> self.0@[j] == o.0@[j],
            decreases 32 - i,
        {
            if self.0[i] != o.0[i] {
                return false;
            }
            i = i + 1;
        }
        assert(self.0@ =~= o.0@);
        true
    }
}

impl Eq for AccountId {

}

impl vstd::std_specs::cmp::PartialEqSpecImpl for AccountId {
    open spec fn obeys_eq_spec() -> bool {
        true
    }

    open spec fn eq_spec(&self, o: &AccountId) -> bool {
        self@ == o@
    }
}

/// The role a participant has taken by its actions.
#[derive(PartialEq, Eq, Structural, Clone, Copy, Debug)]
pub enum AccountType {
    Unclassified,
    Lender,
    Borrower,
}

impl Default for AccountType {
    fn default() -> (r: AccountType)
        ensures
            r == AccountType::Unclassified,
    {
        AccountType::Unclassified
    }
}

/// Where a loan stands in its lifecycle.
#[derive(PartialEq, Eq, Structural, Clone, Copy, Debug)]
pub enum LoanStatus {
    Requested,
    Funded,
    Closed,
    /// Reserved: no operation moves a loan here yet.
    Defaulted,
}

impl Default for LoanStatus {
    fn default() -> (r: LoanStatus)
        ensures
            r == LoanStatus::Requested,
    {
        LoanStatus::Requested
    }
}

/// One borrowing agreement.
#[derive(Debug)]
pub struct Loan {
    /// The loan's own address: its position in the ledger.
    pub address: u64,
    pub borrower: AccountId,
    pub lender: AccountId,
    pub amount: u64,
    pub mortgage_cid: String,
    pub due_date: i64,
    pub status: LoanStatus,
    pub request_date: i64,
    pub fund_date: Option<i64>,
    pub repay_date: Option<i64>,
    pub interest_accrued: Option<u64>,
}

/// The mathematical value of a [`Loan`].
pub struct LoanView {
    pub address: nat,
    pub borrower: Seq<u8>,
    pub lender: Seq<u8>,
    pub amount: nat,
    pub mortgage_cid: Seq<char>,
    pub due_date: int,
    pub status: LoanStatus,
    pub request_date: int,
    pub fund_date: Option<i64>,
    pub repay_date: Option<i64>,
    pub interest_accrued: Option<u64>,
}

impl LoanView {
    /// A loan that has been funded records when.
    pub open spec fn wf(&self) -> bool {
        self.status == LoanStatus::Funded ==> self.fund_date is Some
    }
}

impl View for Loan {
    type V = LoanView;

    open spec fn view(&self) -> LoanView {
        LoanView {
            address: self.address as nat,
            borrower: self.borrower@,
            lender: self.lender@,
            amount: self.amount as nat,
            mortgage_cid: self.mortgage_cid@,
            due_date: self.due_date as int,
            status: self.status,
            request_date: self.request_date as int,
            fund_date: self.fund_date,
            repay_date: self.repay_date,
            interest_accrued: self.interest_accrued,
        }
    }
}

impl Clone for Loan {
    fn clone(&self) -> (r: Loan)
        ensures
            r@ == self@,
    {
        Loan {
            address: self.address,
            borrower: self.borrower,
            lender: self.lender,
            amount: self.amount,
            mortgage_cid: self.mortgage_cid.clone(),
            due_date: self.due_date,
            status: self.status,
            request_date: self.request_date,
            fund_date: self.fund_date,
            repay_date: self.repay_date,
            interest_accrued: self.interest_accrued,
        }
    }
}

/// A participant's classification together with the loans it takes part in.
#[derive(Debug)]
pub struct UserAccount {
    pub account_type: AccountType,
    pub loans: Vec<Loan>,
}

/// Every way an operation can be refused.
#[derive(PartialEq, Eq, Structural, Clone, Copy, Debug)]
pub enum ErrorCode {
    InvalidAmount,
    InvalidDueDate,
    LenderCannotBorrow,
    BorrowerCannotLend,
    LoanNotFundable,
    LoanNotRepayable,
    UnauthorizedBorrower,
    MaxLoansReached,
    InvalidLoanIndex,
    /// The ledger holds as many classified participants as it can.
    MaxAccountsReached,
    /// The amount owed does not fit in the currency's integer type.
    RepaymentOverflow,
}

/// A movement of native currency that the host must carry out for an
/// operation to take effect.
#[derive(Clone, Copy, Debug)]
pub struct Transfer {
    pub from: AccountId,
    pub to: AccountId,
    pub amount: u64,
}

/// Who asks for a loan, and the host's time.
#[derive(Clone, Copy, Debug)]
pub struct RequestLoan {
    pub borrower: AccountId,
    pub now: i64,
}

/// Who funds a loan, and the host's time.
#[derive(Clone, Copy, Debug)]
pub struct FundLoan {
    pub lender: AccountId,
    pub now: i64,
}

/// Who repays a loan, and the host's time.
#[derive(Clone, Copy, Debug)]
pub struct RepayLoan {
    pub borrower: AccountId,
    pub now: i64,
}

/// The participant whose details are read.
#[derive(Clone, Copy, Debug)]
pub struct GetAccountDetails {
    pub user: AccountId,
}

} // verus!
