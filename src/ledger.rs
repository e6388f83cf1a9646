use vstd::prelude::*;
use crate::state::{AccountId, AccountType, ErrorCode, Loan, LoanStatus, LoanView};

verus! {

broadcast use vstd::seq_lib::group_seq_properties;

/// The pooled store of every participant's classification and every loan.
pub struct LendingPool {
    accounts: Vec<(AccountId, AccountType)>,
    loans: Vec<Loan>,
    max_accounts: usize,
    max_loans: usize,
}

/// The mathematical value of a [`LendingPool`].
pub struct PoolView {
    /// Classified participants, in the order they were first classified.
    pub accounts: Seq<(Seq<u8>, AccountType)>,
    /// Every loan, in the order it was requested.
    pub loans: Seq<LoanView>,
    pub max_accounts: nat,
    pub max_loans: nat,
}

/// The loan views of a sequence of loans.
pub open spec fn loan_views(s: Seq<Loan>) -> Seq<LoanView> {
    s.map_values(|l: Loan| l@)
}

/// The views of a sequence of classification entries.
pub open spec fn account_views(s: Seq<(AccountId, AccountType)>) -> Seq<(Seq<u8>, AccountType)> {
    s.map_values(|e: (AccountId, AccountType)| (e.0@, e.1))
}

impl View for LendingPool {
    type V = PoolView;

    closed spec fn view(&self) -> PoolView {
        PoolView {
            accounts: account_views(self.accounts@),
            loans: loan_views(self.loans@),
            max_accounts: self.max_accounts as nat,
            max_loans: self.max_loans as nat,
        }
    }
}

impl PoolView {
    /// Each participant has at most one entry; each loan's address is its
    /// position; neither sequence is over its capacity.
    pub open spec fn wf(&self) -> bool {
        &&& self.accounts.len() <= self.max_accounts
        &&& self.loans.len() <= self.max_loans
        &&& self.max_loans <= u64::MAX
        &&& forall|i: int, j: int|
            0 <= i < j < self.accounts.len() ==> #[trigger] self.accounts[i].0
                != #[trigger] self.accounts[j].0
        &&& forall|i: int| 0 <= i < self.loans.len() ==> #[trigger] self.loans[i].address == i
        &&& forall|i: int| 0 <= i < self.loans.len() ==> #[trigger] self.loans[i].wf()
    }

    /// Whether `id` has a classification entry.
    pub open spec fn has_account(&self, id: Seq<u8>) -> bool {
        exists|i: int| 0 <= i < self.accounts.len() && #[trigger] self.accounts[i].0 == id
    }

    /// The position of `id`'s entry, where it has one.
    pub open spec fn account_index(&self, id: Seq<u8>) -> int {
        choose|i: int| 0 <= i < self.accounts.len() && #[trigger] self.accounts[i].0 == id
    }

    /// The classification of `id`: `Unclassified` where it has no entry.
    pub open spec fn account_type(&self, id: Seq<u8>) -> AccountType {
        if self.has_account(id) {
            self.accounts[self.account_index(id)].1
        } else {
            AccountType::Unclassified
        }
    }

    /// Whether a participant without an entry can still be classified.
    pub open spec fn can_classify(&self, id: Seq<u8>) -> bool {
        self.has_account(id) || self.accounts.len() < self.max_accounts
    }

    /// The classifications after `id` is set to `value`.
    pub open spec fn accounts_after_set(&self, id: Seq<u8>, value: AccountType) -> Seq<
        (Seq<u8>, AccountType),
    > {
        if self.has_account(id) {
            self.accounts.update(self.account_index(id), (id, value))
        } else {
            self.accounts.push((id, value))
        }
    }

    /// The loans that `id` borrowed or lent, in ledger order.
    pub open spec fn loans_of(&self, id: Seq<u8>) -> Seq<LoanView> {
        self.loans.filter(|l: LoanView| l.borrower == id || l.lender == id)
    }
}

impl PoolView {
    /// The same ledger with `accounts` as its classifications.
    pub open spec fn with_accounts(&self, accounts: Seq<(Seq<u8>, AccountType)>) -> PoolView {
        PoolView { accounts, loans: self.loans, max_accounts: self.max_accounts, max_loans: self.max_loans }
    }

    /// The same ledger with `loans` as its loans.
    pub open spec fn with_loans(&self, loans: Seq<LoanView>) -> PoolView {
        PoolView { accounts: self.accounts, loans, max_accounts: self.max_accounts, max_loans: self.max_loans }
    }

    /// Setting a classification changes that participant's alone, and keeps
    /// the ledger well formed.
    pub proof fn lemma_after_set(&self, id: Seq<u8>, value: AccountType)
        requires
            self.wf(),
            self.can_classify(id),
        ensures
            self.with_accounts(self.accounts_after_set(id, value)).wf(),
            self.with_accounts(self.accounts_after_set(id, value)).account_type(id) == value,
            forall|x: Seq<u8>|
                x != id ==> #[trigger] self.with_accounts(self.accounts_after_set(id, value)).account_type(x)
                    == self.account_type(x),
    {
        let p = self.with_accounts(self.accounts_after_set(id, value));
        let k = if self.has_account(id) {
            self.account_index(id)
        } else {
            self.accounts.len() as int
        };
        assert(p.accounts[k].0 == id);
        assert forall|i: int, j: int|
            0 <= i < j < p.accounts.len() implies #[trigger] p.accounts[i].0 != #[trigger] p.accounts[j].0 by {
            if i != k && j != k {
                assert(p.accounts[i] == self.accounts[i]);
                assert(p.accounts[j] == self.accounts[j]);
            } else if i == k {
                assert(p.accounts[j] == self.accounts[j]);
                if self.has_account(id) {
                    self.lemma_entry_at(j);
                }
            } else {
                assert(p.accounts[i] == self.accounts[i]);
                if self.has_account(id) {
                    self.lemma_entry_at(i);
                }
            }
        }
        assert(p.wf());
        p.lemma_entry_at(k);
        assert forall|x: Seq<u8>| x != id implies #[trigger] p.account_type(x) == self.account_type(x) by {
            if self.has_account(x) {
                let j = self.account_index(x);
                self.lemma_entry_at(j);
                assert(p.accounts[j] == self.accounts[j]);
                p.lemma_entry_at(j);
            } else {
                if p.has_account(x) {
                    let j = p.account_index(x);
                    assert(j != k);
                    assert(self.accounts[j].0 == x);
                }
            }
        }
    }

    /// Where ids are unique, the entry at `k` is the one `account_type` reads.
    pub proof fn lemma_entry_at(&self, k: int)
        requires
            self.wf(),
            0 <= k < self.accounts.len(),
        ensures
            self.has_account(self.accounts[k].0),
            self.account_index(self.accounts[k].0) == k,
            self.account_type(self.accounts[k].0) == self.accounts[k].1,
    {
        let id = self.accounts[k].0;
        assert(self.has_account(id));
        let c = self.account_index(id);
        if c != k {
            if c < k {
                assert(self.accounts[c].0 != self.accounts[k].0);
            } else {
                assert(self.accounts[k].0 != self.accounts[c].0);
            }
        }
    }
}

impl LendingPool {
    /// An empty ledger that can hold `max_accounts` classified participants
    /// and `max_loans` loans.
    pub fn new(max_accounts: usize, max_loans: usize) -> (r: LendingPool)
        requires
            max_loans <= u64::MAX,
        ensures
            r@.wf(),
            r@.accounts.len() == 0,
            r@.loans.len() == 0,
            r@.max_accounts == max_accounts,
            r@.max_loans == max_loans,
    {
        let r = LendingPool { accounts: Vec::new(), loans: Vec::new(), max_accounts, max_loans };
        assert(r@.accounts =~= Seq::empty());
        assert(r@.loans =~= Seq::empty());
        r
    }

    /// A ledger from stored parts; `None` where they do not form a well
    /// formed ledger.
    pub fn from_parts(
        accounts: Vec<(AccountId, AccountType)>,
        loans: Vec<Loan>,
        max_accounts: usize,
        max_loans: usize,
    ) -> (r: Option<LendingPool>)
        ensures
            ({
                let v = PoolView {
                    accounts: account_views(accounts@),
                    loans: loan_views(loans@),
                    max_accounts: max_accounts as nat,
                    max_loans: max_loans as nat,
                };
                match r {
                    Some(p) => p@ == v && v.wf(),
                    None => !v.wf(),
                }
            }),
    {
        let ghost v = PoolView {
            accounts: account_views(accounts@),
            loans: loan_views(loans@),
            max_accounts: max_accounts as nat,
            max_loans: max_loans as nat,
        };
        if accounts.len() > max_accounts || loans.len() > max_loans
            || max_loans as u128 > u64::MAX as u128 {
            return None;
        }
        let mut i: usize = 0;
        while i < accounts.len()
            invariant
                0 <= i <= accounts@.len(),
                v.accounts.len() == accounts@.len(),
                v == (PoolView {
                    accounts: account_views(accounts@),
                    loans: loan_views(loans@),
                    max_accounts: max_accounts as nat,
                    max_loans: max_loans as nat,
                }),
                forall|a: int, b: int|
                    0 <= a < i && a < b < v.accounts.len() ==> #[trigger] v.accounts[a].0
                        != #[trigger] v.accounts[b].0,
            decreases accounts@.len() - i,
        {
            let mut j: usize = i + 1;
            while j < accounts.len()
                invariant
                    0 <= i < accounts@.len(),
                    i + 1 <= j <= accounts@.len(),
                    v.accounts.len() == accounts@.len(),
                    v == (PoolView {
                        accounts: account_views(accounts@),
                        loans: loan_views(loans@),
                        max_accounts: max_accounts as nat,
                        max_loans: max_loans as nat,
                    }),
                    forall|a: int, b: int|
                        0 <= a < i && a < b < v.accounts.len() ==> #[trigger] v.accounts[a].0
                            != #[trigger] v.accounts[b].0,
                    forall|b: int| i < b < j ==> v.accounts[i as int].0 != #[trigger] v.accounts[b].0,
                decreases accounts@.len() - j,
            {
                if accounts[i].0 == accounts[j].0 {
                    assert(v.accounts[i as int].0 == v.accounts[j as int].0);
                    return None;
                }
                j = j + 1;
            }
            i = i + 1;
        }
        let mut k: usize = 0;
        while k < loans.len()
            invariant
                0 <= k <= loans@.len(),
                v.loans.len() == loans@.len(),
                v == (PoolView {
                    accounts: account_views(accounts@),
                    loans: loan_views(loans@),
                    max_accounts: max_accounts as nat,
                    max_loans: max_loans as nat,
                }),
                forall|a: int| 0 <= a < k ==> #[trigger] v.loans[a].address == a,
                forall|a: int| 0 <= a < k ==> #[trigger] v.loans[a].wf(),
            decreases loans@.len() - k,
        {
            assert(v.loans[k as int] == loans@[k as int]@);
            if loans[k].address != k as u64 {
                assert(v.loans[k as int].address != k);
                return None;
            }
            if loans[k].status == LoanStatus::Funded && loans[k].fund_date.is_none() {
                assert(!v.loans[k as int].wf());
                return None;
            }
            assert(v.loans[k as int].address == k && v.loans[k as int].wf());
            k = k + 1;
        }
        let p = LendingPool { accounts, loans, max_accounts, max_loans };
        Some(p)
    }

    /// The stored parts of the ledger: classification entries, loans and the
    /// two capacities.
    pub fn into_parts(self) -> (r: (Vec<(AccountId, AccountType)>, Vec<Loan>, usize, usize))
        ensures
            account_views(r.0@) == self@.accounts,
            loan_views(r.1@) == self@.loans,
            r.2 == self@.max_accounts,
            r.3 == self@.max_loans,
    {
        (self.accounts, self.loans, self.max_accounts, self.max_loans)
    }

    /// The position of `id`'s classification entry, if it has one.
    fn find_account(&self, id: &AccountId) -> (r: Option<usize>)
        requires
            self@.wf(),
        ensures
            match r {
                Some(k) => self@.has_account(id@) && k == self@.account_index(id@),
                None => !self@.has_account(id@),
            },
    {
        let mut i: usize = 0;
        while i < self.accounts.len()
            invariant
                0 <= i <= self.accounts@.len(),
                self@.accounts.len() == self.accounts@.len(),
                self@.wf(),
                forall|j: int| 0 <= j < i ==> self@.accounts[j].0 != id@,
            decreases self.accounts@.len() - i,
        {
            if self.accounts[i].0 == *id {
                proof {
                    self@.lemma_entry_at(i as int);
                }
                return Some(i);
            }
            i = i + 1;
        }
        None
    }

    /// The classification of `id`; `Unclassified` where it has none.
    pub fn get_account_type(&self, id: &AccountId) -> (r: AccountType)
        requires
            self@.wf(),
        ensures
            r == self@.account_type(id@),
    {
        match self.find_account(id) {
            Some(k) => self.accounts[k].1,
            None => AccountType::Unclassified,
        }
    }

    /// Whether `id` has an entry or there is room for one.
    pub fn can_classify(&self, id: &AccountId) -> (r: bool)
        requires
            self@.wf(),
        ensures
            r == self@.can_classify(id@),
    {
        match self.find_account(id) {
            Some(_) => true,
            None => self.accounts.len() < self.max_accounts,
        }
    }

    /// Whether the ledger holds as many loans as it can.
    pub fn is_full(&self) -> (r: bool)
        ensures
            r == (self@.loans.len() >= self@.max_loans),
    {
        self.loans.len() >= self.max_loans
    }

    /// Classifies `id` as `value`: overwrites its entry, or appends one.
    pub fn set_account_type(&mut self, id: &AccountId, value: AccountType)
        requires
            old(self)@.wf(),
            old(self)@.can_classify(id@),
        ensures
            final(self)@.wf(),
            final(self)@.accounts == old(self)@.accounts_after_set(id@, value),
            final(self)@.loans == old(self)@.loans,
            final(self)@.max_accounts == old(self)@.max_accounts,
            final(self)@.max_loans == old(self)@.max_loans,
    {
        match self.find_account(id) {
            Some(k) => {
                self.accounts.set(k, (*id, value));
            },
            None => {
                self.accounts.push((*id, value));
            },
        }
        assert(self@.accounts =~= old(self)@.accounts_after_set(id@, value));
    }

    /// Appends `loan` under the next address, which it returns;
    /// `MaxLoansReached` when the ledger is full.
    pub fn add_loan(&mut self, loan: Loan) -> (r: Result<u64, ErrorCode>)
        requires
            old(self)@.wf(),
            loan@.wf(),
        ensures
            final(self)@.wf(),
            final(self)@.accounts == old(self)@.accounts,
            final(self)@.max_accounts == old(self)@.max_accounts,
            final(self)@.max_loans == old(self)@.max_loans,
            match r {
                Ok(address) => {
                    &&& old(self)@.loans.len() < old(self)@.max_loans
                    &&& address == old(self)@.loans.len()
                    &&& final(self)@.loans == old(self)@.loans.push(
                        LoanView { address: address as nat, ..loan@ },
                    )
                },
                Err(e) => {
                    &&& old(self)@.loans.len() >= old(self)@.max_loans
                    &&& e == ErrorCode::MaxLoansReached
                    &&& final(self)@.loans == old(self)@.loans
                },
            },
    {
        if self.loans.len() >= self.max_loans {
            return Err(ErrorCode::MaxLoansReached);
        }
        let address = self.loans.len() as u64;
        let mut loan = loan;
        loan.address = address;
        self.loans.push(loan);
        assert(self@.loans =~= old(self)@.loans.push(LoanView { address: address as nat, ..loan@ }));
        Ok(address)
    }

    /// A copy of the loan at `address`, if there is one.
    pub fn get_loan(&self, address: u64) -> (r: Option<Loan>)
        requires
            self@.wf(),
        ensures
            match r {
                Some(l) => address < self@.loans.len() && l@ == self@.loans[address as int],
                None => address >= self@.loans.len(),
            },
    {
        if address as usize >= self.loans.len() || address > usize::MAX as u64 {
            None
        } else {
            Some(self.loans[address as usize].clone())
        }
    }

    /// Replaces the loan whose address is `loan.address`; returns whether
    /// there was one (there is nothing to replace otherwise).
    pub fn update_loan(&mut self, loan: Loan) -> (r: bool)
        requires
            old(self)@.wf(),
            loan@.wf(),
        ensures
            final(self)@.wf(),
            r == (loan.address < old(self)@.loans.len()),
            final(self)@.loans == if r {
                old(self)@.loans.update(loan.address as int, loan@)
            } else {
                old(self)@.loans
            },
            final(self)@.accounts == old(self)@.accounts,
            final(self)@.max_accounts == old(self)@.max_accounts,
            final(self)@.max_loans == old(self)@.max_loans,
    {
        if loan.address > usize::MAX as u64 || loan.address as usize >= self.loans.len() {
            return false;
        }
        let k = loan.address as usize;
        self.loans.set(k, loan);
        assert(self@.loans =~= old(self)@.loans.update(k as int, loan@));
        true
    }

    /// A copy of every loan, in ledger order.
    pub fn get_all_loans(&self) -> (r: Vec<Loan>)
        requires
            self@.wf(),
        ensures
            loan_views(r@) == self@.loans,
    {
        let mut out: Vec<Loan> = Vec::new();
        let mut i: usize = 0;
        while i < self.loans.len()
            invariant
                0 <= i <= self.loans@.len(),
                self@.loans.len() == self.loans@.len(),
                loan_views(out@) == self@.loans.take(i as int),
            decreases self.loans@.len() - i,
        {
            let l = self.loans[i].clone();
            proof {
                out@.lemma_push_map_commute(|l: Loan| l@, l);
            }
            out.push(l);
            assert(self@.loans.take(i + 1) =~= self@.loans.take(i as int).push(l@));
            i = i + 1;
        }
        assert(self@.loans.take(i as int) =~= self@.loans);
        out
    }

    /// A copy of every loan that `id` borrowed or lent, in ledger order.
    pub fn loans_of(&self, id: &AccountId) -> (r: Vec<Loan>)
        requires
            self@.wf(),
        ensures
            loan_views(r@) == self@.loans_of(id@),
    {
        let ghost pred = |l: LoanView| l.borrower == id@ || l.lender == id@;
        let mut out: Vec<Loan> = Vec::new();
        let mut i: usize = 0;
        while i < self.loans.len()
            invariant
                0 <= i <= self.loans@.len(),
                self@.loans.len() == self.loans@.len(),
                pred == (|l: LoanView| l.borrower == id@ || l.lender == id@),
                loan_views(out@) == self@.loans.take(i as int).filter(pred),
            decreases self.loans@.len() - i,
        {
            let ghost before = self@.loans.take(i as int);
            assert(self@.loans.take(i + 1) =~= before.push(self@.loans[i as int]));
            proof {
                before.lemma_filter_push(self@.loans[i as int], pred);
            }
            if self.loans[i].borrower == *id || self.loans[i].lender == *id {
                let l = self.loans[i].clone();
                proof {
                    out@.lemma_push_map_commute(|l: Loan| l@, l);
                }
                out.push(l);
            }
            i = i + 1;
        }
        assert(self@.loans.take(i as int) =~= self@.loans);
        out
    }
}

} // verus!
