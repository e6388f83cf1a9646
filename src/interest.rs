use vstd::prelude::*;
use vstd::arithmetic::div_mod::lemma_hoist_over_denominator;

verus! {

/// Seconds in a (non-leap) year, the period the interest rate is quoted over.
pub const SECONDS_PER_YEAR: u128 = 31536000;

/// The annual interest rate, in percent.
pub const INTEREST_RATE_PERCENT: u128 = 30;

/// `100 * SECONDS_PER_YEAR`: interest is `amount * rate% * elapsed / year`.
pub const INTEREST_DENOMINATOR: u128 = 3153600000;

/// Interest owed on `amount` after `elapsed` seconds: 30% a year, simple,
/// truncated toward zero; nothing for an elapsed time that is not positive.
pub open spec fn accrued_interest(amount: nat, elapsed: int) -> nat {
    if elapsed <= 0 {
        0
    } else {
        ((amount * 30 * elapsed) / 3153600000) as nat
    }
}

/// What the borrower pays back: the principal and its interest.
pub open spec fn total_repayment(amount: nat, elapsed: int) -> nat {
    amount + accrued_interest(amount, elapsed)
}

/// The interest and the total owed on `amount`, lent at `fund_date` and
/// repaid at `now`; `None` when the total does not fit in a `u64`.
pub fn repayment_due(amount: u64, fund_date: i64, now: i64) -> (r: Option<(u64, u64)>)
    ensures
        match r {
            Some((interest, total)) => {
                &&& interest as nat == accrued_interest(amount as nat, now - fund_date)
                &&& total as nat == total_repayment(amount as nat, now - fund_date)
            },
            None => total_repayment(amount as nat, now - fund_date) > u64::MAX,
        },
{
    let elapsed: i128 = now as i128 - fund_date as i128;
    let interest: u128 = if elapsed <= 0 {
        0
    } else {
        let e: u128 = elapsed as u128;
        let q: u128 = e / INTEREST_DENOMINATOR;
        let r: u128 = e % INTEREST_DENOMINATOR;
        let a: u128 = amount as u128;
        assert(e == q * 3153600000 + r);
        assert(q <= 6000000000) by (nonlinear_arith)
            requires
                e == q * 3153600000 + r,
                r >= 0,
                e < 0x1_0000_0000_0000_0000,
        ;
        assert(a * 30 * q <= 0xffff_ffff_ffff_ffff * 30 * 6000000000) by (nonlinear_arith)
            requires
                a <= 0xffff_ffff_ffff_ffff,
                q <= 6000000000,
        ;
        assert(a * 30 * r <= 0xffff_ffff_ffff_ffff * 30 * 3153600000) by (nonlinear_arith)
            requires
                a <= 0xffff_ffff_ffff_ffff,
                r < 3153600000,
        ;
        let whole: u128 = a * INTEREST_RATE_PERCENT * q;
        let part: u128 = a * INTEREST_RATE_PERCENT * r / INTEREST_DENOMINATOR;
        proof {
            let ai = a as int;
            let ei = e as int;
            assert(ei == q * 3153600000 + r);
            assert(ai * 30 * ei == ai * 30 * r + (ai * 30 * q) * 3153600000) by (nonlinear_arith)
                requires
                    ei == q * 3153600000 + r,
            ;
            lemma_hoist_over_denominator(ai * 30 * r, ai * 30 * q, 3153600000);
        }
        whole + part
    };
    let total: u128 = amount as u128 + interest;
    if total > u64::MAX as u128 {
        None
    } else {
        Some((interest as u64, total as u64))
    }
}

} // verus!
