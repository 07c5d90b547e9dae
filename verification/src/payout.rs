//! The deadline-penalty rule that splits an escrowed price between the
//! freelancer and the client.
//!
//! Work settled by the soft deadline earns the whole price. From then on each
//! second takes `penalty_per_sec` off the price, until nothing is left or the
//! hard deadline is reached; from the hard deadline on the work earns nothing.
//! Whatever the freelancer does not earn goes back to the client. The rule
//! uses multiplication and subtraction only, so no rounding occurs.
//!
//! The rule is applied as it stands to every price and every rate. Payout and
//! refund always add up to the price. They both stay between nothing and the
//! price where neither the price nor the rate is negative; a negative rate
//! would turn the penalty into a bonus.

use vstd::prelude::*;

verus! {

/// How an escrowed price is split on completion.
#[derive(Clone, Copy, Debug, PartialEq, Eq, Structural)]
pub struct Settlement {
    /// What the freelancer receives.
    pub payout: i128,
    /// What goes back to the client.
    pub refund: i128,
}

/// The penalty for settling at `now`, which lies after `soft_deadline`: the
/// seconds of lateness times the rate.
pub open spec fn penalty_at(soft_deadline: u64, penalty_per_sec: i128, now: u64) -> int {
    (now - soft_deadline) * penalty_per_sec
}

/// What the freelancer earns when the job is settled at `now`.
pub open spec fn payout_at(
    amount: i128,
    soft_deadline: u64,
    hard_deadline: u64,
    penalty_per_sec: i128,
    now: u64,
) -> int {
    if now <= soft_deadline {
        amount as int
    } else if now < hard_deadline {
        let penalty = penalty_at(soft_deadline, penalty_per_sec, now);
        if penalty < amount {
            amount - penalty
        } else {
            0
        }
    } else {
        0
    }
}

/// What goes back to the client when the job is settled at `now`: the part of
/// the price that the freelancer does not earn.
pub open spec fn refund_at(
    amount: i128,
    soft_deadline: u64,
    hard_deadline: u64,
    penalty_per_sec: i128,
    now: u64,
) -> int {
    amount - payout_at(amount, soft_deadline, hard_deadline, penalty_per_sec, now)
}

/// Whether every value that the rule computes on the way lies in the range
/// of a signed 128-bit integer. Only a settlement strictly between the two
/// deadlines computes anything: the penalty, and the price less the penalty
/// where the penalty is smaller than the price.
pub open spec fn settlement_fits(
    amount: i128,
    soft_deadline: u64,
    hard_deadline: u64,
    penalty_per_sec: i128,
    now: u64,
) -> bool {
    soft_deadline < now < hard_deadline ==> {
        let penalty = penalty_at(soft_deadline, penalty_per_sec, now);
        &&& i128::MIN <= penalty <= i128::MAX
        &&& penalty < amount ==> amount - penalty <= i128::MAX
    }
}

/// The settlement at `now`, or `None` where computing it would overflow.
pub open spec fn settlement_at(
    amount: i128,
    soft_deadline: u64,
    hard_deadline: u64,
    penalty_per_sec: i128,
    now: u64,
) -> Option<Settlement> {
    if settlement_fits(amount, soft_deadline, hard_deadline, penalty_per_sec, now) {
        Some(
            Settlement {
                payout: payout_at(amount, soft_deadline, hard_deadline, penalty_per_sec, now) as i128,
                refund: refund_at(amount, soft_deadline, hard_deadline, penalty_per_sec, now) as i128,
            },
        )
    } else {
        None
    }
}

/// Where the rule does not overflow, the payout and the refund that it yields
/// are themselves in range, so `settlement_at` loses nothing by narrowing them.
pub proof fn lemma_settlement_in_range(
    amount: i128,
    soft_deadline: u64,
    hard_deadline: u64,
    penalty_per_sec: i128,
    now: u64,
)
    requires
        settlement_fits(amount, soft_deadline, hard_deadline, penalty_per_sec, now),
    ensures
        i128::MIN <= payout_at(amount, soft_deadline, hard_deadline, penalty_per_sec, now)
            <= i128::MAX,
        i128::MIN <= refund_at(amount, soft_deadline, hard_deadline, penalty_per_sec, now)
            <= i128::MAX,
{
}

/// Splits the price of a job that is settled at `now`.
///
/// Returns `None` exactly where the penalty, or the price less the penalty,
/// does not fit a signed 128-bit integer; nothing wraps around.
pub fn settle(
    amount: i128,
    soft_deadline: u64,
    hard_deadline: u64,
    penalty_per_sec: i128,
    now: u64,
) -> (r: Option<Settlement>)
    ensures
        r == settlement_at(amount, soft_deadline, hard_deadline, penalty_per_sec, now),
        r matches Some(s) ==> s.payout + s.refund == amount,
        amount >= 0 && penalty_per_sec >= 0 ==> (r matches Some(s) ==> 0 <= s.payout <= amount && 0
            <= s.refund <= amount),
{
    proof {
        if settlement_fits(amount, soft_deadline, hard_deadline, penalty_per_sec, now) {
            lemma_settlement_in_range(amount, soft_deadline, hard_deadline, penalty_per_sec, now);
        }
        if amount >= 0 && penalty_per_sec >= 0 {
            law_split_is_bounded(amount, soft_deadline, hard_deadline, penalty_per_sec, now);
        }
    }
    if now <= soft_deadline {
        Some(Settlement { payout: amount, refund: 0 })
    } else if now < hard_deadline {
        let seconds_late: u64 = now - soft_deadline;
        let seconds_late: i128 = seconds_late as i128;
        match seconds_late.checked_mul(penalty_per_sec) {
            None => None,
            Some(penalty) => {
                if penalty < amount {
                    match amount.checked_sub(penalty) {
                        None => None,
                        Some(payout) => Some(Settlement { payout, refund: penalty }),
                    }
                } else {
                    Some(Settlement { payout: 0, refund: amount })
                }
            },
        }
    } else {
        Some(Settlement { payout: 0, refund: amount })
    }
}

/// The split is exact: payout and refund always add up to the price.
pub proof fn law_split_is_exact(
    amount: i128,
    soft_deadline: u64,
    hard_deadline: u64,
    penalty_per_sec: i128,
    now: u64,
)
    ensures
        payout_at(amount, soft_deadline, hard_deadline, penalty_per_sec, now) + refund_at(
            amount,
            soft_deadline,
            hard_deadline,
            penalty_per_sec,
            now,
        ) == amount,
{
}

/// With a price and a penalty rate that are not negative, neither party ever
/// receives less than nothing or more than the price, whenever the job is
/// settled.
pub proof fn law_split_is_bounded(
    amount: i128,
    soft_deadline: u64,
    hard_deadline: u64,
    penalty_per_sec: i128,
    now: u64,
)
    requires
        amount >= 0,
        penalty_per_sec >= 0,
    ensures
        0 <= payout_at(amount, soft_deadline, hard_deadline, penalty_per_sec, now) <= amount,
        0 <= refund_at(amount, soft_deadline, hard_deadline, penalty_per_sec, now) <= amount,
{
    if soft_deadline < now {
        assert(penalty_at(soft_deadline, penalty_per_sec, now) >= 0) by (nonlinear_arith)
            requires
                now - soft_deadline > 0,
                penalty_per_sec >= 0,
        ;
    }
}

/// Settled exactly at the soft deadline, the work still earns the whole price.
pub proof fn law_full_payout_at_soft_deadline(
    amount: i128,
    soft_deadline: u64,
    hard_deadline: u64,
    penalty_per_sec: i128,
)
    ensures
        payout_at(amount, soft_deadline, hard_deadline, penalty_per_sec, soft_deadline) == amount,
        refund_at(amount, soft_deadline, hard_deadline, penalty_per_sec, soft_deadline) == 0,
        settlement_at(amount, soft_deadline, hard_deadline, penalty_per_sec, soft_deadline) == Some(
            Settlement { payout: amount, refund: 0 },
        ),
{
}

/// Settled exactly at the hard deadline, which lies after the soft one, the
/// work earns nothing and the whole price goes back.
pub proof fn law_no_payout_at_hard_deadline(
    amount: i128,
    soft_deadline: u64,
    hard_deadline: u64,
    penalty_per_sec: i128,
)
    requires
        hard_deadline > soft_deadline,
    ensures
        payout_at(amount, soft_deadline, hard_deadline, penalty_per_sec, hard_deadline) == 0,
        refund_at(amount, soft_deadline, hard_deadline, penalty_per_sec, hard_deadline) == amount,
        settlement_at(amount, soft_deadline, hard_deadline, penalty_per_sec, hard_deadline) == Some(
            Settlement { payout: 0, refund: amount },
        ),
{
}

/// Between the deadlines, a penalty that has reached the price leaves nothing
/// to pay out. This holds in particular one second before the hard deadline.
pub proof fn law_no_payout_once_penalty_reaches_price(
    amount: i128,
    soft_deadline: u64,
    hard_deadline: u64,
    penalty_per_sec: i128,
    now: u64,
)
    requires
        soft_deadline < now < hard_deadline,
        penalty_at(soft_deadline, penalty_per_sec, now) >= amount,
    ensures
        payout_at(amount, soft_deadline, hard_deadline, penalty_per_sec, now) == 0,
        refund_at(amount, soft_deadline, hard_deadline, penalty_per_sec, now) == amount,
{
}

} // verus!
