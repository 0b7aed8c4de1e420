//! The distribution calculator: how a total amount is divided among an
//! ordered list of recipients.

use vstd::prelude::*;

verus! {

/// Why a distribution request was rejected.
#[derive(Clone, Copy, Debug, PartialEq, Eq, Structural)]
pub enum ErrorCode {
    /// A recipient account's data is not an initialized token account.
    InvalidTokenAccount,
    /// Fewer than two recipients were supplied.
    InsufficientRecipients,
    /// The scaled intermediate `amount * 95 * 1000` exceeds 64 bits.
    Overflow,
}

/// 95% of `amount`, computed with the calculator's exact two-step
/// truncation: scale by 95 and 1000, divide by 100, then divide by 1000.
pub open spec fn spec_remaining_amount(amount: int) -> int {
    ((amount * 95 * 1000) / 100) / 1000
}

/// The equal cut each recipient after the first receives: the remaining
/// amount divided over `recipient_count - 1` recipients, again scaled by
/// 1000 before the division and truncated back down afterwards.
pub open spec fn spec_per_recipient_amount(amount: int, recipient_count: int) -> int
    recommends
        recipient_count >= 2,
{
    (spec_remaining_amount(amount) * 1000 / (recipient_count - 1)) / 1000
}

/// The first recipient's share: whatever the equal cuts leave of the total,
/// so that the whole amount is always disbursed exactly.
pub open spec fn spec_first_amount(amount: int, recipient_count: int) -> int
    recommends
        recipient_count >= 2,
{
    amount - spec_per_recipient_amount(amount, recipient_count) * (recipient_count - 1)
}

/// How a total amount is divided: the first recipient's share, the equal
/// share of every other recipient, and how many recipients there are.
#[derive(Clone, Copy, Debug, PartialEq, Eq, Structural)]
pub struct SplitPlan {
    /// Paid to the recipient at position 0.
    pub first_amount: u64,
    /// Paid to each recipient at a position greater than 0.
    pub per_recipient_amount: u64,
    /// Number of recipients the plan covers.
    pub recipient_count: u64,
}

impl SplitPlan {
    /// The plan is exactly the calculator's division of `amount` over
    /// `recipient_count` recipients.
    pub open spec fn is_split_of(self, amount: int, recipient_count: int) -> bool {
        &&& self.recipient_count == recipient_count
        &&& self.per_recipient_amount == spec_per_recipient_amount(amount, recipient_count)
        &&& self.first_amount == spec_first_amount(amount, recipient_count)
    }

    /// Everything the plan pays out, over all recipients.
    pub open spec fn spec_total(self) -> int {
        self.first_amount + self.per_recipient_amount * (self.recipient_count - 1)
    }
}

/// Divides `amount` over `recipient_count` recipients: 95% of the total,
/// twice truncated, is cut evenly among all recipients but the first, and
/// the first absorbs the rest.
pub fn compute_split(amount: u64, recipient_count: u64) -> (plan: SplitPlan)
    requires
        recipient_count >= 2,
        amount * 95 * 1000 <= u64::MAX,
    ensures
        plan.is_split_of(amount as int, recipient_count as int),
        plan.spec_total() == amount,
{
    let scaled: u64 = amount * 95 * 1000;
    let remaining: u64 = scaled / 100 / 1000;
    proof {
        lemma_remaining_at_most_amount(amount as int);
        assert(remaining * 1000 <= amount * 1000 <= amount * 95 * 1000);
    }
    let shares: u64 = remaining * 1000;
    let divisor: u64 = recipient_count - 1;
    let per_recipient: u64 = shares / divisor / 1000;
    proof {
        lemma_shares_cover_cuts(remaining as int, divisor as int);
    }
    let paid_to_rest: u64 = per_recipient * divisor;
    let first: u64 = amount - paid_to_rest;
    SplitPlan { first_amount: first, per_recipient_amount: per_recipient, recipient_count }
}

/// The twice-truncated 95% cut never exceeds the amount itself.
proof fn lemma_remaining_at_most_amount(amount: int)
    requires
        amount >= 0,
    ensures
        0 <= spec_remaining_amount(amount) <= amount,
{
    assert(amount * 95 * 1000 <= amount * 100 * 1000);
    vstd::arithmetic::div_mod::lemma_div_is_ordered(
        amount * 95 * 1000,
        amount * 100 * 1000,
        100,
    );
    vstd::arithmetic::div_mod::lemma_div_multiples_vanish(amount * 1000, 100);
    assert(amount * 100 * 1000 == 100 * (amount * 1000));
    vstd::arithmetic::div_mod::lemma_div_is_ordered(
        amount * 95 * 1000 / 100,
        amount * 1000,
        1000,
    );
    vstd::arithmetic::div_mod::lemma_div_multiples_vanish(amount, 1000);
    assert(amount * 1000 == 1000 * amount);
    vstd::arithmetic::div_mod::lemma_div_pos_is_pos(amount * 95 * 1000, 100);
    vstd::arithmetic::div_mod::lemma_div_pos_is_pos(amount * 95 * 1000 / 100, 1000);
}

/// The equal cuts taken together never exceed the remaining amount they
/// were cut from.
proof fn lemma_shares_cover_cuts(remaining: int, divisor: int)
    requires
        remaining >= 0,
        divisor >= 1,
    ensures
        0 <= (remaining * 1000 / divisor / 1000) * divisor <= remaining,
{
    let shares = remaining * 1000;
    let cut = shares / divisor;
    let per = cut / 1000;
    vstd::arithmetic::div_mod::lemma_div_pos_is_pos(shares, divisor);
    vstd::arithmetic::div_mod::lemma_div_pos_is_pos(cut, 1000);
    assert(per * 1000 <= cut) by {
        vstd::arithmetic::div_mod::lemma_remainder_lower(cut, 1000);
    }
    assert(cut * divisor <= shares) by {
        vstd::arithmetic::div_mod::lemma_remainder_lower(shares, divisor);
        vstd::arithmetic::mul::lemma_mul_is_commutative(shares / divisor, divisor);
    }
    assert(per * 1000 * divisor <= cut * divisor) by {
        vstd::arithmetic::mul::lemma_mul_inequality(per * 1000, cut, divisor);
    }
    assert(per * 1000 * divisor == per * divisor * 1000) by {
        vstd::arithmetic::mul::lemma_mul_is_associative(per, 1000, divisor);
        vstd::arithmetic::mul::lemma_mul_is_commutative(1000, divisor);
        vstd::arithmetic::mul::lemma_mul_is_associative(per, divisor, 1000);
    }
    assert(per * divisor * 1000 <= remaining * 1000);
    vstd::arithmetic::mul::lemma_mul_nonnegative(per, divisor);
}

/// Conservation: the first recipient's share plus the equal cuts of all the
/// other recipients add back up to exactly the amount that was split.
pub proof fn lemma_split_conserves_total(amount: int, recipient_count: int)
    requires
        recipient_count >= 2,
    ensures
        spec_first_amount(amount, recipient_count) + spec_per_recipient_amount(
            amount,
            recipient_count,
        ) * (recipient_count - 1) == amount,
{
}

/// Determinism: any two plans that split the same amount over the same
/// number of recipients are the same plan.
pub proof fn lemma_split_plan_unique(
    amount: int,
    recipient_count: int,
    a: SplitPlan,
    b: SplitPlan,
)
    requires
        a.is_split_of(amount, recipient_count),
        b.is_split_of(amount, recipient_count),
    ensures
        a == b,
{
}

} // verus!
