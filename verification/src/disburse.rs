//! The disburser: validates each recipient in order and decides, one
//! recipient at a time, which transfer the embedding program must perform.
//!
//! The cross-program transfer itself is the host ledger's work; this module
//! decides everything about it — which recipient is next, how much it gets,
//! and when the whole request must abort — and those decisions are verified.

use vstd::prelude::*;

use crate::split::{compute_split, ErrorCode, SplitPlan};
use anchor_lang::AccountDeserialize;

verus! {

/// Whether a raw account byte image is an initialized token account, as the
/// ledger's deserializer judges it. Named, not restated: the account format
/// belongs to the token program.
pub uninterp spec fn token_account_bytes_ok(data: Seq<u8>) -> bool;

/// Relies on `anchor_spl::token_interface::TokenAccount::try_deserialize`
/// (`StateWithExtensions::<Account>::unpack` underneath): whether raw
/// account data parses as an initialized token account is a function of the
/// bytes alone.
#[verifier::external_body]
fn deserializes_as_token_account(data: &[u8]) -> (r: bool)
    ensures
        r == token_account_bytes_ok(data@),
{
    let mut buf: &[u8] = data;
    match anchor_spl::token_interface::TokenAccount::try_deserialize(&mut buf) {
        Ok(_) => true,
        Err(_) => false,
    }
}

/// Checks one recipient's raw account data the way the disburser does
/// before paying that recipient.
pub fn validate_recipient_account(data: &[u8]) -> (r: Result<(), ErrorCode>)
    ensures
        r is Ok <==> token_account_bytes_ok(data@),
        r is Err ==> r == Err::<(), ErrorCode>(ErrorCode::InvalidTokenAccount),
{
    if deserializes_as_token_account(data) {
        Ok(())
    } else {
        Err(ErrorCode::InvalidTokenAccount)
    }
}

/// What a recipient at a given position is owed under a plan: the first
/// position gets the first share, every other position the equal cut.
pub open spec fn spec_order_amount(plan: SplitPlan, position: int) -> int {
    if position == 0 {
        plan.first_amount as int
    } else {
        plan.per_recipient_amount as int
    }
}

/// Everything a plan pays to its first `count` recipients, in order.
pub open spec fn spec_total_paid(plan: SplitPlan, count: int) -> int
    decreases count,
{
    if count <= 0 {
        0
    } else {
        spec_total_paid(plan, count - 1) + spec_order_amount(plan, count - 1)
    }
}

/// One transfer the disburser instructs the embedding program to perform.
#[derive(Clone, Copy, Debug, PartialEq, Eq, Structural)]
pub struct TransferOrder {
    /// Position of the recipient in the order the recipients were supplied.
    pub recipient_index: u64,
    /// Base units to move from the source account to that recipient.
    pub amount: u64,
}

/// Walks the recipients of one distribution request in their given order.
///
/// Every order it issues is for the recipient after the last one ordered,
/// and a recipient whose account data does not validate fails the whole
/// request: a failed disburser never issues another order.
pub struct Disburser {
    plan: SplitPlan,
    issued: u64,
    failed: bool,
}

impl Disburser {
    /// The plan the disburser is paying out.
    pub closed spec fn plan(self) -> SplitPlan {
        self.plan
    }

    /// How many transfer orders have been issued so far.
    pub closed spec fn issued(self) -> int {
        self.issued as int
    }

    /// Whether a recipient failed validation and the request is aborted.
    pub closed spec fn has_failed(self) -> bool {
        self.failed
    }

    /// A disburser never covers fewer than two recipients and never issues
    /// more orders than there are recipients.
    pub open spec fn wf(self) -> bool {
        &&& self.plan().recipient_count >= 2
        &&& 0 <= self.issued() <= self.plan().recipient_count
    }

    /// Every recipient has its order and none failed.
    pub open spec fn done(self) -> bool {
        self.issued() == self.plan().recipient_count && !self.has_failed()
    }

    /// Validates a distribution request and computes its split plan.
    ///
    /// Fewer than two recipients are rejected outright, before any
    /// computation; an amount whose scaled intermediate `amount * 95 * 1000`
    /// does not fit in 64 bits is rejected instead of wrapping.
    pub fn new(amount: u64, recipient_count: u64) -> (r: Result<Disburser, ErrorCode>)
        ensures
            r is Ok <==> recipient_count >= 2 && amount * 95 * 1000 <= u64::MAX,
            recipient_count < 2 <==> r == Err::<Disburser, ErrorCode>(
                ErrorCode::InsufficientRecipients,
            ),
            recipient_count >= 2 && amount * 95 * 1000 > u64::MAX <==> r == Err::<
                Disburser,
                ErrorCode,
            >(ErrorCode::Overflow),
            (r matches Ok(d) ==> {
                &&& d.wf()
                &&& d.plan().is_split_of(amount as int, recipient_count as int)
                &&& d.issued() == 0
                &&& !d.has_failed()
            }),
    {
        if recipient_count < 2 {
            return Err(ErrorCode::InsufficientRecipients);
        }
        let overflowed: bool = match amount.checked_mul(95) {
            Some(scaled) => scaled.checked_mul(1000).is_none(),
            None => true,
        };
        if overflowed {
            return Err(ErrorCode::Overflow);
        }
        let plan = compute_split(amount, recipient_count);
        Ok(Disburser { plan, issued: 0, failed: false })
    }

    /// Validates the next recipient's account data and, if it is a token
    /// account, issues the order to pay that recipient its share.
    ///
    /// On a recipient that fails validation the whole request aborts: the
    /// disburser marks itself failed, stays at the same position, and its
    /// precondition bars any further order.
    pub fn next_transfer(&mut self, recipient_data: &[u8]) -> (r: Result<
        TransferOrder,
        ErrorCode,
    >)
        requires
            old(self).wf(),
            !old(self).has_failed(),
            old(self).issued() < old(self).plan().recipient_count,
        ensures
            final(self).wf(),
            final(self).plan() == old(self).plan(),
            r is Ok <==> token_account_bytes_ok(recipient_data@),
            (r matches Ok(order) ==> {
                &&& order.recipient_index == old(self).issued()
                &&& order.amount == spec_order_amount(old(self).plan(), old(self).issued())
                &&& final(self).issued() == old(self).issued() + 1
                &&& !final(self).has_failed()
            }),
            r is Err ==> {
                &&& r == Err::<TransferOrder, ErrorCode>(ErrorCode::InvalidTokenAccount)
                &&& final(self).has_failed()
                &&& final(self).issued() == old(self).issued()
            },
    {
        match validate_recipient_account(recipient_data) {
            Ok(()) => {
                let index = self.issued;
                let amount = if index == 0 {
                    self.plan.first_amount
                } else {
                    self.plan.per_recipient_amount
                };
                self.issued = index + 1;
                Ok(TransferOrder { recipient_index: index, amount })
            },
            Err(e) => {
                self.failed = true;
                Err(e)
            },
        }
    }

    /// The plan being paid out.
    pub fn split_plan(&self) -> (p: SplitPlan)
        ensures
            p == self.plan(),
    {
        self.plan
    }

    /// How many transfer orders have been issued.
    pub fn orders_issued(&self) -> (n: u64)
        ensures
            n == self.issued(),
    {
        self.issued
    }

    /// Whether a recipient failed validation and the request is aborted.
    pub fn is_failed(&self) -> (b: bool)
        ensures
            b == self.has_failed(),
    {
        self.failed
    }

    /// Whether every recipient has received its order.
    pub fn is_done(&self) -> (b: bool)
        ensures
            b == self.done(),
    {
        self.issued == self.plan.recipient_count && !self.failed
    }
}

/// Conservation over the whole walk: the orders issued to all recipients of
/// a plan, first share and equal cuts together, pay out exactly the amount
/// the plan was computed from — whoever stands at which position.
pub proof fn lemma_disbursement_conserves_total(
    amount: int,
    recipient_count: int,
    plan: SplitPlan,
)
    requires
        recipient_count >= 2,
        plan.is_split_of(amount, recipient_count),
    ensures
        spec_total_paid(plan, recipient_count) == amount,
{
    lemma_total_paid_partial(plan, recipient_count);
    crate::split::lemma_split_conserves_total(amount, recipient_count);
}

/// Paying the first `count` recipients costs the first share plus
/// `count - 1` equal cuts.
proof fn lemma_total_paid_partial(plan: SplitPlan, count: int)
    requires
        count >= 1,
    ensures
        spec_total_paid(plan, count) == plan.first_amount + plan.per_recipient_amount * (count
            - 1),
    decreases count,
{
    if count == 1 {
        assert(spec_total_paid(plan, 0) == 0);
        assert(plan.per_recipient_amount * 0 == 0) by {
            vstd::arithmetic::mul::lemma_mul_by_zero_is_zero(plan.per_recipient_amount as int);
        }
    } else {
        lemma_total_paid_partial(plan, count - 1);
        assert(plan.per_recipient_amount * (count - 2) + plan.per_recipient_amount
            == plan.per_recipient_amount * (count - 1)) by {
            vstd::arithmetic::mul::lemma_mul_is_distributive_add(
                plan.per_recipient_amount as int,
                count - 2,
                1,
            );
        }
    }
}

} // verus!
