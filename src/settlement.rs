//! Reconciliation of a payment against the platform fee and the benefactors'
//! amounts, and the plan of transfers that a reconciled payment yields.
use vstd::prelude::*;

use ink::primitives::AccountId;

use crate::fee::{fee_of, platform_fee};

verus! {

/// A recipient of a settlement other than the platform, with the amount it is owed.
#[derive(Clone, Copy, Debug, PartialEq, Eq)]
pub struct Benefactor {
    pub id: AccountId,
    pub amount: u128,
}

/// One movement of value: `amount` to the account `to`.
#[derive(Clone, Copy, Debug, PartialEq, Eq)]
pub struct Transfer {
    pub to: AccountId,
    pub amount: u128,
}

/// Why a settlement did not complete.
#[derive(Debug, PartialEq, Eq)]
pub enum SettlementError {
    /// The fee and the benefactors' amounts do not add up to the payment.
    /// No value has moved.
    Reconciliation,
    /// The transfer at position `index` of the plan, to `recipient`, failed
    /// with `cause`. The `index` transfers before it were made and stand.
    Transfer { index: usize, recipient: AccountId, cause: ink::env::Error },
}

/// The sum of the amounts of `l`, added in list order.
pub open spec fn sum_amounts(l: Seq<Benefactor>) -> int
    decreases l.len(),
{
    if l.len() == 0 {
        0
    } else {
        sum_amounts(l.drop_last()) + l.last().amount
    }
}

/// Whether a payment of `total` reconciles at `rate` percent with the
/// benefactors `l`: fee and amounts together are exactly `total`.
pub open spec fn reconciles(total: int, rate: int, l: Seq<Benefactor>) -> bool {
    fee_of(total, rate) + sum_amounts(l) == total
}

/// The transfer that pays benefactor `b`.
pub open spec fn transfer_to(b: Benefactor) -> Transfer {
    Transfer { to: b.id, amount: b.amount }
}

/// One transfer per benefactor, in list order; equal accounts are not merged.
pub open spec fn transfers_of(l: Seq<Benefactor>) -> Seq<Transfer> {
    l.map_values(|b: Benefactor| transfer_to(b))
}

/// The disbursement plan: the fee to the platform first, then every
/// benefactor in list order.
pub open spec fn plan_of(platform: AccountId, fee: u128, l: Seq<Benefactor>) -> Seq<Transfer> {
    seq![Transfer { to: platform, amount: fee }] + transfers_of(l)
}

/// The total value that the transfers `ts` move.
pub open spec fn total_moved(ts: Seq<Transfer>) -> int
    decreases ts.len(),
{
    if ts.len() == 0 {
        0
    } else {
        total_moved(ts.drop_last()) + ts.last().amount
    }
}

/// The value that the transfers `ts` credit to the account `a`.
pub open spec fn credited(ts: Seq<Transfer>, a: AccountId) -> int
    decreases ts.len(),
{
    if ts.len() == 0 {
        0
    } else {
        credited(ts.drop_last(), a) + if ts.last().to == a {
            ts.last().amount as int
        } else {
            0
        }
    }
}

/// A sum of amounts only grows as the list does.
pub proof fn lemma_sum_prefix(l: Seq<Benefactor>, i: int)
    requires
        0 <= i <= l.len(),
    ensures
        0 <= sum_amounts(l.take(i)) <= sum_amounts(l),
    decreases l.len(),
{
    if l.len() > 0 {
        if i == l.len() {
            assert(l.take(i) =~= l);
            lemma_sum_prefix(l.drop_last(), i - 1);
            assert(l.drop_last().take(i - 1) =~= l.take(i).drop_last());
        } else {
            lemma_sum_prefix(l.drop_last(), i);
            assert(l.drop_last().take(i) =~= l.take(i));
        }
    }
}

/// Fee and benefactors' amounts added in list order, or `None` where the
/// sum exceeds `u128::MAX`.
fn owed_total(fee: u128, benefactors: &Vec<Benefactor>) -> (r: Option<u128>)
    ensures
        match r {
            Some(t) => t == fee + sum_amounts(benefactors@),
            None => fee + sum_amounts(benefactors@) > u128::MAX,
        },
{
    let mut owed: u128 = fee;
    let mut i: usize = 0;
    while i < benefactors.len()
        invariant
            i <= benefactors.len(),
            owed == fee + sum_amounts(benefactors@.take(i as int)),
        decreases benefactors.len() - i,
    {
        assert(benefactors@.take(i + 1).drop_last() =~= benefactors@.take(i as int));
        match owed.checked_add(benefactors[i].amount) {
            None => {
                proof {
                    lemma_sum_prefix(benefactors@, i + 1);
                }
                return None;
            },
            Some(next) => {
                owed = next;
            },
        }
        i = i + 1;
    }
    assert(benefactors@.take(i as int) =~= benefactors@);
    Some(owed)
}

/// Whether a payment of `total` reconciles at `rate` percent with the
/// benefactors, with no arithmetic that could overflow.
pub fn is_reconciled(total: u128, rate: u128, benefactors: &Vec<Benefactor>) -> (r: bool)
    ensures
        r == reconciles(total as int, rate as int, benefactors@),
{
    proof {
        lemma_sum_prefix(benefactors@, 0);
    }
    match platform_fee(total, rate) {
        None => false,
        Some(fee) => match owed_total(fee, benefactors) {
            None => false,
            Some(owed) => owed == total,
        },
    }
}

} // verus!
