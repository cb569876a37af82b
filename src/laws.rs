//! What holds of every settlement: money reconciles exactly, the order of
//! transfers is fixed, and equal accounts are paid once per entry.
use vstd::prelude::*;

use ink::primitives::AccountId;

use crate::fee::fee_of;
use crate::settlement::{
    credited, plan_of, reconciles, sum_amounts, total_moved, transfer_to, transfers_of, Benefactor,
    Transfer,
};

verus! {

/// The value moved by two runs of transfers, one after the other, is the sum
/// of what each moves.
pub proof fn lemma_total_moved_append(a: Seq<Transfer>, b: Seq<Transfer>)
    ensures
        total_moved(a + b) == total_moved(a) + total_moved(b),
    decreases b.len(),
{
    if b.len() > 0 {
        lemma_total_moved_append(a, b.drop_last());
        assert((a + b).drop_last() =~= a + b.drop_last());
    }
}

/// What an account is credited by two runs of transfers is the sum of what
/// each credits it.
pub proof fn lemma_credited_append(s: Seq<Transfer>, t: Seq<Transfer>, acct: AccountId)
    ensures
        credited(s + t, acct) == credited(s, acct) + credited(t, acct),
    decreases t.len(),
{
    if t.len() > 0 {
        lemma_credited_append(s, t.drop_last(), acct);
        assert((s + t).drop_last() =~= s + t.drop_last());
    }
}

/// Paying each benefactor its amount moves exactly the sum of the amounts.
pub proof fn lemma_transfers_move_sum(l: Seq<Benefactor>)
    ensures
        total_moved(transfers_of(l)) == sum_amounts(l),
    decreases l.len(),
{
    if l.len() > 0 {
        lemma_transfers_move_sum(l.drop_last());
        assert(transfers_of(l).drop_last() =~= transfers_of(l.drop_last()));
    }
}

/// The transfers for two lists, one after the other, are those of the
/// joined list.
pub proof fn lemma_transfers_of_append(a: Seq<Benefactor>, b: Seq<Benefactor>)
    ensures
        transfers_of(a + b) == transfers_of(a) + transfers_of(b),
{
    assert(transfers_of(a + b) =~= transfers_of(a) + transfers_of(b));
}

/// Exact reconciliation: where the fee and the benefactors' amounts add up
/// to the payment, the plan pays the fee to the platform, then each
/// benefactor exactly its amount, and moves exactly the payment.
pub proof fn lemma_exact_reconciliation(
    platform: AccountId,
    rate: u128,
    total: u128,
    l: Seq<Benefactor>,
)
    requires
        reconciles(total as int, rate as int, l),
    ensures
        0 <= fee_of(total as int, rate as int) <= total,
        ({
            let fee = fee_of(total as int, rate as int) as u128;
            let plan = plan_of(platform, fee, l);
            &&& plan.len() == l.len() + 1
            &&& plan[0] == Transfer { to: platform, amount: fee }
            &&& forall|i: int| 0 <= i < l.len() ==> plan[i + 1] == transfer_to(#[trigger] l[i])
            &&& total_moved(plan) == total
        }),
{
    assert(0 <= fee_of(total as int, rate as int)) by (nonlinear_arith)
        requires
            total >= 0,
            rate >= 0,
    ;
    crate::settlement::lemma_sum_prefix(l, 0);
    assert(l.take(0) =~= Seq::<Benefactor>::empty());
    let fee = fee_of(total as int, rate as int) as u128;
    let head = seq![Transfer { to: platform, amount: fee }];
    lemma_total_moved_append(head, transfers_of(l));
    lemma_transfers_move_sum(l);
    assert(head.drop_last() =~= Seq::<Transfer>::empty());
    assert(total_moved(Seq::<Transfer>::empty()) == 0);
    assert(total_moved(head) == fee);
    let plan = plan_of(platform, fee, l);
    assert forall|i: int| 0 <= i < l.len() implies plan[i + 1] == transfer_to(#[trigger] l[i]) by {
        assert(plan[i + 1] == transfers_of(l)[i]);
    }
}

/// Disbursement order: the first `k + 1` transfers of a plan are the fee to
/// the platform followed by the first `k` benefactors, in list order. So
/// the platform is paid before any benefactor, and benefactors in turn.
pub proof fn lemma_disbursement_order(platform: AccountId, fee: u128, l: Seq<Benefactor>, k: int)
    requires
        0 <= k <= l.len(),
    ensures
        plan_of(platform, fee, l).take(k + 1) == seq![(Transfer { to: platform, amount: fee })]
            + transfers_of(l.take(k)),
{
    assert(plan_of(platform, fee, l).take(k + 1) =~= seq![Transfer { to: platform, amount: fee }]
        + transfers_of(l.take(k)));
}

/// Duplicate accounts: two entries of the list with the same account are
/// two transfers of the plan, each of its own amount, and the account is
/// credited both amounts on top of what the rest of the list gives it.
pub proof fn lemma_duplicate_accounts(
    platform: AccountId,
    fee: u128,
    l: Seq<Benefactor>,
    i: int,
    j: int,
)
    requires
        0 <= i < j < l.len(),
        l[i].id == l[j].id,
    ensures
        plan_of(platform, fee, l).len() == l.len() + 1,
        plan_of(platform, fee, l)[i + 1] == (Transfer { to: l[i].id, amount: l[i].amount }),
        plan_of(platform, fee, l)[j + 1] == (Transfer { to: l[j].id, amount: l[j].amount }),
        credited(transfers_of(l), l[i].id) == credited(transfers_of(l.remove(j).remove(i)), l[i].id)
            + l[i].amount + l[j].amount,
{
    let acct = l[i].id;
    let a = l.take(i);
    let b = l.subrange(i + 1, j);
    let c = l.skip(j + 1);
    let bi = seq![l[i]];
    let bj = seq![l[j]];
    assert(l =~= a + bi + b + bj + c);
    assert(l.remove(j).remove(i) =~= a + b + c);
    lemma_transfers_of_append(a + bi + b + bj, c);
    lemma_transfers_of_append(a + bi + b, bj);
    lemma_transfers_of_append(a + bi, b);
    lemma_transfers_of_append(a, bi);
    lemma_transfers_of_append(a + b, c);
    lemma_transfers_of_append(a, b);
    let ta = transfers_of(a);
    let tb = transfers_of(b);
    let tc = transfers_of(c);
    let ti = transfers_of(bi);
    let tj = transfers_of(bj);
    lemma_credited_append(ta + ti + tb + tj, tc, acct);
    lemma_credited_append(ta + ti + tb, tj, acct);
    lemma_credited_append(ta + ti, tb, acct);
    lemma_credited_append(ta, ti, acct);
    lemma_credited_append(ta + tb, tc, acct);
    lemma_credited_append(ta, tb, acct);
    assert(ti.drop_last() =~= Seq::<Transfer>::empty());
    assert(tj.drop_last() =~= Seq::<Transfer>::empty());
    assert(credited(Seq::<Transfer>::empty(), acct) == 0);
    assert(ti.last() == transfer_to(l[i]));
    assert(tj.last() == transfer_to(l[j]));
    assert(credited(ti, acct) == l[i].amount);
    assert(credited(tj, acct) == l[j].amount);
}

/// Zero fee: at rate 0 the fee is 0, the payment reconciles exactly when the
/// benefactors' amounts add up to it, and the platform's transfer moves
/// nothing.
pub proof fn lemma_zero_fee(platform: AccountId, total: u128, l: Seq<Benefactor>)
    ensures
        fee_of(total as int, 0) == 0,
        reconciles(total as int, 0, l) <==> sum_amounts(l) == total,
        plan_of(platform, 0, l)[0] == (Transfer { to: platform, amount: 0 }),
        reconciles(total as int, 0, l) ==> total_moved(transfers_of(l)) == total,
{
    lemma_transfers_move_sum(l);
}

} // verus!
