//! The settlement engine and the disbursement that a reconciled payment
//! starts.
//!
//! The engine decides; the environment moves value. `Payable::distribute`
//! checks the payment and hands back a `Disbursement`, which names the next
//! transfer to make and takes the environment's report of how it went. It
//! stops at the first failure, and what was paid before stays paid.
use vstd::prelude::*;

use ink::primitives::AccountId;

use crate::fee::{fee_of, platform_fee};
use crate::settlement::{
    is_reconciled, lemma_sum_prefix, plan_of, reconciles, transfer_to, transfers_of, Benefactor, SettlementError,
    Transfer,
};

verus! {

/// The engine's configuration: the platform's account and its fee, a
/// whole percentage of each payment.
#[derive(Debug)]
pub struct Payable {
    company_id: AccountId,
    fee: u128,
}

impl Payable {
    /// The platform's account.
    pub closed spec fn platform(&self) -> AccountId {
        self.company_id
    }

    /// The platform's fee rate, in percent.
    pub closed spec fn rate(&self) -> u128 {
        self.fee
    }

    /// An engine that pays `fee` percent of each payment to `company_id`.
    /// The rate is not bounded: above 100 no non-zero payment reconciles.
    pub fn new(company_id: AccountId, fee: u128) -> (r: Self)
        ensures
            r.platform() == company_id,
            r.rate() == fee,
    {
        Payable { company_id, fee }
    }

    pub fn company_id(&self) -> (r: AccountId)
        ensures
            r == self.platform(),
    {
        self.company_id
    }

    pub fn fee(&self) -> (r: u128)
        ensures
            r == self.rate(),
    {
        self.fee
    }

    /// Settles a payment of `value` among the platform and `benefactors`.
    ///
    /// Where the fee, `floor(value * rate / 100)`, and the benefactors'
    /// amounts add up to exactly `value`, the result is a disbursement of
    /// the fee to the platform and then of each benefactor's amount, in
    /// list order, with nothing paid yet. Otherwise it is a reconciliation
    /// error and no value moves.
    pub fn distribute(&self, value: u128, benefactors: Vec<Benefactor>) -> (r: Result<
        Disbursement,
        SettlementError,
    >)
        ensures
            r is Ok <==> reconciles(value as int, self.rate() as int, benefactors@),
            r is Err ==> r == Err::<Disbursement, SettlementError>(
                SettlementError::Reconciliation,
            ),
            r matches Ok(d) ==> d.plan() == plan_of(
                self.platform(),
                fee_of(value as int, self.rate() as int) as u128,
                benefactors@,
            ) && d.paid() == 0,
    {
        proof {
            lemma_sum_prefix(benefactors@, 0);
        }
        if !is_reconciled(value, self.fee, &benefactors) {
            return Err(SettlementError::Reconciliation);
        }
        let fee = match platform_fee(value, self.fee) {
            Some(f) => f,
            None => {
                return Err(SettlementError::Reconciliation);
            },
        };
        let mut transfers: Vec<Transfer> = Vec::new();
        transfers.push(Transfer { to: self.company_id, amount: fee });
        let ghost head = seq![Transfer { to: self.company_id, amount: fee }];
        let mut i: usize = 0;
        while i < benefactors.len()
            invariant
                i <= benefactors.len(),
                transfers@ == head + transfers_of(benefactors@.take(i as int)),
            decreases benefactors.len() - i,
        {
            let b = benefactors[i];
            transfers.push(Transfer { to: b.id, amount: b.amount });
            assert(transfers_of(benefactors@.take(i + 1)) =~= transfers_of(
                benefactors@.take(i as int),
            ).push(transfer_to(b)));
            i = i + 1;
        }
        assert(benefactors@.take(i as int) =~= benefactors@);
        Ok(Disbursement { transfers, paid: 0 })
    }
}

/// A settlement under way: its plan of transfers and how many of them, from
/// the front, have been made.
#[derive(Debug)]
pub struct Disbursement {
    transfers: Vec<Transfer>,
    paid: usize,
}

impl Disbursement {
    #[verifier::type_invariant]
    spec fn inv(&self) -> bool {
        self.paid <= self.transfers.len()
    }

    /// Every transfer of the settlement, in the order in which they are made.
    pub closed spec fn plan(&self) -> Seq<Transfer> {
        self.transfers@
    }

    /// How many transfers of the plan have been made.
    pub closed spec fn paid(&self) -> nat {
        self.paid as nat
    }

    /// The transfers made so far: always a prefix of the plan.
    pub open spec fn completed(&self) -> Seq<Transfer> {
        self.plan().take(self.paid() as int)
    }

    /// The plan of transfers.
    pub fn transfers(&self) -> (r: &Vec<Transfer>)
        ensures
            r@ == self.plan(),
    {
        &self.transfers
    }

    /// How many transfers have been made.
    pub fn paid_count(&self) -> (r: usize)
        ensures
            r == self.paid(),
            r <= self.plan().len(),
    {
        proof {
            use_type_invariant(self);
        }
        self.paid
    }

    /// Whether every transfer of the plan has been made.
    pub fn is_settled(&self) -> (r: bool)
        ensures
            r == (self.paid() == self.plan().len()),
    {
        proof {
            use_type_invariant(self);
        }
        self.paid == self.transfers.len()
    }

    /// The transfer to make next, or `None` once all have been made.
    pub fn next_transfer(&self) -> (r: Option<Transfer>)
        ensures
            self.paid() < self.plan().len() ==> r == Some(self.plan()[self.paid() as int]),
            self.paid() >= self.plan().len() ==> r is None,
    {
        proof {
            use_type_invariant(self);
        }
        if self.paid < self.transfers.len() {
            Some(self.transfers[self.paid])
        } else {
            None
        }
    }

    /// Takes the environment's report on the transfer that `next_transfer`
    /// named. A success moves on to the next transfer; a failure ends the
    /// settlement with an error that names the transfer and its cause,
    /// while the transfers already made stand. Once every transfer has been
    /// made there is nothing to report on, and the disbursement comes back
    /// as it was.
    pub fn record(self, outcome: Result<(), ink::env::Error>) -> (r: Result<
        Disbursement,
        SettlementError,
    >)
        ensures
            self.paid() >= self.plan().len() ==> r == Ok::<Disbursement, SettlementError>(self),
            self.paid() < self.plan().len() && outcome is Ok ==> (r matches Ok(d) && d.plan()
                == self.plan() && d.paid() == self.paid() + 1),
            self.paid() < self.plan().len() ==> (outcome matches Err(e) ==> r == Err::<
                Disbursement,
                SettlementError,
            >(
                SettlementError::Transfer {
                    index: self.paid() as usize,
                    recipient: self.plan()[self.paid() as int].to,
                    cause: e,
                },
            )),
    {
        proof {
            use_type_invariant(&self);
        }
        if self.paid >= self.transfers.len() {
            return Ok(self);
        }
        match outcome {
            Ok(()) => {
                let Disbursement { transfers, paid } = self;
                Ok(Disbursement { transfers, paid: paid + 1 })
            },
            Err(cause) => {
                let recipient = self.transfers[self.paid].to;
                Err(SettlementError::Transfer { index: self.paid, recipient, cause })
            },
        }
    }
}

} // verus!
