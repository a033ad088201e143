use vstd::prelude::*;
use crate::amount::Amount;

verus! {

/// A quantity of the accepted denomination in the hands of one owner.
#[derive(Debug)]
pub struct PaymentBundle {
    amount: Amount,
}

impl View for PaymentBundle {
    type V = int;

    closed spec fn view(&self) -> int {
        self.amount.value()
    }
}

impl PaymentBundle {
    /// A bundle holds a representable, non-negative amount.
    pub proof fn lemma_bounds(&self)
        ensures
            0 <= self@ <= u128::MAX,
    {
    }

    /// A bundle holding `amount`.
    pub fn new(amount: Amount) -> (b: PaymentBundle)
        ensures
            b@ == amount.value(),
    {
        PaymentBundle { amount }
    }

    /// What the bundle holds.
    pub fn amount(&self) -> (r: Amount)
        ensures
            r.value() == self@,
    {
        self.amount
    }

    /// Splits exactly `amount` off into a new bundle, leaving the rest here;
    /// `None`, with nothing moved, where the bundle holds less.
    pub fn take(&mut self, amount: &Amount) -> (r: Option<PaymentBundle>)
        ensures
            match r {
                Some(t) => old(self)@ >= amount.value() && t@ == amount.value()
                    && final(self)@ == old(self)@ - amount.value(),
                None => old(self)@ < amount.value() && final(self)@ == old(self)@,
            },
    {
        match self.amount.checked_sub(amount) {
            Some(rest) => {
                self.amount = rest;
                Some(PaymentBundle { amount: *amount })
            },
            None => None,
        }
    }

    /// Merges `other` into this bundle; where the sum is not representable
    /// nothing moves and `other` comes back.
    pub fn join(&mut self, other: PaymentBundle) -> (r: Result<(), PaymentBundle>)
        ensures
            match r {
                Ok(()) => final(self)@ == old(self)@ + other@,
                Err(back) => back@ == other@ && final(self)@ == old(self)@
                    && old(self)@ + other@ > u128::MAX,
            },
    {
        match self.amount.checked_add(&other.amount) {
            Some(sum) => {
                self.amount = sum;
                Ok(())
            },
            None => Err(other),
        }
    }
}

/// The custody store that accumulates collected payment.
#[derive(Debug)]
pub struct Vault {
    balance: Amount,
}

impl View for Vault {
    type V = int;

    closed spec fn view(&self) -> int {
        self.balance.value()
    }
}

impl Vault {
    /// A vault holds a representable, non-negative balance.
    pub proof fn lemma_bounds(&self)
        ensures
            0 <= self@ <= u128::MAX,
    {
    }

    /// An empty vault.
    pub fn new() -> (v: Vault)
        ensures
            v@ == 0,
    {
        Vault { balance: Amount::zero() }
    }

    /// The balance held.
    pub fn amount(&self) -> (r: Amount)
        ensures
            r.value() == self@,
    {
        self.balance
    }

    /// Deposits `bundle`; where the new balance is not representable nothing
    /// moves and the bundle comes back.
    pub fn put(&mut self, bundle: PaymentBundle) -> (r: Result<(), PaymentBundle>)
        ensures
            match r {
                Ok(()) => final(self)@ == old(self)@ + bundle@,
                Err(back) => back@ == bundle@ && final(self)@ == old(self)@
                    && old(self)@ + bundle@ > u128::MAX,
            },
    {
        match self.balance.checked_add(&bundle.amount) {
            Some(sum) => {
                self.balance = sum;
                Ok(())
            },
            None => Err(bundle),
        }
    }

    /// Withdraws exactly `amount`, which the vault must hold. Only the ledger
    /// reaches this, to undo a deposit of the same call.
    pub(crate) fn take(&mut self, amount: &Amount) -> (r: PaymentBundle)
        requires
            old(self)@ >= amount.value(),
        ensures
            r@ == amount.value(),
            final(self)@ == old(self)@ - amount.value(),
    {
        self.balance = Amount::from_attos(self.balance.attos - amount.attos);
        PaymentBundle { amount: *amount }
    }
}

} // verus!
