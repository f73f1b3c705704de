//! Credit cards and payment by credit card.

use vstd::prelude::*;
use crate::checksum::{checksum_valid, passes_checksum};
use crate::clock::{system_time, Timestamp};
use crate::payment::{Payment, PaymentFailure, PaymentMethod, PaymentView};

verus! {

/// What a [`CreditCard`] holds, with its texts as sequences of characters.
pub struct CreditCardView {
    pub issuer: Seq<char>,
    pub name: Seq<char>,
    pub network: Seq<char>,
    pub holder_name: Seq<char>,
    pub personal_account_number: Seq<char>,
    /// The instant from which the card can no longer be charged.
    pub expiration_date: Timestamp,
    pub cvv: Seq<char>,
}

impl CreditCardView {
    /// Whether a charge may be attempted at `now`: holder name and security
    /// code are present, the number has a valid check digit, and the
    /// expiration date lies after `now`.
    pub open spec fn usable_at(self, now: Timestamp) -> bool {
        &&& self.holder_name.len() > 0
        &&& self.cvv.len() > 0
        &&& checksum_valid(self.personal_account_number)
        &&& now.precedes(self.expiration_date)
    }
}

/// The details of a credit card.
#[derive(Debug)]
pub struct CreditCard {
    issuer: String,
    name: String,
    network: String,
    holder_name: String,
    personal_account_number: String,
    expiration_date: Timestamp,
    cvv: String,
}

impl View for CreditCard {
    type V = CreditCardView;

    closed spec fn view(&self) -> CreditCardView {
        CreditCardView {
            issuer: self.issuer@,
            name: self.name@,
            network: self.network@,
            holder_name: self.holder_name@,
            personal_account_number: self.personal_account_number@,
            expiration_date: self.expiration_date,
            cvv: self.cvv@,
        }
    }
}

impl CreditCard {
    /// A card with these details, each taken as it is.
    pub fn new(
        issuer: String,
        name: String,
        network: String,
        holder_name: String,
        personal_account_number: String,
        expiration_date: Timestamp,
        cvv: String,
    ) -> (card: Self)
        ensures
            card@ == (CreditCardView {
                issuer: issuer@,
                name: name@,
                network: network@,
                holder_name: holder_name@,
                personal_account_number: personal_account_number@,
                expiration_date,
                cvv: cvv@,
            }),
    {
        Self { issuer, name, network, holder_name, personal_account_number, expiration_date, cvv }
    }

    pub fn issuer(&self) -> (text: &str)
        ensures
            text@ == self@.issuer,
    {
        self.issuer.as_str()
    }

    pub fn name(&self) -> (text: &str)
        ensures
            text@ == self@.name,
    {
        self.name.as_str()
    }

    pub fn network(&self) -> (text: &str)
        ensures
            text@ == self@.network,
    {
        self.network.as_str()
    }

    pub fn holder_name(&self) -> (text: &str)
        ensures
            text@ == self@.holder_name,
    {
        self.holder_name.as_str()
    }

    pub fn personal_account_number(&self) -> (text: &str)
        ensures
            text@ == self@.personal_account_number,
    {
        self.personal_account_number.as_str()
    }

    pub fn expiration_date(&self) -> (expiration_date: Timestamp)
        ensures
            expiration_date == self@.expiration_date,
    {
        self.expiration_date
    }

    pub fn cvv(&self) -> (text: &str)
        ensures
            text@ == self@.cvv,
    {
        self.cvv.as_str()
    }

    /// Whether a charge may be attempted at `now`.
    pub fn is_usable_at(&self, now: Timestamp) -> (usable: bool)
        ensures
            usable == self@.usable_at(now),
    {
        !self.holder_name.as_str().is_empty() && !self.cvv.as_str().is_empty() && passes_checksum(
            self.personal_account_number.as_str(),
        ) && now.is_before(&self.expiration_date)
    }
}

/// Payment by credit card, as a mathematical value.
pub struct CreditCardMethodView {
    pub card: CreditCardView,
    /// The currency in which the card is charged.
    pub currency: Seq<char>,
}

impl CreditCardMethodView {
    /// The outcome of an attempt at `now` to collect `amount`, where `charge`
    /// is what charging the card gave. A card that is not usable at `now` is
    /// not charged: the outcome is then `CardInvalid` whatever `charge` is.
    pub open spec fn outcome(
        self,
        amount: i64,
        now: Timestamp,
        charge: Result<(), PaymentFailure>,
    ) -> PaymentView {
        if !self.card.usable_at(now) {
            PaymentView::failed(PaymentFailure::CardInvalid, now, self.currency)
        } else {
            match charge {
                Ok(_) => PaymentView::collected(amount, now, self.currency),
                Err(failure) => PaymentView::failed(failure, now, self.currency),
            }
        }
    }
}

impl CreditCardMethodView {
    /// Whatever the card, the instant and the charge: a failed outcome
    /// collected nothing, a successful one collected exactly the amount asked
    /// for, and the attempt succeeds exactly if the card is usable and the
    /// charge went through.
    pub proof fn lemma_outcome(
        self,
        amount: i64,
        now: Timestamp,
        charge: Result<(), PaymentFailure>,
    )
        requires
            amount >= 0,
        ensures
            ({
                let outcome = self.outcome(amount, now, charge);
                &&& outcome.well_formed()
                &&& outcome.paid_at == now
                &&& outcome.currency == self.currency
                &&& outcome.failure is Some ==> outcome.amount == 0
                &&& outcome.failure is None ==> outcome.amount == amount
                &&& outcome.failure is None <==> self.card.usable_at(now) && charge is Ok
            }),
    {
        PaymentView::lemma_well_formed(amount, PaymentFailure::CardInvalid, now, self.currency);
        if let Err(failure) = charge {
            PaymentView::lemma_well_formed(amount, failure, now, self.currency);
        }
    }

    /// An attempt with a card that has expired collects nothing and ends in
    /// `CardInvalid`, a failure that no repetition can mend, with a
    /// description that is not empty.
    pub proof fn lemma_expired_card(
        self,
        amount: i64,
        now: Timestamp,
        charge: Result<(), PaymentFailure>,
    )
        requires
            !now.precedes(self.card.expiration_date),
        ensures
            self.outcome(amount, now, charge) == PaymentView::failed(
                PaymentFailure::CardInvalid,
                now,
                self.currency,
            ),
            self.outcome(amount, now, charge).amount == 0,
            self.outcome(amount, now, charge).error.len() > 0,
            !PaymentFailure::CardInvalid.retryable(),
    {
        PaymentFailure::CardInvalid.lemma_text_not_empty();
    }
}

/// Payment by credit card.
#[derive(Debug)]
pub struct CreditCardMethod {
    card: CreditCard,
    currency: String,
}

impl View for CreditCardMethod {
    type V = CreditCardMethodView;

    closed spec fn view(&self) -> CreditCardMethodView {
        CreditCardMethodView { card: self.card@, currency: self.currency@ }
    }
}

impl CreditCardMethod {
    /// Payment with `card`, with no currency named.
    pub fn new(card: CreditCard) -> (method: Self)
        ensures
            method@ == (CreditCardMethodView { card: card@, currency: Seq::<char>::empty() }),
    {
        Self { card, currency: String::new() }
    }

    /// The same method, charging in `currency`.
    pub fn with_currency(self, currency: String) -> (method: Self)
        ensures
            method@ == (CreditCardMethodView { card: self@.card, currency: currency@ }),
    {
        Self { card: self.card, currency }
    }

    pub fn card(&self) -> (card: &CreditCard)
        ensures
            card@ == self@.card,
    {
        &self.card
    }

    pub fn currency(&self) -> (text: &str)
        ensures
            text@ == self@.currency,
    {
        self.currency.as_str()
    }

    /// The outcome of an attempt at `now` to collect `amount`, where `charge`
    /// is what charging the card gave.
    pub fn settle(
        &self,
        amount: i64,
        now: Timestamp,
        charge: Result<(), PaymentFailure>,
    ) -> (outcome: Payment)
        requires
            amount >= 0,
        ensures
            outcome@ == self@.outcome(amount, now, charge),
            outcome@.well_formed(),
    {
        if !self.card.is_usable_at(now) {
            Payment::failed(PaymentFailure::CardInvalid, now, self.currency.clone())
        } else {
            match charge {
                Ok(_) => Payment::collected(amount, now, self.currency.clone()),
                Err(failure) => Payment::failed(failure, now, self.currency.clone()),
            }
        }
    }

    /// The outcome of an attempt at `now` to collect `amount`: the whole
    /// amount from a card that is usable at `now`, and `CardInvalid` from any
    /// other.
    pub fn pay_at(&self, amount: i64, now: Timestamp) -> (outcome: Payment)
        requires
            amount >= 0,
        ensures
            outcome@ == self@.outcome(amount, now, Ok(())),
            outcome@.well_formed(),
    {
        self.settle(amount, now, Ok(()))
    }
}

impl PaymentMethod for CreditCardMethod {
    /// Attempts to collect `amount` now: the outcome is that of `pay_at` for
    /// the instant that the outcome records.
    fn pay(&self, amount: i64) -> (outcome: Payment)
        ensures
            outcome@ == self@.outcome(amount, outcome@.paid_at, Ok(())),
    {
        let now = system_time();
        self.pay_at(amount, now)
    }
}

} // verus!
