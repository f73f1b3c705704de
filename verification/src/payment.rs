//! Payment outcomes and the capability of collecting a payment.

use vstd::prelude::*;
use crate::clock::Timestamp;

verus! {

/// Why a payment attempt collected nothing.
#[derive(Clone, Copy, Debug, PartialEq, Eq, Structural)]
pub enum PaymentFailure {
    /// The card cannot be charged as it is: terminal.
    CardInvalid,
    /// The charge was declined: terminal.
    PaymentDeclined,
    /// No answer came in time: the attempt may be repeated.
    PaymentTimeout,
    /// The gateway could not be reached: the attempt may be repeated.
    GatewayUnavailable,
}

impl PaymentFailure {
    /// Whether the same attempt may succeed later without new input.
    pub open spec fn retryable(self) -> bool {
        self is PaymentTimeout || self is GatewayUnavailable
    }

    /// The words that describe the failure in an outcome.
    pub open spec fn text(self) -> Seq<char> {
        match self {
            PaymentFailure::CardInvalid => "card invalid"@,
            PaymentFailure::PaymentDeclined => "payment declined"@,
            PaymentFailure::PaymentTimeout => "payment timed out"@,
            PaymentFailure::GatewayUnavailable => "payment gateway unavailable"@,
        }
    }

    /// Every failure has a description that is not empty.
    pub proof fn lemma_text_not_empty(self)
        ensures
            self.text().len() > 0,
    {
        reveal_strlit("card invalid");
        reveal_strlit("payment declined");
        reveal_strlit("payment timed out");
        reveal_strlit("payment gateway unavailable");
    }

    /// Whether the same attempt may succeed later without new input.
    pub fn is_retryable(&self) -> (retryable: bool)
        ensures
            retryable == self.retryable(),
    {
        match self {
            PaymentFailure::PaymentTimeout | PaymentFailure::GatewayUnavailable => true,
            PaymentFailure::CardInvalid | PaymentFailure::PaymentDeclined => false,
        }
    }

    /// Whether no repetition of the attempt can succeed without new input.
    pub fn is_terminal(&self) -> (terminal: bool)
        ensures
            terminal == !self.retryable(),
    {
        !self.is_retryable()
    }

    /// The words that describe the failure in an outcome.
    pub fn description(&self) -> (text: String)
        ensures
            text@ == self.text(),
            text@.len() > 0,
    {
        proof {
            self.lemma_text_not_empty();
        }
        match self {
            PaymentFailure::CardInvalid => "card invalid".to_owned(),
            PaymentFailure::PaymentDeclined => "payment declined".to_owned(),
            PaymentFailure::PaymentTimeout => "payment timed out".to_owned(),
            PaymentFailure::GatewayUnavailable => "payment gateway unavailable".to_owned(),
        }
    }
}

/// The outcome of one payment attempt as a mathematical value.
pub struct PaymentView {
    /// The amount collected, in minor currency units.
    pub amount: i64,
    /// When the attempt was made.
    pub paid_at: Timestamp,
    /// Why nothing was collected; `None` for a successful attempt.
    pub failure: Option<PaymentFailure>,
    /// The description of the failure; empty for a successful attempt.
    pub error: Seq<char>,
    pub currency: Seq<char>,
}

impl PaymentView {
    /// The outcome of an attempt at `paid_at` that collected `amount`.
    pub open spec fn collected(
        amount: i64,
        paid_at: Timestamp,
        currency: Seq<char>,
    ) -> PaymentView {
        PaymentView { amount, paid_at, failure: None, error: Seq::empty(), currency }
    }

    /// The outcome of an attempt at `paid_at` that ended in `failure`.
    pub open spec fn failed(
        failure: PaymentFailure,
        paid_at: Timestamp,
        currency: Seq<char>,
    ) -> PaymentView {
        PaymentView { amount: 0, paid_at, failure: Some(failure), error: failure.text(), currency }
    }

    /// What holds of every outcome: nothing collected is negative, an outcome
    /// has an error description exactly if it is a failure, the description
    /// is that of the failure, and a failure collected nothing.
    pub open spec fn well_formed(self) -> bool {
        &&& self.amount >= 0
        &&& self.failure is Some <==> self.error.len() > 0
        &&& self.failure matches Some(failure) ==> self.error == failure.text()
        &&& self.failure is Some ==> self.amount == 0
    }

    /// Collected outcomes and failed outcomes are well formed.
    pub proof fn lemma_well_formed(
        amount: i64,
        failure: PaymentFailure,
        paid_at: Timestamp,
        currency: Seq<char>,
    )
        requires
            amount >= 0,
        ensures
            PaymentView::collected(amount, paid_at, currency).well_formed(),
            PaymentView::failed(failure, paid_at, currency).well_formed(),
    {
        failure.lemma_text_not_empty();
    }
}

/// The outcome of one payment attempt, success or failure. It is made once
/// and never changes.
#[derive(Debug)]
pub struct Payment {
    amount: i64,
    paid_at: Timestamp,
    failure: Option<PaymentFailure>,
    error: String,
    currency: String,
}

impl View for Payment {
    type V = PaymentView;

    closed spec fn view(&self) -> PaymentView {
        PaymentView {
            amount: self.amount,
            paid_at: self.paid_at,
            failure: self.failure,
            error: self.error@,
            currency: self.currency@,
        }
    }
}

impl Payment {
    #[verifier::type_invariant]
    spec fn consistent(self) -> bool {
        self@.well_formed()
    }

    /// The outcome of an attempt at `paid_at` that collected `amount`.
    pub fn collected(amount: i64, paid_at: Timestamp, currency: String) -> (outcome: Self)
        requires
            amount >= 0,
        ensures
            outcome@ == PaymentView::collected(amount, paid_at, currency@),
            outcome@.well_formed(),
    {
        Payment { amount, paid_at, failure: None, error: String::new(), currency }
    }

    /// The outcome of an attempt at `paid_at` that ended in `failure`.
    pub fn failed(failure: PaymentFailure, paid_at: Timestamp, currency: String) -> (outcome: Self)
        ensures
            outcome@ == PaymentView::failed(failure, paid_at, currency@),
            outcome@.well_formed(),
    {
        Payment {
            amount: 0,
            paid_at,
            failure: Some(failure),
            error: failure.description(),
            currency,
        }
    }

    /// The amount collected: 0 for a failed attempt.
    pub fn amount(&self) -> (amount: i64)
        ensures
            amount == self@.amount,
            amount >= 0,
            self@.failure is Some ==> amount == 0,
    {
        proof {
            use_type_invariant(self);
        }
        self.amount
    }

    /// When the attempt was made.
    pub fn paid_at(&self) -> (paid_at: Timestamp)
        ensures
            paid_at == self@.paid_at,
    {
        self.paid_at
    }

    /// Why nothing was collected; `None` for a successful attempt.
    pub fn failure(&self) -> (failure: Option<PaymentFailure>)
        ensures
            failure == self@.failure,
    {
        self.failure
    }

    /// Whether the attempt collected the amount asked for.
    pub fn is_success(&self) -> (success: bool)
        ensures
            success == (self@.failure is None),
            success == (self@.error.len() == 0),
    {
        proof {
            use_type_invariant(self);
        }
        self.failure.is_none()
    }

    /// The description of the failure: empty exactly for a successful
    /// attempt.
    pub fn error(&self) -> (text: &str)
        ensures
            text@ == self@.error,
            text@.len() > 0 <==> self@.failure is Some,
    {
        proof {
            use_type_invariant(self);
        }
        self.error.as_str()
    }

    pub fn currency(&self) -> (text: &str)
        ensures
            text@ == self@.currency,
    {
        self.currency.as_str()
    }
}

/// A way of collecting payment for an amount.
pub trait PaymentMethod {
    /// Attempts to collect `amount` and reports how the attempt ended. A
    /// failed attempt collected nothing; a successful one collected exactly
    /// `amount`.
    fn pay(&self, amount: i64) -> (outcome: Payment)
        requires
            amount >= 0,
        ensures
            outcome@.well_formed(),
            outcome@.failure is Some ==> outcome@.amount == 0,
            outcome@.failure is None ==> outcome@.amount == amount,
    ;
}

} // verus!
