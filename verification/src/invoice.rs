//! Invoices: the record of a closed order and of the attempt to collect for it.

use vstd::prelude::*;
use crate::address::{Address, AddressView};
use crate::order::{OrderError, PurchaseOrder, PurchaseOrderView};
use crate::payment::{Payment, PaymentView};

verus! {

/// An invoice as a mathematical value.
pub struct InvoiceView {
    pub payment: PaymentView,
    pub purchase_order: PurchaseOrderView,
    pub billing_address: AddressView,
    pub shipping_address: AddressView,
}

/// The terminal record of an order: its payment outcome, the closed order, and
/// where it is billed and shipped. An invoice is made once and never changes.
#[derive(Debug)]
pub struct Invoice {
    payment: Payment,
    purchase_order: PurchaseOrder,
    billing_address: Address,
    shipping_address: Address,
}

impl View for Invoice {
    type V = InvoiceView;

    closed spec fn view(&self) -> InvoiceView {
        InvoiceView {
            payment: self.payment@,
            purchase_order: self.purchase_order@,
            billing_address: self.billing_address@,
            shipping_address: self.shipping_address@,
        }
    }
}

impl Invoice {
    #[verifier::type_invariant]
    spec fn settled(self) -> bool {
        self.purchase_order@.closed_at is Some
    }

    /// Assembles the invoice of a closed order from the outcome of its
    /// payment attempt, failed or not. An open order has no invoice.
    pub fn new(
        payment: Payment,
        purchase_order: PurchaseOrder,
        billing_address: Address,
        shipping_address: Address,
    ) -> (outcome: Result<Invoice, OrderError>)
        ensures
            match outcome {
                Ok(invoice) => {
                    &&& purchase_order@.closed_at is Some
                    &&& invoice@ == (InvoiceView {
                        payment: payment@,
                        purchase_order: purchase_order@,
                        billing_address: billing_address@,
                        shipping_address: shipping_address@,
                    })
                },
                Err(error) => purchase_order@.closed_at is None && error == OrderError::OrderOpen,
            },
    {
        if purchase_order.is_closed() {
            Ok(Invoice { payment, purchase_order, billing_address, shipping_address })
        } else {
            Err(OrderError::OrderOpen)
        }
    }

    /// The order that the invoice is for. It is closed.
    pub fn purchase_order(&self) -> (order: &PurchaseOrder)
        ensures
            order@ == self@.purchase_order,
            order@.closed_at is Some,
    {
        proof {
            use_type_invariant(self);
        }
        &self.purchase_order
    }

    pub fn payment(&self) -> (payment: &Payment)
        ensures
            payment@ == self@.payment,
    {
        &self.payment
    }

    pub fn billing_address(&self) -> (address: &Address)
        ensures
            address@ == self@.billing_address,
    {
        &self.billing_address
    }

    pub fn shipping_address(&self) -> (address: &Address)
        ensures
            address@ == self@.shipping_address,
    {
        &self.shipping_address
    }
}

} // verus!
