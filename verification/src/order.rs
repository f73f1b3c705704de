//! Purchase orders: line items, their total, and the step from open to closed.

use vstd::prelude::*;
use crate::clock::{system_time, Timestamp};
use crate::customer::{Customer, CustomerView};
use crate::lines::{
    added, lemma_added_quantity, lemma_added_total, lemma_added_valid, lemma_position,
    lemma_position_is, lemma_position_none, lemma_removed_total, lemma_removed_valid,
    lemma_total_bounds, lemma_total_not_negative, position, quantity_of, removed, representable,
    total_amount, valid_lines, views, LineItem, LineView,
};
use crate::product::{Product, ProductView};

verus! {

/// Why an operation on an order was refused.
#[derive(Clone, Copy, Debug, PartialEq, Eq, Structural)]
pub enum OrderError {
    /// A quantity that is not positive.
    InvalidQuantity,
    /// A change to the line items of a closed order.
    OrderClosed,
    /// Closing an order that has no line items.
    EmptyOrder,
    /// Closing an order that is closed already.
    AlreadyClosed,
    /// A quantity beyond `i32::MAX` or a total beyond `i64::MAX`.
    Overflow,
    /// An invoice asked for an order that is still open.
    OrderOpen,
}

/// The lines of an order together with their total, kept in step.
#[derive(Debug)]
struct Ledger {
    lines: Vec<LineItem>,
    amount: i64,
}

impl Ledger {
    spec fn model(self) -> Seq<LineView> {
        views(self.lines@)
    }

    spec fn wf(self) -> bool {
        &&& valid_lines(self.model())
        &&& self.amount == total_amount(self.model())
    }

    fn empty() -> (ledger: Self)
        ensures
            ledger.wf(),
            ledger.model() == Seq::<LineView>::empty(),
    {
        Ledger { lines: Vec::new(), amount: 0 }
    }

    /// The index of the line for `product`.
    fn find(&self, product: &Product) -> (found: Option<usize>)
        ensures
            match found {
                Some(i) => position(self.model(), product@) == Some(i as int) && i
                    < self.lines@.len(),
                None => position(self.model(), product@) is None,
            },
    {
        let mut i: usize = 0;
        while i < self.lines.len()
            invariant
                i <= self.lines@.len(),
                forall|j: int| 0 <= j < i ==> (#[trigger] self.model()[j]).product != product@,
            decreases self.lines@.len() - i,
        {
            if *self.lines[i].product() == *product {
                proof {
                    lemma_position_is(self.model(), product@, i as int);
                }
                return Some(i);
            }
            i += 1;
        }
        proof {
            lemma_position_none(self.model(), product@);
        }
        None
    }

    /// Adds `quantity` of `product`, unless the result could not be
    /// represented.
    fn add(&mut self, product: Product, quantity: i32) -> (done: bool)
        requires
            old(self).wf(),
            quantity > 0,
        ensures
            done == representable(added(old(self).model(), product@, quantity as int)),
            done ==> final(self).wf() && final(self).model() == added(
                old(self).model(),
                product@,
                quantity as int,
            ),
            !done ==> *final(self) == *old(self),
    {
        let ghost before = self.model();
        let ghost after = added(before, product@, quantity as int);
        let found = self.find(&product);
        let price = product.price();
        proof {
            lemma_position(before, product@);
            lemma_added_total(before, product@, quantity as int);
            lemma_total_not_negative(before);
            assert(0 <= price * quantity <= i64::MAX * i32::MAX) by (nonlinear_arith)
                requires
                    0 <= price <= i64::MAX,
                    0 < quantity <= i32::MAX,
            ;
        }
        let sum: i128 = (self.amount as i128) + (price as i128) * (quantity as i128);
        if sum > i64::MAX as i128 {
            return false;
        }
        match found {
            Some(i) => {
                let held = self.lines[i].quantity();
                if held > i32::MAX - quantity {
                    assert(after[i as int].quantity > i32::MAX);
                    return false;
                }
                self.lines.set(i, LineItem::new(product, held + quantity));
            },
            None => {
                self.lines.push(LineItem::new(product, quantity));
            },
        }
        self.amount = sum as i64;
        proof {
            assert(self.model() =~= after);
            assert forall|j: int| 0 <= j < after.len() implies
                (#[trigger] after[j]).quantity <= i32::MAX
            by {}
            lemma_added_valid(before, product@, quantity as int);
        }
        true
    }

    /// Takes out the line for `product`, if there is one.
    fn remove(&mut self, product: &Product)
        requires
            old(self).wf(),
        ensures
            final(self).wf(),
            final(self).model() == removed(old(self).model(), product@),
    {
        let ghost before = self.model();
        let found = self.find(product);
        proof {
            lemma_position(before, product@);
            lemma_removed_total(before, product@);
            lemma_removed_valid(before, product@);
        }
        match found {
            Some(i) => {
                proof {
                    lemma_total_bounds(before, i as int);
                }
                let line = self.lines.remove(i);
                let cost: i64 = line.product().price() * (line.quantity() as i64);
                self.amount = self.amount - cost;
                assert(self.model() =~= before.remove(i as int));
            },
            None => {},
        }
    }
}

/// A purchase order as a mathematical value.
pub struct PurchaseOrderView {
    pub code: u128,
    /// The line items, in the order in which their products were first added.
    pub lines: Seq<LineView>,
    pub customer: CustomerView,
    /// When the order was closed; `None` while it is open.
    pub closed_at: Option<Timestamp>,
}

impl PurchaseOrderView {
    /// The total amount: the sum over the line items of price times quantity.
    pub open spec fn total(self) -> int {
        total_amount(self.lines)
    }

    /// Whether the order has been closed.
    pub open spec fn is_closed(self) -> bool {
        self.closed_at is Some
    }

    /// What holds of every order: its lines are valid, and a closed order has
    /// at least one line.
    pub open spec fn well_formed(self) -> bool {
        &&& valid_lines(self.lines)
        &&& self.closed_at is Some ==> self.lines.len() > 0
    }

    /// The order that adding `quantity` of `product` leads to, or why the
    /// addition is refused.
    pub open spec fn add_item(self, product: ProductView, quantity: int) -> Result<
        PurchaseOrderView,
        OrderError,
    > {
        if self.closed_at is Some {
            Err(OrderError::OrderClosed)
        } else if quantity <= 0 {
            Err(OrderError::InvalidQuantity)
        } else if !representable(added(self.lines, product, quantity)) {
            Err(OrderError::Overflow)
        } else {
            Ok(PurchaseOrderView { lines: added(self.lines, product, quantity), ..self })
        }
    }

    /// The order that removing `product` leads to, or why the removal is
    /// refused.
    pub open spec fn remove_item(self, product: ProductView) -> Result<
        PurchaseOrderView,
        OrderError,
    > {
        if self.closed_at is Some {
            Err(OrderError::OrderClosed)
        } else {
            Ok(PurchaseOrderView { lines: removed(self.lines, product), ..self })
        }
    }

    /// Why the order cannot be closed, if it cannot.
    pub open spec fn close_refusal(self) -> Option<OrderError> {
        if self.lines.len() == 0 {
            Some(OrderError::EmptyOrder)
        } else if self.closed_at is Some {
            Some(OrderError::AlreadyClosed)
        } else {
            None
        }
    }

    /// The order that closing at `now` leads to, or why closing is refused.
    pub open spec fn close(self, now: Timestamp) -> Result<PurchaseOrderView, OrderError> {
        match self.close_refusal() {
            Some(error) => Err(error),
            None => Ok(PurchaseOrderView { closed_at: Some(now), ..self }),
        }
    }
}

impl PurchaseOrderView {
    /// An addition to a well-formed order is accepted exactly if the order is
    /// open, the quantity is positive and the result is representable. The
    /// order it leads to is open and well formed, holds `quantity` more of the
    /// product, and its total is higher by the product's price times
    /// `quantity`.
    pub proof fn lemma_add_item(self, product: ProductView, quantity: int)
        requires
            self.well_formed(),
            product.well_formed(),
        ensures
            self.add_item(product, quantity) is Ok <==> !self.is_closed() && quantity > 0
                && representable(added(self.lines, product, quantity)),
            self.add_item(product, quantity) matches Ok(next) ==> {
                &&& next.well_formed()
                &&& !next.is_closed()
                &&& next.total() == self.total() + product.price * quantity
                &&& quantity_of(next.lines, product) == quantity_of(self.lines, product)
                    + quantity
            },
    {
        if self.add_item(product, quantity) is Ok {
            lemma_added_valid(self.lines, product, quantity);
            lemma_added_total(self.lines, product, quantity);
            lemma_added_quantity(self.lines, product, quantity, product);
        }
    }

    /// A removal is accepted exactly if the order is open. The order it leads
    /// to is open and well formed, holds none of the product, and its total is
    /// lower by the product's price times the quantity that was held.
    pub proof fn lemma_remove_item(self, product: ProductView)
        requires
            self.well_formed(),
        ensures
            self.remove_item(product) is Ok <==> !self.is_closed(),
            self.remove_item(product) matches Ok(next) ==> {
                &&& next.well_formed()
                &&& !next.is_closed()
                &&& next.total() == self.total() - product.price * quantity_of(
                    self.lines,
                    product,
                )
                &&& quantity_of(next.lines, product) == 0
            },
    {
        lemma_removed_valid(self.lines, product);
        lemma_removed_total(self.lines, product);
    }

    /// Every change to the line items of a closed order is refused with
    /// `OrderClosed`.
    pub proof fn lemma_closed_order_refuses_changes(
        self,
        product: ProductView,
        quantity: int,
    )
        requires
            self.is_closed(),
        ensures
            self.add_item(product, quantity) == Err::<PurchaseOrderView, OrderError>(
                OrderError::OrderClosed,
            ),
            self.remove_item(product) == Err::<PurchaseOrderView, OrderError>(
                OrderError::OrderClosed,
            ),
    {
    }

    /// Closing an order without line items is refused with `EmptyOrder`,
    /// whenever it is tried.
    pub proof fn lemma_empty_order_is_not_closed(self, now: Timestamp)
        requires
            self.lines.len() == 0,
        ensures
            self.close(now) == Err::<PurchaseOrderView, OrderError>(OrderError::EmptyOrder),
    {
    }

    /// Closing an open order that has line items succeeds: it records the
    /// closing time, keeps all else, and the order then refuses to be closed
    /// again.
    pub proof fn lemma_close(self, now: Timestamp, later: Timestamp)
        requires
            self.well_formed(),
            self.lines.len() > 0,
            !self.is_closed(),
        ensures
            self.close(now) == Ok::<PurchaseOrderView, OrderError>(
                PurchaseOrderView { closed_at: Some(now), ..self },
            ),
            self.close(now)->Ok_0.well_formed(),
            self.close(now)->Ok_0.total() == self.total(),
            self.close(now)->Ok_0.close(later) == Err::<PurchaseOrderView, OrderError>(
                OrderError::AlreadyClosed,
            ),
    {
    }
}

/// A customer's selection of products and quantities. It is created open,
/// takes and gives up line items while open, and never changes once closed.
#[derive(Debug)]
pub struct PurchaseOrder {
    code: u128,
    ledger: Ledger,
    customer: Customer,
    closed_at: Option<Timestamp>,
}

impl View for PurchaseOrder {
    type V = PurchaseOrderView;

    closed spec fn view(&self) -> PurchaseOrderView {
        PurchaseOrderView {
            code: self.code,
            lines: self.ledger.model(),
            customer: self.customer@,
            closed_at: self.closed_at,
        }
    }
}

impl PurchaseOrder {
    #[verifier::type_invariant]
    spec fn consistent(self) -> bool {
        &&& self.ledger.wf()
        &&& self.closed_at is Some ==> self.ledger.lines@.len() > 0
    }

    /// The total that the order keeps beside its line items.
    pub closed spec fn stored_amount(&self) -> i64 {
        self.ledger.amount
    }

    /// A new, open order without line items.
    pub fn default(code: u128, customer: Customer) -> (order: Self)
        ensures
            order@ == (PurchaseOrderView {
                code,
                lines: Seq::<LineView>::empty(),
                customer: customer@,
                closed_at: None,
            }),
            order@.well_formed(),
            order.stored_amount() == order@.total(),
    {
        PurchaseOrder { code, ledger: Ledger::empty(), customer, closed_at: None }
    }

    /// Adds `quantity` of `product`. Where the order already has a line for
    /// the product the quantities are summed. A refused call changes nothing.
    pub fn add_item(&mut self, product: Product, quantity: i32) -> (outcome: Result<(), OrderError>)
        ensures
            final(self)@.well_formed(),
            final(self).stored_amount() == final(self)@.total(),
            match old(self)@.add_item(product@, quantity as int) {
                Ok(next) => outcome == Ok::<(), OrderError>(()) && final(self)@ == next,
                Err(error) => outcome == Err::<(), OrderError>(error) && *final(self) == *old(self),
            },
            old(self)@.is_closed() ==> outcome == Err::<(), OrderError>(OrderError::OrderClosed)
                && *final(self) == *old(self),
    {
        proof {
            use_type_invariant(&*self);
        }
        if self.closed_at.is_some() {
            return Err(OrderError::OrderClosed);
        }
        if quantity <= 0 {
            return Err(OrderError::InvalidQuantity);
        }
        let mut ledger = Ledger::empty();
        std::mem::swap(&mut ledger, &mut self.ledger);
        let done = ledger.add(product, quantity);
        self.ledger = ledger;
        if done {
            Ok(())
        } else {
            Err(OrderError::Overflow)
        }
    }

    /// Removes the line for `product`; an order without such a line stays as
    /// it is. A refused call changes nothing.
    pub fn remove_item(&mut self, product: &Product) -> (outcome: Result<(), OrderError>)
        ensures
            final(self)@.well_formed(),
            final(self).stored_amount() == final(self)@.total(),
            match old(self)@.remove_item(product@) {
                Ok(next) => outcome == Ok::<(), OrderError>(()) && final(self)@ == next,
                Err(error) => outcome == Err::<(), OrderError>(error) && *final(self) == *old(self),
            },
            old(self)@.is_closed() ==> outcome == Err::<(), OrderError>(OrderError::OrderClosed)
                && *final(self) == *old(self),
    {
        proof {
            use_type_invariant(&*self);
        }
        if self.closed_at.is_some() {
            return Err(OrderError::OrderClosed);
        }
        let mut ledger = Ledger::empty();
        std::mem::swap(&mut ledger, &mut self.ledger);
        ledger.remove(product);
        self.ledger = ledger;
        Ok(())
    }

    /// Closes the order with `now` as its closing time. A refused call
    /// changes nothing.
    pub fn close_at(&mut self, now: Timestamp) -> (outcome: Result<(), OrderError>)
        ensures
            final(self)@.well_formed(),
            final(self).stored_amount() == final(self)@.total(),
            match old(self)@.close(now) {
                Ok(next) => outcome == Ok::<(), OrderError>(()) && final(self)@ == next,
                Err(error) => outcome == Err::<(), OrderError>(error) && *final(self) == *old(self),
            },
            old(self)@.lines.len() == 0 ==> outcome == Err::<(), OrderError>(
                OrderError::EmptyOrder,
            ),
    {
        proof {
            use_type_invariant(&*self);
        }
        if self.ledger.lines.len() == 0 {
            return Err(OrderError::EmptyOrder);
        }
        if self.closed_at.is_some() {
            return Err(OrderError::AlreadyClosed);
        }
        self.closed_at = Some(now);
        Ok(())
    }

    /// Closes the order with the current time as its closing time. A refused
    /// call changes nothing.
    pub fn close(&mut self) -> (outcome: Result<(), OrderError>)
        ensures
            final(self)@.well_formed(),
            final(self).stored_amount() == final(self)@.total(),
            match old(self)@.close_refusal() {
                Some(error) => outcome == Err::<(), OrderError>(error) && *final(self) == *old(
                    self,
                ),
                None => {
                    &&& outcome == Ok::<(), OrderError>(())
                    &&& final(self)@.closed_at is Some
                    &&& final(self)@ == (PurchaseOrderView {
                        closed_at: final(self)@.closed_at,
                        ..old(self)@
                    })
                },
            },
            old(self)@.lines.len() == 0 ==> outcome == Err::<(), OrderError>(
                OrderError::EmptyOrder,
            ),
    {
        let now = system_time();
        self.close_at(now)
    }

    pub fn code(&self) -> (code: u128)
        ensures
            code == self@.code,
    {
        self.code
    }

    pub fn customer(&self) -> (customer: &Customer)
        ensures
            customer@ == self@.customer,
    {
        &self.customer
    }

    /// The line items, in the order in which their products were first
    /// added.
    pub fn items(&self) -> (items: &[LineItem])
        ensures
            views(items@) == self@.lines,
            self@.well_formed(),
    {
        proof {
            use_type_invariant(self);
        }
        self.ledger.lines.as_slice()
    }

    /// How many of `product` the order holds: 0 where it has no line for it.
    pub fn quantity_of(&self, product: &Product) -> (quantity: i32)
        ensures
            quantity == quantity_of(self@.lines, product@),
            quantity >= 0,
    {
        proof {
            use_type_invariant(self);
            lemma_position(self@.lines, product@);
        }
        match self.ledger.find(product) {
            Some(i) => self.ledger.lines[i].quantity(),
            None => 0,
        }
    }

    /// When the order was closed; `None` while it is open.
    pub fn closed_at(&self) -> (closed_at: Option<Timestamp>)
        ensures
            closed_at == self@.closed_at,
    {
        self.closed_at
    }

    /// Whether the order has been closed.
    pub fn is_closed(&self) -> (closed: bool)
        ensures
            closed == self@.is_closed(),
    {
        self.closed_at.is_some()
    }

    /// The total amount of the order. Whatever was added and removed, it is
    /// the sum over the current line items of price times quantity.
    #[verifier::when_used_as_spec(stored_amount)]
    pub fn amount(&self) -> (amount: i64)
        ensures
            amount == self.stored_amount(),
            amount == self@.total(),
            amount >= 0,
            self@.well_formed(),
    {
        proof {
            use_type_invariant(self);
            lemma_total_not_negative(self@.lines);
        }
        self.ledger.amount
    }
}

} // verus!
