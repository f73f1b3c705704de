use order_checkout::address::Address;
use order_checkout::card::{CreditCard, CreditCardMethod};
use order_checkout::clock::Timestamp;
use order_checkout::customer::Customer;
use order_checkout::invoice::Invoice;
use order_checkout::order::{OrderError, PurchaseOrder};
use order_checkout::payment::{Payment, PaymentFailure, PaymentMethod};
use order_checkout::product::{Product, ProductType};

fn address(line: &str) -> Address {
    Address::new(
        String::from(line),
        String::from("postalCode"),
        String::from("city"),
        String::from("country"),
        String::from("state"),
    )
}

fn customer() -> Customer {
    Customer::new(
        String::from("Ada"),
        String::from("Lovelace"),
        String::from("ada@example.org"),
        address("shipping"),
        address("billing"),
    )
}

fn product(code: u128, name: &str, type_: ProductType, price: i64) -> Product {
    Product::new(code, String::from(name), String::from("description"), type_, price, true)
}

fn card(expiration_date: Timestamp) -> CreditCard {
    CreditCard::new(
        String::from("issuer"),
        String::from("name"),
        String::from("network"),
        String::from("holderName"),
        String::from("1111222233334444"),
        expiration_date,
        String::from("123"),
    )
}

fn order_of_ninety_nine() -> PurchaseOrder {
    let mut order = PurchaseOrder::default(7, customer());
    assert_eq!(order.add_item(product(1, "Product A", ProductType::Physical, 35), 2), Ok(()));
    assert_eq!(order.add_item(product(2, "Product B", ProductType::Membership, 29), 1), Ok(()));
    order
}

#[test]
fn an_order_is_filled_closed_paid_and_invoiced() {
    let mut order = order_of_ninety_nine();
    assert_eq!(order.amount(), 99);

    assert_eq!(order.close(), Ok(()));
    assert!(order.is_closed());
    assert!(order.closed_at().is_some());

    let method = CreditCardMethod::new(card(Timestamp::new(i64::MAX, 0)));
    let payment = method.pay(order.amount());
    assert_eq!(payment.amount(), 99);
    assert_eq!(payment.error(), "");
    assert!(payment.is_success());

    let closed_at = order.closed_at();
    let paid_at = payment.paid_at();
    let invoice = Invoice::new(payment, order, address("billing"), address("shipping"))
        .expect("a closed order has an invoice");
    assert_eq!(invoice.billing_address().address_line(), "billing");
    assert_eq!(invoice.shipping_address().address_line(), "shipping");
    assert_eq!(invoice.payment().amount(), 99);
    assert_eq!(invoice.payment().paid_at(), paid_at);
    assert_eq!(invoice.payment().failure(), None);
    assert_eq!(invoice.purchase_order().code(), 7);
    assert_eq!(invoice.purchase_order().amount(), 99);
    assert_eq!(invoice.purchase_order().closed_at(), closed_at);
    assert_eq!(invoice.purchase_order().items().len(), 2);
}

#[test]
fn closing_a_fresh_order_fails_with_empty_order() {
    let mut order = PurchaseOrder::default(7, customer());
    assert_eq!(order.close(), Err(OrderError::EmptyOrder));
}

#[test]
fn paying_with_an_expired_card_collects_nothing_and_leaves_the_order_open() {
    let order = order_of_ninety_nine();
    let method = CreditCardMethod::new(card(Timestamp::new(946_684_800, 0)));
    let payment = method.pay(order.amount());
    assert_eq!(payment.amount(), 0);
    assert!(!payment.error().is_empty());
    let failure = payment.failure().expect("a failed payment names its failure");
    assert_eq!(failure, PaymentFailure::CardInvalid);
    assert!(failure.is_terminal());
    assert!(!failure.is_retryable());
    assert!(!order.is_closed());
    assert_eq!(order.closed_at(), None);
    assert_eq!(order.amount(), 99);
}

#[test]
fn an_open_order_has_no_invoice() {
    let order = order_of_ninety_nine();
    let payment = Payment::collected(99, Timestamp::new(1, 0), String::from("EUR"));
    let outcome = Invoice::new(payment, order, address("billing"), address("shipping"));
    assert_eq!(outcome.err(), Some(OrderError::OrderOpen));
}

#[test]
fn an_empty_open_order_has_no_invoice() {
    let order = PurchaseOrder::default(7, customer());
    let payment = Payment::collected(0, Timestamp::new(1, 0), String::from("EUR"));
    let outcome = Invoice::new(payment, order, address("billing"), address("shipping"));
    assert_eq!(outcome.err(), Some(OrderError::OrderOpen));
}

#[test]
fn a_failed_payment_is_invoiced_too() {
    let mut order = order_of_ninety_nine();
    assert_eq!(order.close_at(Timestamp::new(50, 0)), Ok(()));
    let payment = Payment::failed(
        PaymentFailure::PaymentDeclined,
        Timestamp::new(60, 0),
        String::from("EUR"),
    );
    let invoice = Invoice::new(payment, order, address("billing"), address("shipping"))
        .expect("a closed order has an invoice");
    assert_eq!(invoice.payment().amount(), 0);
    assert_eq!(invoice.payment().failure(), Some(PaymentFailure::PaymentDeclined));
    assert_eq!(invoice.payment().error(), "payment declined");
    assert_eq!(invoice.purchase_order().closed_at(), Some(Timestamp::new(50, 0)));
    assert_eq!(invoice.purchase_order().amount(), 99);
}

#[test]
fn an_invoice_keeps_the_addresses_it_was_given() {
    let mut order = order_of_ninety_nine();
    assert_eq!(order.close_at(Timestamp::new(50, 0)), Ok(()));
    let payment = Payment::collected(99, Timestamp::new(60, 0), String::from("EUR"));
    let invoice = Invoice::new(payment, order, address("to bill"), address("to ship"))
        .expect("a closed order has an invoice");
    assert_eq!(invoice.billing_address().address_line(), "to bill");
    assert_eq!(invoice.shipping_address().address_line(), "to ship");
    assert_eq!(invoice.purchase_order().customer().billing_address().address_line(), "billing");
    assert_eq!(invoice.purchase_order().customer().shipping_address().address_line(), "shipping");
    assert_eq!(invoice.payment().currency(), "EUR");
}
