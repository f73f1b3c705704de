use order_checkout::address::Address;
use order_checkout::clock::Timestamp;
use order_checkout::configuration::ApplicationConfig;
use order_checkout::customer::Customer;
use order_checkout::product::{Product, ProductType};

fn address(line: &str) -> Address {
    Address::new(
        String::from(line),
        String::from("12345"),
        String::from("Springfield"),
        String::from("Freedonia"),
        String::from("North"),
    )
}

fn customer(email: &str) -> Customer {
    Customer::new(
        String::from("Ada"),
        String::from("Lovelace"),
        String::from(email),
        address("1 Ship Street"),
        address("2 Bill Street"),
    )
}

fn product(code: u128, name: &str, price: i64) -> Product {
    Product::new(
        code,
        String::from(name),
        String::from("description"),
        ProductType::Book,
        price,
        true,
    )
}

#[test]
fn an_address_gives_back_what_it_was_made_of() {
    let address = Address::new(
        String::from("line"),
        String::from("code"),
        String::from("city"),
        String::from("country"),
        String::from("state"),
    );
    assert_eq!(address.address_line(), "line");
    assert_eq!(address.postal_code(), "code");
    assert_eq!(address.city(), "city");
    assert_eq!(address.country(), "country");
    assert_eq!(address.state(), "state");
}

#[test]
fn a_copy_of_an_address_holds_the_same() {
    let address = address("1 Main Street");
    let copy = address.clone();
    assert_eq!(copy.address_line(), "1 Main Street");
    assert_eq!(copy.postal_code(), address.postal_code());
    assert_eq!(copy.city(), address.city());
    assert_eq!(copy.country(), address.country());
    assert_eq!(copy.state(), address.state());
}

#[test]
fn an_address_is_complete_when_no_part_is_empty() {
    assert!(address("1 Main Street").is_complete());
    assert!(!address("").is_complete());
    let parts = ["a", "b", "c", "d", "e"];
    for missing in 0..5 {
        let part = |i: usize| String::from(if i == missing { "" } else { parts[i] });
        let address = Address::new(part(0), part(1), part(2), part(3), part(4));
        assert!(!address.is_complete());
    }
}

#[test]
fn a_customer_gives_back_what_it_was_made_of() {
    let customer = customer("ada@example.org");
    assert_eq!(customer.first_name(), "Ada");
    assert_eq!(customer.last_name(), "Lovelace");
    assert_eq!(customer.email(), "ada@example.org");
    assert_eq!(customer.shipping_address().address_line(), "1 Ship Street");
    assert_eq!(customer.billing_address().address_line(), "2 Bill Street");
}

#[test]
fn a_copy_of_a_customer_holds_the_same() {
    let copy = customer("ada@example.org").clone();
    assert_eq!(copy.first_name(), "Ada");
    assert_eq!(copy.last_name(), "Lovelace");
    assert_eq!(copy.email(), "ada@example.org");
    assert_eq!(copy.shipping_address().address_line(), "1 Ship Street");
    assert_eq!(copy.billing_address().address_line(), "2 Bill Street");
}

#[test]
fn an_email_with_one_at_sign_inside_is_well_formed() {
    assert!(customer("ada@example.org").has_well_formed_email());
    assert!(customer("a@b").has_well_formed_email());
    assert!(customer("s\u{e1}nchez@ejemplo.es").has_well_formed_email());
}

#[test]
fn an_email_without_at_sign_or_with_two_is_not_well_formed() {
    assert!(!customer("").has_well_formed_email());
    assert!(!customer("ada.example.org").has_well_formed_email());
    assert!(!customer("ada@@example.org").has_well_formed_email());
    assert!(!customer("ada@example@org").has_well_formed_email());
    assert!(!customer("@a@").has_well_formed_email());
}

#[test]
fn an_email_that_starts_or_ends_with_the_at_sign_is_not_well_formed() {
    assert!(!customer("@").has_well_formed_email());
    assert!(!customer("@example.org").has_well_formed_email());
    assert!(!customer("ada@").has_well_formed_email());
}

#[test]
fn a_product_gives_back_what_it_was_made_of() {
    let product = Product::new(
        0xffff_ffff_ffff_ffff_ffff_ffff_ffff_ffff,
        String::from("The Guide"),
        String::from("mostly harmless"),
        ProductType::Book,
        120,
        false,
    );
    assert_eq!(product.code(), u128::MAX);
    assert_eq!(product.name(), "The Guide");
    assert_eq!(product.description(), "mostly harmless");
    assert_eq!(product.product_type(), ProductType::Book);
    assert_eq!(product.price(), 120);
    assert!(!product.is_active());
}

#[test]
fn a_product_may_be_free() {
    assert_eq!(product(1, "sample", 0).price(), 0);
    assert_eq!(product(1, "jewel", i64::MAX).price(), i64::MAX);
}

#[test]
fn products_are_equal_when_every_field_is() {
    assert!(product(1, "a", 10) == product(1, "a", 10));
    assert!(product(1, "a", 10) == product(1, "a", 10).clone());
    assert!(product(1, "a", 10) != product(2, "a", 10));
    assert!(product(1, "a", 10) != product(1, "b", 10));
    assert!(product(1, "a", 10) != product(1, "a", 11));
    let base = || {
        Product::new(1, String::from("a"), String::from("d"), ProductType::Digital, 10, true)
    };
    let other_text =
        Product::new(1, String::from("a"), String::from("e"), ProductType::Digital, 10, true);
    let other_type =
        Product::new(1, String::from("a"), String::from("d"), ProductType::Membership, 10, true);
    let inactive =
        Product::new(1, String::from("a"), String::from("d"), ProductType::Digital, 10, false);
    assert!(base() == base());
    assert!(base() != other_text);
    assert!(base() != other_type);
    assert!(base() != inactive);
}

#[test]
fn the_four_product_types_differ() {
    let types = [
        ProductType::Physical,
        ProductType::Book,
        ProductType::Digital,
        ProductType::Membership,
    ];
    for (i, a) in types.iter().enumerate() {
        for (j, b) in types.iter().enumerate() {
            assert_eq!(a == b, i == j);
        }
    }
}

#[test]
fn instants_are_ordered_by_seconds_and_then_by_nanoseconds() {
    let t = Timestamp::new(10, 500);
    assert!(Timestamp::new(9, 999_999_999).is_before(&t));
    assert!(Timestamp::new(10, 499).is_before(&t));
    assert!(!Timestamp::new(10, 500).is_before(&t));
    assert!(!Timestamp::new(10, 501).is_before(&t));
    assert!(!Timestamp::new(11, 0).is_before(&t));
    assert!(Timestamp::new(-1, 999_999_999).is_before(&Timestamp::new(0, 0)));
    assert!(Timestamp::new(i64::MIN, u32::MAX).is_before(&Timestamp::new(i64::MAX, 0)));
}

#[test]
fn an_instant_gives_back_what_it_was_made_of() {
    let t = Timestamp::new(-5, 1_999_999_999);
    assert_eq!(t.seconds, -5);
    assert_eq!(t.nanos, 1_999_999_999);
    assert_eq!(t, Timestamp { seconds: -5, nanos: 1_999_999_999 });
}

#[test]
fn a_configuration_holds_language_and_country() {
    let config = ApplicationConfig { language: String::from("es"), country: String::from("ES") };
    let copy = config.clone();
    assert_eq!(config.language, "es");
    assert_eq!(config.country, "ES");
    assert_eq!(copy.language, "es");
    assert_eq!(copy.country, "ES");
}
