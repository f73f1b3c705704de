//! Catalog entries.

use vstd::prelude::*;
use vstd::std_specs::cmp::PartialEqSpecImpl;

verus! {

/// The category a product is sold under.
#[derive(Clone, Copy, Debug, PartialEq, Eq, Hash, Structural)]
pub enum ProductType {
    Physical,
    Book,
    Digital,
    Membership,
}

/// What a [`Product`] holds, with its texts as sequences of characters.
pub struct ProductView {
    pub code: u128,
    pub name: Seq<char>,
    pub description: Seq<char>,
    pub type_: ProductType,
    pub price: i64,
    pub active: bool,
}

impl ProductView {
    /// What holds of every product: its price is not negative.
    pub open spec fn well_formed(self) -> bool {
        self.price >= 0
    }
}

/// A catalog entry. Its unit price is in minor currency units and is never
/// negative.
#[derive(Debug)]
pub struct Product {
    code: u128,
    name: String,
    description: String,
    type_: ProductType,
    price: i64,
    active: bool,
}

impl View for Product {
    type V = ProductView;

    closed spec fn view(&self) -> ProductView {
        ProductView {
            code: self.code,
            name: self.name@,
            description: self.description@,
            type_: self.type_,
            price: self.price,
            active: self.active,
        }
    }
}

/// Two products are the same when all that they hold is the same.
impl PartialEq for Product {
    fn eq(&self, other: &Product) -> (same: bool) {
        self.code == other.code && self.name == other.name
            && self.description == other.description && self.type_ == other.type_
            && self.price == other.price && self.active == other.active
    }
}

impl Eq for Product {}

impl PartialEqSpecImpl for Product {
    open spec fn obeys_eq_spec() -> bool {
        true
    }

    open spec fn eq_spec(&self, other: &Product) -> bool {
        self@ == other@
    }
}

impl Product {
    #[verifier::type_invariant]
    spec fn price_is_not_negative(self) -> bool {
        self.price >= 0
    }

    /// A catalog entry with a unit price of `price` minor currency units.
    pub fn new(
        code: u128,
        name: String,
        description: String,
        type_: ProductType,
        price: i64,
        active: bool,
    ) -> (product: Self)
        requires
            price >= 0,
        ensures
            product@ == (ProductView {
                code,
                name: name@,
                description: description@,
                type_,
                price,
                active,
            }),
            product@.well_formed(),
    {
        Self { code, name, description, type_, price, active }
    }

    pub fn code(&self) -> (code: u128)
        ensures
            code == self@.code,
    {
        self.code
    }

    pub fn name(&self) -> (text: &str)
        ensures
            text@ == self@.name,
    {
        self.name.as_str()
    }

    pub fn description(&self) -> (text: &str)
        ensures
            text@ == self@.description,
    {
        self.description.as_str()
    }

    pub fn product_type(&self) -> (type_: ProductType)
        ensures
            type_ == self@.type_,
    {
        self.type_
    }

    /// The unit price in minor currency units. It is never negative.
    pub fn price(&self) -> (price: i64)
        ensures
            price == self@.price,
            self@.well_formed(),
    {
        proof {
            use_type_invariant(self);
        }
        self.price
    }

    pub fn is_active(&self) -> (active: bool)
        ensures
            active == self@.active,
    {
        self.active
    }
}

impl Clone for Product {
    fn clone(&self) -> (copy: Self)
        ensures
            copy@ == self@,
    {
        proof {
            use_type_invariant(self);
        }
        Product {
            code: self.code,
            name: self.name.clone(),
            description: self.description.clone(),
            type_: self.type_,
            price: self.price,
            active: self.active,
        }
    }
}

} // verus!
