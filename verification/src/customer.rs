//! Customers.

use vstd::prelude::*;
use vstd::string::*;
use crate::address::{Address, AddressView};

verus! {

/// What a [`Customer`] holds, with its texts as sequences of characters.
pub struct CustomerView {
    pub first_name: Seq<char>,
    pub last_name: Seq<char>,
    pub email: Seq<char>,
    pub shipping_address: AddressView,
    pub billing_address: AddressView,
}

/// Whether `email` has exactly one `@`, which is neither its first nor its
/// last character.
pub open spec fn email_well_formed(email: Seq<char>) -> bool {
    exists|at: int|
        {
            &&& 0 < at < email.len() - 1
            &&& #[trigger] email[at] == '@'
            &&& forall|j: int| 0 <= j < email.len() && j != at ==> email[j] != '@'
        }
}

/// Who an order is for, and where it is shipped and billed.
#[derive(Debug)]
pub struct Customer {
    first_name: String,
    last_name: String,
    email: String,
    shipping_address: Address,
    billing_address: Address,
}

impl View for Customer {
    type V = CustomerView;

    closed spec fn view(&self) -> CustomerView {
        CustomerView {
            first_name: self.first_name@,
            last_name: self.last_name@,
            email: self.email@,
            shipping_address: self.shipping_address@,
            billing_address: self.billing_address@,
        }
    }
}

impl Clone for Customer {
    fn clone(&self) -> (copy: Self)
        ensures
            copy@ == self@,
    {
        Customer {
            first_name: self.first_name.clone(),
            last_name: self.last_name.clone(),
            email: self.email.clone(),
            shipping_address: self.shipping_address.clone(),
            billing_address: self.billing_address.clone(),
        }
    }
}

impl Customer {
    /// A customer of this name, with this email address and these addresses,
    /// each taken as it is.
    pub fn new(
        first_name: String,
        last_name: String,
        email: String,
        shipping_address: Address,
        billing_address: Address,
    ) -> (customer: Self)
        ensures
            customer@ == (CustomerView {
                first_name: first_name@,
                last_name: last_name@,
                email: email@,
                shipping_address: shipping_address@,
                billing_address: billing_address@,
            }),
    {
        Self { first_name, last_name, email, shipping_address, billing_address }
    }

    pub fn first_name(&self) -> (text: &str)
        ensures
            text@ == self@.first_name,
    {
        self.first_name.as_str()
    }

    pub fn last_name(&self) -> (text: &str)
        ensures
            text@ == self@.last_name,
    {
        self.last_name.as_str()
    }

    pub fn email(&self) -> (text: &str)
        ensures
            text@ == self@.email,
    {
        self.email.as_str()
    }

    pub fn shipping_address(&self) -> (address: &Address)
        ensures
            address@ == self@.shipping_address,
    {
        &self.shipping_address
    }

    pub fn billing_address(&self) -> (address: &Address)
        ensures
            address@ == self@.billing_address,
    {
        &self.billing_address
    }

    /// Whether the email address has exactly one `@`, with something before
    /// it and something after it.
    pub fn has_well_formed_email(&self) -> (well_formed: bool)
        ensures
            well_formed == email_well_formed(self@.email),
    {
        let email = self.email.as_str();
        let n = email.unicode_len();
        let mut found: Option<usize> = None;
        let mut i: usize = 0;
        while i < n
            invariant
                email@ == self@.email,
                n == email@.len(),
                i <= n,
                match found {
                    Some(at) => {
                        &&& at < i
                        &&& email@[at as int] == '@'
                        &&& forall|j: int| 0 <= j < i && j != at ==> email@[j] != '@'
                    },
                    None => forall|j: int| 0 <= j < i ==> email@[j] != '@',
                },
            decreases n - i,
        {
            if email.get_char(i) == '@' {
                if found.is_some() {
                    return false;
                }
                found = Some(i);
            }
            i += 1;
        }
        match found {
            Some(at) => 0 < at && at < n - 1,
            None => false,
        }
    }
}

} // verus!
