//! Postal addresses.

use vstd::prelude::*;

verus! {

/// What an [`Address`] holds, as sequences of characters.
pub struct AddressView {
    pub address_line: Seq<char>,
    pub postal_code: Seq<char>,
    pub city: Seq<char>,
    pub country: Seq<char>,
    pub state: Seq<char>,
}

impl AddressView {
    /// Whether no part of the address is empty.
    pub open spec fn is_complete(self) -> bool {
        &&& self.address_line.len() > 0
        &&& self.postal_code.len() > 0
        &&& self.city.len() > 0
        &&& self.country.len() > 0
        &&& self.state.len() > 0
    }
}

/// A postal address, used for shipping or for billing.
#[derive(Debug)]
pub struct Address {
    address_line: String,
    postal_code: String,
    city: String,
    country: String,
    state: String,
}

impl View for Address {
    type V = AddressView;

    closed spec fn view(&self) -> AddressView {
        AddressView {
            address_line: self.address_line@,
            postal_code: self.postal_code@,
            city: self.city@,
            country: self.country@,
            state: self.state@,
        }
    }
}

impl Clone for Address {
    fn clone(&self) -> (copy: Self)
        ensures
            copy@ == self@,
    {
        Address {
            address_line: self.address_line.clone(),
            postal_code: self.postal_code.clone(),
            city: self.city.clone(),
            country: self.country.clone(),
            state: self.state.clone(),
        }
    }
}

impl Address {
    /// An address of these parts, each taken as it is.
    pub fn new(
        address_line: String,
        postal_code: String,
        city: String,
        country: String,
        state: String,
    ) -> (address: Self)
        ensures
            address@ == (AddressView {
                address_line: address_line@,
                postal_code: postal_code@,
                city: city@,
                country: country@,
                state: state@,
            }),
    {
        Self { address_line, postal_code, city, country, state }
    }

    pub fn address_line(&self) -> (text: &str)
        ensures
            text@ == self@.address_line,
    {
        self.address_line.as_str()
    }

    pub fn postal_code(&self) -> (text: &str)
        ensures
            text@ == self@.postal_code,
    {
        self.postal_code.as_str()
    }

    pub fn city(&self) -> (text: &str)
        ensures
            text@ == self@.city,
    {
        self.city.as_str()
    }

    pub fn country(&self) -> (text: &str)
        ensures
            text@ == self@.country,
    {
        self.country.as_str()
    }

    pub fn state(&self) -> (text: &str)
        ensures
            text@ == self@.state,
    {
        self.state.as_str()
    }

    /// Whether no part of the address is empty.
    pub fn is_complete(&self) -> (complete: bool)
        ensures
            complete == self@.is_complete(),
    {
        !self.address_line.as_str().is_empty() && !self.postal_code.as_str().is_empty()
            && !self.city.as_str().is_empty() && !self.country.as_str().is_empty()
            && !self.state.as_str().is_empty()
    }
}

} // verus!
