//! Postal addresses on the wire.

use vstd::prelude::*;

use crate::service::address::Address as AddressRepr;

verus! {

/// A postal address, as the API shows it.
#[derive(Debug, Clone, PartialEq, Eq)]
pub struct Address {
    pub line1: String,
    pub line2: Option<String>,
    pub city: String,
    pub region: String,
    pub country: String,
    pub postcode: String,
}

impl From<AddressRepr> for Address {
    fn from(address: AddressRepr) -> (r: Address) {
        Address {
            line1: address.line1,
            line2: address.line2,
            city: address.city,
            region: address.region,
            country: address.country,
            postcode: address.postcode,
        }
    }
}

impl vstd::std_specs::convert::FromSpecImpl<AddressRepr> for Address {
    open spec fn obeys_from_spec() -> bool {
        true
    }

    open spec fn from_spec(address: AddressRepr) -> Address {
        Address {
            line1: address.line1,
            line2: address.line2,
            city: address.city,
            region: address.region,
            country: address.country,
            postcode: address.postcode,
        }
    }
}

/// The service-side address an input stands for.
pub open spec fn spec_address_repr(address: AddressInput) -> AddressRepr {
    AddressRepr {
        line1: address.line1,
        line2: address.line2,
        city: address.city,
        region: address.region,
        country: address.country,
        postcode: address.postcode,
    }
}

/// A postal address, as a caller hands it in.
#[derive(Debug, Clone, PartialEq, Eq)]
pub struct AddressInput {
    pub line1: String,
    pub line2: Option<String>,
    pub city: String,
    pub region: String,
    pub country: String,
    pub postcode: String,
}

impl From<AddressInput> for AddressRepr {
    fn from(address: AddressInput) -> (r: AddressRepr) {
        AddressRepr {
            line1: address.line1,
            line2: address.line2,
            city: address.city,
            region: address.region,
            country: address.country,
            postcode: address.postcode,
        }
    }
}

impl vstd::std_specs::convert::FromSpecImpl<AddressInput> for AddressRepr {
    open spec fn obeys_from_spec() -> bool {
        true
    }

    open spec fn from_spec(address: AddressInput) -> AddressRepr {
        AddressRepr {
            line1: address.line1,
            line2: address.line2,
            city: address.city,
            region: address.region,
            country: address.country,
            postcode: address.postcode,
        }
    }
}

} // verus!
