//! The endpoints of the Square API and the verbs that they accept.

pub mod locations;
pub mod settings;

use crate::client::{ClientMode, SquareClient};
use vstd::prelude::*;
use vstd::string::StringExecFns;

verus! {

/// A resource family together with the path below the family's root.
///
/// The suffix is empty for the family's collection and `/` followed by an
/// identifier for one resource of it.
#[non_exhaustive]
#[derive(Clone, Debug, PartialEq, Eq)]
pub enum SquareAPI {
    Payments(String),
    Bookings(String),
    Locations(String),
    Catalog(String),
    Customers(String),
    Cards(String),
    Checkout(String),
    Inventory(String),
    Sites(String),
    Terminals(String),
    Orders(String),
}

/// The HTTP verbs that the endpoints accept.
#[derive(Clone, Copy, Debug, PartialEq, Eq)]
pub enum Verb {
    GET,
    POST,
    PUT,
    PATCH,
    DELETE,
}

/// The resource families of the API.
#[derive(Clone, Copy, Debug, PartialEq, Eq)]
pub enum Family {
    Payments,
    Bookings,
    Locations,
    Catalog,
    Customers,
    Cards,
    Checkout,
    Inventory,
    Sites,
    Terminals,
    Orders,
}

impl Family {
    /// The fixed root of the family's paths.
    pub open spec fn prefix(self) -> Seq<char> {
        match self {
            Family::Payments => "payments"@,
            Family::Bookings => "bookings"@,
            Family::Locations => "locations"@,
            Family::Catalog => "catalog"@,
            Family::Customers => "customers"@,
            Family::Cards => "cards"@,
            Family::Checkout => "online-checkout"@,
            Family::Inventory => "inventory"@,
            Family::Sites => "sites"@,
            Family::Terminals => "terminals"@,
            Family::Orders => "orders"@,
        }
    }
}

/// The content of a [`SquareAPI`]: the family and the path below its root.
pub struct EndpointView {
    pub family: Family,
    pub suffix: Seq<char>,
}

impl EndpointView {
    /// The path of the endpoint relative to a base URL.
    pub open spec fn path(self) -> Seq<char> {
        self.family.prefix() + self.suffix
    }
}

impl View for SquareAPI {
    type V = EndpointView;

    open spec fn view(&self) -> EndpointView {
        match self {
            SquareAPI::Payments(path) => EndpointView { family: Family::Payments, suffix: path@ },
            SquareAPI::Bookings(path) => EndpointView { family: Family::Bookings, suffix: path@ },
            SquareAPI::Locations(path) => EndpointView { family: Family::Locations, suffix: path@ },
            SquareAPI::Catalog(path) => EndpointView { family: Family::Catalog, suffix: path@ },
            SquareAPI::Customers(path) => EndpointView { family: Family::Customers, suffix: path@ },
            SquareAPI::Cards(path) => EndpointView { family: Family::Cards, suffix: path@ },
            SquareAPI::Checkout(path) => EndpointView { family: Family::Checkout, suffix: path@ },
            SquareAPI::Inventory(path) => EndpointView { family: Family::Inventory, suffix: path@ },
            SquareAPI::Sites(path) => EndpointView { family: Family::Sites, suffix: path@ },
            SquareAPI::Terminals(path) => EndpointView { family: Family::Terminals, suffix: path@ },
            SquareAPI::Orders(path) => EndpointView { family: Family::Orders, suffix: path@ },
        }
    }
}

impl SquareAPI {
    /// Renders the endpoint as the family's root followed by the suffix.
    pub fn to_string(&self) -> (rendered: String)
        ensures
            rendered@ == self@.path(),
    {
        match self {
            SquareAPI::Payments(path) => String::from_str("payments").concat(path.as_str()),
            SquareAPI::Bookings(path) => String::from_str("bookings").concat(path.as_str()),
            SquareAPI::Locations(path) => String::from_str("locations").concat(path.as_str()),
            SquareAPI::Catalog(path) => String::from_str("catalog").concat(path.as_str()),
            SquareAPI::Customers(path) => String::from_str("customers").concat(path.as_str()),
            SquareAPI::Cards(path) => String::from_str("cards").concat(path.as_str()),
            SquareAPI::Checkout(path) => String::from_str("online-checkout").concat(path.as_str()),
            SquareAPI::Inventory(path) => String::from_str("inventory").concat(path.as_str()),
            SquareAPI::Sites(path) => String::from_str("sites").concat(path.as_str()),
            SquareAPI::Terminals(path) => String::from_str("terminals").concat(path.as_str()),
            SquareAPI::Orders(path) => String::from_str("orders").concat(path.as_str()),
        }
    }
}

impl SquareClient {
    /// The full URL of `end_point` on the hosts of the client's mode.
    pub fn endpoint(&self, end_point: SquareAPI) -> (url: String)
        ensures
            url@ == self@.url(end_point@),
    {
        let base = match self.client_mode {
            ClientMode::Production => "https://connect.squareup.com/v2/",
            ClientMode::Sandboxed => "https://connect.squareupsandbox.com/v2/",
        };
        let path = end_point.to_string();
        String::from_str(base).concat(path.as_str())
    }
}

} // verus!
