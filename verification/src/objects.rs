//! The resource representations that travel in request bodies.
//!
//! Every type has a view that holds its content as mathematical values:
//! texts as sequences of characters, lists as sequences.

use vstd::prelude::*;

verus! {

/// Whether a location takes payments.
#[derive(Clone, Copy, Debug, PartialEq, Eq)]
pub enum LocationStatus {
    Active,
    Inactive,
}

/// Whether a location has a fixed place.
#[derive(Clone, Copy, Debug, PartialEq, Eq)]
pub enum LocationType {
    Physical,
    Mobile,
}

/// The currencies of the countries in which a location can be opened.
#[derive(Clone, Copy, Debug, PartialEq, Eq)]
pub enum Currency {
    AUD,
    CAD,
    EUR,
    GBP,
    JPY,
    USD,
}

/// A day of the week.
#[derive(Clone, Copy, Debug, PartialEq, Eq)]
pub enum DayOfWeek {
    Mon,
    Tue,
    Wed,
    Thu,
    Fri,
    Sat,
    Sun,
}

/// A point on the globe, in millionths of a degree.
#[derive(Clone, Copy, Debug, PartialEq, Eq)]
pub struct Coordinates {
    pub latitude: i64,
    pub longitude: i64,
}

/// A postal address.
#[derive(Clone, Debug, PartialEq, Eq)]
pub struct Address {
    pub address_line_1: Option<String>,
    pub address_line_2: Option<String>,
    pub address_line_3: Option<String>,
    pub locality: Option<String>,
    pub sublocality: Option<String>,
    pub administrative_district_level_1: Option<String>,
    pub postal_code: Option<String>,
    pub country: Option<String>,
}

/// The content of an [`Address`].
pub struct AddressView {
    pub address_line_1: Option<Seq<char>>,
    pub address_line_2: Option<Seq<char>>,
    pub address_line_3: Option<Seq<char>>,
    pub locality: Option<Seq<char>>,
    pub sublocality: Option<Seq<char>>,
    pub administrative_district_level_1: Option<Seq<char>>,
    pub postal_code: Option<Seq<char>>,
    pub country: Option<Seq<char>>,
}

impl View for Address {
    type V = AddressView;

    open spec fn view(&self) -> AddressView {
        AddressView {
            address_line_1: self.address_line_1.deep_view(),
            address_line_2: self.address_line_2.deep_view(),
            address_line_3: self.address_line_3.deep_view(),
            locality: self.locality.deep_view(),
            sublocality: self.sublocality.deep_view(),
            administrative_district_level_1: self.administrative_district_level_1.deep_view(),
            postal_code: self.postal_code.deep_view(),
            country: self.country.deep_view(),
        }
    }
}

impl DeepView for Address {
    type V = AddressView;

    open spec fn deep_view(&self) -> AddressView {
        self@
    }
}

/// One stretch of opening time on one day of the week.
#[derive(Clone, Debug, PartialEq, Eq)]
pub struct BusinessHoursPeriod {
    pub day_of_week: DayOfWeek,
    /// The local time at which the stretch begins, as `HH:MM:SS`.
    pub start_local_time: String,
    /// The local time at which the stretch ends, as `HH:MM:SS`.
    pub end_local_time: String,
}

/// The content of a [`BusinessHoursPeriod`].
pub struct BusinessHoursPeriodView {
    pub day_of_week: DayOfWeek,
    pub start_local_time: Seq<char>,
    pub end_local_time: Seq<char>,
}

impl View for BusinessHoursPeriod {
    type V = BusinessHoursPeriodView;

    open spec fn view(&self) -> BusinessHoursPeriodView {
        BusinessHoursPeriodView {
            day_of_week: self.day_of_week,
            start_local_time: self.start_local_time@,
            end_local_time: self.end_local_time@,
        }
    }
}

impl DeepView for BusinessHoursPeriod {
    type V = BusinessHoursPeriodView;

    open spec fn deep_view(&self) -> BusinessHoursPeriodView {
        self@
    }
}

/// The opening times of a location, in the order in which they were given.
#[derive(Clone, Debug, PartialEq, Eq)]
pub struct BusinessHours {
    pub periods: Vec<BusinessHoursPeriod>,
}

/// The content of a [`BusinessHours`].
pub struct BusinessHoursView {
    pub periods: Seq<BusinessHoursPeriodView>,
}

impl View for BusinessHours {
    type V = BusinessHoursView;

    open spec fn view(&self) -> BusinessHoursView {
        BusinessHoursView { periods: self.periods.deep_view() }
    }
}

impl DeepView for BusinessHours {
    type V = BusinessHoursView;

    open spec fn deep_view(&self) -> BusinessHoursView {
        self@
    }
}

/// The tax identifiers of a location's business.
#[derive(Clone, Debug, PartialEq, Eq)]
pub struct TaxIds {
    pub eu_vat: Option<String>,
    pub fr_siret: Option<String>,
    pub fr_naf: Option<String>,
    pub es_nif: Option<String>,
}

/// The content of a [`TaxIds`].
pub struct TaxIdsView {
    pub eu_vat: Option<Seq<char>>,
    pub fr_siret: Option<Seq<char>>,
    pub fr_naf: Option<Seq<char>>,
    pub es_nif: Option<Seq<char>>,
}

impl View for TaxIds {
    type V = TaxIdsView;

    open spec fn view(&self) -> TaxIdsView {
        TaxIdsView {
            eu_vat: self.eu_vat.deep_view(),
            fr_siret: self.fr_siret.deep_view(),
            fr_naf: self.fr_naf.deep_view(),
            es_nif: self.es_nif.deep_view(),
        }
    }
}

impl DeepView for TaxIds {
    type V = TaxIdsView;

    open spec fn deep_view(&self) -> TaxIdsView {
        self@
    }
}

/// A place of business. Only the name is mandatory; a field that was never
/// given is absent.
#[derive(Clone, Debug, PartialEq, Eq)]
pub struct Location {
    pub id: Option<String>,
    pub name: Option<String>,
    pub address: Option<Address>,
    pub timezone: Option<String>,
    pub capabilities: Option<Vec<String>>,
    pub status: Option<LocationStatus>,
    pub created_id: Option<String>,
    pub coordinates: Option<Coordinates>,
    pub country: Option<String>,
    pub created_at: Option<String>,
    pub currency: Option<Currency>,
    pub description: Option<String>,
    pub facebook_url: Option<String>,
    pub full_format_logo_url: Option<String>,
    pub logo_url: Option<String>,
    pub instagram_username: Option<String>,
    pub language_code: Option<String>,
    pub mcc: Option<String>,
    pub merchant_id: Option<String>,
    pub phone_number: Option<String>,
    pub pos_background_url: Option<String>,
    pub tax_ids: Option<TaxIds>,
    pub twitter_username: Option<String>,
    pub location_type: Option<LocationType>,
    pub business_hours: Option<BusinessHours>,
    pub business_name: Option<String>,
    pub business_email: Option<String>,
    pub website_url: Option<String>,
}

/// The content of a [`Location`].
pub struct LocationView {
    pub id: Option<Seq<char>>,
    pub name: Option<Seq<char>>,
    pub address: Option<AddressView>,
    pub timezone: Option<Seq<char>>,
    pub capabilities: Option<Seq<Seq<char>>>,
    pub status: Option<LocationStatus>,
    pub created_id: Option<Seq<char>>,
    pub coordinates: Option<Coordinates>,
    pub country: Option<Seq<char>>,
    pub created_at: Option<Seq<char>>,
    pub currency: Option<Currency>,
    pub description: Option<Seq<char>>,
    pub facebook_url: Option<Seq<char>>,
    pub full_format_logo_url: Option<Seq<char>>,
    pub logo_url: Option<Seq<char>>,
    pub instagram_username: Option<Seq<char>>,
    pub language_code: Option<Seq<char>>,
    pub mcc: Option<Seq<char>>,
    pub merchant_id: Option<Seq<char>>,
    pub phone_number: Option<Seq<char>>,
    pub pos_background_url: Option<Seq<char>>,
    pub tax_ids: Option<TaxIdsView>,
    pub twitter_username: Option<Seq<char>>,
    pub location_type: Option<LocationType>,
    pub business_hours: Option<BusinessHoursView>,
    pub business_name: Option<Seq<char>>,
    pub business_email: Option<Seq<char>>,
    pub website_url: Option<Seq<char>>,
}

impl LocationView {
    /// The location of which nothing is known.
    pub open spec fn empty() -> LocationView {
        LocationView {
            id: None,
            name: None,
            address: None,
            timezone: None,
            capabilities: None,
            status: None,
            created_id: None,
            coordinates: None,
            country: None,
            created_at: None,
            currency: None,
            description: None,
            facebook_url: None,
            full_format_logo_url: None,
            logo_url: None,
            instagram_username: None,
            language_code: None,
            mcc: None,
            merchant_id: None,
            phone_number: None,
            pos_background_url: None,
            tax_ids: None,
            twitter_username: None,
            location_type: None,
            business_hours: None,
            business_name: None,
            business_email: None,
            website_url: None,
        }
    }

    /// A location can be sent once it has a name.
    pub open spec fn is_valid(self) -> bool {
        self.name is Some
    }
}

impl View for Location {
    type V = LocationView;

    open spec fn view(&self) -> LocationView {
        LocationView {
            id: self.id.deep_view(),
            name: self.name.deep_view(),
            address: self.address.deep_view(),
            timezone: self.timezone.deep_view(),
            capabilities: self.capabilities.deep_view(),
            status: self.status,
            created_id: self.created_id.deep_view(),
            coordinates: self.coordinates,
            country: self.country.deep_view(),
            created_at: self.created_at.deep_view(),
            currency: self.currency,
            description: self.description.deep_view(),
            facebook_url: self.facebook_url.deep_view(),
            full_format_logo_url: self.full_format_logo_url.deep_view(),
            logo_url: self.logo_url.deep_view(),
            instagram_username: self.instagram_username.deep_view(),
            language_code: self.language_code.deep_view(),
            mcc: self.mcc.deep_view(),
            merchant_id: self.merchant_id.deep_view(),
            phone_number: self.phone_number.deep_view(),
            pos_background_url: self.pos_background_url.deep_view(),
            tax_ids: self.tax_ids.deep_view(),
            twitter_username: self.twitter_username.deep_view(),
            location_type: self.location_type,
            business_hours: self.business_hours.deep_view(),
            business_name: self.business_name.deep_view(),
            business_email: self.business_email.deep_view(),
            website_url: self.website_url.deep_view(),
        }
    }
}

impl Default for Location {
    /// The location of which nothing is known.
    fn default() -> (location: Self)
        ensures
            location@ == LocationView::empty(),
    {
        Location {
            id: None,
            name: None,
            address: None,
            timezone: None,
            capabilities: None,
            status: None,
            created_id: None,
            coordinates: None,
            country: None,
            created_at: None,
            currency: None,
            description: None,
            facebook_url: None,
            full_format_logo_url: None,
            logo_url: None,
            instagram_username: None,
            language_code: None,
            mcc: None,
            merchant_id: None,
            phone_number: None,
            pos_background_url: None,
            tax_ids: None,
            twitter_username: None,
            location_type: None,
            business_hours: None,
            business_name: None,
            business_email: None,
            website_url: None,
        }
    }
}

} // verus!
