//! The locations of a business: the requests of the family and the builder
//! of the body that they carry.

use crate::api::settings::Setting;
use crate::api::{EndpointView, Family, SquareAPI, Verb};
use crate::builder::{Builder, ParentBuilder, Validate};
use crate::client::{outcome, PreparedRequest, SquareClient};
use crate::errors::{SquareError, ValidationError};
use crate::objects::{
    Address, BusinessHours, BusinessHoursPeriod, Coordinates, Currency, Location, LocationStatus,
    LocationType, LocationView, TaxIds,
};
use vstd::prelude::*;
use vstd::std_specs::convert::FromSpecImpl;
use vstd::string::StringExecFns;

verus! {

impl SquareClient {
    /// The accessor for the requests of the locations family.
    pub fn locations(&self) -> (locations: Locations<'_>)
        ensures
            locations.client() == self,
    {
        Locations { client: self }
    }
}

/// The requests of the locations family, made on behalf of one client.
pub struct Locations<'a> {
    client: &'a SquareClient,
}

impl<'a> Locations<'a> {
    /// The client on whose behalf the requests are made.
    pub closed spec fn client(&self) -> &SquareClient {
        self.client
    }

    /// The endpoint of the family's collection.
    pub open spec fn collection() -> EndpointView {
        EndpointView { family: Family::Locations, suffix: Seq::empty() }
    }

    /// The endpoint of the location with the given identifier.
    pub open spec fn member(location_id: Seq<char>) -> EndpointView {
        EndpointView { family: Family::Locations, suffix: "/"@ + location_id }
    }

    /// The request that lists the locations of the business.
    pub fn list(self) -> (res: Result<PreparedRequest<Location>, SquareError>)
        ensures
            outcome(res) == self.client()@.plan::<Location>(
                Verb::GET,
                Self::collection(),
                None,
                None,
            ),
    {
        self.client.request(Verb::GET, SquareAPI::Locations(String::new()), None, None)
    }

    /// The request that creates `new_location`.
    ///
    /// The body travels as it is handed in: a caller gets a complete one
    /// from [`Builder::build`].
    pub fn create(self, new_location: LocationCreationWrapper) -> (res: Result<
        PreparedRequest<LocationCreationWrapper>,
        SquareError,
    >)
        ensures
            outcome(res) == self.client()@.plan(
                Verb::POST,
                Self::collection(),
                Some(new_location),
                None,
            ),
    {
        self.client.request(Verb::POST, SquareAPI::Locations(String::new()), Some(new_location), None)
    }

    /// The request that replaces the location `location_id` by
    /// `updated_location`.
    pub fn update(self, updated_location: LocationCreationWrapper, location_id: String) -> (res:
        Result<PreparedRequest<LocationCreationWrapper>, SquareError>)
        ensures
            outcome(res) == self.client()@.plan(
                Verb::PUT,
                Self::member(location_id@),
                Some(updated_location),
                None,
            ),
    {
        let suffix = String::from_str("/").concat(location_id.as_str());
        self.client.request(Verb::PUT, SquareAPI::Locations(suffix), Some(updated_location), None)
    }

    /// The request that retrieves the location `location_id`.
    pub fn retrieve(self, location_id: String) -> (res: Result<
        PreparedRequest<LocationCreationWrapper>,
        SquareError,
    >)
        ensures
            outcome(res) == self.client()@.plan::<LocationCreationWrapper>(
                Verb::GET,
                Self::member(location_id@),
                None,
                None,
            ),
    {
        let suffix = String::from_str("/").concat(location_id.as_str());
        self.client.request(Verb::GET, SquareAPI::Locations(suffix), None, None)
    }
}

/// The body of the requests that create or update a location: the location,
/// wrapped as the API expects it.
#[derive(Clone, Debug, PartialEq, Eq)]
pub struct LocationCreationWrapper {
    location: Location,
}

impl View for LocationCreationWrapper {
    type V = LocationView;

    closed spec fn view(&self) -> LocationView {
        self.location@
    }
}

impl Default for LocationCreationWrapper {
    /// The wrapper of the location of which nothing is known.
    fn default() -> (wrapper: Self)
        ensures
            wrapper@ == LocationView::empty(),
    {
        LocationCreationWrapper { location: Location::default() }
    }
}

impl From<Location> for LocationCreationWrapper {
    /// The wrapper of `location`, complete or not.
    fn from(location: Location) -> (wrapper: Self)
        ensures
            wrapper@ == location@,
    {
        LocationCreationWrapper { location }
    }
}

impl FromSpecImpl<Location> for LocationCreationWrapper {
    open spec fn obeys_from_spec() -> bool {
        true
    }

    closed spec fn from_spec(location: Location) -> Self {
        LocationCreationWrapper { location }
    }
}

impl LocationCreationWrapper {
    /// The location inside the wrapper.
    pub fn location(&self) -> (location: &Location)
        ensures
            location@ == self@,
    {
        &self.location
    }
}

impl Validate for LocationCreationWrapper {
    /// A location is complete once it has a name.
    open spec fn is_valid(&self) -> bool {
        self@.is_valid()
    }

    fn validate(self) -> (res: Result<Self, ValidationError>) {
        if self.location.name.is_some() {
            Ok(self)
        } else {
            Err(ValidationError)
        }
    }
}

impl<T: ParentBuilder> Builder<LocationCreationWrapper, T> {
    /// Sets the name, the one field that a location cannot do without.
    pub fn name(self, name: String) -> (res: Self)
        ensures
            res.body()@ == self.body()@.apply(Setting::Name(name@)),
    {
        let mut builder = self;
        builder.body.location.name = Some(name);
        builder
    }

    /// Sets the address.
    pub fn address(self, address: Address) -> (res: Self)
        ensures
            res.body()@ == self.body()@.apply(Setting::Address(address@)),
    {
        let mut builder = self;
        builder.body.location.address = Some(address);
        builder
    }

    /// Sets the business email.
    pub fn business_email(self, business_email: String) -> (res: Self)
        ensures
            res.body()@ == self.body()@.apply(Setting::BusinessEmail(business_email@)),
    {
        let mut builder = self;
        builder.body.location.business_email = Some(business_email);
        builder
    }

    /// Adds one period at the end of the business hours, which begin with
    /// it if there were none.
    pub fn add_business_hours_period(self, business_hours_period: BusinessHoursPeriod) -> (res:
        Self)
        ensures
            res.body()@ == self.body()@.apply(
                Setting::AddBusinessHoursPeriod(business_hours_period@),
            ),
    {
        let mut builder = self;
        match builder.body.location.business_hours.take() {
            Some(mut business_hours) => {
                let ghost before = business_hours.periods.deep_view();
                business_hours.periods.push(business_hours_period);
                assert(business_hours.periods.deep_view() =~= before.push(
                    business_hours_period@,
                ));
                builder.body.location.business_hours = Some(business_hours);
            },
            None => {
                let periods = vec![business_hours_period];
                assert(periods.deep_view() =~= Seq::empty().push(business_hours_period@));
                builder.body.location.business_hours = Some(BusinessHours { periods });
            },
        }
        builder
    }

    /// Sets the business hours as a whole, in place of any that were there.
    pub fn business_hours(self, business_hours: BusinessHours) -> (res: Self)
        ensures
            res.body()@ == self.body()@.apply(Setting::BusinessHours(business_hours@)),
    {
        let mut builder = self;
        builder.body.location.business_hours = Some(business_hours);
        builder
    }

    /// Sets the business name.
    pub fn business_name(self, business_name: String) -> (res: Self)
        ensures
            res.body()@ == self.body()@.apply(Setting::BusinessName(business_name@)),
    {
        let mut builder = self;
        builder.body.location.business_name = Some(business_name);
        builder
    }

    /// Adds one capability at the end of the capabilities, which begin with
    /// it if there were none.
    pub fn add_capability(self, capability: String) -> (res: Self)
        ensures
            res.body()@ == self.body()@.apply(Setting::AddCapability(capability@)),
    {
        let mut builder = self;
        match builder.body.location.capabilities.take() {
            Some(mut capabilities) => {
                let ghost before = capabilities.deep_view();
                capabilities.push(capability);
                assert(capabilities.deep_view() =~= before.push(capability@));
                builder.body.location.capabilities = Some(capabilities);
            },
            None => {
                let capabilities = vec![capability];
                assert(capabilities.deep_view() =~= Seq::empty().push(capability@));
                builder.body.location.capabilities = Some(capabilities);
            },
        }
        builder
    }

    /// Sets the capabilities as a whole, in place of any that were there.
    pub fn capabilities(self, capabilities: Vec<String>) -> (res: Self)
        ensures
            res.body()@ == self.body()@.apply(Setting::Capabilities(capabilities.deep_view())),
    {
        let mut builder = self;
        builder.body.location.capabilities = Some(capabilities);
        builder
    }

    /// Sets the coordinates.
    pub fn coordinates(self, coordinates: Coordinates) -> (res: Self)
        ensures
            res.body()@ == self.body()@.apply(Setting::Coordinates(coordinates)),
    {
        let mut builder = self;
        builder.body.location.coordinates = Some(coordinates);
        builder
    }

    /// Sets the country.
    pub fn country(self, country: String) -> (res: Self)
        ensures
            res.body()@ == self.body()@.apply(Setting::Country(country@)),
    {
        let mut builder = self;
        builder.body.location.country = Some(country);
        builder
    }

    /// Sets the currency.
    pub fn currency(self, currency: Currency) -> (res: Self)
        ensures
            res.body()@ == self.body()@.apply(Setting::Currency(currency)),
    {
        let mut builder = self;
        builder.body.location.currency = Some(currency);
        builder
    }

    /// Sets the description.
    pub fn description(self, description: String) -> (res: Self)
        ensures
            res.body()@ == self.body()@.apply(Setting::Description(description@)),
    {
        let mut builder = self;
        builder.body.location.description = Some(description);
        builder
    }

    /// Sets the facebook url.
    pub fn facebook_url(self, facebook_url: String) -> (res: Self)
        ensures
            res.body()@ == self.body()@.apply(Setting::FacebookUrl(facebook_url@)),
    {
        let mut builder = self;
        builder.body.location.facebook_url = Some(facebook_url);
        builder
    }

    /// Sets the full format logo url.
    pub fn full_format_logo_url(self, full_format_logo_url: String) -> (res: Self)
        ensures
            res.body()@ == self.body()@.apply(Setting::FullFormatLogoUrl(full_format_logo_url@)),
    {
        let mut builder = self;
        builder.body.location.full_format_logo_url = Some(full_format_logo_url);
        builder
    }

    /// Sets the instagram username.
    pub fn instagram_username(self, instagram_username: String) -> (res: Self)
        ensures
            res.body()@ == self.body()@.apply(Setting::InstagramUsername(instagram_username@)),
    {
        let mut builder = self;
        builder.body.location.instagram_username = Some(instagram_username);
        builder
    }

    /// Sets the language code.
    pub fn language_code(self, language_code: String) -> (res: Self)
        ensures
            res.body()@ == self.body()@.apply(Setting::LanguageCode(language_code@)),
    {
        let mut builder = self;
        builder.body.location.language_code = Some(language_code);
        builder
    }

    /// Sets the logo url.
    pub fn logo_url(self, logo_url: String) -> (res: Self)
        ensures
            res.body()@ == self.body()@.apply(Setting::LogoUrl(logo_url@)),
    {
        let mut builder = self;
        builder.body.location.logo_url = Some(logo_url);
        builder
    }

    /// Sets the mcc.
    pub fn mcc(self, mcc: String) -> (res: Self)
        ensures
            res.body()@ == self.body()@.apply(Setting::Mcc(mcc@)),
    {
        let mut builder = self;
        builder.body.location.mcc = Some(mcc);
        builder
    }

    /// Sets the merchant id.
    pub fn merchant_id(self, merchant_id: String) -> (res: Self)
        ensures
            res.body()@ == self.body()@.apply(Setting::MerchantId(merchant_id@)),
    {
        let mut builder = self;
        builder.body.location.merchant_id = Some(merchant_id);
        builder
    }

    /// Sets the phone number.
    pub fn phone_number(self, phone_number: String) -> (res: Self)
        ensures
            res.body()@ == self.body()@.apply(Setting::PhoneNumber(phone_number@)),
    {
        let mut builder = self;
        builder.body.location.phone_number = Some(phone_number);
        builder
    }

    /// Sets the pos background url.
    pub fn pos_background_url(self, pos_background_url: String) -> (res: Self)
        ensures
            res.body()@ == self.body()@.apply(Setting::PosBackgroundUrl(pos_background_url@)),
    {
        let mut builder = self;
        builder.body.location.pos_background_url = Some(pos_background_url);
        builder
    }

    /// Sets the status.
    pub fn status(self, status: LocationStatus) -> (res: Self)
        ensures
            res.body()@ == self.body()@.apply(Setting::Status(status)),
    {
        let mut builder = self;
        builder.body.location.status = Some(status);
        builder
    }

    /// Sets the tax ids.
    pub fn tax_ids(self, tax_ids: TaxIds) -> (res: Self)
        ensures
            res.body()@ == self.body()@.apply(Setting::TaxIds(tax_ids@)),
    {
        let mut builder = self;
        builder.body.location.tax_ids = Some(tax_ids);
        builder
    }

    /// Sets the timezone.
    pub fn timezone(self, timezone: String) -> (res: Self)
        ensures
            res.body()@ == self.body()@.apply(Setting::Timezone(timezone@)),
    {
        let mut builder = self;
        builder.body.location.timezone = Some(timezone);
        builder
    }

    /// Sets the twitter username.
    pub fn twitter_username(self, twitter_username: String) -> (res: Self)
        ensures
            res.body()@ == self.body()@.apply(Setting::TwitterUsername(twitter_username@)),
    {
        let mut builder = self;
        builder.body.location.twitter_username = Some(twitter_username);
        builder
    }

    /// Sets whether the location has a fixed place.
    pub fn location_type(self, location_type: LocationType) -> (res: Self)
        ensures
            res.body()@ == self.body()@.apply(Setting::LocationType(location_type)),
    {
        let mut builder = self;
        builder.body.location.location_type = Some(location_type);
        builder
    }

    /// Sets the website url.
    pub fn website_url(self, website_url: String) -> (res: Self)
        ensures
            res.body()@ == self.body()@.apply(Setting::WebsiteUrl(website_url@)),
    {
        let mut builder = self;
        builder.body.location.website_url = Some(website_url);
        builder
    }
}

} // verus!
