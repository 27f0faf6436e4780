use square_ox::api::locations::LocationCreationWrapper;
use square_ox::builder::{Builder, Nil};
use square_ox::errors::ValidationError;
use square_ox::objects::{
    Address, BusinessHours, BusinessHoursPeriod, Coordinates, Currency, DayOfWeek, Location,
    LocationStatus, LocationType, TaxIds,
};

fn builder() -> Builder<LocationCreationWrapper, Nil> {
    Builder::from(LocationCreationWrapper::default())
}

fn period(day_of_week: DayOfWeek, start: &str, end: &str) -> BusinessHoursPeriod {
    BusinessHoursPeriod {
        day_of_week,
        start_local_time: start.to_string(),
        end_local_time: end.to_string(),
    }
}

fn address() -> Address {
    Address {
        address_line_1: Some("1455 Market St".to_string()),
        address_line_2: None,
        address_line_3: None,
        locality: Some("San Francisco".to_string()),
        sublocality: None,
        administrative_district_level_1: Some("CA".to_string()),
        postal_code: Some("94103".to_string()),
        country: Some("US".to_string()),
    }
}

fn tax_ids() -> TaxIds {
    TaxIds {
        eu_vat: Some("IE3426675K".to_string()),
        fr_siret: None,
        fr_naf: None,
        es_nif: None,
    }
}

#[test]
fn test_location_builder() {
    let expected = Location {
        id: None,
        name: Some("New Test Location".to_string()),
        business_email: None,
        address: None,
        timezone: None,
        capabilities: None,
        status: None,
        created_id: None,
        coordinates: None,
        country: None,
        created_at: None,
        currency: None,
        description: None,
        facebook_url: Some("some_url".to_string()),
        full_format_logo_url: None,
        logo_url: None,
        instagram_username: None,
        language_code: None,
        mcc: None,
        merchant_id: None,
        phone_number: None,
        pos_background_url: None,
        tax_ids: None,
        twitter_username: None,
        location_type: Some(LocationType::Physical),
        business_hours: None,
        business_name: None,
        website_url: None,
    };
    let actual = Builder::from(LocationCreationWrapper::default())
        .name("New Test Location".to_string())
        .facebook_url("some_url".to_string())
        .location_type(LocationType::Physical)
        .build();

    assert!(actual.is_ok());

    assert_eq!(format!("{:?}", expected), format!("{:?}", actual.unwrap().location()))
}

#[test]
fn test_location_builder_fail() {
    let res = Builder::from(LocationCreationWrapper::default())
        .facebook_url("some_url".to_string())
        .location_type(LocationType::Physical)
        .build();

    assert!(res.is_err());
}

#[test]
fn a_name_alone_is_enough() {
    let built = builder().name("The Foo Bar".to_string()).build();
    let wrapper = built.expect("a named location is valid");
    assert_eq!(wrapper.location().name, Some("The Foo Bar".to_string()));
    let mut expected = Location::default();
    expected.name = Some("The Foo Bar".to_string());
    assert_eq!(wrapper.location(), &expected);
}

#[test]
fn a_facebook_url_alone_is_refused() {
    let built = builder().facebook_url("https://facebook.com/foo".to_string()).build();
    assert_eq!(built, Err(ValidationError));
}

#[test]
fn the_empty_builder_is_refused() {
    assert_eq!(builder().build(), Err(ValidationError));
}

#[test]
fn the_default_location_is_empty() {
    let wrapper = LocationCreationWrapper::default();
    let location = wrapper.location();
    assert_eq!(location, &Location::default());
    assert_eq!(location.id, None);
    assert_eq!(location.name, None);
    assert_eq!(location.capabilities, None);
    assert_eq!(location.business_hours, None);
    assert_eq!(location.created_at, None);
}

#[test]
fn every_setter_but_the_name_leaves_the_builder_invalid() {
    let built = builder()
        .address(address())
        .business_email("foo@example.com".to_string())
        .add_business_hours_period(period(DayOfWeek::Mon, "09:00:00", "17:00:00"))
        .business_name("Foo Inc".to_string())
        .add_capability("CREDIT_CARD_PROCESSING".to_string())
        .coordinates(Coordinates { latitude: 37_775_000, longitude: -122_418_000 })
        .country("US".to_string())
        .currency(Currency::USD)
        .description("A bar".to_string())
        .facebook_url("f".to_string())
        .full_format_logo_url("l".to_string())
        .instagram_username("i".to_string())
        .language_code("en-US".to_string())
        .logo_url("u".to_string())
        .mcc("5813".to_string())
        .merchant_id("M1".to_string())
        .phone_number("+1 555 0100".to_string())
        .pos_background_url("p".to_string())
        .status(LocationStatus::Active)
        .tax_ids(tax_ids())
        .timezone("America/Los_Angeles".to_string())
        .twitter_username("t".to_string())
        .location_type(LocationType::Mobile)
        .website_url("w".to_string())
        .build();
    assert_eq!(built, Err(ValidationError));
}

#[test]
fn every_setter_writes_its_own_field() {
    let hours = BusinessHours { periods: vec![period(DayOfWeek::Sat, "10:00:00", "14:00:00")] };
    let built = builder()
        .name("The Foo Bar".to_string())
        .address(address())
        .business_email("foo@example.com".to_string())
        .business_hours(hours.clone())
        .business_name("Foo Inc".to_string())
        .capabilities(vec!["CREDIT_CARD_PROCESSING".to_string()])
        .coordinates(Coordinates { latitude: 37_775_000, longitude: -122_418_000 })
        .country("US".to_string())
        .currency(Currency::USD)
        .description("A bar".to_string())
        .facebook_url("facebook".to_string())
        .full_format_logo_url("full logo".to_string())
        .instagram_username("instagram".to_string())
        .language_code("en-US".to_string())
        .logo_url("logo".to_string())
        .mcc("5813".to_string())
        .merchant_id("M1".to_string())
        .phone_number("+1 555 0100".to_string())
        .pos_background_url("background".to_string())
        .status(LocationStatus::Inactive)
        .tax_ids(tax_ids())
        .timezone("America/Los_Angeles".to_string())
        .twitter_username("twitter".to_string())
        .location_type(LocationType::Mobile)
        .website_url("https://foo.example".to_string())
        .build()
        .expect("a named location is valid");
    let expected = Location {
        id: None,
        name: Some("The Foo Bar".to_string()),
        address: Some(address()),
        timezone: Some("America/Los_Angeles".to_string()),
        capabilities: Some(vec!["CREDIT_CARD_PROCESSING".to_string()]),
        status: Some(LocationStatus::Inactive),
        created_id: None,
        coordinates: Some(Coordinates { latitude: 37_775_000, longitude: -122_418_000 }),
        country: Some("US".to_string()),
        created_at: None,
        currency: Some(Currency::USD),
        description: Some("A bar".to_string()),
        facebook_url: Some("facebook".to_string()),
        full_format_logo_url: Some("full logo".to_string()),
        logo_url: Some("logo".to_string()),
        instagram_username: Some("instagram".to_string()),
        language_code: Some("en-US".to_string()),
        mcc: Some("5813".to_string()),
        merchant_id: Some("M1".to_string()),
        phone_number: Some("+1 555 0100".to_string()),
        pos_background_url: Some("background".to_string()),
        tax_ids: Some(tax_ids()),
        twitter_username: Some("twitter".to_string()),
        location_type: Some(LocationType::Mobile),
        business_hours: Some(hours),
        business_name: Some("Foo Inc".to_string()),
        business_email: Some("foo@example.com".to_string()),
        website_url: Some("https://foo.example".to_string()),
    };
    assert_eq!(built.location(), &expected);
}

#[test]
fn independent_setters_commute() {
    let one = builder()
        .name("The Foo Bar".to_string())
        .currency(Currency::EUR)
        .add_capability("CREDIT_CARD_PROCESSING".to_string())
        .website_url("https://foo.example".to_string())
        .build();
    let other = builder()
        .website_url("https://foo.example".to_string())
        .add_capability("CREDIT_CARD_PROCESSING".to_string())
        .currency(Currency::EUR)
        .name("The Foo Bar".to_string())
        .build();
    assert!(one.is_ok());
    assert_eq!(one, other);
}

#[test]
fn a_setter_called_twice_keeps_the_last_value() {
    let built = builder()
        .name("first".to_string())
        .name("second".to_string())
        .build()
        .expect("a named location is valid");
    assert_eq!(built.location().name, Some("second".to_string()));
}

#[test]
fn the_first_period_opens_the_business_hours() {
    let built = builder()
        .name("The Foo Bar".to_string())
        .add_business_hours_period(period(DayOfWeek::Mon, "09:00:00", "17:00:00"))
        .build()
        .expect("a named location is valid");
    let expected = BusinessHours { periods: vec![period(DayOfWeek::Mon, "09:00:00", "17:00:00")] };
    assert_eq!(built.location().business_hours, Some(expected));
}

#[test]
fn periods_stay_in_the_order_of_the_calls() {
    let built = builder()
        .name("The Foo Bar".to_string())
        .add_business_hours_period(period(DayOfWeek::Tue, "09:00:00", "12:00:00"))
        .add_business_hours_period(period(DayOfWeek::Mon, "13:00:00", "17:00:00"))
        .build()
        .expect("a named location is valid");
    let expected = BusinessHours {
        periods: vec![
            period(DayOfWeek::Tue, "09:00:00", "12:00:00"),
            period(DayOfWeek::Mon, "13:00:00", "17:00:00"),
        ],
    };
    assert_eq!(built.location().business_hours, Some(expected));
}

#[test]
fn a_period_is_added_behind_the_hours_that_were_set() {
    let hours = BusinessHours { periods: vec![period(DayOfWeek::Fri, "08:00:00", "11:00:00")] };
    let built = builder()
        .name("The Foo Bar".to_string())
        .business_hours(hours)
        .add_business_hours_period(period(DayOfWeek::Sun, "12:00:00", "15:00:00"))
        .build()
        .expect("a named location is valid");
    let periods = built.location().business_hours.clone().expect("hours were set").periods;
    assert_eq!(periods.len(), 2);
    assert_eq!(periods[0], period(DayOfWeek::Fri, "08:00:00", "11:00:00"));
    assert_eq!(periods[1], period(DayOfWeek::Sun, "12:00:00", "15:00:00"));
}

#[test]
fn business_hours_replace_the_periods_that_were_added() {
    let hours = BusinessHours { periods: vec![period(DayOfWeek::Fri, "08:00:00", "11:00:00")] };
    let built = builder()
        .name("The Foo Bar".to_string())
        .add_business_hours_period(period(DayOfWeek::Sun, "12:00:00", "15:00:00"))
        .business_hours(hours.clone())
        .build()
        .expect("a named location is valid");
    assert_eq!(built.location().business_hours, Some(hours));
}

#[test]
fn the_first_capability_opens_the_capabilities() {
    let built = builder()
        .name("The Foo Bar".to_string())
        .add_capability("CREDIT_CARD_PROCESSING".to_string())
        .build()
        .expect("a named location is valid");
    assert_eq!(built.location().capabilities, Some(vec!["CREDIT_CARD_PROCESSING".to_string()]));
}

#[test]
fn capabilities_stay_in_the_order_of_the_calls() {
    let built = builder()
        .name("The Foo Bar".to_string())
        .add_capability("CREDIT_CARD_PROCESSING".to_string())
        .add_capability("AUTOMATIC_TRANSFERS".to_string())
        .build()
        .expect("a named location is valid");
    assert_eq!(
        built.location().capabilities,
        Some(vec!["CREDIT_CARD_PROCESSING".to_string(), "AUTOMATIC_TRANSFERS".to_string()])
    );
}

#[test]
fn capabilities_replace_the_ones_that_were_added() {
    let built = builder()
        .name("The Foo Bar".to_string())
        .add_capability("CREDIT_CARD_PROCESSING".to_string())
        .capabilities(vec!["AUTOMATIC_TRANSFERS".to_string()])
        .build()
        .expect("a named location is valid");
    assert_eq!(built.location().capabilities, Some(vec!["AUTOMATIC_TRANSFERS".to_string()]));
}

#[test]
fn a_location_can_be_wrapped_as_it_is() {
    let mut location = Location::default();
    location.id = Some("L1".to_string());
    location.name = Some("The Foo Bar".to_string());
    let wrapper = LocationCreationWrapper::from(location.clone());
    assert_eq!(wrapper.location(), &location);
    assert_eq!(Builder::<_, Nil>::from(wrapper.clone()).build(), Ok(wrapper));
}

#[test]
fn a_wrapped_location_without_name_is_refused() {
    let mut location = Location::default();
    location.id = Some("L1".to_string());
    let wrapper = LocationCreationWrapper::from(location);
    assert_eq!(Builder::<_, Nil>::from(wrapper).build(), Err(ValidationError));
}
