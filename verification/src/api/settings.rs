//! The field-setting steps of a location builder, as mathematics.
//!
//! A step names the field that it writes and the value that it brings. The
//! builder's methods are stated over [`LocationView::apply`], and so are the
//! laws that hold of every chain of them.

use crate::objects::{
    AddressView, BusinessHoursPeriodView, BusinessHoursView, Coordinates, Currency,
    LocationStatus, LocationType, LocationView, TaxIdsView,
};
use vstd::prelude::*;

verus! {

/// The fields of a location.
pub enum Field {
    Id,
    CreatedId,
    CreatedAt,
    Name,
    Address,
    BusinessEmail,
    BusinessHours,
    BusinessName,
    Capabilities,
    Coordinates,
    Country,
    Currency,
    Description,
    FacebookUrl,
    FullFormatLogoUrl,
    InstagramUsername,
    LanguageCode,
    LogoUrl,
    Mcc,
    MerchantId,
    PhoneNumber,
    PosBackgroundUrl,
    Status,
    TaxIds,
    Timezone,
    TwitterUsername,
    LocationType,
    WebsiteUrl,
}

/// One field-setting step.
pub enum Setting {
    Name(Seq<char>),
    Address(AddressView),
    BusinessEmail(Seq<char>),
    BusinessHours(BusinessHoursView),
    BusinessName(Seq<char>),
    Capabilities(Seq<Seq<char>>),
    Coordinates(Coordinates),
    Country(Seq<char>),
    Currency(Currency),
    Description(Seq<char>),
    FacebookUrl(Seq<char>),
    FullFormatLogoUrl(Seq<char>),
    InstagramUsername(Seq<char>),
    LanguageCode(Seq<char>),
    LogoUrl(Seq<char>),
    Mcc(Seq<char>),
    MerchantId(Seq<char>),
    PhoneNumber(Seq<char>),
    PosBackgroundUrl(Seq<char>),
    Status(LocationStatus),
    TaxIds(TaxIdsView),
    Timezone(Seq<char>),
    TwitterUsername(Seq<char>),
    LocationType(LocationType),
    WebsiteUrl(Seq<char>),
    /// One more period at the end of the business hours.
    AddBusinessHoursPeriod(BusinessHoursPeriodView),
    /// One more capability at the end of the capabilities.
    AddCapability(Seq<char>),
}

impl Setting {
    /// The field that the step writes.
    pub open spec fn field(self) -> Field {
        match self {
            Setting::Name(_) => Field::Name,
            Setting::Address(_) => Field::Address,
            Setting::BusinessEmail(_) => Field::BusinessEmail,
            Setting::BusinessHours(_) => Field::BusinessHours,
            Setting::BusinessName(_) => Field::BusinessName,
            Setting::Capabilities(_) => Field::Capabilities,
            Setting::Coordinates(_) => Field::Coordinates,
            Setting::Country(_) => Field::Country,
            Setting::Currency(_) => Field::Currency,
            Setting::Description(_) => Field::Description,
            Setting::FacebookUrl(_) => Field::FacebookUrl,
            Setting::FullFormatLogoUrl(_) => Field::FullFormatLogoUrl,
            Setting::InstagramUsername(_) => Field::InstagramUsername,
            Setting::LanguageCode(_) => Field::LanguageCode,
            Setting::LogoUrl(_) => Field::LogoUrl,
            Setting::Mcc(_) => Field::Mcc,
            Setting::MerchantId(_) => Field::MerchantId,
            Setting::PhoneNumber(_) => Field::PhoneNumber,
            Setting::PosBackgroundUrl(_) => Field::PosBackgroundUrl,
            Setting::Status(_) => Field::Status,
            Setting::TaxIds(_) => Field::TaxIds,
            Setting::Timezone(_) => Field::Timezone,
            Setting::TwitterUsername(_) => Field::TwitterUsername,
            Setting::LocationType(_) => Field::LocationType,
            Setting::WebsiteUrl(_) => Field::WebsiteUrl,
            Setting::AddBusinessHoursPeriod(_) => Field::BusinessHours,
            Setting::AddCapability(_) => Field::Capabilities,
        }
    }

    /// Whether `location` holds what the step brought: the value in the
    /// step's field or, for a step that adds, the item at the end of the
    /// field's list.
    pub open spec fn kept_by(self, location: LocationView) -> bool {
        match self {
            Setting::Name(value) => location.name == Some(value),
            Setting::Address(value) => location.address == Some(value),
            Setting::BusinessEmail(value) => location.business_email == Some(value),
            Setting::BusinessHours(value) => location.business_hours == Some(value),
            Setting::BusinessName(value) => location.business_name == Some(value),
            Setting::Capabilities(value) => location.capabilities == Some(value),
            Setting::Coordinates(value) => location.coordinates == Some(value),
            Setting::Country(value) => location.country == Some(value),
            Setting::Currency(value) => location.currency == Some(value),
            Setting::Description(value) => location.description == Some(value),
            Setting::FacebookUrl(value) => location.facebook_url == Some(value),
            Setting::FullFormatLogoUrl(value) => location.full_format_logo_url == Some(value),
            Setting::InstagramUsername(value) => location.instagram_username == Some(value),
            Setting::LanguageCode(value) => location.language_code == Some(value),
            Setting::LogoUrl(value) => location.logo_url == Some(value),
            Setting::Mcc(value) => location.mcc == Some(value),
            Setting::MerchantId(value) => location.merchant_id == Some(value),
            Setting::PhoneNumber(value) => location.phone_number == Some(value),
            Setting::PosBackgroundUrl(value) => location.pos_background_url == Some(value),
            Setting::Status(value) => location.status == Some(value),
            Setting::TaxIds(value) => location.tax_ids == Some(value),
            Setting::Timezone(value) => location.timezone == Some(value),
            Setting::TwitterUsername(value) => location.twitter_username == Some(value),
            Setting::LocationType(value) => location.location_type == Some(value),
            Setting::WebsiteUrl(value) => location.website_url == Some(value),
            Setting::AddBusinessHoursPeriod(period) => {
                &&& location.business_hours is Some
                &&& location.periods().len() > 0
                &&& location.periods().last() == period
            },
            Setting::AddCapability(capability) => {
                &&& location.capabilities is Some
                &&& location.capability_list().len() > 0
                &&& location.capability_list().last() == capability
            },
        }
    }
}

impl LocationView {
    /// The periods of the business hours; none while the field is absent.
    pub open spec fn periods(self) -> Seq<BusinessHoursPeriodView> {
        match self.business_hours {
            Some(hours) => hours.periods,
            None => Seq::empty(),
        }
    }

    /// The capabilities; none while the field is absent.
    pub open spec fn capability_list(self) -> Seq<Seq<char>> {
        match self.capabilities {
            Some(capabilities) => capabilities,
            None => Seq::empty(),
        }
    }

    /// The location after one step: the step's field holds what the step
    /// brought, and every other field is as before.
    pub open spec fn apply(self, setting: Setting) -> LocationView {
        match setting {
            Setting::Name(value) => LocationView { name: Some(value), ..self },
            Setting::Address(value) => LocationView { address: Some(value), ..self },
            Setting::BusinessEmail(value) => LocationView { business_email: Some(value), ..self },
            Setting::BusinessHours(value) => LocationView { business_hours: Some(value), ..self },
            Setting::BusinessName(value) => LocationView { business_name: Some(value), ..self },
            Setting::Capabilities(value) => LocationView { capabilities: Some(value), ..self },
            Setting::Coordinates(value) => LocationView { coordinates: Some(value), ..self },
            Setting::Country(value) => LocationView { country: Some(value), ..self },
            Setting::Currency(value) => LocationView { currency: Some(value), ..self },
            Setting::Description(value) => LocationView { description: Some(value), ..self },
            Setting::FacebookUrl(value) => LocationView { facebook_url: Some(value), ..self },
            Setting::FullFormatLogoUrl(value) => LocationView { full_format_logo_url: Some(value), ..self },
            Setting::InstagramUsername(value) => LocationView { instagram_username: Some(value), ..self },
            Setting::LanguageCode(value) => LocationView { language_code: Some(value), ..self },
            Setting::LogoUrl(value) => LocationView { logo_url: Some(value), ..self },
            Setting::Mcc(value) => LocationView { mcc: Some(value), ..self },
            Setting::MerchantId(value) => LocationView { merchant_id: Some(value), ..self },
            Setting::PhoneNumber(value) => LocationView { phone_number: Some(value), ..self },
            Setting::PosBackgroundUrl(value) => LocationView { pos_background_url: Some(value), ..self },
            Setting::Status(value) => LocationView { status: Some(value), ..self },
            Setting::TaxIds(value) => LocationView { tax_ids: Some(value), ..self },
            Setting::Timezone(value) => LocationView { timezone: Some(value), ..self },
            Setting::TwitterUsername(value) => LocationView { twitter_username: Some(value), ..self },
            Setting::LocationType(value) => LocationView { location_type: Some(value), ..self },
            Setting::WebsiteUrl(value) => LocationView { website_url: Some(value), ..self },
            Setting::AddBusinessHoursPeriod(period) => LocationView {
                business_hours: Some(BusinessHoursView { periods: self.periods().push(period) }),
                ..self
            },
            Setting::AddCapability(capability) => LocationView {
                capabilities: Some(self.capability_list().push(capability)),
                ..self
            },
        }
    }

    /// The location after a chain of steps, taken from first to last.
    pub open spec fn apply_all(self, settings: Seq<Setting>) -> LocationView
        decreases settings.len(),
    {
        if settings.len() == 0 {
            self
        } else {
            self.apply_all(settings.drop_last()).apply(settings.last())
        }
    }

    /// Whether two locations hold the same in `field`.
    pub open spec fn agrees_on(self, other: LocationView, field: Field) -> bool {
        match field {
            Field::Id => self.id == other.id,
            Field::CreatedId => self.created_id == other.created_id,
            Field::CreatedAt => self.created_at == other.created_at,
            Field::Name => self.name == other.name,
            Field::Address => self.address == other.address,
            Field::BusinessEmail => self.business_email == other.business_email,
            Field::BusinessHours => self.business_hours == other.business_hours,
            Field::BusinessName => self.business_name == other.business_name,
            Field::Capabilities => self.capabilities == other.capabilities,
            Field::Coordinates => self.coordinates == other.coordinates,
            Field::Country => self.country == other.country,
            Field::Currency => self.currency == other.currency,
            Field::Description => self.description == other.description,
            Field::FacebookUrl => self.facebook_url == other.facebook_url,
            Field::FullFormatLogoUrl => self.full_format_logo_url == other.full_format_logo_url,
            Field::InstagramUsername => self.instagram_username == other.instagram_username,
            Field::LanguageCode => self.language_code == other.language_code,
            Field::LogoUrl => self.logo_url == other.logo_url,
            Field::Mcc => self.mcc == other.mcc,
            Field::MerchantId => self.merchant_id == other.merchant_id,
            Field::PhoneNumber => self.phone_number == other.phone_number,
            Field::PosBackgroundUrl => self.pos_background_url == other.pos_background_url,
            Field::Status => self.status == other.status,
            Field::TaxIds => self.tax_ids == other.tax_ids,
            Field::Timezone => self.timezone == other.timezone,
            Field::TwitterUsername => self.twitter_username == other.twitter_username,
            Field::LocationType => self.location_type == other.location_type,
            Field::WebsiteUrl => self.website_url == other.website_url,
        }
    }
}

/// Two steps that write different fields can be taken in either order.
pub proof fn lemma_independent_steps_commute(
    location: LocationView,
    first: Setting,
    second: Setting,
)
    requires
        first.field() != second.field(),
    ensures
        location.apply(first).apply(second) == location.apply(second).apply(first),
{
}

/// Whether no two steps of the chain write the same field.
pub open spec fn independent(settings: Seq<Setting>) -> bool {
    forall|i: int, j: int|
        #![trigger settings[i], settings[j]]
        0 <= i < j < settings.len() ==> settings[i].field() != settings[j].field()
}

/// A step that shares its field with no later step of the chain can be taken
/// last instead.
proof fn lemma_step_moves_to_the_end(location: LocationView, settings: Seq<Setting>, at: int)
    requires
        0 <= at < settings.len(),
        forall|j: int|
            at < j < settings.len() ==> (#[trigger] settings[j]).field() != settings[at].field(),
    ensures
        location.apply_all(settings) == location.apply_all(settings.remove(at)).apply(
            settings[at],
        ),
    decreases settings.len(),
{
    if at == settings.len() - 1 {
        assert(settings.remove(at) =~= settings.drop_last());
    } else {
        let front = settings.drop_last();
        lemma_step_moves_to_the_end(location, front, at);
        lemma_independent_steps_commute(
            location.apply_all(front.remove(at)),
            settings[at],
            settings.last(),
        );
        assert(settings.remove(at).drop_last() =~= front.remove(at));
        assert(settings.remove(at).last() == settings.last());
    }
}

/// A chain of steps that write pairwise different fields ends on the same
/// location in whatever order the steps are taken.
pub proof fn lemma_order_of_independent_steps_is_irrelevant(
    location: LocationView,
    one: Seq<Setting>,
    other: Seq<Setting>,
)
    requires
        independent(one),
        one.to_multiset() == other.to_multiset(),
    ensures
        location.apply_all(one) == location.apply_all(other),
    decreases other.len(),
{
    one.to_multiset_ensures();
    other.to_multiset_ensures();
    if other.len() > 0 {
        let last = other.last();
        assert(other.contains(last)) by {
            assert(other[other.len() - 1] == last);
        }
        assert(other.to_multiset().count(last) > 0);
        assert(one.contains(last));
        let at = choose|at: int| 0 <= at < one.len() && one[at] == last;
        lemma_step_moves_to_the_end(location, one, at);
        assert(other.remove(other.len() - 1) =~= other.drop_last());
        assert(one.remove(at).to_multiset() == other.drop_last().to_multiset());
        assert(independent(one.remove(at))) by {
            let rest = one.remove(at);
            assert forall|i: int, j: int|
                #![trigger rest[i], rest[j]]
                0 <= i < j < rest.len() implies rest[i].field() != rest[j].field() by {
                let from_i = if i < at { i } else { i + 1 };
                let from_j = if j < at { j } else { j + 1 };
                assert(rest[i] == one[from_i]);
                assert(rest[j] == one[from_j]);
            }
        }
        lemma_order_of_independent_steps_is_irrelevant(location, one.remove(at), other.drop_last());
    } else {
        assert(one.len() == 0);
    }
}

/// A step leaves every field but its own as it was.
pub proof fn lemma_step_writes_one_field(location: LocationView, setting: Setting, field: Field)
    requires
        setting.field() != field,
    ensures
        location.apply(setting).agrees_on(location, field),
{
}

/// A chain of steps leaves a field as it was if none of the steps writes it.
pub proof fn lemma_chain_leaves_other_fields(
    location: LocationView,
    settings: Seq<Setting>,
    field: Field,
)
    requires
        forall|i: int| 0 <= i < settings.len() ==> (#[trigger] settings[i]).field() != field,
    ensures
        location.apply_all(settings).agrees_on(location, field),
    decreases settings.len(),
{
    if settings.len() > 0 {
        let before = location.apply_all(settings.drop_last());
        lemma_chain_leaves_other_fields(location, settings.drop_last(), field);
        lemma_step_writes_one_field(before, settings.last(), field);
    }
}

/// A chain that never sets the name, begun on the empty location, ends on a
/// location that validation refuses.
pub proof fn lemma_chain_without_name_is_invalid(settings: Seq<Setting>)
    requires
        forall|i: int| 0 <= i < settings.len() ==> (#[trigger] settings[i]).field() != Field::Name,
    ensures
        !LocationView::empty().apply_all(settings).is_valid(),
{
    lemma_chain_leaves_other_fields(LocationView::empty(), settings, Field::Name);
}

/// After a step the location holds what the step brought.
pub proof fn lemma_step_is_kept(location: LocationView, setting: Setting)
    ensures
        setting.kept_by(location.apply(setting)),
{
}

/// At the end of a chain the location holds what each step brought whose
/// field no later step writes.
pub proof fn lemma_chain_keeps_the_last_step_of_a_field(
    location: LocationView,
    settings: Seq<Setting>,
    at: int,
)
    requires
        0 <= at < settings.len(),
        forall|j: int|
            at < j < settings.len() ==> (#[trigger] settings[j]).field() != settings[at].field(),
    ensures
        settings[at].kept_by(location.apply_all(settings)),
    decreases settings.len(),
{
    let front = settings.drop_last();
    if at + 1 < settings.len() {
        lemma_chain_keeps_the_last_step_of_a_field(location, front, at);
        lemma_step_writes_one_field(location.apply_all(front), settings.last(), settings[at].field());
    } else {
        lemma_step_is_kept(location.apply_all(front), settings[at]);
    }
}

/// A chain ends on a location that carries the name of the last step that set
/// one, and validation accepts it.
pub proof fn lemma_chain_with_name_is_valid(
    location: LocationView,
    settings: Seq<Setting>,
    last: int,
    name: Seq<char>,
)
    requires
        0 <= last < settings.len(),
        settings[last] == Setting::Name(name),
        forall|i: int| last < i < settings.len() ==> (#[trigger] settings[i]).field() != Field::Name,
    ensures
        location.apply_all(settings).name == Some(name),
        location.apply_all(settings).is_valid(),
{
    lemma_chain_keeps_the_last_step_of_a_field(location, settings, last);
}

/// Two periods that are added one after the other stand at the end of the
/// business hours in that order; on a location without business hours they
/// are all there is.
pub proof fn lemma_periods_append_in_order(
    location: LocationView,
    first: BusinessHoursPeriodView,
    second: BusinessHoursPeriodView,
)
    ensures
        location.apply(Setting::AddBusinessHoursPeriod(first)).periods()
            == location.periods().push(first),
        location.apply(Setting::AddBusinessHoursPeriod(first)).apply(
            Setting::AddBusinessHoursPeriod(second),
        ).periods() == location.periods().push(first).push(second),
        location.business_hours is None ==> {
            &&& location.apply(Setting::AddBusinessHoursPeriod(first)).periods() == seq![first]
            &&& location.apply(Setting::AddBusinessHoursPeriod(first)).apply(
                Setting::AddBusinessHoursPeriod(second),
            ).periods() == seq![first, second]
        },
{
}

/// Two capabilities that are added one after the other stand at the end of
/// the capabilities in that order; on a location without capabilities they
/// are all there is.
pub proof fn lemma_capabilities_append_in_order(
    location: LocationView,
    first: Seq<char>,
    second: Seq<char>,
)
    ensures
        location.apply(Setting::AddCapability(first)).capability_list()
            == location.capability_list().push(first),
        location.apply(Setting::AddCapability(first)).apply(
            Setting::AddCapability(second),
        ).capability_list() == location.capability_list().push(first).push(second),
        location.capabilities is None ==> {
            &&& location.apply(Setting::AddCapability(first)).capability_list() == seq![first]
            &&& location.apply(Setting::AddCapability(first)).apply(
                Setting::AddCapability(second),
            ).capability_list() == seq![first, second]
        },
{
}

} // verus!
