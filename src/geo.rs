use vstd::prelude::*;

use crate::error::{AdotError, ErrorModel};

verus! {

/// The four string members that a geolocation payload must carry.
#[derive(Clone, Copy, Debug, PartialEq, Eq, Structural)]
pub enum GeoField {
    City,
    Region,
    Country,
    Timezone,
}

impl GeoField {
    pub open spec fn spec_key(self) -> Seq<char> {
        match self {
            GeoField::City => "city"@,
            GeoField::Region => "region"@,
            GeoField::Country => "country"@,
            GeoField::Timezone => "timezone"@,
        }
    }

    /// The member name of this field in the geolocation payload.
    pub fn key(self) -> (r: &'static str)
        ensures
            r@ == self.spec_key(),
    {
        match self {
            GeoField::City => "city",
            GeoField::Region => "region",
            GeoField::Country => "country",
            GeoField::Timezone => "timezone",
        }
    }
}

/// Where the caller was last seen, and when (an RFC 3339 UTC timestamp).
#[derive(Clone, Debug, PartialEq, Eq)]
pub struct LocationRecord {
    pub city: String,
    pub region: String,
    pub country: String,
    pub timezone: String,
    pub observed_at: String,
}

pub ghost struct LocationModel {
    pub city: Seq<char>,
    pub region: Seq<char>,
    pub country: Seq<char>,
    pub timezone: Seq<char>,
    pub observed_at: Seq<char>,
}

impl View for LocationRecord {
    type V = LocationModel;

    open spec fn view(&self) -> LocationModel {
        LocationModel {
            city: self.city@,
            region: self.region@,
            country: self.country@,
            timezone: self.timezone@,
            observed_at: self.observed_at@,
        }
    }
}

pub open spec fn location_result_view(r: Result<LocationRecord, AdotError>) -> Result<LocationModel, ErrorModel> {
    match r {
        Ok(l) => Ok(l@),
        Err(e) => Err(e@),
    }
}

/// What reading member `key` of the JSON text `body` as a string gives:
/// `None` when `body` is not JSON, `Some(None)` when `body` has no such
/// member or it is not a string, and `Some(Some(s))` for the string `s`.
pub uninterp spec fn json_str_member(body: Seq<char>, key: Seq<char>) -> Option<Option<Seq<char>>>;

pub open spec fn nested_view(r: Option<Option<String>>) -> Option<Option<Seq<char>>> {
    match r {
        None => None,
        Some(None) => Some(None),
        Some(Some(s)) => Some(Some(s@)),
    }
}

/// Relies on serde_json::from_str (into serde_json::Value), Value::get and
/// Value::as_str: parses `body` and reads its member `key` as a string.
#[verifier::external_body]
fn json_string_member(body: &str, key: &str) -> (r: Option<Option<String>>)
    ensures
        nested_view(r) == json_str_member(body@, key@),
{
    match serde_json::from_str::<serde_json::Value>(body) {
        Err(_) => None,
        Ok(v) => Some(v.get(key).and_then(|m| m.as_str()).map(|s| s.to_string())),
    }
}

/// A status code that reports success.
pub open spec fn is_success(status: u16) -> bool {
    200 <= status <= 299
}

/// The value of one required field, or the failure that its absence means.
pub open spec fn field_outcome(body: Seq<char>, field: GeoField) -> Result<Seq<char>, ErrorModel> {
    match json_str_member(body, field.spec_key()) {
        None => Err(ErrorModel::MalformedPayload),
        Some(None) => Err(ErrorModel::MissingField { field }),
        Some(Some(v)) => Ok(v),
    }
}

/// The record that a successful payload describes; the first field that fails,
/// in the order city, region, country, timezone, decides the error.
pub open spec fn payload_outcome(body: Seq<char>, observed_at: Seq<char>) -> Result<LocationModel, ErrorModel> {
    match field_outcome(body, GeoField::City) {
        Err(e) => Err(e),
        Ok(city) => match field_outcome(body, GeoField::Region) {
            Err(e) => Err(e),
            Ok(region) => match field_outcome(body, GeoField::Country) {
                Err(e) => Err(e),
                Ok(country) => match field_outcome(body, GeoField::Timezone) {
                    Err(e) => Err(e),
                    Ok(timezone) => Ok(LocationModel { city, region, country, timezone, observed_at }),
                },
            },
        },
    }
}

/// The outcome of one geolocation response.
pub open spec fn response_outcome(status: u16, body: Seq<char>, observed_at: Seq<char>) -> Result<LocationModel, ErrorModel> {
    if is_success(status) {
        payload_outcome(body, observed_at)
    } else {
        Err(ErrorModel::RemoteApi { status, body })
    }
}

pub open spec fn request_url_of(token: Seq<char>) -> Seq<char> {
    "https://ipinfo.io/json?token="@ + token
}

/// The geolocation request for `token`.
pub fn location_request_url(token: &str) -> (r: String)
    ensures
        r@ == request_url_of(token@),
{
    let mut url = String::from_str("https://ipinfo.io/json?token=");
    url.append(token);
    url
}

fn required_field(body: &str, field: GeoField) -> (r: Result<String, AdotError>)
    ensures
        match r {
            Ok(v) => field_outcome(body@, field) == Ok::<Seq<char>, ErrorModel>(v@),
            Err(e) => field_outcome(body@, field) == Err::<Seq<char>, ErrorModel>(e@),
        },
{
    match json_string_member(body, field.key()) {
        None => Err(AdotError::MalformedPayload),
        Some(None) => Err(AdotError::MissingField { field }),
        Some(Some(v)) => Ok(v),
    }
}

/// Reads the four required fields of a successful geolocation payload into a
/// record stamped with `observed_at`; fails on the first field that is absent.
pub fn decode_payload(body: &str, observed_at: String) -> (r: Result<LocationRecord, AdotError>)
    ensures
        location_result_view(r) == payload_outcome(body@, observed_at@),
{
    let city = match required_field(body, GeoField::City) {
        Ok(v) => v,
        Err(e) => return Err(e),
    };
    let region = match required_field(body, GeoField::Region) {
        Ok(v) => v,
        Err(e) => return Err(e),
    };
    let country = match required_field(body, GeoField::Country) {
        Ok(v) => v,
        Err(e) => return Err(e),
    };
    let timezone = match required_field(body, GeoField::Timezone) {
        Ok(v) => v,
        Err(e) => return Err(e),
    };
    Ok(LocationRecord { city, region, country, timezone, observed_at })
}

/// Turns one geolocation response into a record: a status outside 200..=299
/// fails with that status and the body, otherwise the payload is decoded.
pub fn decode_response(status: u16, body: String, observed_at: String) -> (r: Result<LocationRecord, AdotError>)
    ensures
        location_result_view(r) == response_outcome(status, body@, observed_at@),
{
    if 200 <= status && status <= 299 {
        decode_payload(body.as_str(), observed_at)
    } else {
        Err(AdotError::RemoteApi { status, body })
    }
}

/// A successful response whose payload carries the four fields as strings
/// decodes to a record holding exactly those strings and the given timestamp.
pub proof fn lemma_complete_payload_decodes(
    status: u16,
    body: Seq<char>,
    observed_at: Seq<char>,
    city: Seq<char>,
    region: Seq<char>,
    country: Seq<char>,
    timezone: Seq<char>,
)
    requires
        is_success(status),
        json_str_member(body, GeoField::City.spec_key()) == Some(Some(city)),
        json_str_member(body, GeoField::Region.spec_key()) == Some(Some(region)),
        json_str_member(body, GeoField::Country.spec_key()) == Some(Some(country)),
        json_str_member(body, GeoField::Timezone.spec_key()) == Some(Some(timezone)),
    ensures
        response_outcome(status, body, observed_at) == Ok::<LocationModel, ErrorModel>(
            LocationModel { city, region, country, timezone, observed_at },
        ),
{
}

/// A successful response whose JSON payload lacks exactly one of the four
/// fields fails with an error that names that field.
pub proof fn lemma_missing_field_named(status: u16, body: Seq<char>, observed_at: Seq<char>, missing: GeoField)
    requires
        is_success(status),
        json_str_member(body, missing.spec_key()) == Some(None::<Seq<char>>),
        forall|f: GeoField|
            f != missing ==> (#[trigger] json_str_member(body, f.spec_key()) is Some && json_str_member(
                body,
                f.spec_key(),
            )->Some_0 is Some),
    ensures
        response_outcome(status, body, observed_at) == Err::<LocationModel, ErrorModel>(
            ErrorModel::MissingField { field: missing },
        ),
{
    assert(json_str_member(body, GeoField::City.spec_key()) is Some);
    assert(json_str_member(body, GeoField::Region.spec_key()) is Some);
    assert(json_str_member(body, GeoField::Country.spec_key()) is Some);
    assert(json_str_member(body, GeoField::Timezone.spec_key()) is Some);
}

/// A response with a status outside 200..=299 fails with that status, whatever
/// its body holds.
pub proof fn lemma_error_status_reported(status: u16, body: Seq<char>, observed_at: Seq<char>)
    requires
        !is_success(status),
    ensures
        response_outcome(status, body, observed_at) == Err::<LocationModel, ErrorModel>(
            ErrorModel::RemoteApi { status, body },
        ),
{
}

} // verus!
