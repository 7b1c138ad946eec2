//! Assembly of the confirmation notification payload.
//!
//! Once a parcel's itinerary is resolved, the notification is a flat
//! mapping of named text fields: the customer's first name, the
//! customer-facing pickup and drop-off times (shifted ten minutes inside
//! the contractual timeslots), the parcel weight, the vertiport names and
//! addresses, the pickup and drop-off coordinates, the encoded path, and
//! placeholder invoice fields. The delivery call itself belongs to the
//! surrounding service; this module only builds the payload.

use vstd::prelude::*;

use crate::decimal::{coordinate_text, coordinate_text_spec, dec_digits, u64_to_string, weight_text, weight_text_spec};
use crate::encode::{encode_path, polyline_of};
use crate::geo::path_on_globe;
use crate::itinerary::Itinerary;
use crate::server::CargoConfirmationResponse;

verus! {

/// The sender's own address, used when a user record names none.
pub const AETHERIC_EMAIL_ADDRESS: &'static str = "info@aetheric.nl";

/// Buffer between a contractual timeslot bound and the time shown to the
/// customer, in seconds: ten minutes.
pub const CONFIRMATION_PADDING_SECONDS: i64 = 600;

/// Greatest timestamp magnitude, in seconds, that the library formats:
/// far beyond any flight plan, comfortably inside the range of the
/// calendar arithmetic relied on.
pub const FORMAT_TIMESTAMP_MAX: i64 = 8000000000000;

/// A record fetched from a collaborator carried no data payload: the
/// record exists upstream but could not be used — distinct from the
/// validation errors, which mean the data itself is malformed.
#[derive(Clone, Copy, Debug, PartialEq, Eq, Structural)]
pub enum UpstreamError {
    /// The record's data payload was absent.
    MissingData,
}

/// A raw vertiport record as storage returns it.
#[derive(Clone, Debug)]
pub struct VertiportObject {
    /// The vertiport's identifier.
    pub id: String,
    /// The record's payload, absent when storage has no data for it.
    pub data: Option<VertiportRecord>,
}

/// The payload of a raw vertiport record.
#[derive(Clone, Debug)]
pub struct VertiportRecord {
    /// The vertiport's display name.
    pub name: String,
    /// The vertiport's description, which carries its address.
    pub description: String,
}

/// What a notification shows of a vertiport: its name and address.
#[derive(Clone, Debug)]
pub struct VertiportData {
    /// The vertiport's display name.
    pub name: String,
    /// The vertiport's address.
    pub address: String,
}

impl VertiportData {
    /// Reads the display fields out of a raw vertiport record; a record
    /// without data is an upstream failure.
    pub fn try_from(object: VertiportObject) -> (r: Result<VertiportData, UpstreamError>)
        ensures
            match object.data {
                Some(d) => r matches Ok(v) && v.name@ == d.name@ && v.address@ == d.description@,
                None => r matches Err(e) && e == UpstreamError::MissingData,
            },
    {
        match object.data {
            Some(d) => Ok(VertiportData { name: d.name, address: d.description }),
            None => Err(UpstreamError::MissingData),
        }
    }
}

/// What a notification needs of the user: a short name and an address to
/// send to.
#[derive(Clone, Debug)]
pub struct UserData {
    /// The customer's first name, or a generic greeting.
    pub name: String,
    /// The address the notification goes to.
    pub email: String,
}

/// Whether a character has the Unicode `White_Space` property, as
/// `char::is_whitespace` decides it.
pub uninterp spec fn is_unicode_whitespace(c: char) -> bool;

/// Relies on `char::is_whitespace`: a function of the character alone,
/// true for the ASCII whitespace characters and false for all printable
/// ASCII.
pub assume_specification[ char::is_whitespace ](c: char) -> (r: bool)
    ensures
        r == is_unicode_whitespace(c),
        (c == ' ' || c == '\t' || c == '\n' || c == '\r') ==> r,
        (33 <= c as u32 && c as u32 <= 126) ==> !r,
;

/// The first index at or after `i` whose character is not whitespace;
/// `s.len()` if all the rest is whitespace.
pub open spec fn next_nonspace(s: Seq<char>, i: int) -> int
    decreases s.len() - i,
{
    if i < 0 || i >= s.len() {
        s.len() as int
    } else if !is_unicode_whitespace(s[i]) {
        i
    } else {
        next_nonspace(s, i + 1)
    }
}

/// The first index at or after `i` whose character is whitespace;
/// `s.len()` if none follows.
pub open spec fn next_space(s: Seq<char>, i: int) -> int
    decreases s.len() - i,
{
    if i < 0 || i >= s.len() {
        s.len() as int
    } else if is_unicode_whitespace(s[i]) {
        i
    } else {
        next_space(s, i + 1)
    }
}

/// The first whitespace-delimited token of `s`, or the greeting `there`
/// when `s` holds none.
pub open spec fn first_token_or_greeting(s: Seq<char>) -> Seq<char> {
    let a = next_nonspace(s, 0);
    if a == s.len() {
        "there"@
    } else {
        s.subrange(a, next_space(s, a))
    }
}

/// The customer's short name: the first whitespace-delimited token of the
/// display name, or a generic greeting when the display name holds none.
pub fn customer_name(display_name: &str) -> (r: String)
    ensures
        r@ == first_token_or_greeting(display_name@),
{
    let ghost s = display_name@;
    let n = display_name.unicode_len();
    let mut a: usize = 0;
    while a < n && display_name.get_char(a).is_whitespace()
        invariant
            0 <= a <= n,
            n == s.len(),
            s == display_name@,
            next_nonspace(s, 0) == next_nonspace(s, a as int),
        decreases n - a,
    {
        a = a + 1;
    }
    proof {
        assert(next_nonspace(s, 0) == a);
    }
    if a == n {
        return "there".to_owned();
    }
    let mut b: usize = a;
    while b < n && !display_name.get_char(b).is_whitespace()
        invariant
            a <= b <= n,
            n == s.len(),
            s == display_name@,
            next_space(s, a as int) == next_space(s, b as int),
        decreases n - b,
    {
        b = b + 1;
    }
    proof {
        assert(next_space(s, a as int) == b);
    }
    display_name.substring_char(a, b).to_owned()
}

/// The address a notification goes to: the user's, or the sender's own
/// when the user record names none.
pub fn contact_email(email: String) -> (r: String)
    ensures
        email@.len() == 0 ==> r@ == AETHERIC_EMAIL_ADDRESS@,
        email@.len() > 0 ==> r@ == email@,
{
    if email.as_str().is_empty() {
        AETHERIC_EMAIL_ADDRESS.to_owned()
    } else {
        email
    }
}

/// What a notification shows of the user, derived from the raw record's
/// display name and email.
pub fn user_data_of(display_name: &str, email: String) -> (r: UserData)
    ensures
        r.name@ == first_token_or_greeting(display_name@),
        email@.len() == 0 ==> r.email@ == AETHERIC_EMAIL_ADDRESS@,
        email@.len() > 0 ==> r.email@ == email@,
{
    UserData { name: customer_name(display_name), email: contact_email(email) }
}

/// The text that a timestamp within range formats to, in the pattern
/// `%Y-%m-%d %H:%M UTC%z`.
pub uninterp spec fn formatted_utc(t: int) -> Seq<char>;

/// Relies on chrono's `DateTime::<Utc>::from_timestamp` and `format`:
/// within the calendar's range the text is a function of the timestamp
/// alone.
#[verifier::external_body]
fn format_timestamp(t: i64) -> (r: String)
    requires
        -FORMAT_TIMESTAMP_MAX <= t <= FORMAT_TIMESTAMP_MAX,
    ensures
        r@ == formatted_utc(t as int),
{
    match chrono::DateTime::<chrono::Utc>::from_timestamp(t, 0) {
        Some(dt) => dt.format("%Y-%m-%d %H:%M UTC%z").to_string(),
        None => String::new(),
    }
}

/// The invoice date line: the given moment, formatted like every other
/// timestamp of the notification. The caller supplies the moment — the
/// clock is outside the library.
pub fn invoice_date_text(now: i64) -> (r: String)
    requires
        -FORMAT_TIMESTAMP_MAX <= now <= FORMAT_TIMESTAMP_MAX,
    ensures
        r@ == formatted_utc(now as int),
{
    format_timestamp(now)
}

/// The pickup time shown to the customer: ten minutes after the
/// contractual origin timeslot start, formatted.
pub fn pickup_time_text(origin_timeslot_start: i64) -> (r: String)
    requires
        -FORMAT_TIMESTAMP_MAX <= origin_timeslot_start + CONFIRMATION_PADDING_SECONDS
            <= FORMAT_TIMESTAMP_MAX,
    ensures
        r@ == formatted_utc(origin_timeslot_start + CONFIRMATION_PADDING_SECONDS),
{
    format_timestamp(origin_timeslot_start + CONFIRMATION_PADDING_SECONDS)
}

/// The drop-off time shown to the customer: ten minutes before the
/// contractual target timeslot end, formatted.
pub fn dropoff_time_text(target_timeslot_end: i64) -> (r: String)
    requires
        -FORMAT_TIMESTAMP_MAX <= target_timeslot_end - CONFIRMATION_PADDING_SECONDS
            <= FORMAT_TIMESTAMP_MAX,
    ensures
        r@ == formatted_utc(target_timeslot_end - CONFIRMATION_PADDING_SECONDS),
{
    format_timestamp(target_timeslot_end - CONFIRMATION_PADDING_SECONDS)
}

/// Relies on `rand::random`: a value drawn from the thread's generator;
/// nothing can be promised of it.
pub assume_specification<T>[ rand::random::<T> ]() -> (r: T)
    where
        rand::distributions::Standard: rand::distributions::Distribution<T>,
;

/// A non-persistent invoice placeholder: the decimal text of a random
/// 16-bit number.
pub fn invoice_id() -> (r: String)
    ensures
        exists|n: u16| r@ == dec_digits(n as nat),
{
    let n: u16 = rand::random::<u16>();
    let r = u64_to_string(n as u64);
    proof {
        assert(r@ == dec_digits(n as nat));
    }
    r
}

/// The delivery collaborator rejected the notification: the status it
/// reported carried a non-zero provider error code.
#[derive(Clone, Copy, Debug, PartialEq, Eq, Structural)]
pub enum DeliveryError {
    /// The provider reported a non-zero error code.
    Rejected,
}

/// Reads the delivery collaborator's reported status: a provider error
/// code of zero is acceptance and yields the successful confirmation
/// response; any other code is failure.
pub fn confirmation_response(provider_error_code: i64) -> (r: Result<
    CargoConfirmationResponse,
    DeliveryError,
>)
    ensures
        provider_error_code == 0 ==> r == Ok::<_, DeliveryError>(
            (CargoConfirmationResponse { success: true }),
        ),
        provider_error_code != 0 ==> r == Err::<CargoConfirmationResponse, _>(
            DeliveryError::Rejected,
        ),
{
    if provider_error_code == 0 {
        Ok(CargoConfirmationResponse { success: true })
    } else {
        Err(DeliveryError::Rejected)
    }
}

/// The receipt detail lines, currently placeholders: a zero network fee
/// and zero tax, as the delivery template expects them.
pub open spec fn receipt_details_text() -> Seq<char> {
    "[{\"amount\":\"0.00\",\"description\":\"Network Fee\"},{\"amount\":\"0.00\",\"description\":\"VAT\"}]"@
}

/// Builds the flat named-field payload of one confirmation notification:
/// nineteen fields, each pinned to the resolved itinerary, the vertiport
/// and user lookups, and the invoice placeholders. Monetary fields are
/// hard-coded to zero placeholders.
pub fn confirmation_payload(
    itinerary: &Itinerary,
    weight_grams: u64,
    origin_vertiport: &VertiportData,
    target_vertiport: &VertiportData,
    user: &UserData,
    invoice_id: &String,
    invoice_date: &String,
) -> (r: Vec<(String, String)>)
    requires
        -FORMAT_TIMESTAMP_MAX <= itinerary.origin_timeslot_start + CONFIRMATION_PADDING_SECONDS
            <= FORMAT_TIMESTAMP_MAX,
        -FORMAT_TIMESTAMP_MAX <= itinerary.target_timeslot_end - CONFIRMATION_PADDING_SECONDS
            <= FORMAT_TIMESTAMP_MAX,
    ensures
        r@.len() == 19,
        r@[0].0@ == "customer_name"@ && r@[0].1@ == user.name@,
        r@[1].0@ == "customer_dropoff_time"@ && r@[1].1@ == formatted_utc(
            itinerary.target_timeslot_end - CONFIRMATION_PADDING_SECONDS,
        ),
        r@[2].0@ == "customer_pickup_time"@ && r@[2].1@ == formatted_utc(
            itinerary.origin_timeslot_start + CONFIRMATION_PADDING_SECONDS,
        ),
        r@[3].0@ == "parcel_weight_kg"@ && r@[3].1@ == weight_text_spec(weight_grams as nat),
        r@[4].0@ == "origin_vertiport_name"@ && r@[4].1@ == origin_vertiport.name@,
        r@[5].0@ == "origin_vertiport_address"@ && r@[5].1@ == origin_vertiport.address@,
        r@[6].0@ == "target_vertiport_name"@ && r@[6].1@ == target_vertiport.name@,
        r@[7].0@ == "target_vertiport_address"@ && r@[7].1@ == target_vertiport.address@,
        r@[8].0@ == "origin_latitude"@ && r@[8].1@ == coordinate_text_spec(
            itinerary.origin_latitude as int,
        ),
        r@[9].0@ == "origin_longitude"@ && r@[9].1@ == coordinate_text_spec(
            itinerary.origin_longitude as int,
        ),
        r@[10].0@ == "target_latitude"@ && r@[10].1@ == coordinate_text_spec(
            itinerary.target_latitude as int,
        ),
        r@[11].0@ == "target_longitude"@ && r@[11].1@ == coordinate_text_spec(
            itinerary.target_longitude as int,
        ),
        r@[12].0@ == "encoded_polyline"@,
        path_on_globe(itinerary.merged_path@) ==> r@[12].1@ == polyline_of(
            itinerary.merged_path@,
        ),
        !path_on_globe(itinerary.merged_path@) ==> r@[12].1@ == Seq::<char>::empty(),
        r@[13].0@ == "invoice_id"@ && r@[13].1@ == invoice_id@,
        r@[14].0@ == "invoice_date"@ && r@[14].1@ == invoice_date@,
        r@[15].0@ == "flight_price"@ && r@[15].1@ == "0.00"@,
        r@[16].0@ == "receipt_add_details"@ && r@[16].1@ == receipt_details_text(),
        r@[17].0@ == "currency"@ && r@[17].1@ == "EUR"@,
        r@[18].0@ == "total_price"@ && r@[18].1@ == "0.00"@,
{
    let dropoff_time = dropoff_time_text(itinerary.target_timeslot_end);
    let pickup_time = pickup_time_text(itinerary.origin_timeslot_start);
    let encoded_polyline = encode_path(&itinerary.merged_path);
    let mut r: Vec<(String, String)> = Vec::new();
    r.push(("customer_name".to_owned(), user.name.clone()));
    r.push(("customer_dropoff_time".to_owned(), dropoff_time));
    r.push(("customer_pickup_time".to_owned(), pickup_time));
    r.push(("parcel_weight_kg".to_owned(), weight_text(weight_grams)));
    r.push(("origin_vertiport_name".to_owned(), origin_vertiport.name.clone()));
    r.push(("origin_vertiport_address".to_owned(), origin_vertiport.address.clone()));
    r.push(("target_vertiport_name".to_owned(), target_vertiport.name.clone()));
    r.push(("target_vertiport_address".to_owned(), target_vertiport.address.clone()));
    r.push(("origin_latitude".to_owned(), coordinate_text(itinerary.origin_latitude)));
    r.push(("origin_longitude".to_owned(), coordinate_text(itinerary.origin_longitude)));
    r.push(("target_latitude".to_owned(), coordinate_text(itinerary.target_latitude)));
    r.push(("target_longitude".to_owned(), coordinate_text(itinerary.target_longitude)));
    r.push(("encoded_polyline".to_owned(), encoded_polyline));
    r.push(("invoice_id".to_owned(), invoice_id.clone()));
    r.push(("invoice_date".to_owned(), invoice_date.clone()));
    r.push(("flight_price".to_owned(), "0.00".to_owned()));
    r.push(
        (
            "receipt_add_details".to_owned(),
            "[{\"amount\":\"0.00\",\"description\":\"Network Fee\"},{\"amount\":\"0.00\",\"description\":\"VAT\"}]".to_owned(),
        ),
    );
    r.push(("currency".to_owned(), "EUR".to_owned()));
    r.push(("total_price".to_owned(), "0.00".to_owned()));
    r
}

} // verus!
