use vstd::prelude::*;
use fake::Fake;
use rand::Rng;
use crate::catalogue::TextKind;

verus! {

/// Earliest and latest second that an RFC 3339 timestamp can name: a
/// four-digit year, moved by at most a day of offset.
pub const EARLIEST_SECS: i64 = -62_167_305_600;
pub const LATEST_SECS: i64 = 253_402_387_200;

/// The instant that an RFC 3339 text names, as UTC seconds and the
/// nanoseconds past them.
pub uninterp spec fn rfc3339_instant(s: Seq<char>) -> Option<(i64, u32)>;

/// Relies on chrono's `DateTime::parse_from_rfc3339`, read back through
/// `timestamp` and `timestamp_subsec_nanos`: the instant named, or nothing
/// where the text is not RFC 3339. The year has four digits, offsets are
/// whole minutes, and a leap second (nanoseconds past 10^9) falls on a
/// minute's last second.
#[verifier::external_body]
pub(crate) fn parse_rfc3339(s: &str) -> (r: Option<(i64, u32)>)
    ensures
        r == rfc3339_instant(s@),
        r matches Some(p) ==> EARLIEST_SECS <= p.0 <= LATEST_SECS && valid_instant(p.0, p.1),
{
    chrono::DateTime::parse_from_rfc3339(s).ok().map(|dt| (dt.timestamp(), dt.timestamp_subsec_nanos()))
}

/// Relies on rand's `Rng::gen_range` over an inclusive range, drawn from
/// the thread-local generator: a value within the range.
#[verifier::external_body]
pub(crate) fn random_in(start: i128, end: i128) -> (r: i128)
    requires
        start <= end,
    ensures
        start <= r <= end,
{
    rand::thread_rng().gen_range(start..=end)
}

/// Relies on fake's `lorem::raw::Sentence`: a sentence whose word count is
/// drawn from `start..end`, which must not be empty; the words are joined
/// by spaces and a full stop ends it.
#[verifier::external_body]
pub(crate) fn fake_sentence(start: usize, end: usize) -> (r: String)
    requires
        start < end,
    ensures
        r@.len() > 0,
        r@.last() == '.',
{
    fake::faker::lorem::raw::Sentence(fake::locales::EN, start..end).fake()
}

/// Relies on fake's `lorem::raw::Paragraph`: a paragraph whose sentence
/// count is drawn from `start..end`, which must not be empty; the sentences
/// are joined by line breaks, so one or more make a text ending in a full
/// stop.
#[verifier::external_body]
pub(crate) fn fake_paragraph(start: usize, end: usize) -> (r: String)
    requires
        start < end,
    ensures
        start >= 1 ==> r@.len() > 0 && r@.last() == '.',
{
    fake::faker::lorem::raw::Paragraph(fake::locales::EN, start..end).fake()
}

/// Relies on fake's `internet::raw::Password`: a password whose length in
/// characters is drawn from `start..end`, which must not be empty.
#[verifier::external_body]
pub(crate) fn fake_password(start: usize, end: usize) -> (r: String)
    requires
        start < end,
    ensures
        start <= r@.len() < end,
{
    fake::faker::internet::raw::Password(fake::locales::EN, start..end).fake()
}

/// Whether `r` is `fmt` with each '^' replaced by a digit 1-9 and each '#'
/// by a digit 0-9.
pub open spec fn numerified(fmt: Seq<char>, r: Seq<char>) -> bool {
    &&& r.len() == fmt.len()
    &&& forall|i: int|
        0 <= i < fmt.len() ==> if fmt[i] == '^' {
            '1' <= #[trigger] r[i] && r[i] <= '9'
        } else if fmt[i] == '#' {
            '0' <= r[i] && r[i] <= '9'
        } else {
            r[i] == fmt[i]
        }
}

/// Relies on fake's `number::raw::NumberWithFormat` (its `numerify_sym`):
/// the format with each '^' replaced by a digit 1-9 and each '#' by a digit
/// 0-9, other characters kept.
#[verifier::external_body]
pub(crate) fn fake_number_with_format(fmt: &str) -> (r: String)
    ensures
        numerified(fmt@, r@),
{
    fake::faker::number::raw::NumberWithFormat(fake::locales::EN, fmt).fake()
}

/// Relies on fake's `address::raw::Geohash`: `precision` distinct
/// characters of its 32 geohash characters, or all 32 where fewer are there.
#[verifier::external_body]
pub(crate) fn fake_geohash(precision: u8) -> (r: String)
    ensures
        r@.len() == if precision <= 32 { precision as int } else { 32 },
{
    fake::faker::address::raw::Geohash(fake::locales::EN, precision).fake()
}

/// Whether seconds and nanoseconds name an instant that chrono can hold:
/// nanoseconds past 10^9 mark a leap second, which only a minute's last
/// second can carry.
pub open spec fn valid_instant(secs: i64, nanos: u32) -> bool {
    nanos < 2_000_000_000 && (nanos < 1_000_000_000 || (secs as int) % 60 == 59)
}

/// The RFC 3339 text of an instant in UTC.
pub uninterp spec fn rfc3339_text(secs: i64, nanos: u32) -> Seq<char>;

/// Relies on chrono's `DateTime::from_timestamp`, which holds every valid
/// instant of these years, and on `DateTime::to_rfc3339`.
#[verifier::external_body]
pub(crate) fn instant_text(secs: i64, nanos: u32) -> (r: Option<String>)
    requires
        EARLIEST_SECS <= secs <= LATEST_SECS,
    ensures
        valid_instant(secs, nanos) ==> r is Some,
        r matches Some(t) ==> t@ == rfc3339_text(secs, nanos),
{
    chrono::DateTime::from_timestamp(secs, nanos).map(|dt| dt.to_rfc3339())
}

/// Relies on chrono's `DateTime::from_timestamp`, which holds every valid
/// instant of these years, and on fake's `chrono::raw::DateTimeBefore`,
/// which subtracts 1 to 999,999 whole minutes. Returns the drawn instant's
/// `to_rfc3339` text with its seconds and nanoseconds.
#[verifier::external_body]
pub(crate) fn fake_datetime_before(secs: i64, nanos: u32) -> (r: Option<(String, i64, u32)>)
    requires
        EARLIEST_SECS <= secs <= LATEST_SECS,
    ensures
        valid_instant(secs, nanos) ==> r is Some,
        r matches Some(x) ==> x.0@ == rfc3339_text(x.1, x.2),
        r matches Some(x) ==> (nanos < 1_000_000_000 ==> x.2 == nanos && secs - 59_999_940 <= x.1 <= secs - 60
            && (secs - x.1) % 60 == 0),
{
    chrono::DateTime::from_timestamp(secs, nanos).map(|dt| {
        let d: chrono::DateTime<chrono::Utc> = fake::faker::chrono::raw::DateTimeBefore(fake::locales::EN, dt).fake();
        (d.to_rfc3339(), d.timestamp(), d.timestamp_subsec_nanos())
    })
}

/// Relies on chrono's `DateTime::from_timestamp`, which holds every valid
/// instant of these years, and on fake's `chrono::raw::DateTimeAfter`,
/// which adds 1 to 999,999 whole minutes. Returns the drawn instant's
/// `to_rfc3339` text with its seconds and nanoseconds.
#[verifier::external_body]
pub(crate) fn fake_datetime_after(secs: i64, nanos: u32) -> (r: Option<(String, i64, u32)>)
    requires
        EARLIEST_SECS <= secs <= LATEST_SECS,
    ensures
        valid_instant(secs, nanos) ==> r is Some,
        r matches Some(x) ==> x.0@ == rfc3339_text(x.1, x.2),
        r matches Some(x) ==> (nanos < 1_000_000_000 ==> x.2 == nanos && secs + 60 <= x.1 <= secs + 59_999_940
            && (x.1 - secs) % 60 == 0),
{
    chrono::DateTime::from_timestamp(secs, nanos).map(|dt| {
        let d: chrono::DateTime<chrono::Utc> = fake::faker::chrono::raw::DateTimeAfter(fake::locales::EN, dt).fake();
        (d.to_rfc3339(), d.timestamp(), d.timestamp_subsec_nanos())
    })
}

/// Relies on chrono's `DateTime::from_timestamp`, which holds every valid
/// instant of these years, and on fake's `chrono::raw::DateTimeBetween`,
/// which adds to the start a whole number of minutes below the span's
/// whole minutes, and so needs a span of a minute or more. Returns the
/// drawn instant's `to_rfc3339` text with its seconds and nanoseconds.
#[verifier::external_body]
pub(crate) fn fake_datetime_between(
    start_secs: i64,
    start_nanos: u32,
    end_secs: i64,
    end_nanos: u32,
) -> (r: Option<(String, i64, u32)>)
    requires
        EARLIEST_SECS <= start_secs <= LATEST_SECS,
        EARLIEST_SECS <= end_secs <= LATEST_SECS,
        (end_secs - start_secs) * 1_000_000_000 + end_nanos - start_nanos >= 60_000_000_000,
    ensures
        valid_instant(start_secs, start_nanos) && valid_instant(end_secs, end_nanos) ==> r is Some,
        r matches Some(x) ==> x.0@ == rfc3339_text(x.1, x.2),
        r matches Some(x) ==> (start_nanos < 1_000_000_000 && end_nanos < 1_000_000_000 ==> x.2 == start_nanos
            && start_secs <= x.1 && (x.1 - start_secs) % 60 == 0
            && x.1 * 1_000_000_000 + x.2 < end_secs * 1_000_000_000 + end_nanos),
{
    let start = chrono::DateTime::from_timestamp(start_secs, start_nanos);
    let end = chrono::DateTime::from_timestamp(end_secs, end_nanos);
    start.zip(end).map(|(s, e)| {
        let d: chrono::DateTime<chrono::Utc> = fake::faker::chrono::raw::DateTimeBetween(fake::locales::EN, s, e).fake();
        (d.to_rfc3339(), d.timestamp(), d.timestamp_subsec_nanos())
    })
}

/// Whether `r` reads as a hyphenated UUID: 36 characters with hyphens at
/// 8, 13, 18 and 23.
pub open spec fn uuid_shape(r: Seq<char>) -> bool {
    r.len() == 36 && r[8] == '-' && r[13] == '-' && r[18] == '-' && r[23] == '-'
}

/// Whether `r` reads as a dotted IPv4 address: 7 to 15 characters, each a
/// digit or a dot.
pub open spec fn ipv4_shape(r: Seq<char>) -> bool {
    7 <= r.len() <= 15 && forall|i: int| 0 <= i < r.len() ==> ('0' <= #[trigger] r[i] && r[i] <= '9') || r[i] == '.'
}

/// What the source fixes of a drawn text value: it is never empty (fake's
/// English lists hold no empty string), and some kinds have a fixed shape.
pub open spec fn text_shape(kind: TextKind, r: Seq<char>) -> bool {
    &&& r.len() > 0
    &&& kind == TextKind::Digit ==> r.len() == 1 && '0' <= r[0] && r[0] <= '9'
    &&& kind == TextKind::IPv4 ==> ipv4_shape(r)
    &&& (kind == TextKind::UuidV1 || kind == TextKind::UuidV3 || kind == TextKind::UuidV4
        || kind == TextKind::UuidV5) ==> uuid_shape(r)
}

/// Relies on fake's `lorem::raw::Word` faker: a non-empty text.
#[verifier::external_body]
fn fake_word() -> (r: String)
    ensures
        r@.len() > 0,
{
    fake::faker::lorem::raw::Word(fake::locales::EN).fake()
}

/// Relies on fake's `name::raw::FirstName` faker: a non-empty text.
#[verifier::external_body]
fn fake_first_name() -> (r: String)
    ensures
        r@.len() > 0,
{
    fake::faker::name::raw::FirstName(fake::locales::EN).fake()
}

/// Relies on fake's `name::raw::LastName` faker: a non-empty text.
#[verifier::external_body]
fn fake_last_name() -> (r: String)
    ensures
        r@.len() > 0,
{
    fake::faker::name::raw::LastName(fake::locales::EN).fake()
}

/// Relies on fake's `name::raw::Title` faker: a non-empty text.
#[verifier::external_body]
fn fake_name_title() -> (r: String)
    ensures
        r@.len() > 0,
{
    fake::faker::name::raw::Title(fake::locales::EN).fake()
}

/// Relies on fake's `name::raw::Suffix` faker: a non-empty text.
#[verifier::external_body]
fn fake_suffix() -> (r: String)
    ensures
        r@.len() > 0,
{
    fake::faker::name::raw::Suffix(fake::locales::EN).fake()
}

/// Relies on fake's `name::raw::Name` faker: a non-empty text.
#[verifier::external_body]
fn fake_name() -> (r: String)
    ensures
        r@.len() > 0,
{
    fake::faker::name::raw::Name(fake::locales::EN).fake()
}

/// Relies on fake's `name::raw::NameWithTitle` faker: a non-empty text.
#[verifier::external_body]
fn fake_name_with_title() -> (r: String)
    ensures
        r@.len() > 0,
{
    fake::faker::name::raw::NameWithTitle(fake::locales::EN).fake()
}

/// Relies on fake's `job::raw::Seniority` faker: a non-empty text.
#[verifier::external_body]
fn fake_seniority() -> (r: String)
    ensures
        r@.len() > 0,
{
    fake::faker::job::raw::Seniority(fake::locales::EN).fake()
}

/// Relies on fake's `job::raw::Field` faker: a non-empty text.
#[verifier::external_body]
fn fake_field() -> (r: String)
    ensures
        r@.len() > 0,
{
    fake::faker::job::raw::Field(fake::locales::EN).fake()
}

/// Relies on fake's `job::raw::Position` faker: a non-empty text.
#[verifier::external_body]
fn fake_position() -> (r: String)
    ensures
        r@.len() > 0,
{
    fake::faker::job::raw::Position(fake::locales::EN).fake()
}

/// Relies on fake's `job::raw::Title` faker: a non-empty text.
#[verifier::external_body]
fn fake_job_title() -> (r: String)
    ensures
        r@.len() > 0,
{
    fake::faker::job::raw::Title(fake::locales::EN).fake()
}

/// Relies on fake's `number::raw::Digit` faker: one entry of the digit
/// list "0" to "9".
#[verifier::external_body]
fn fake_digit() -> (r: String)
    ensures
        r@.len() > 0,
        r@.len() == 1 && '0' <= r@[0] && r@[0] <= '9',
{
    fake::faker::number::raw::Digit(fake::locales::EN).fake()
}

/// Relies on fake's `internet::raw::FreeEmailProvider` faker: a non-empty text.
#[verifier::external_body]
fn fake_free_email_provider() -> (r: String)
    ensures
        r@.len() > 0,
{
    fake::faker::internet::raw::FreeEmailProvider(fake::locales::EN).fake()
}

/// Relies on fake's `internet::raw::DomainSuffix` faker: a non-empty text.
#[verifier::external_body]
fn fake_domain_suffix() -> (r: String)
    ensures
        r@.len() > 0,
{
    fake::faker::internet::raw::DomainSuffix(fake::locales::EN).fake()
}

/// Relies on fake's `internet::raw::FreeEmail` faker: a non-empty text.
#[verifier::external_body]
fn fake_free_email() -> (r: String)
    ensures
        r@.len() > 0,
{
    fake::faker::internet::raw::FreeEmail(fake::locales::EN).fake()
}

/// Relies on fake's `internet::raw::SafeEmail` faker: a non-empty text.
#[verifier::external_body]
fn fake_safe_email() -> (r: String)
    ensures
        r@.len() > 0,
{
    fake::faker::internet::raw::SafeEmail(fake::locales::EN).fake()
}

/// Relies on fake's `internet::raw::Username` faker: a non-empty text.
#[verifier::external_body]
fn fake_username() -> (r: String)
    ensures
        r@.len() > 0,
{
    fake::faker::internet::raw::Username(fake::locales::EN).fake()
}

/// Relies on fake's `internet::raw::IPv4` faker: four `u8` values joined by
/// dots.
#[verifier::external_body]
fn fake_i_pv4() -> (r: String)
    ensures
        r@.len() > 0,
        ipv4_shape(r@),
{
    fake::faker::internet::raw::IPv4(fake::locales::EN).fake()
}

/// Relies on fake's `internet::raw::IPv6` faker: a non-empty text.
#[verifier::external_body]
fn fake_i_pv6() -> (r: String)
    ensures
        r@.len() > 0,
{
    fake::faker::internet::raw::IPv6(fake::locales::EN).fake()
}

/// Relies on fake's `internet::raw::IP` faker: a non-empty text.
#[verifier::external_body]
fn fake_ip() -> (r: String)
    ensures
        r@.len() > 0,
{
    fake::faker::internet::raw::IP(fake::locales::EN).fake()
}

/// Relies on fake's `internet::raw::MACAddress` faker: a non-empty text.
#[verifier::external_body]
fn fake_mac_address() -> (r: String)
    ensures
        r@.len() > 0,
{
    fake::faker::internet::raw::MACAddress(fake::locales::EN).fake()
}

/// Relies on fake's `internet::raw::UserAgent` faker: a non-empty text.
#[verifier::external_body]
fn fake_user_agent() -> (r: String)
    ensures
        r@.len() > 0,
{
    fake::faker::internet::raw::UserAgent(fake::locales::EN).fake()
}

/// Relies on fake's `http::raw::RfcStatusCode` faker: a non-empty text.
#[verifier::external_body]
fn fake_rfc_status_code() -> (r: String)
    ensures
        r@.len() > 0,
{
    fake::faker::http::raw::RfcStatusCode(fake::locales::EN).fake()
}

/// Relies on fake's `http::raw::ValidStatusCode` faker: a non-empty text.
#[verifier::external_body]
fn fake_valid_status_code() -> (r: String)
    ensures
        r@.len() > 0,
{
    fake::faker::http::raw::ValidStatusCode(fake::locales::EN).fake()
}

/// Relies on fake's `color::raw::HexColor` faker: a non-empty text.
#[verifier::external_body]
fn fake_hex_color() -> (r: String)
    ensures
        r@.len() > 0,
{
    fake::faker::color::raw::HexColor(fake::locales::EN).fake()
}

/// Relies on fake's `color::raw::RgbColor` faker: a non-empty text.
#[verifier::external_body]
fn fake_rgb_color() -> (r: String)
    ensures
        r@.len() > 0,
{
    fake::faker::color::raw::RgbColor(fake::locales::EN).fake()
}

/// Relies on fake's `color::raw::RgbaColor` faker: a non-empty text.
#[verifier::external_body]
fn fake_rgba_color() -> (r: String)
    ensures
        r@.len() > 0,
{
    fake::faker::color::raw::RgbaColor(fake::locales::EN).fake()
}

/// Relies on fake's `color::raw::HslColor` faker: a non-empty text.
#[verifier::external_body]
fn fake_hsl_color() -> (r: String)
    ensures
        r@.len() > 0,
{
    fake::faker::color::raw::HslColor(fake::locales::EN).fake()
}

/// Relies on fake's `color::raw::HslaColor` faker: a non-empty text.
#[verifier::external_body]
fn fake_hsla_color() -> (r: String)
    ensures
        r@.len() > 0,
{
    fake::faker::color::raw::HslaColor(fake::locales::EN).fake()
}

/// Relies on fake's `color::raw::Color` faker: a non-empty text.
#[verifier::external_body]
fn fake_color() -> (r: String)
    ensures
        r@.len() > 0,
{
    fake::faker::color::raw::Color(fake::locales::EN).fake()
}

/// Relies on fake's `company::raw::CompanySuffix` faker: a non-empty text.
#[verifier::external_body]
fn fake_company_suffix() -> (r: String)
    ensures
        r@.len() > 0,
{
    fake::faker::company::raw::CompanySuffix(fake::locales::EN).fake()
}

/// Relies on fake's `company::raw::CompanyName` faker: a non-empty text.
#[verifier::external_body]
fn fake_company_name() -> (r: String)
    ensures
        r@.len() > 0,
{
    fake::faker::company::raw::CompanyName(fake::locales::EN).fake()
}

/// Relies on fake's `company::raw::Buzzword` faker: a non-empty text.
#[verifier::external_body]
fn fake_buzzword() -> (r: String)
    ensures
        r@.len() > 0,
{
    fake::faker::company::raw::Buzzword(fake::locales::EN).fake()
}

/// Relies on fake's `company::raw::BuzzwordMiddle` faker: a non-empty text.
#[verifier::external_body]
fn fake_buzzword_middle() -> (r: String)
    ensures
        r@.len() > 0,
{
    fake::faker::company::raw::BuzzwordMiddle(fake::locales::EN).fake()
}

/// Relies on fake's `company::raw::BuzzwordTail` faker: a non-empty text.
#[verifier::external_body]
fn fake_buzzword_tail() -> (r: String)
    ensures
        r@.len() > 0,
{
    fake::faker::company::raw::BuzzwordTail(fake::locales::EN).fake()
}

/// Relies on fake's `company::raw::CatchPhrase` faker: a non-empty text.
#[verifier::external_body]
fn fake_catch_phrase() -> (r: String)
    ensures
        r@.len() > 0,
{
    fake::faker::company::raw::CatchPhrase(fake::locales::EN).fake()
}

/// Relies on fake's `company::raw::BsVerb` faker: a non-empty text.
#[verifier::external_body]
fn fake_bs_verb() -> (r: String)
    ensures
        r@.len() > 0,
{
    fake::faker::company::raw::BsVerb(fake::locales::EN).fake()
}

/// Relies on fake's `company::raw::BsAdj` faker: a non-empty text.
#[verifier::external_body]
fn fake_bs_adj() -> (r: String)
    ensures
        r@.len() > 0,
{
    fake::faker::company::raw::BsAdj(fake::locales::EN).fake()
}

/// Relies on fake's `company::raw::BsNoun` faker: a non-empty text.
#[verifier::external_body]
fn fake_bs_noun() -> (r: String)
    ensures
        r@.len() > 0,
{
    fake::faker::company::raw::BsNoun(fake::locales::EN).fake()
}

/// Relies on fake's `company::raw::Bs` faker: a non-empty text.
#[verifier::external_body]
fn fake_bs() -> (r: String)
    ensures
        r@.len() > 0,
{
    fake::faker::company::raw::Bs(fake::locales::EN).fake()
}

/// Relies on fake's `company::raw::Profession` faker: a non-empty text.
#[verifier::external_body]
fn fake_profession() -> (r: String)
    ensures
        r@.len() > 0,
{
    fake::faker::company::raw::Profession(fake::locales::EN).fake()
}

/// Relies on fake's `company::raw::Industry` faker: a non-empty text.
#[verifier::external_body]
fn fake_industry() -> (r: String)
    ensures
        r@.len() > 0,
{
    fake::faker::company::raw::Industry(fake::locales::EN).fake()
}

/// Relies on fake's `address::raw::CityPrefix` faker: a non-empty text.
#[verifier::external_body]
fn fake_city_prefix() -> (r: String)
    ensures
        r@.len() > 0,
{
    fake::faker::address::raw::CityPrefix(fake::locales::EN).fake()
}

/// Relies on fake's `address::raw::CitySuffix` faker: a non-empty text.
#[verifier::external_body]
fn fake_city_suffix() -> (r: String)
    ensures
        r@.len() > 0,
{
    fake::faker::address::raw::CitySuffix(fake::locales::EN).fake()
}

/// Relies on fake's `address::raw::CityName` faker: a non-empty text.
#[verifier::external_body]
fn fake_city_name() -> (r: String)
    ensures
        r@.len() > 0,
{
    fake::faker::address::raw::CityName(fake::locales::EN).fake()
}

/// Relies on fake's `address::raw::CountryName` faker: a non-empty text.
#[verifier::external_body]
fn fake_country_name() -> (r: String)
    ensures
        r@.len() > 0,
{
    fake::faker::address::raw::CountryName(fake::locales::EN).fake()
}

/// Relies on fake's `address::raw::CountryCode` faker: a non-empty text.
#[verifier::external_body]
fn fake_country_code() -> (r: String)
    ensures
        r@.len() > 0,
{
    fake::faker::address::raw::CountryCode(fake::locales::EN).fake()
}

/// Relies on fake's `address::raw::StreetSuffix` faker: a non-empty text.
#[verifier::external_body]
fn fake_street_suffix() -> (r: String)
    ensures
        r@.len() > 0,
{
    fake::faker::address::raw::StreetSuffix(fake::locales::EN).fake()
}

/// Relies on fake's `address::raw::StreetName` faker: a non-empty text.
#[verifier::external_body]
fn fake_street_name() -> (r: String)
    ensures
        r@.len() > 0,
{
    fake::faker::address::raw::StreetName(fake::locales::EN).fake()
}

/// Relies on fake's `address::raw::TimeZone` faker: a non-empty text.
#[verifier::external_body]
fn fake_time_zone() -> (r: String)
    ensures
        r@.len() > 0,
{
    fake::faker::address::raw::TimeZone(fake::locales::EN).fake()
}

/// Relies on fake's `address::raw::StateName` faker: a non-empty text.
#[verifier::external_body]
fn fake_state_name() -> (r: String)
    ensures
        r@.len() > 0,
{
    fake::faker::address::raw::StateName(fake::locales::EN).fake()
}

/// Relies on fake's `address::raw::StateAbbr` faker: a non-empty text.
#[verifier::external_body]
fn fake_state_abbr() -> (r: String)
    ensures
        r@.len() > 0,
{
    fake::faker::address::raw::StateAbbr(fake::locales::EN).fake()
}

/// Relies on fake's `address::raw::SecondaryAddressType` faker: a non-empty text.
#[verifier::external_body]
fn fake_secondary_address_type() -> (r: String)
    ensures
        r@.len() > 0,
{
    fake::faker::address::raw::SecondaryAddressType(fake::locales::EN).fake()
}

/// Relies on fake's `address::raw::SecondaryAddress` faker: a non-empty text.
#[verifier::external_body]
fn fake_secondary_address() -> (r: String)
    ensures
        r@.len() > 0,
{
    fake::faker::address::raw::SecondaryAddress(fake::locales::EN).fake()
}

/// Relies on fake's `address::raw::ZipCode` faker: a non-empty text.
#[verifier::external_body]
fn fake_zip_code() -> (r: String)
    ensures
        r@.len() > 0,
{
    fake::faker::address::raw::ZipCode(fake::locales::EN).fake()
}

/// Relies on fake's `address::raw::PostCode` faker: a non-empty text.
#[verifier::external_body]
fn fake_post_code() -> (r: String)
    ensures
        r@.len() > 0,
{
    fake::faker::address::raw::PostCode(fake::locales::EN).fake()
}

/// Relies on fake's `address::raw::BuildingNumber` faker: a non-empty text.
#[verifier::external_body]
fn fake_building_number() -> (r: String)
    ensures
        r@.len() > 0,
{
    fake::faker::address::raw::BuildingNumber(fake::locales::EN).fake()
}

/// Relies on fake's `address::raw::Latitude` faker: a non-empty text.
#[verifier::external_body]
fn fake_latitude() -> (r: String)
    ensures
        r@.len() > 0,
{
    fake::faker::address::raw::Latitude(fake::locales::EN).fake()
}

/// Relies on fake's `address::raw::Longitude` faker: a non-empty text.
#[verifier::external_body]
fn fake_longitude() -> (r: String)
    ensures
        r@.len() > 0,
{
    fake::faker::address::raw::Longitude(fake::locales::EN).fake()
}

/// Relies on fake's `automotive::raw::LicencePlate (French locale)` faker: a non-empty text.
#[verifier::external_body]
fn fake_licence_plate() -> (r: String)
    ensures
        r@.len() > 0,
{
    fake::faker::automotive::raw::LicencePlate(fake::locales::FR_FR).fake()
}

/// Relies on fake's `barcode::raw::Isbn` faker: a non-empty text.
#[verifier::external_body]
fn fake_isbn() -> (r: String)
    ensures
        r@.len() > 0,
{
    fake::faker::barcode::raw::Isbn(fake::locales::EN).fake()
}

/// Relies on fake's `barcode::raw::Isbn13` faker: a non-empty text.
#[verifier::external_body]
fn fake_isbn13() -> (r: String)
    ensures
        r@.len() > 0,
{
    fake::faker::barcode::raw::Isbn13(fake::locales::EN).fake()
}

/// Relies on fake's `barcode::raw::Isbn10` faker: a non-empty text.
#[verifier::external_body]
fn fake_isbn10() -> (r: String)
    ensures
        r@.len() > 0,
{
    fake::faker::barcode::raw::Isbn10(fake::locales::EN).fake()
}

/// Relies on fake's `phone_number::raw::PhoneNumber` faker: a non-empty text.
#[verifier::external_body]
fn fake_phone_number() -> (r: String)
    ensures
        r@.len() > 0,
{
    fake::faker::phone_number::raw::PhoneNumber(fake::locales::EN).fake()
}

/// Relies on fake's `phone_number::raw::CellNumber` faker: a non-empty text.
#[verifier::external_body]
fn fake_cell_number() -> (r: String)
    ensures
        r@.len() > 0,
{
    fake::faker::phone_number::raw::CellNumber(fake::locales::EN).fake()
}

/// Relies on fake's `chrono::raw::Time` faker: a non-empty text.
#[verifier::external_body]
fn fake_time() -> (r: String)
    ensures
        r@.len() > 0,
{
    fake::faker::chrono::raw::Time(fake::locales::EN).fake()
}

/// Relies on fake's `chrono::raw::Date` faker: a non-empty text.
#[verifier::external_body]
fn fake_date() -> (r: String)
    ensures
        r@.len() > 0,
{
    fake::faker::chrono::raw::Date(fake::locales::EN).fake()
}

/// Relies on fake's `chrono::raw::DateTime` faker: a non-empty text.
#[verifier::external_body]
fn fake_date_time() -> (r: String)
    ensures
        r@.len() > 0,
{
    fake::faker::chrono::raw::DateTime(fake::locales::EN).fake()
}

/// Relies on fake's `filesystem::raw::FilePath` faker: a non-empty text.
#[verifier::external_body]
fn fake_file_path() -> (r: String)
    ensures
        r@.len() > 0,
{
    fake::faker::filesystem::raw::FilePath(fake::locales::EN).fake()
}

/// Relies on fake's `filesystem::raw::FileName` faker: a non-empty text.
#[verifier::external_body]
fn fake_file_name() -> (r: String)
    ensures
        r@.len() > 0,
{
    fake::faker::filesystem::raw::FileName(fake::locales::EN).fake()
}

/// Relies on fake's `filesystem::raw::FileExtension` faker: a non-empty text.
#[verifier::external_body]
fn fake_file_extension() -> (r: String)
    ensures
        r@.len() > 0,
{
    fake::faker::filesystem::raw::FileExtension(fake::locales::EN).fake()
}

/// Relies on fake's `filesystem::raw::DirPath` faker: a non-empty text.
#[verifier::external_body]
fn fake_dir_path() -> (r: String)
    ensures
        r@.len() > 0,
{
    fake::faker::filesystem::raw::DirPath(fake::locales::EN).fake()
}

/// Relies on fake's `finance::raw::Bic` faker: a non-empty text.
#[verifier::external_body]
fn fake_bic() -> (r: String)
    ensures
        r@.len() > 0,
{
    fake::faker::finance::raw::Bic(fake::locales::EN).fake()
}

/// Relies on fake's `currency::raw::CurrencyCode` faker: a non-empty text.
#[verifier::external_body]
fn fake_currency_code() -> (r: String)
    ensures
        r@.len() > 0,
{
    fake::faker::currency::raw::CurrencyCode(fake::locales::EN).fake()
}

/// Relies on fake's `currency::raw::CurrencyName` faker: a non-empty text.
#[verifier::external_body]
fn fake_currency_name() -> (r: String)
    ensures
        r@.len() > 0,
{
    fake::faker::currency::raw::CurrencyName(fake::locales::EN).fake()
}

/// Relies on fake's `currency::raw::CurrencySymbol` faker: a non-empty text.
#[verifier::external_body]
fn fake_currency_symbol() -> (r: String)
    ensures
        r@.len() > 0,
{
    fake::faker::currency::raw::CurrencySymbol(fake::locales::EN).fake()
}

/// Relies on fake's `creditcard::raw::CreditCardNumber` faker: a non-empty text.
#[verifier::external_body]
fn fake_credit_card_number() -> (r: String)
    ensures
        r@.len() > 0,
{
    fake::faker::creditcard::raw::CreditCardNumber(fake::locales::EN).fake()
}

/// Relies on fake's `chrono::raw::Duration, shown through chrono's Display` faker: a non-empty text.
#[verifier::external_body]
fn fake_duration() -> (r: String)
    ensures
        r@.len() > 0,
{
    let d: chrono::Duration = fake::faker::chrono::raw::Duration(fake::locales::EN).fake();
    d.to_string()
}

/// Relies on fake's `uuid::UUIDv1` and on uuid's `Display`, which writes the
/// hyphenated form 8-4-4-4-12.
#[verifier::external_body]
fn fake_uuid_v1() -> (r: String)
    ensures
        r@.len() > 0,
        uuid_shape(r@),
{
    fake::uuid::UUIDv1.fake::<uuid::Uuid>().to_string()
}

/// Relies on fake's `uuid::UUIDv3` and on uuid's `Display`, which writes the
/// hyphenated form 8-4-4-4-12.
#[verifier::external_body]
fn fake_uuid_v3() -> (r: String)
    ensures
        r@.len() > 0,
        uuid_shape(r@),
{
    fake::uuid::UUIDv3.fake::<uuid::Uuid>().to_string()
}

/// Relies on fake's `uuid::UUIDv4` and on uuid's `Display`, which writes the
/// hyphenated form 8-4-4-4-12.
#[verifier::external_body]
fn fake_uuid_v4() -> (r: String)
    ensures
        r@.len() > 0,
        uuid_shape(r@),
{
    fake::uuid::UUIDv4.fake::<uuid::Uuid>().to_string()
}

/// Relies on fake's `uuid::UUIDv5` and on uuid's `Display`, which writes the
/// hyphenated form 8-4-4-4-12.
#[verifier::external_body]
fn fake_uuid_v5() -> (r: String)
    ensures
        r@.len() > 0,
        uuid_shape(r@),
{
    fake::uuid::UUIDv5.fake::<uuid::Uuid>().to_string()
}

/// Relies on fake's `bigdecimal::BigDecimal` faker: a non-empty text.
#[verifier::external_body]
fn fake_big_decimal() -> (r: String)
    ensures
        r@.len() > 0,
{
    fake::bigdecimal::BigDecimal.fake::<bigdecimal::BigDecimal>().to_string()
}

/// Relies on fake's `bigdecimal::PositiveBigDecimal` faker: a non-empty text.
#[verifier::external_body]
fn fake_positive_big_decimal() -> (r: String)
    ensures
        r@.len() > 0,
{
    fake::bigdecimal::PositiveBigDecimal.fake::<bigdecimal::BigDecimal>().to_string()
}

/// Relies on fake's `bigdecimal::NegativeBigDecimal` faker: a non-empty text.
#[verifier::external_body]
fn fake_negative_big_decimal() -> (r: String)
    ensures
        r@.len() > 0,
{
    fake::bigdecimal::NegativeBigDecimal.fake::<bigdecimal::BigDecimal>().to_string()
}

/// Relies on fake's `bigdecimal::NoBigDecimalPoints` faker: a non-empty text.
#[verifier::external_body]
fn fake_no_big_decimal_points() -> (r: String)
    ensures
        r@.len() > 0,
{
    fake::bigdecimal::NoBigDecimalPoints.fake::<bigdecimal::BigDecimal>().to_string()
}

/// Draws one value of a plain text kind.
pub fn sample_text(kind: TextKind) -> (r: String)
    ensures
        text_shape(kind, r@),
{
    match kind {
        TextKind::Word => fake_word(),
        TextKind::FirstName => fake_first_name(),
        TextKind::LastName => fake_last_name(),
        TextKind::NameTitle => fake_name_title(),
        TextKind::Suffix => fake_suffix(),
        TextKind::Name => fake_name(),
        TextKind::NameWithTitle => fake_name_with_title(),
        TextKind::Seniority => fake_seniority(),
        TextKind::Field => fake_field(),
        TextKind::Position => fake_position(),
        TextKind::JobTitle => fake_job_title(),
        TextKind::Digit => fake_digit(),
        TextKind::FreeEmailProvider => fake_free_email_provider(),
        TextKind::DomainSuffix => fake_domain_suffix(),
        TextKind::FreeEmail => fake_free_email(),
        TextKind::SafeEmail => fake_safe_email(),
        TextKind::Username => fake_username(),
        TextKind::IPv4 => fake_i_pv4(),
        TextKind::IPv6 => fake_i_pv6(),
        TextKind::IP => fake_ip(),
        TextKind::MACAddress => fake_mac_address(),
        TextKind::UserAgent => fake_user_agent(),
        TextKind::RfcStatusCode => fake_rfc_status_code(),
        TextKind::ValidStatusCode => fake_valid_status_code(),
        TextKind::HexColor => fake_hex_color(),
        TextKind::RgbColor => fake_rgb_color(),
        TextKind::RgbaColor => fake_rgba_color(),
        TextKind::HslColor => fake_hsl_color(),
        TextKind::HslaColor => fake_hsla_color(),
        TextKind::Color => fake_color(),
        TextKind::CompanySuffix => fake_company_suffix(),
        TextKind::CompanyName => fake_company_name(),
        TextKind::Buzzword => fake_buzzword(),
        TextKind::BuzzwordMiddle => fake_buzzword_middle(),
        TextKind::BuzzwordTail => fake_buzzword_tail(),
        TextKind::CatchPhrase => fake_catch_phrase(),
        TextKind::BsVerb => fake_bs_verb(),
        TextKind::BsAdj => fake_bs_adj(),
        TextKind::BsNoun => fake_bs_noun(),
        TextKind::Bs => fake_bs(),
        TextKind::Profession => fake_profession(),
        TextKind::Industry => fake_industry(),
        TextKind::CityPrefix => fake_city_prefix(),
        TextKind::CitySuffix => fake_city_suffix(),
        TextKind::CityName => fake_city_name(),
        TextKind::CountryName => fake_country_name(),
        TextKind::CountryCode => fake_country_code(),
        TextKind::StreetSuffix => fake_street_suffix(),
        TextKind::StreetName => fake_street_name(),
        TextKind::TimeZone => fake_time_zone(),
        TextKind::StateName => fake_state_name(),
        TextKind::StateAbbr => fake_state_abbr(),
        TextKind::SecondaryAddressType => fake_secondary_address_type(),
        TextKind::SecondaryAddress => fake_secondary_address(),
        TextKind::ZipCode => fake_zip_code(),
        TextKind::PostCode => fake_post_code(),
        TextKind::BuildingNumber => fake_building_number(),
        TextKind::Latitude => fake_latitude(),
        TextKind::Longitude => fake_longitude(),
        TextKind::LicencePlate => fake_licence_plate(),
        TextKind::Isbn => fake_isbn(),
        TextKind::Isbn13 => fake_isbn13(),
        TextKind::Isbn10 => fake_isbn10(),
        TextKind::PhoneNumber => fake_phone_number(),
        TextKind::CellNumber => fake_cell_number(),
        TextKind::Time => fake_time(),
        TextKind::Date => fake_date(),
        TextKind::DateTime => fake_date_time(),
        TextKind::FilePath => fake_file_path(),
        TextKind::FileName => fake_file_name(),
        TextKind::FileExtension => fake_file_extension(),
        TextKind::DirPath => fake_dir_path(),
        TextKind::Bic => fake_bic(),
        TextKind::CurrencyCode => fake_currency_code(),
        TextKind::CurrencyName => fake_currency_name(),
        TextKind::CurrencySymbol => fake_currency_symbol(),
        TextKind::CreditCardNumber => fake_credit_card_number(),
        TextKind::Duration => fake_duration(),
        TextKind::UuidV1 => fake_uuid_v1(),
        TextKind::UuidV3 => fake_uuid_v3(),
        TextKind::UuidV4 => fake_uuid_v4(),
        TextKind::UuidV5 => fake_uuid_v5(),
        TextKind::BigDecimal => fake_big_decimal(),
        TextKind::PositiveBigDecimal => fake_positive_big_decimal(),
        TextKind::NegativeBigDecimal => fake_negative_big_decimal(),
        TextKind::NoBigDecimalPoints => fake_no_big_decimal_points(),
    }
}

} // verus!
