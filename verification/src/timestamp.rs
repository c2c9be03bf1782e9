//! Instants in time, counted in nanoseconds since the Unix epoch.

use vstd::prelude::*;
use vstd::string::*;
use vstd::utf8::encode_utf8;

verus! {

/// Nanoseconds in one second.
pub const NANOS_PER_SECOND: i128 = 1_000_000_000;

/// The earliest instant a [`Timestamp`] can hold: `-9998-01-01T00:00:00Z`,
/// the start of the second year that `jiff` knows. Its first year is
/// left out, so that no text of a [`Timestamp`] names it.
pub const MIN_NANOSECOND: i128 = -377_673_580_800_000_000_000;

/// The latest instant a [`Timestamp`] can hold: `9999-12-30T22:00:00.999999999Z`.
pub const MAX_NANOSECOND: i128 = 253_402_207_200_999_999_999;

/// Whether `nanosecond` lies in the range of instants that have a text form.
pub open spec fn in_range(nanosecond: int) -> bool {
    MIN_NANOSECOND <= nanosecond <= MAX_NANOSECOND
}

/// The text that `jiff` prints for the instant `nanosecond` nanoseconds
/// after the Unix epoch.
pub uninterp spec fn timestamp_text(nanosecond: int) -> Seq<char>;

/// The instant that `jiff` reads from `text`, or `None` where it rejects
/// the text.
pub uninterp spec fn parsed_timestamp(text: Seq<char>) -> Option<int>;

/// Whether `text` starts with the year `-009999`, the first year that
/// `jiff` knows. Such a text is never handed to `jiff`: close to the
/// start of that year its parser leaves its own range.
pub open spec fn in_first_year(text: Seq<char>) -> bool {
    let bytes = encode_utf8(text);
    &&& bytes.len() >= 7
    &&& bytes[0] == 0x2d
    &&& bytes[1] == 0x30
    &&& bytes[2] == 0x30
    &&& bytes[3] == 0x39
    &&& bytes[4] == 0x39
    &&& bytes[5] == 0x39
    &&& bytes[6] == 0x39
}

/// The instant that `text` stands for: the one that `jiff` reads from
/// it, where the text does not start with the first year and the
/// instant is in range; else none.
pub open spec fn read_instant(text: Seq<char>) -> Option<int> {
    if in_first_year(text) {
        None
    } else {
        match parsed_timestamp(text) {
            Some(nanosecond) => if in_range(nanosecond) {
                Some(nanosecond)
            } else {
                None
            },
            None => None,
        }
    }
}

/// An instant in time with nanosecond precision.
///
/// Every value lies between [`MIN_NANOSECOND`] and [`MAX_NANOSECOND`]:
/// the range of `jiff::Timestamp` without its first year.
#[derive(Clone, Copy, Debug, PartialEq, Eq)]
pub struct Timestamp {
    nanosecond: i128,
}

impl View for Timestamp {
    type V = int;

    /// Nanoseconds since the Unix epoch.
    closed spec fn view(&self) -> int {
        self.nanosecond as int
    }
}

/// Whether `text` starts with the year `-009999`.
pub fn starts_in_first_year(text: &str) -> (first: bool)
    ensures
        first == in_first_year(text@),
{
    let bytes = text.as_bytes();
    bytes.len() >= 7 && bytes[0] == 0x2d && bytes[1] == 0x30 && bytes[2] == 0x30 && bytes[3]
        == 0x39 && bytes[4] == 0x39 && bytes[5] == 0x39 && bytes[6] == 0x39
}

impl Timestamp {
    #[verifier::type_invariant]
    spec fn within_range(self) -> bool {
        in_range(self.nanosecond as int)
    }

    /// The instant `nanosecond` nanoseconds after the Unix epoch, where
    /// that instant is in range.
    pub fn from_nanosecond(nanosecond: i128) -> (result: Option<Timestamp>)
        ensures
            in_range(nanosecond as int) ==> result.is_some() && result.unwrap()@ == nanosecond,
            !in_range(nanosecond as int) ==> result.is_none(),
    {
        if MIN_NANOSECOND <= nanosecond && nanosecond <= MAX_NANOSECOND {
            Some(Timestamp { nanosecond })
        } else {
            None
        }
    }

    /// Nanoseconds since the Unix epoch.
    pub fn as_nanosecond(&self) -> (nanosecond: i128)
        ensures
            nanosecond == self@,
            in_range(nanosecond as int),
    {
        proof {
            use_type_invariant(self);
        }
        self.nanosecond
    }

    /// The text form of this instant, as stored in the cache. Reading
    /// the text gives this instant again.
    pub fn to_text(&self) -> (text: String)
        ensures
            text@ == timestamp_text(self@),
            read_instant(text@) == Some(self@),
    {
        print_timestamp(self.as_nanosecond())
    }

    /// Reads an instant from its text form: see [`read_instant`]. A text
    /// that starts with the year `-009999`, a text that is no timestamp
    /// and a text for an instant out of range are refused.
    pub fn parse(text: &str) -> (result: Option<Timestamp>)
        ensures
            result matches Some(t) ==> read_instant(text@) == Some(t@),
            result.is_none() ==> read_instant(text@).is_none(),
    {
        if starts_in_first_year(text) {
            return None;
        }
        match read_timestamp(text) {
            Some(nanosecond) => Timestamp::from_nanosecond(nanosecond),
            None => None,
        }
    }
}

/// Trusted: `jiff::Timestamp::from_nanosecond` followed by `to_string`.
///
/// `from_nanosecond` accepts every instant between `jiff::Timestamp::MIN`
/// and `jiff::Timestamp::MAX`, and so every instant in range.
/// The `Display` impl of `jiff::Timestamp` prints RFC 3339 text in UTC
/// with the precision that renders the value without loss, which is why
/// `FromStr` reads the same instant back. The text starts with the year
/// of the instant in UTC, which for an instant in range is `-009998` or
/// later.
#[verifier::external_body]
fn print_timestamp(nanosecond: i128) -> (text: String)
    requires
        in_range(nanosecond as int),
    ensures
        text@ == timestamp_text(nanosecond as int),
        parsed_timestamp(text@) == Some(nanosecond as int),
        !in_first_year(text@),
{
    match jiff::Timestamp::from_nanosecond(nanosecond) {
        Ok(instant) => instant.to_string(),
        Err(_) => String::new(),
    }
}

/// Trusted: `str::parse::<jiff::Timestamp>` followed by `as_nanosecond`,
/// which is lossless.
///
/// A text that starts with the year `-009999` is left out: for an
/// instant less than a second before `jiff::Timestamp::MIN` the parser
/// does not fail as documented.
#[verifier::external_body]
fn read_timestamp(text: &str) -> (result: Option<i128>)
    requires
        !in_first_year(text@),
    ensures
        result matches Some(nanosecond) ==> parsed_timestamp(text@) == Some(nanosecond as int),
        result.is_none() ==> parsed_timestamp(text@).is_none(),
{
    match text.parse::<jiff::Timestamp>() {
        Ok(instant) => Some(instant.as_nanosecond()),
        Err(_) => None,
    }
}

} // verus!
