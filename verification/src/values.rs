//! Typed, nullable SQL values and their mathematical model.
//!
//! Every value a row can carry is held here as plain data: integers and
//! booleans as themselves, floating point columns as IEEE 754 bit patterns,
//! decimals as an integer mantissa with a scale, text as owned strings,
//! date and time as validated calendar components.

use vstd::prelude::*;

verus! {

/// Largest mantissa of a decimal with the driver's maximum precision of 38
/// digits: 38 nines.
pub const DECIMAL_MAX_MANTISSA: i128 = 99999999999999999999999999999999999999;

/// Largest scale (digits right of the decimal point) a decimal may carry.
pub const DECIMAL_MAX_SCALE: u8 = 38;

/// An exact decimal: the represented number is `mantissa * 10^(-scale)`.
#[derive(Clone, Copy, PartialEq, Eq, Structural, Debug)]
pub struct Decimal {
    pub mantissa: i128,
    pub scale: u8,
}

impl Decimal {
    /// A decimal is valid when its scale and the magnitude of its mantissa
    /// stay within what a precision-38 column can hold.
    pub open spec fn valid(self) -> bool {
        self.scale <= DECIMAL_MAX_SCALE && -DECIMAL_MAX_MANTISSA <= self.mantissa
            <= DECIMAL_MAX_MANTISSA
    }

    /// Executable twin of [`Decimal::valid`].
    pub fn is_valid(&self) -> (r: bool)
        ensures
            r == self.valid(),
    {
        self.scale <= DECIMAL_MAX_SCALE && -DECIMAL_MAX_MANTISSA <= self.mantissa
            && self.mantissa <= DECIMAL_MAX_MANTISSA
    }

    /// Builds a decimal, rejecting out-of-range mantissas and scales.
    pub fn new(mantissa: i128, scale: u8) -> (r: Option<Decimal>)
        ensures
            (Decimal { mantissa, scale }).valid() ==> r == Some(Decimal { mantissa, scale }),
            !(Decimal { mantissa, scale }).valid() ==> r is None,
    {
        if scale <= DECIMAL_MAX_SCALE && -DECIMAL_MAX_MANTISSA <= mantissa
            && mantissa <= DECIMAL_MAX_MANTISSA {
            Some(Decimal { mantissa, scale })
        } else {
            None
        }
    }
}

/// Whether `y` is a leap year of the proleptic Gregorian calendar.
pub open spec fn leap_year(y: int) -> bool {
    y % 4 == 0 && (y % 100 != 0 || y % 400 == 0)
}

/// Number of days of month `m` (1 to 12) in year `y`.
pub open spec fn days_in_month(y: int, m: int) -> int {
    if m == 2 {
        if leap_year(y) {
            29
        } else {
            28
        }
    } else if m == 4 || m == 6 || m == 9 || m == 11 {
        30
    } else {
        31
    }
}

/// A calendar date of the proleptic Gregorian calendar.
#[derive(Clone, Copy, PartialEq, Eq, Structural, Debug)]
pub struct Date {
    pub year: u16,
    pub month: u8,
    pub day: u8,
}

impl Date {
    /// Valid dates range over the years a `date` column accepts.
    pub open spec fn valid(self) -> bool {
        1 <= self.year <= 9999 && 1 <= self.month <= 12 && 1 <= self.day
            <= days_in_month(self.year as int, self.month as int)
    }

    /// Executable twin of [`Date::valid`].
    pub fn is_valid(&self) -> (r: bool)
        ensures
            r == self.valid(),
    {
        1 <= self.year && self.year <= 9999 && 1 <= self.month && self.month <= 12 && 1 <= self.day
            && self.day <= month_length(self.year, self.month)
    }

    /// Builds a date from its components, rejecting anything that is not a
    /// real calendar day.
    pub fn new(year: u16, month: u8, day: u8) -> (r: Option<Date>)
        ensures
            (Date { year, month, day }).valid() ==> r == Some(Date { year, month, day }),
            !(Date { year, month, day }).valid() ==> r is None,
    {
        if 1 <= year && year <= 9999 && 1 <= month && month <= 12 && 1 <= day
            && day <= month_length(year, month) {
            Some(Date { year, month, day })
        } else {
            None
        }
    }
}

/// Executable twin of [`days_in_month`].
pub fn month_length(year: u16, month: u8) -> (n: u8)
    requires
        1 <= month <= 12,
    ensures
        n == days_in_month(year as int, month as int),
{
    if month == 2 {
        if year % 4 == 0 && (year % 100 != 0 || year % 400 == 0) {
            29
        } else {
            28
        }
    } else if month == 4 || month == 6 || month == 9 || month == 11 {
        30
    } else {
        31
    }
}

/// Nanoseconds in a second.
pub const NANOS_PER_SECOND: u32 = 1000000000;

/// Seconds in a day.
pub const SECONDS_PER_DAY: u32 = 86400;

/// A clock time: whole seconds since midnight plus a nanosecond remainder.
#[derive(Clone, Copy, PartialEq, Eq, Structural, Debug)]
pub struct Time {
    pub second_of_day: u32,
    pub nanosecond: u32,
}

impl Time {
    pub open spec fn valid(self) -> bool {
        self.second_of_day < SECONDS_PER_DAY && self.nanosecond < NANOS_PER_SECOND
    }

    /// Executable twin of [`Time::valid`].
    pub fn is_valid(&self) -> (r: bool)
        ensures
            r == self.valid(),
    {
        self.second_of_day < SECONDS_PER_DAY && self.nanosecond < NANOS_PER_SECOND
    }

    /// Builds a time of day, rejecting seconds past midnight of the next day
    /// and nanosecond parts of a second or more.
    pub fn new(second_of_day: u32, nanosecond: u32) -> (r: Option<Time>)
        ensures
            (Time { second_of_day, nanosecond }).valid() ==> r == Some(
                Time { second_of_day, nanosecond },
            ),
            !(Time { second_of_day, nanosecond }).valid() ==> r is None,
    {
        if second_of_day < SECONDS_PER_DAY && nanosecond < NANOS_PER_SECOND {
            Some(Time { second_of_day, nanosecond })
        } else {
            None
        }
    }
}

/// A date paired with a time of day.
#[derive(Clone, Copy, PartialEq, Eq, Structural, Debug)]
pub struct DateTime {
    pub date: Date,
    pub time: Time,
}

impl DateTime {
    pub open spec fn valid(self) -> bool {
        self.date.valid() && self.time.valid()
    }

    /// Executable twin of [`DateTime::valid`].
    pub fn is_valid(&self) -> (r: bool)
        ensures
            r == self.valid(),
    {
        self.date.is_valid() && self.time.is_valid()
    }

    /// Pairs a date with a time.
    pub fn new(date: Date, time: Time) -> (r: DateTime)
        ensures
            r == (DateTime { date, time }),
    {
        DateTime { date, time }
    }
}

/// Widest offset from UTC a `datetimeoffset` column accepts: 14 hours.
pub const MAX_OFFSET_MINUTES: i16 = 840;

/// A date and time together with an offset from UTC in minutes.
#[derive(Clone, Copy, PartialEq, Eq, Structural, Debug)]
pub struct DateTimeOffset {
    pub datetime: DateTime,
    pub offset_minutes: i16,
}

impl DateTimeOffset {
    pub open spec fn valid(self) -> bool {
        self.datetime.valid() && -MAX_OFFSET_MINUTES <= self.offset_minutes <= MAX_OFFSET_MINUTES
    }

    /// Executable twin of [`DateTimeOffset::valid`].
    pub fn is_valid(&self) -> (r: bool)
        ensures
            r == self.valid(),
    {
        self.datetime.is_valid() && -MAX_OFFSET_MINUTES <= self.offset_minutes
            && self.offset_minutes <= MAX_OFFSET_MINUTES
    }

    /// Attaches an offset to a date and time, rejecting invalid instants and
    /// offsets beyond 14 hours either side of UTC.
    pub fn new(datetime: DateTime, offset_minutes: i16) -> (r: Option<DateTimeOffset>)
        ensures
            (DateTimeOffset { datetime, offset_minutes }).valid() ==> r == Some(
                DateTimeOffset { datetime, offset_minutes },
            ),
            !(DateTimeOffset { datetime, offset_minutes }).valid() ==> r is None,
    {
        if datetime.is_valid() && -MAX_OFFSET_MINUTES <= offset_minutes && offset_minutes
            <= MAX_OFFSET_MINUTES {
            Some(DateTimeOffset { datetime, offset_minutes })
        } else {
            None
        }
    }
}

/// One nullable, typed value of a row.
///
/// `Real` and `Float` hold the IEEE 754 bit pattern of the single and double
/// precision number; turning them into native floating point is left to the
/// unverified edge that talks to the driver.  `Guid` holds the 128-bit value
/// of a `uniqueidentifier`.
#[derive(Clone, PartialEq, Eq, Debug)]
pub enum SqlValue {
    Bit(Option<bool>),
    TinyInt(Option<u8>),
    SmallInt(Option<i16>),
    Int(Option<i32>),
    BigInt(Option<i64>),
    Real(Option<u32>),
    Float(Option<u64>),
    Decimal(Option<Decimal>),
    Text(Option<String>),
    Binary(Option<Vec<u8>>),
    Guid(Option<u128>),
    Date(Option<Date>),
    Time(Option<Time>),
    DateTime(Option<DateTime>),
    DateTimeOffset(Option<DateTimeOffset>),
    Xml(Option<String>),
}

/// The mathematical model of a [`SqlValue`]: text as character sequences,
/// binary as byte sequences, everything else as itself.
pub enum ValueModel {
    Bit(Option<bool>),
    TinyInt(Option<u8>),
    SmallInt(Option<i16>),
    Int(Option<i32>),
    BigInt(Option<i64>),
    Real(Option<u32>),
    Float(Option<u64>),
    Decimal(Option<Decimal>),
    Text(Option<Seq<char>>),
    Binary(Option<Seq<u8>>),
    Guid(Option<u128>),
    Date(Option<Date>),
    Time(Option<Time>),
    DateTime(Option<DateTime>),
    DateTimeOffset(Option<DateTimeOffset>),
    Xml(Option<Seq<char>>),
}

impl View for SqlValue {
    type V = ValueModel;

    open spec fn view(&self) -> ValueModel {
        match self {
            SqlValue::Bit(b) => ValueModel::Bit(*b),
            SqlValue::TinyInt(n) => ValueModel::TinyInt(*n),
            SqlValue::SmallInt(n) => ValueModel::SmallInt(*n),
            SqlValue::Int(n) => ValueModel::Int(*n),
            SqlValue::BigInt(n) => ValueModel::BigInt(*n),
            SqlValue::Real(bits) => ValueModel::Real(*bits),
            SqlValue::Float(bits) => ValueModel::Float(*bits),
            SqlValue::Decimal(d) => ValueModel::Decimal(*d),
            SqlValue::Text(s) => ValueModel::Text(
                match s {
                    Some(x) => Some(x@),
                    None => None,
                },
            ),
            SqlValue::Binary(b) => ValueModel::Binary(
                match b {
                    Some(x) => Some(x@),
                    None => None,
                },
            ),
            SqlValue::Guid(g) => ValueModel::Guid(*g),
            SqlValue::Date(d) => ValueModel::Date(*d),
            SqlValue::Time(t) => ValueModel::Time(*t),
            SqlValue::DateTime(dt) => ValueModel::DateTime(*dt),
            SqlValue::DateTimeOffset(dto) => ValueModel::DateTimeOffset(*dto),
            SqlValue::Xml(s) => ValueModel::Xml(
                match s {
                    Some(x) => Some(x@),
                    None => None,
                },
            ),
        }
    }
}

impl SqlValue {
    /// Whether the value is the SQL NULL of its type.
    pub open spec fn spec_is_null(self) -> bool {
        match self@ {
            ValueModel::Bit(o) => o is None,
            ValueModel::TinyInt(o) => o is None,
            ValueModel::SmallInt(o) => o is None,
            ValueModel::Int(o) => o is None,
            ValueModel::BigInt(o) => o is None,
            ValueModel::Real(o) => o is None,
            ValueModel::Float(o) => o is None,
            ValueModel::Decimal(o) => o is None,
            ValueModel::Text(o) => o is None,
            ValueModel::Binary(o) => o is None,
            ValueModel::Guid(o) => o is None,
            ValueModel::Date(o) => o is None,
            ValueModel::Time(o) => o is None,
            ValueModel::DateTime(o) => o is None,
            ValueModel::DateTimeOffset(o) => o is None,
            ValueModel::Xml(o) => o is None,
        }
    }

    /// Executable twin of [`SqlValue::spec_is_null`].
    pub fn is_null(&self) -> (r: bool)
        ensures
            r == self.spec_is_null(),
    {
        match self {
            SqlValue::Bit(o) => o.is_none(),
            SqlValue::TinyInt(o) => o.is_none(),
            SqlValue::SmallInt(o) => o.is_none(),
            SqlValue::Int(o) => o.is_none(),
            SqlValue::BigInt(o) => o.is_none(),
            SqlValue::Real(o) => o.is_none(),
            SqlValue::Float(o) => o.is_none(),
            SqlValue::Decimal(o) => o.is_none(),
            SqlValue::Text(o) => o.is_none(),
            SqlValue::Binary(o) => o.is_none(),
            SqlValue::Guid(o) => o.is_none(),
            SqlValue::Date(o) => o.is_none(),
            SqlValue::Time(o) => o.is_none(),
            SqlValue::DateTime(o) => o.is_none(),
            SqlValue::DateTimeOffset(o) => o.is_none(),
            SqlValue::Xml(o) => o.is_none(),
        }
    }
}

} // verus!
