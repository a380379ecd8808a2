//! Values read from and sent to the PostgreSQL database, and their conversion
//! into plain Rust values.
use vstd::prelude::*;

use crate::calendar::{
    chrono_date_display, chrono_date_exists, chrono_naive_datetime_format, chrono_time_display,
    chrono_naive_utc_subsec_nanos, chrono_naive_utc_timestamp, chrono_time_exists,
    chrono_utc_datetime_format, chrono_utc_subsec_nanos, chrono_utc_timestamp, clock_text,
    date_exists, date_text, epoch_seconds, time_exists, time_text,
};
use crate::ieee::{f32_bits_nonzero, f32_is_zero, f64_bits_nonzero, f64_bits_to_unsigned, f64_is_zero, f64_to_unsigned};
use crate::text::{decimal_text, i64_text};

verus! {

/// A calendar date as the database sends it.
#[derive(Debug, Clone, Copy, PartialEq, Eq)]
pub struct Date {
    pub year: i32,
    pub month: u8,
    pub day: u8,
}

/// A time of day as the database sends it.
#[derive(Debug, Clone, Copy, PartialEq, Eq)]
pub struct Time {
    pub hour: u8,
    pub minute: u8,
    pub second: u8,
    pub nanosecond: u32,
}

#[derive(Debug, Clone, Copy, PartialEq, Eq)]
pub struct Timestamp {
    pub date: Date,
    pub time: Time,
}

#[derive(Debug, Clone, Copy, PartialEq, Eq)]
pub struct Timestamptz {
    pub timestamp: Timestamp,
    pub offset: i32,
}

/// A column value of a result row.
///
/// Floating-point columns are held as their IEEE 754 bit pattern together
/// with the text that `Display` writes for them.
#[derive(Debug, PartialEq)]
pub enum DbValue {
    Int2(i16),
    Int4(i32),
    Int8(i64),
    Float4 { bits: u32, display: String },
    Float8 { bits: u64, display: String },
    Boolean(bool),
    Text(String),
    Timestamp(Timestamp),
    Timestamptz(Timestamptz),
    Date(Date),
    Time(Time),
    Array(Vec<DbValue>),
    Null,
    /// Any other column type (numeric, varchar, json, ...).
    Other,
}

/// One result row.
#[derive(Debug, PartialEq)]
pub struct DbRow {
    pub values: Vec<DbValue>,
}

/// A query parameter.
#[derive(Debug, Clone, PartialEq)]
pub enum SqlParam {
    Text(String),
    Int2(i16),
    Int4(i32),
    Int8(i64),
    /// A double, by its IEEE 754 bit pattern.
    Float8(u64),
    Boolean(bool),
    Null,
}

/// The view of a query parameter: text by its characters.
pub enum SqlParamView {
    Text(Seq<char>),
    Int2(i16),
    Int4(i32),
    Int8(i64),
    Float8(u64),
    Boolean(bool),
    Null,
}

pub open spec fn param_view(p: SqlParam) -> SqlParamView {
    match p {
        SqlParam::Text(s) => SqlParamView::Text(s@),
        SqlParam::Int2(i) => SqlParamView::Int2(i),
        SqlParam::Int4(i) => SqlParamView::Int4(i),
        SqlParam::Int8(i) => SqlParamView::Int8(i),
        SqlParam::Float8(b) => SqlParamView::Float8(b),
        SqlParam::Boolean(b) => SqlParamView::Boolean(b),
        SqlParam::Null => SqlParamView::Null,
    }
}

pub open spec fn params_view(ps: Seq<SqlParam>) -> Seq<SqlParamView> {
    ps.map_values(|p: SqlParam| param_view(p))
}

/// An SQL statement and its parameters, ready to be sent.
#[derive(Debug, Clone, PartialEq)]
pub struct Statement {
    pub sql: String,
    pub params: Vec<SqlParam>,
}

// ---------------------------------------------------------------------------
// Dates and times with chrono's fallbacks
// ---------------------------------------------------------------------------

/// The date that is used: the given one if it exists, 1970-01-01
/// (`NaiveDate::default()`) otherwise.
pub open spec fn used_date(d: Date) -> (int, int, int) {
    if date_exists(d.year as int, d.month as int, d.day as int) {
        (d.year as int, d.month as int, d.day as int)
    } else {
        (1970, 1, 1)
    }
}

/// The time that is used: the given one if it exists, midnight
/// (`NaiveTime::default()`) otherwise.
pub open spec fn used_time(t: Time) -> (int, int, int, int) {
    if time_exists(t.hour as int, t.minute as int, t.second as int, t.nanosecond as int) {
        (t.hour as int, t.minute as int, t.second as int, t.nanosecond as int)
    } else {
        (0, 0, 0, 0)
    }
}

fn date_or_default(d: Date) -> (r: (i32, u32, u32))
    ensures
        (r.0 as int, r.1 as int, r.2 as int) == used_date(d),
        date_exists(r.0 as int, r.1 as int, r.2 as int),
{
    if chrono_date_exists(d.year, d.month as u32, d.day as u32) {
        (d.year, d.month as u32, d.day as u32)
    } else {
        assert(date_exists(1970, 1, 1));
        (1970, 1, 1)
    }
}

fn time_or_default(t: Time) -> (r: (u32, u32, u32, u32))
    ensures
        (r.0 as int, r.1 as int, r.2 as int, r.3 as int) == used_time(t),
        time_exists(r.0 as int, r.1 as int, r.2 as int, r.3 as int),
{
    if chrono_time_exists(t.hour as u32, t.minute as u32, t.second as u32, t.nanosecond) {
        (t.hour as u32, t.minute as u32, t.second as u32, t.nanosecond)
    } else {
        (0, 0, 0, 0)
    }
}

// ---------------------------------------------------------------------------
// Conversions
// ---------------------------------------------------------------------------

/// The text a column value reads as.
pub open spec fn text_of(v: DbValue) -> Seq<char> {
    match v {
        DbValue::Text(s) => s@,
        DbValue::Int2(i) => decimal_text(i as int),
        DbValue::Int4(i) => decimal_text(i as int),
        DbValue::Int8(i) => decimal_text(i as int),
        DbValue::Float4 { display, .. } => display@,
        DbValue::Float8 { display, .. } => display@,
        DbValue::Timestamp(t) => {
            let (y, mo, d) = used_date(t.date);
            let (h, mi, s, ns) = used_time(t.time);
            date_text(y, mo, d) + seq![' '] + clock_text(h, mi, s, ns)
        },
        DbValue::Timestamptz(t) => {
            let (y, mo, d) = used_date(t.timestamp.date);
            let (h, mi, s, ns) = used_time(t.timestamp.time);
            date_text(y, mo, d) + seq![' '] + clock_text(h, mi, s, ns) + seq![' ', 'U', 'T', 'C']
        },
        DbValue::Date(d) => {
            let (y, mo, dd) = used_date(d);
            date_text(y, mo, dd)
        },
        DbValue::Time(t) => {
            let (h, mi, s, ns) = used_time(t);
            time_text(h, mi, s, ns)
        },
        _ => Seq::empty(),
    }
}

pub open spec fn i16_of(v: DbValue) -> i16 {
    match v {
        DbValue::Int2(i) => i,
        DbValue::Int4(i) => i as i16,
        DbValue::Int8(i) => i as i16,
        _ => 0,
    }
}

pub open spec fn i32_of(v: DbValue) -> i32 {
    match v {
        DbValue::Int2(i) => i as i32,
        DbValue::Int4(i) => i,
        DbValue::Int8(i) => i as i32,
        _ => 0,
    }
}

pub open spec fn i64_of(v: DbValue) -> i64 {
    match v {
        DbValue::Int2(i) => i as i64,
        DbValue::Int4(i) => i as i64,
        DbValue::Int8(i) => i,
        _ => 0,
    }
}

pub open spec fn u64_of(v: DbValue) -> u64 {
    match v {
        DbValue::Int8(i) => i as u64,
        DbValue::Int4(i) => i as u64,
        DbValue::Int2(i) => i as u64,
        DbValue::Float8 { bits, .. } => f64_to_unsigned(bits, u64::MAX as nat) as u64,
        _ => 0,
    }
}

pub open spec fn u8_of(v: DbValue) -> u8 {
    match v {
        DbValue::Int2(i) => i as u8,
        DbValue::Int4(i) => i as u8,
        DbValue::Int8(i) => i as u8,
        DbValue::Float8 { bits, .. } => f64_to_unsigned(bits, 255) as u8,
        _ => 0,
    }
}

/// Booleans, and numbers read as "non-zero"; every other value is false.
pub open spec fn bool_of(v: DbValue) -> bool {
    match v {
        DbValue::Boolean(b) => b,
        DbValue::Int2(i) => i != 0,
        DbValue::Int4(i) => i != 0,
        DbValue::Int8(i) => i != 0,
        DbValue::Float4 { bits, .. } => !f32_is_zero(bits),
        DbValue::Float8 { bits, .. } => !f64_is_zero(bits),
        _ => false,
    }
}

pub open spec fn optional_text_of(v: DbValue) -> Option<Seq<char>> {
    match v {
        DbValue::Text(s) => Some(s@),
        _ => None,
    }
}

/// A type that a column value converts into. Every value converts; a value of
/// an unexpected kind gives the type's fallback (zero, empty, false, none).
pub trait FromDbValue: Sized {
    /// `r` is what `value` converts into.
    spec fn converts_to(value: DbValue, r: Self) -> bool;

    fn from_db_value(value: &DbValue) -> (r: Self)
        ensures
            Self::converts_to(*value, r),
    ;
}

impl FromDbValue for String {
    open spec fn converts_to(value: DbValue, r: String) -> bool {
        r@ == text_of(value)
    }

    fn from_db_value(value: &DbValue) -> (r: String) {
        match value {
            DbValue::Text(s) => s.clone(),
            DbValue::Int2(i) => i64_text(*i as i64),
            DbValue::Int4(i) => i64_text(*i as i64),
            DbValue::Int8(i) => i64_text(*i),
            DbValue::Float4 { display, .. } => display.clone(),
            DbValue::Float8 { display, .. } => display.clone(),
            DbValue::Timestamp(t) => {
                let (y, mo, d) = date_or_default(t.date);
                let (h, mi, s, ns) = time_or_default(t.time);
                chrono_naive_datetime_format(y, mo, d, h, mi, s, ns, "%Y-%m-%d %H:%M:%S")
            },
            DbValue::Timestamptz(t) => {
                let (y, mo, d) = date_or_default(t.timestamp.date);
                let (h, mi, s, ns) = time_or_default(t.timestamp.time);
                chrono_utc_datetime_format(y, mo, d, h, mi, s, ns, "%Y-%m-%d %H:%M:%S %Z")
            },
            DbValue::Date(d) => {
                let (y, mo, dd) = date_or_default(*d);
                chrono_date_display(y, mo, dd)
            },
            DbValue::Time(t) => {
                let (h, mi, s, ns) = time_or_default(*t);
                chrono_time_display(h, mi, s, ns)
            },
            _ => String::new(),
        }
    }
}

impl FromDbValue for i16 {
    open spec fn converts_to(value: DbValue, r: i16) -> bool {
        r == i16_of(value)
    }

    fn from_db_value(value: &DbValue) -> (r: i16) {
        match value {
            DbValue::Int2(i) => *i,
            DbValue::Int4(i) => *i as i16,
            DbValue::Int8(i) => *i as i16,
            _ => 0,
        }
    }
}

impl FromDbValue for i32 {
    open spec fn converts_to(value: DbValue, r: i32) -> bool {
        r == i32_of(value)
    }

    fn from_db_value(value: &DbValue) -> (r: i32) {
        match value {
            DbValue::Int2(i) => *i as i32,
            DbValue::Int4(i) => *i,
            DbValue::Int8(i) => *i as i32,
            _ => 0,
        }
    }
}

impl FromDbValue for i64 {
    open spec fn converts_to(value: DbValue, r: i64) -> bool {
        r == i64_of(value)
    }

    fn from_db_value(value: &DbValue) -> (r: i64) {
        match value {
            DbValue::Int2(i) => *i as i64,
            DbValue::Int4(i) => *i as i64,
            DbValue::Int8(i) => *i,
            _ => 0,
        }
    }
}

impl FromDbValue for u64 {
    open spec fn converts_to(value: DbValue, r: u64) -> bool {
        r == u64_of(value)
    }

    fn from_db_value(value: &DbValue) -> (r: u64) {
        match value {
            DbValue::Int8(i) => *i as u64,
            DbValue::Int4(i) => *i as u64,
            DbValue::Int2(i) => *i as u64,
            DbValue::Float8 { bits, .. } => f64_bits_to_unsigned(*bits, u64::MAX),
            _ => 0,
        }
    }
}

impl FromDbValue for u8 {
    open spec fn converts_to(value: DbValue, r: u8) -> bool {
        r == u8_of(value)
    }

    fn from_db_value(value: &DbValue) -> (r: u8) {
        match value {
            DbValue::Int2(i) => *i as u8,
            DbValue::Int4(i) => *i as u8,
            DbValue::Int8(i) => *i as u8,
            DbValue::Float8 { bits, .. } => {
                let v = f64_bits_to_unsigned(*bits, 255);
                v as u8
            },
            _ => 0,
        }
    }
}

impl FromDbValue for bool {
    open spec fn converts_to(value: DbValue, r: bool) -> bool {
        r == bool_of(value)
    }

    fn from_db_value(value: &DbValue) -> (r: bool) {
        match value {
            DbValue::Boolean(b) => *b,
            DbValue::Int2(i) => *i != 0,
            DbValue::Int4(i) => *i != 0,
            DbValue::Int8(i) => *i != 0,
            DbValue::Float4 { bits, .. } => f32_bits_nonzero(*bits),
            DbValue::Float8 { bits, .. } => f64_bits_nonzero(*bits),
            _ => false,
        }
    }
}

impl FromDbValue for Option<String> {
    open spec fn converts_to(value: DbValue, r: Option<String>) -> bool {
        match r {
            Some(s) => optional_text_of(value) == Some(s@),
            None => optional_text_of(value) is None,
        }
    }

    fn from_db_value(value: &DbValue) -> (r: Option<String>) {
        match value {
            DbValue::Text(s) => Some(s.clone()),
            _ => None,
        }
    }
}

impl<T: FromDbValue> FromDbValue for Vec<T> {
    /// An array converts element by element, in order; any other value into
    /// an empty vector.
    open spec fn converts_to(value: DbValue, r: Vec<T>) -> bool {
        match value {
            DbValue::Array(items) => {
                &&& r@.len() == items@.len()
                &&& forall|i: int|
                    0 <= i < items@.len() ==> T::converts_to(#[trigger] items@[i], r@[i])
            },
            _ => r@.len() == 0,
        }
    }

    fn from_db_value(value: &DbValue) -> (r: Vec<T>) {
        match value {
            DbValue::Array(items) => {
                let mut out: Vec<T> = Vec::new();
                let mut i: usize = 0;
                while i < items.len()
                    invariant
                        i <= items@.len(),
                        out@.len() == i,
                        forall|k: int| 0 <= k < i ==> T::converts_to(#[trigger] items@[k], out@[k]),
                    decreases items@.len() - i,
                {
                    let converted = T::from_db_value(&items[i]);
                    out.push(converted);
                    i = i + 1;
                }
                out
            },
            _ => Vec::new(),
        }
    }
}

/// What a column value reads as where a double is wanted, short of the one
/// floating-point step: a double or a single by its bits, or a count of whole
/// seconds and a nanosecond part, which reads as `seconds + nanos / 1e9`.
#[derive(Debug, Clone, Copy, PartialEq, Eq)]
pub enum Seconds {
    Double(u64),
    Single(u32),
    Counted { seconds: i64, nanos: u32 },
}

pub open spec fn seconds_of(v: DbValue) -> Seconds {
    match v {
        DbValue::Float8 { bits, .. } => Seconds::Double(bits),
        DbValue::Float4 { bits, .. } => Seconds::Single(bits),
        DbValue::Timestamp(t) => {
            let (y, mo, d) = used_date(t.date);
            let (h, mi, s, ns) = used_time(t.time);
            Seconds::Counted { seconds: epoch_seconds(y, mo, d, h, mi, s) as i64, nanos: ns as u32 }
        },
        DbValue::Timestamptz(t) => {
            let (y, mo, d) = used_date(t.timestamp.date);
            let (h, mi, s, ns) = used_time(t.timestamp.time);
            Seconds::Counted { seconds: epoch_seconds(y, mo, d, h, mi, s) as i64, nanos: ns as u32 }
        },
        DbValue::Date(d) => {
            let (y, mo, dd) = used_date(d);
            Seconds::Counted { seconds: epoch_seconds(y, mo, dd, 0, 0, 0) as i64, nanos: 0 }
        },
        DbValue::Time(t) => Seconds::Counted {
            seconds: (t.hour * 3600 + t.minute * 60 + t.second) as i64,
            nanos: t.nanosecond,
        },
        _ => Seconds::Counted { seconds: 0, nanos: 0 },
    }
}

/// Reads a column value where a double is wanted; what the double then is
/// follows from the result by one floating-point step.
pub fn seconds_from_db_value(value: &DbValue) -> (r: Seconds)
    ensures
        r == seconds_of(*value),
{
    match value {
        DbValue::Float8 { bits, .. } => Seconds::Double(*bits),
        DbValue::Float4 { bits, .. } => Seconds::Single(*bits),
        DbValue::Timestamp(t) => {
            let (y, mo, d) = date_or_default(t.date);
            let (h, mi, s, ns) = time_or_default(t.time);
            let seconds = chrono_naive_utc_timestamp(y, mo, d, h, mi, s, ns);
            let nanos = chrono_naive_utc_subsec_nanos(y, mo, d, h, mi, s, ns);
            Seconds::Counted { seconds, nanos }
        },
        DbValue::Timestamptz(t) => {
            let (y, mo, d) = date_or_default(t.timestamp.date);
            let (h, mi, s, ns) = time_or_default(t.timestamp.time);
            let seconds = chrono_utc_timestamp(y, mo, d, h, mi, s, ns);
            let nanos = chrono_utc_subsec_nanos(y, mo, d, h, mi, s, ns);
            Seconds::Counted { seconds, nanos }
        },
        DbValue::Date(d) => {
            let (y, mo, dd) = date_or_default(*d);
            let seconds = chrono_naive_utc_timestamp(y, mo, dd, 0, 0, 0, 0);
            Seconds::Counted { seconds, nanos: 0 }
        },
        DbValue::Time(t) => {
            let seconds: u32 = t.hour as u32 * 3600 + t.minute as u32 * 60 + t.second as u32;
            Seconds::Counted { seconds: seconds as i64, nanos: t.nanosecond }
        },
        _ => Seconds::Counted { seconds: 0, nanos: 0 },
    }
}

/// Converts a column value, as `T::from_db_value` does.
pub fn extract<T: FromDbValue>(value: &DbValue) -> (r: T)
    ensures
        T::converts_to(*value, r),
{
    T::from_db_value(value)
}

} // verus!
