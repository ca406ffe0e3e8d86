//! Column types of a target table and the matching of values against them.
//!
//! A bulk session is opened against a fixed column list; a row is accepted
//! only when its arity equals the column count and every value matches its
//! column.  A mismatch is a caller error and is reported, never coerced.

use vstd::prelude::*;
use crate::values::{Decimal, SqlValue, ValueModel, DECIMAL_MAX_SCALE};

verus! {

/// The SQL type of one column of the target table.
///
/// `Char` and `NChar` carry their fixed length, `VarChar` and `NVarChar`
/// their limit (`None` for `max`), both counted in characters; `Binary` and
/// `VarBinary` likewise in bytes.  `Decimal` carries precision and scale.
/// `Money` columns take double precision values and `SmallMoney` columns
/// take 32-bit integers, as the driver binds them.
#[derive(Clone, Copy, PartialEq, Eq, Structural, Debug)]
pub enum ColumnType {
    Bit,
    TinyInt,
    SmallInt,
    Int,
    BigInt,
    Real,
    Float,
    Decimal { precision: u8, scale: u8 },
    Char { length: u32 },
    NChar { length: u32 },
    VarChar { limit: Option<u32> },
    NVarChar { limit: Option<u32> },
    Text,
    NText,
    Binary { length: u32 },
    VarBinary { limit: Option<u32> },
    Image,
    Guid,
    Date,
    Time,
    DateTime,
    DateTime2,
    SmallDateTime,
    DateTimeOffset,
    Money,
    SmallMoney,
    Xml,
}

impl ColumnType {
    /// A well-formed column type: decimal precision is positive, at most 38,
    /// and no smaller than the scale.
    pub open spec fn wf(self) -> bool {
        match self {
            ColumnType::Decimal { precision, scale } => 1 <= precision <= DECIMAL_MAX_SCALE
                && scale <= precision,
            _ => true,
        }
    }

    /// Executable twin of [`ColumnType::wf`].
    pub fn is_wf(&self) -> (r: bool)
        ensures
            r == self.wf(),
    {
        match self {
            ColumnType::Decimal { precision, scale } => 1 <= *precision && *precision
                <= DECIMAL_MAX_SCALE && *scale <= *precision,
            _ => true,
        }
    }
}

/// Whether a sequence of characters fits an optional character limit.
pub open spec fn fits_limit_chars(s: Option<Seq<char>>, limit: Option<u32>) -> bool {
    match (s, limit) {
        (Some(x), Some(l)) => x.len() <= l,
        _ => true,
    }
}

/// Whether a sequence of bytes fits an optional byte limit.
pub open spec fn fits_limit_bytes(b: Option<Seq<u8>>, limit: Option<u32>) -> bool {
    match (b, limit) {
        (Some(x), Some(l)) => x.len() <= l,
        _ => true,
    }
}

/// Whether the value model `v` may be stored in a column of type `c`.
///
/// NULL (a `None` payload) of the right value kind matches any column of
/// that kind.  A non-null payload must in addition be valid and fit the
/// column's length, precision and scale.
pub open spec fn accepts(c: ColumnType, v: ValueModel) -> bool {
    match (c, v) {
        (ColumnType::Bit, ValueModel::Bit(_)) => true,
        (ColumnType::TinyInt, ValueModel::TinyInt(_)) => true,
        (ColumnType::SmallInt, ValueModel::SmallInt(_)) => true,
        (ColumnType::Int, ValueModel::Int(_)) => true,
        (ColumnType::BigInt, ValueModel::BigInt(_)) => true,
        (ColumnType::Real, ValueModel::Real(_)) => true,
        (ColumnType::Float, ValueModel::Float(_)) => true,
        (ColumnType::Decimal { precision, scale }, ValueModel::Decimal(o)) => c.wf() && match o {
            Some(d) => d.valid() && d.scale == scale,
            None => true,
        },
        (ColumnType::Char { length }, ValueModel::Text(o)) => fits_limit_chars(o, Some(length)),
        (ColumnType::NChar { length }, ValueModel::Text(o)) => fits_limit_chars(o, Some(length)),
        (ColumnType::VarChar { limit }, ValueModel::Text(o)) => fits_limit_chars(o, limit),
        (ColumnType::NVarChar { limit }, ValueModel::Text(o)) => fits_limit_chars(o, limit),
        (ColumnType::Text, ValueModel::Text(_)) => true,
        (ColumnType::NText, ValueModel::Text(_)) => true,
        (ColumnType::Binary { length }, ValueModel::Binary(o)) => fits_limit_bytes(
            o,
            Some(length),
        ),
        (ColumnType::VarBinary { limit }, ValueModel::Binary(o)) => fits_limit_bytes(o, limit),
        (ColumnType::Image, ValueModel::Binary(_)) => true,
        (ColumnType::Guid, ValueModel::Guid(_)) => true,
        (ColumnType::Date, ValueModel::Date(o)) => match o {
            Some(d) => d.valid(),
            None => true,
        },
        (ColumnType::Time, ValueModel::Time(o)) => match o {
            Some(t) => t.valid(),
            None => true,
        },
        (ColumnType::DateTime, ValueModel::DateTime(o)) => match o {
            Some(dt) => dt.valid(),
            None => true,
        },
        (ColumnType::DateTime2, ValueModel::DateTime(o)) => match o {
            Some(dt) => dt.valid(),
            None => true,
        },
        (ColumnType::SmallDateTime, ValueModel::DateTime(o)) => match o {
            Some(dt) => dt.valid(),
            None => true,
        },
        (ColumnType::DateTimeOffset, ValueModel::DateTimeOffset(o)) => match o {
            Some(dto) => dto.valid(),
            None => true,
        },
        (ColumnType::Money, ValueModel::Float(_)) => true,
        (ColumnType::SmallMoney, ValueModel::Int(_)) => true,
        (ColumnType::Xml, ValueModel::Xml(_)) => true,
        _ => false,
    }
}

/// Executable twin of [`accepts`].
pub fn value_matches_column(c: &ColumnType, v: &SqlValue) -> (r: bool)
    ensures
        r == accepts(*c, v@),
{
    match (c, v) {
        (ColumnType::Bit, SqlValue::Bit(_)) => true,
        (ColumnType::TinyInt, SqlValue::TinyInt(_)) => true,
        (ColumnType::SmallInt, SqlValue::SmallInt(_)) => true,
        (ColumnType::Int, SqlValue::Int(_)) => true,
        (ColumnType::BigInt, SqlValue::BigInt(_)) => true,
        (ColumnType::Real, SqlValue::Real(_)) => true,
        (ColumnType::Float, SqlValue::Float(_)) => true,
        (ColumnType::Decimal { precision, scale }, SqlValue::Decimal(o)) => c.is_wf()
            && match o {
            Some(d) => d.is_valid() && d.scale == *scale,
            None => true,
        },
        (ColumnType::Char { length }, SqlValue::Text(o)) => text_fits(o, &Some(*length)),
        (ColumnType::NChar { length }, SqlValue::Text(o)) => text_fits(o, &Some(*length)),
        (ColumnType::VarChar { limit }, SqlValue::Text(o)) => text_fits(o, limit),
        (ColumnType::NVarChar { limit }, SqlValue::Text(o)) => text_fits(o, limit),
        (ColumnType::Text, SqlValue::Text(_)) => true,
        (ColumnType::NText, SqlValue::Text(_)) => true,
        (ColumnType::Binary { length }, SqlValue::Binary(o)) => bytes_fit(o, &Some(*length)),
        (ColumnType::VarBinary { limit }, SqlValue::Binary(o)) => bytes_fit(o, limit),
        (ColumnType::Image, SqlValue::Binary(_)) => true,
        (ColumnType::Guid, SqlValue::Guid(_)) => true,
        (ColumnType::Date, SqlValue::Date(o)) => match o {
            Some(d) => d.is_valid(),
            None => true,
        },
        (ColumnType::Time, SqlValue::Time(o)) => match o {
            Some(t) => t.is_valid(),
            None => true,
        },
        (ColumnType::DateTime, SqlValue::DateTime(o)) => match o {
            Some(dt) => dt.is_valid(),
            None => true,
        },
        (ColumnType::DateTime2, SqlValue::DateTime(o)) => match o {
            Some(dt) => dt.is_valid(),
            None => true,
        },
        (ColumnType::SmallDateTime, SqlValue::DateTime(o)) => match o {
            Some(dt) => dt.is_valid(),
            None => true,
        },
        (ColumnType::DateTimeOffset, SqlValue::DateTimeOffset(o)) => match o {
            Some(dto) => dto.is_valid(),
            None => true,
        },
        (ColumnType::Money, SqlValue::Float(_)) => true,
        (ColumnType::SmallMoney, SqlValue::Int(_)) => true,
        (ColumnType::Xml, SqlValue::Xml(_)) => true,
        _ => false,
    }
}

/// Executable check of [`fits_limit_chars`] on an owned string.
fn text_fits(s: &Option<String>, limit: &Option<u32>) -> (r: bool)
    ensures
        r == fits_limit_chars(
            match s {
                Some(x) => Some(x@),
                None => None,
            },
            *limit,
        ),
{
    match (s, limit) {
        (Some(x), Some(l)) => {
            let n: usize = x.as_str().unicode_len();
            n <= *l as usize
        },
        _ => true,
    }
}

/// Executable check of [`fits_limit_bytes`] on an owned byte vector.
fn bytes_fit(b: &Option<Vec<u8>>, limit: &Option<u32>) -> (r: bool)
    ensures
        r == fits_limit_bytes(
            match b {
                Some(x) => Some(x@),
                None => None,
            },
            *limit,
        ),
{
    match (b, limit) {
        (Some(x), Some(l)) => x.len() <= *l as usize,
        _ => true,
    }
}

} // verus!
