//! The typed-value union bound positionally into a statement.
//!
//! Every supported host value converts into exactly one variant; the builder
//! never inspects a value, it only carries it to the driver in placeholder
//! order. Temporal and decimal values are held as plain calendar and digit
//! fields; floating-point values are held as their IEEE 754 bit patterns.
//! The driver layer converts these to and from its own types at the edge.

use vstd::prelude::*;
use vstd::string::StringExecFns;

verus! {

/// A calendar date, held as plain year, month and day numbers.
#[derive(Debug, Clone, Copy, PartialEq, Eq, Structural)]
pub struct SqlDate {
    pub year: i32,
    pub month: u8,
    pub day: u8,
}

/// A time of day, held as plain hour, minute, second and nanosecond numbers.
#[derive(Debug, Clone, Copy, PartialEq, Eq, Structural)]
pub struct SqlTime {
    pub hour: u8,
    pub minute: u8,
    pub second: u8,
    pub nanosecond: u32,
}

/// A calendar date combined with a time of day.
#[derive(Debug, Clone, Copy, PartialEq, Eq, Structural)]
pub struct SqlDateTime {
    pub date: SqlDate,
    pub time: SqlTime,
}

/// A fixed-point decimal number: `mantissa * 10^(-scale)`, negated when
/// `negative` is set. The mantissa is expected to fit in 96 bits and the
/// scale in 0..=28, matching common decimal column types.
#[derive(Debug, Clone, Copy, PartialEq, Eq, Structural)]
pub struct SqlDecimal {
    pub negative: bool,
    pub mantissa: u128,
    pub scale: u32,
}

/// The closed union of scalar kinds a predicate or assignment can carry.
///
/// `F32` and `F64` hold the IEEE 754 bit pattern of the floating-point
/// value (`f32::to_bits` / `f64::to_bits`); the driver layer restores the
/// numeric value when binding.
#[derive(Debug, Clone)]
pub enum SqlValue {
    Null,
    ISize(isize),
    USize(usize),
    I8(i8),
    U8(u8),
    I16(i16),
    U16(u16),
    I32(i32),
    U32(u32),
    I64(i64),
    U64(u64),
    F32(u32),
    F64(u64),
    Bool(bool),
    Str(String),
    Time(SqlTime),
    Date(SqlDate),
    DateTime(SqlDateTime),
    Decimal(SqlDecimal),
}

/// The mathematical value of a [`SqlValue`]: identical in shape, with text
/// abstracted to its character sequence.
#[verifier::ext_equal]
pub ghost enum SqlValueV {
    Null,
    ISize(isize),
    USize(usize),
    I8(i8),
    U8(u8),
    I16(i16),
    U16(u16),
    I32(i32),
    U32(u32),
    I64(i64),
    U64(u64),
    F32(u32),
    F64(u64),
    Bool(bool),
    Str(Seq<char>),
    Time(SqlTime),
    Date(SqlDate),
    DateTime(SqlDateTime),
    Decimal(SqlDecimal),
}

impl View for SqlValue {
    type V = SqlValueV;

    open spec fn view(&self) -> SqlValueV {
        match self {
            SqlValue::Null => SqlValueV::Null,
            SqlValue::ISize(v) => SqlValueV::ISize(*v),
            SqlValue::USize(v) => SqlValueV::USize(*v),
            SqlValue::I8(v) => SqlValueV::I8(*v),
            SqlValue::U8(v) => SqlValueV::U8(*v),
            SqlValue::I16(v) => SqlValueV::I16(*v),
            SqlValue::U16(v) => SqlValueV::U16(*v),
            SqlValue::I32(v) => SqlValueV::I32(*v),
            SqlValue::U32(v) => SqlValueV::U32(*v),
            SqlValue::I64(v) => SqlValueV::I64(*v),
            SqlValue::U64(v) => SqlValueV::U64(*v),
            SqlValue::F32(v) => SqlValueV::F32(*v),
            SqlValue::F64(v) => SqlValueV::F64(*v),
            SqlValue::Bool(v) => SqlValueV::Bool(*v),
            SqlValue::Str(s) => SqlValueV::Str(s@),
            SqlValue::Time(v) => SqlValueV::Time(*v),
            SqlValue::Date(v) => SqlValueV::Date(*v),
            SqlValue::DateTime(v) => SqlValueV::DateTime(*v),
            SqlValue::Decimal(v) => SqlValueV::Decimal(*v),
        }
    }
}

impl DeepView for SqlValue {
    type V = SqlValueV;

    open spec fn deep_view(&self) -> SqlValueV {
        self.view()
    }
}

/// The value bound for a contains match: text wrapped as `%text%`.
pub open spec fn wrapped_like(v: SqlValueV) -> SqlValueV {
    match v {
        SqlValueV::Str(s) => SqlValueV::Str("%"@ + s + "%"@),
        _ => v,
    }
}

/// The value bound for an ends-with match: text wrapped as `%text`.
pub open spec fn wrapped_like_left(v: SqlValueV) -> SqlValueV {
    match v {
        SqlValueV::Str(s) => SqlValueV::Str("%"@ + s),
        _ => v,
    }
}

/// The value bound for a starts-with match: text wrapped as `text%`.
pub open spec fn wrapped_like_right(v: SqlValueV) -> SqlValueV {
    match v {
        SqlValueV::Str(s) => SqlValueV::Str(s + "%"@),
        _ => v,
    }
}

impl PartialEq for SqlValue {
    /// Two values are equal exactly when they carry the same kind and the
    /// same payload.
    fn eq(&self, other: &SqlValue) -> (r: bool) {
        match (self, other) {
            (SqlValue::Null, SqlValue::Null) => true,
            (SqlValue::ISize(a), SqlValue::ISize(b)) => *a == *b,
            (SqlValue::USize(a), SqlValue::USize(b)) => *a == *b,
            (SqlValue::I8(a), SqlValue::I8(b)) => *a == *b,
            (SqlValue::U8(a), SqlValue::U8(b)) => *a == *b,
            (SqlValue::I16(a), SqlValue::I16(b)) => *a == *b,
            (SqlValue::U16(a), SqlValue::U16(b)) => *a == *b,
            (SqlValue::I32(a), SqlValue::I32(b)) => *a == *b,
            (SqlValue::U32(a), SqlValue::U32(b)) => *a == *b,
            (SqlValue::I64(a), SqlValue::I64(b)) => *a == *b,
            (SqlValue::U64(a), SqlValue::U64(b)) => *a == *b,
            (SqlValue::F32(a), SqlValue::F32(b)) => *a == *b,
            (SqlValue::F64(a), SqlValue::F64(b)) => *a == *b,
            (SqlValue::Bool(a), SqlValue::Bool(b)) => *a == *b,
            (SqlValue::Str(a), SqlValue::Str(b)) => a.eq(b),
            (SqlValue::Time(a), SqlValue::Time(b)) => *a == *b,
            (SqlValue::Date(a), SqlValue::Date(b)) => *a == *b,
            (SqlValue::DateTime(a), SqlValue::DateTime(b)) => *a == *b,
            (SqlValue::Decimal(a), SqlValue::Decimal(b)) => *a == *b,
            _ => false,
        }
    }
}

impl vstd::std_specs::cmp::PartialEqSpecImpl for SqlValue {
    open spec fn obeys_eq_spec() -> bool {
        true
    }

    open spec fn eq_spec(&self, other: &SqlValue) -> bool {
        self@ == other@
    }
}

impl From<isize> for SqlValue {
    fn from(value: isize) -> Self {
        SqlValue::ISize(value)
    }
}

impl vstd::std_specs::convert::FromSpecImpl<isize> for SqlValue {
    open spec fn obeys_from_spec() -> bool {
        true
    }

    open spec fn from_spec(v: isize) -> Self {
        SqlValue::ISize(v)
    }
}

impl From<usize> for SqlValue {
    fn from(value: usize) -> Self {
        SqlValue::USize(value)
    }
}

impl vstd::std_specs::convert::FromSpecImpl<usize> for SqlValue {
    open spec fn obeys_from_spec() -> bool {
        true
    }

    open spec fn from_spec(v: usize) -> Self {
        SqlValue::USize(v)
    }
}

impl From<i8> for SqlValue {
    fn from(value: i8) -> Self {
        SqlValue::I8(value)
    }
}

impl vstd::std_specs::convert::FromSpecImpl<i8> for SqlValue {
    open spec fn obeys_from_spec() -> bool {
        true
    }

    open spec fn from_spec(v: i8) -> Self {
        SqlValue::I8(v)
    }
}

impl From<u8> for SqlValue {
    fn from(value: u8) -> Self {
        SqlValue::U8(value)
    }
}

impl vstd::std_specs::convert::FromSpecImpl<u8> for SqlValue {
    open spec fn obeys_from_spec() -> bool {
        true
    }

    open spec fn from_spec(v: u8) -> Self {
        SqlValue::U8(v)
    }
}

impl From<i16> for SqlValue {
    fn from(value: i16) -> Self {
        SqlValue::I16(value)
    }
}

impl vstd::std_specs::convert::FromSpecImpl<i16> for SqlValue {
    open spec fn obeys_from_spec() -> bool {
        true
    }

    open spec fn from_spec(v: i16) -> Self {
        SqlValue::I16(v)
    }
}

impl From<u16> for SqlValue {
    fn from(value: u16) -> Self {
        SqlValue::U16(value)
    }
}

impl vstd::std_specs::convert::FromSpecImpl<u16> for SqlValue {
    open spec fn obeys_from_spec() -> bool {
        true
    }

    open spec fn from_spec(v: u16) -> Self {
        SqlValue::U16(v)
    }
}

impl From<i32> for SqlValue {
    fn from(value: i32) -> Self {
        SqlValue::I32(value)
    }
}

impl vstd::std_specs::convert::FromSpecImpl<i32> for SqlValue {
    open spec fn obeys_from_spec() -> bool {
        true
    }

    open spec fn from_spec(v: i32) -> Self {
        SqlValue::I32(v)
    }
}

impl From<u32> for SqlValue {
    fn from(value: u32) -> Self {
        SqlValue::U32(value)
    }
}

impl vstd::std_specs::convert::FromSpecImpl<u32> for SqlValue {
    open spec fn obeys_from_spec() -> bool {
        true
    }

    open spec fn from_spec(v: u32) -> Self {
        SqlValue::U32(v)
    }
}

impl From<i64> for SqlValue {
    fn from(value: i64) -> Self {
        SqlValue::I64(value)
    }
}

impl vstd::std_specs::convert::FromSpecImpl<i64> for SqlValue {
    open spec fn obeys_from_spec() -> bool {
        true
    }

    open spec fn from_spec(v: i64) -> Self {
        SqlValue::I64(v)
    }
}

impl From<u64> for SqlValue {
    fn from(value: u64) -> Self {
        SqlValue::U64(value)
    }
}

impl vstd::std_specs::convert::FromSpecImpl<u64> for SqlValue {
    open spec fn obeys_from_spec() -> bool {
        true
    }

    open spec fn from_spec(v: u64) -> Self {
        SqlValue::U64(v)
    }
}

impl From<bool> for SqlValue {
    fn from(value: bool) -> Self {
        SqlValue::Bool(value)
    }
}

impl vstd::std_specs::convert::FromSpecImpl<bool> for SqlValue {
    open spec fn obeys_from_spec() -> bool {
        true
    }

    open spec fn from_spec(v: bool) -> Self {
        SqlValue::Bool(v)
    }
}

impl From<String> for SqlValue {
    fn from(value: String) -> Self {
        SqlValue::Str(value)
    }
}

impl vstd::std_specs::convert::FromSpecImpl<String> for SqlValue {
    open spec fn obeys_from_spec() -> bool {
        true
    }

    open spec fn from_spec(v: String) -> Self {
        SqlValue::Str(v)
    }
}

impl From<SqlTime> for SqlValue {
    fn from(value: SqlTime) -> Self {
        SqlValue::Time(value)
    }
}

impl vstd::std_specs::convert::FromSpecImpl<SqlTime> for SqlValue {
    open spec fn obeys_from_spec() -> bool {
        true
    }

    open spec fn from_spec(v: SqlTime) -> Self {
        SqlValue::Time(v)
    }
}

impl From<SqlDate> for SqlValue {
    fn from(value: SqlDate) -> Self {
        SqlValue::Date(value)
    }
}

impl vstd::std_specs::convert::FromSpecImpl<SqlDate> for SqlValue {
    open spec fn obeys_from_spec() -> bool {
        true
    }

    open spec fn from_spec(v: SqlDate) -> Self {
        SqlValue::Date(v)
    }
}

impl From<SqlDateTime> for SqlValue {
    fn from(value: SqlDateTime) -> Self {
        SqlValue::DateTime(value)
    }
}

impl vstd::std_specs::convert::FromSpecImpl<SqlDateTime> for SqlValue {
    open spec fn obeys_from_spec() -> bool {
        true
    }

    open spec fn from_spec(v: SqlDateTime) -> Self {
        SqlValue::DateTime(v)
    }
}

impl From<SqlDecimal> for SqlValue {
    fn from(value: SqlDecimal) -> Self {
        SqlValue::Decimal(value)
    }
}

impl vstd::std_specs::convert::FromSpecImpl<SqlDecimal> for SqlValue {
    open spec fn obeys_from_spec() -> bool {
        true
    }

    open spec fn from_spec(v: SqlDecimal) -> Self {
        SqlValue::Decimal(v)
    }
}

impl SqlValue {
    /// A copy of this value, equal to the original.
    pub fn duplicate(&self) -> (r: SqlValue)
        ensures
            r@ == self@,
    {
        match self {
            SqlValue::Null => SqlValue::Null,
            SqlValue::ISize(v) => SqlValue::ISize(*v),
            SqlValue::USize(v) => SqlValue::USize(*v),
            SqlValue::I8(v) => SqlValue::I8(*v),
            SqlValue::U8(v) => SqlValue::U8(*v),
            SqlValue::I16(v) => SqlValue::I16(*v),
            SqlValue::U16(v) => SqlValue::U16(*v),
            SqlValue::I32(v) => SqlValue::I32(*v),
            SqlValue::U32(v) => SqlValue::U32(*v),
            SqlValue::I64(v) => SqlValue::I64(*v),
            SqlValue::U64(v) => SqlValue::U64(*v),
            SqlValue::F32(v) => SqlValue::F32(*v),
            SqlValue::F64(v) => SqlValue::F64(*v),
            SqlValue::Bool(v) => SqlValue::Bool(*v),
            SqlValue::Str(s) => SqlValue::Str(s.clone()),
            SqlValue::Time(v) => SqlValue::Time(*v),
            SqlValue::Date(v) => SqlValue::Date(*v),
            SqlValue::DateTime(v) => SqlValue::DateTime(*v),
            SqlValue::Decimal(v) => SqlValue::Decimal(*v),
        }
    }

    /// This value wrapped for a contains match (`LIKE '%text%'`).
    pub fn wrap_like(self) -> (r: SqlValue)
        ensures
            r@ == wrapped_like(self@),
    {
        match self {
            SqlValue::Str(s) => {
                let mut t = String::from_str("%");
                t.append(s.as_str());
                t.append("%");
                SqlValue::Str(t)
            },
            other => other,
        }
    }

    /// This value wrapped for an ends-with match (`LIKE '%text'`).
    pub fn wrap_like_left(self) -> (r: SqlValue)
        ensures
            r@ == wrapped_like_left(self@),
    {
        match self {
            SqlValue::Str(s) => {
                let mut t = String::from_str("%");
                t.append(s.as_str());
                SqlValue::Str(t)
            },
            other => other,
        }
    }

    /// This value wrapped for a starts-with match (`LIKE 'text%'`).
    pub fn wrap_like_right(self) -> (r: SqlValue)
        ensures
            r@ == wrapped_like_right(self@),
    {
        match self {
            SqlValue::Str(s) => {
                let mut t = s;
                t.append("%");
                SqlValue::Str(t)
            },
            other => other,
        }
    }
}

} // verus!
