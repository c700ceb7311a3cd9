//! Which wire values convert to which engine values: the table that decides,
//! for a value of each kind and a requested Arrow type, what the engine value
//! is or why the conversion is refused, and the time-of-day conversions.
use chrono::NaiveTime;
use vstd::prelude::*;

use crate::arrow::{ArrowType, TimeUnit};
use crate::pg_type_oid::arrow_type_oid;
use crate::wire::{
    hour, minute, nanosecond, second, seconds_from_midnight, time_hour, time_minute,
    time_nanosecond, time_second,
};

verus! {

/// What the conversion reads of a wire value: its kind, with the time zone
/// name of a zoned timestamp and the scale of a decimal.
#[derive(Debug)]
pub enum ScalarShape {
    Null,
    Bool,
    Int2,
    Int4,
    Int8,
    Float4,
    Float8,
    Text,
    Bytea,
    Timestamp,
    TimestampTz { zone: String },
    Time,
    Date,
    Decimal { scale: i8 },
    /// An engine value the wire layer holds as it is.
    Other,
}

/// The engine value a wire value converts to, by kind.
#[derive(Debug)]
pub enum EngineValue {
    /// A null of the requested type, as the engine makes it (the engine may
    /// have no null of that type).
    TypedNull,
    Boolean,
    /// An `int2` narrowed to eight bits.
    Int8,
    Int16,
    Int32,
    Int64,
    Float32,
    Float64,
    Utf8,
    Binary,
    /// A timestamp in this unit, with the time zone name when it has one.
    Timestamp(TimeUnit, Option<String>),
    /// A time of day in this unit, on 32 bits.
    Time32(TimeUnit),
    /// A time of day in this unit, on 64 bits.
    Time64(TimeUnit),
    /// Days since 1970-01-01.
    Date32,
    /// A decimal with this precision and scale.
    Decimal128(u8, i8),
}

/// Why a conversion is refused.
#[derive(Debug, Clone, Copy, PartialEq, Eq, Structural)]
pub enum ConversionRefusal {
    /// A zoned timestamp asked for in another time zone.
    ZoneMismatch,
    /// A decimal asked for with another scale.
    ScaleMismatch,
    /// No conversion from this kind to this type.
    Unsupported,
}

/// The engine value for a wire value of shape `v` asked for as type `t`, or
/// why it is refused.
pub open spec fn engine_conversion(v: ScalarShape, t: ArrowType) -> Result<EngineValue, ConversionRefusal> {
    match (v, t) {
        (ScalarShape::Null, _) => Ok(EngineValue::TypedNull),
        (ScalarShape::Bool, ArrowType::Boolean) => Ok(EngineValue::Boolean),
        (ScalarShape::Int2, ArrowType::Int8) => Ok(EngineValue::Int8),
        (ScalarShape::Int2, ArrowType::Int16) => Ok(EngineValue::Int16),
        (ScalarShape::Int4, ArrowType::Int32) => Ok(EngineValue::Int32),
        (ScalarShape::Int8, ArrowType::Int64) => Ok(EngineValue::Int64),
        (ScalarShape::Float4, ArrowType::Float32) => Ok(EngineValue::Float32),
        (ScalarShape::Float8, ArrowType::Float64) => Ok(EngineValue::Float64),
        (ScalarShape::Text, ArrowType::Utf8) => Ok(EngineValue::Utf8),
        (ScalarShape::Bytea, ArrowType::Binary) => Ok(EngineValue::Binary),
        (ScalarShape::Timestamp, ArrowType::Timestamp(unit, None)) => Ok(
            EngineValue::Timestamp(unit, None),
        ),
        (ScalarShape::TimestampTz { zone }, ArrowType::Timestamp(unit, Some(tz))) => if tz@
            == zone@ {
            Ok(EngineValue::Timestamp(unit, Some(tz)))
        } else {
            Err(ConversionRefusal::ZoneMismatch)
        },
        (ScalarShape::Time, ArrowType::Time32(TimeUnit::Second)) => Ok(
            EngineValue::Time32(TimeUnit::Second),
        ),
        (ScalarShape::Time, ArrowType::Time32(TimeUnit::Millisecond)) => Ok(
            EngineValue::Time32(TimeUnit::Millisecond),
        ),
        (ScalarShape::Time, ArrowType::Time64(TimeUnit::Microsecond)) => Ok(
            EngineValue::Time64(TimeUnit::Microsecond),
        ),
        (ScalarShape::Time, ArrowType::Time64(TimeUnit::Nanosecond)) => Ok(
            EngineValue::Time64(TimeUnit::Nanosecond),
        ),
        (ScalarShape::Date, ArrowType::Date32) => Ok(EngineValue::Date32),
        (ScalarShape::Decimal { scale }, ArrowType::Decimal128(p, s)) => if scale == s {
            Ok(EngineValue::Decimal128(p, s))
        } else {
            Err(ConversionRefusal::ScaleMismatch)
        },
        _ => Err(ConversionRefusal::Unsupported),
    }
}

/// The Postgres type OID of a wire value's kind; None for a null, which has
/// no kind of its own, and for a value the wire layer holds as it is.
pub open spec fn kind_oid(v: ScalarShape) -> Option<u32> {
    match v {
        ScalarShape::Bool => Some(16u32),
        ScalarShape::Int2 => Some(21u32),
        ScalarShape::Int4 => Some(23u32),
        ScalarShape::Int8 => Some(20u32),
        ScalarShape::Float4 => Some(700u32),
        ScalarShape::Float8 => Some(701u32),
        ScalarShape::Text => Some(25u32),
        ScalarShape::Bytea => Some(17u32),
        ScalarShape::Timestamp => Some(1114u32),
        ScalarShape::TimestampTz { .. } => Some(1184u32),
        ScalarShape::Time => Some(1083u32),
        ScalarShape::Date => Some(1082u32),
        ScalarShape::Decimal { .. } => Some(1700u32),
        ScalarShape::Null | ScalarShape::Other => None,
    }
}

/// The Arrow counterpart of a wire value's kind: `bool` is `Boolean`,
/// `int2`/`int4`/`int8` are `Int16`/`Int32`/`Int64`, `float4`/`float8` are
/// `Float32`/`Float64`, `text` is `Utf8`, `bytea` is `Binary`, a timestamp is
/// a microsecond `Timestamp` (in the value's own zone when it has one), a
/// time is a microsecond `Time64`, a date is `Date32` and a decimal is a
/// `Decimal128` of its own scale.
pub open spec fn arrow_counterpart(v: ScalarShape) -> Option<ArrowType> {
    match v {
        ScalarShape::Bool => Some(ArrowType::Boolean),
        ScalarShape::Int2 => Some(ArrowType::Int16),
        ScalarShape::Int4 => Some(ArrowType::Int32),
        ScalarShape::Int8 => Some(ArrowType::Int64),
        ScalarShape::Float4 => Some(ArrowType::Float32),
        ScalarShape::Float8 => Some(ArrowType::Float64),
        ScalarShape::Text => Some(ArrowType::Utf8),
        ScalarShape::Bytea => Some(ArrowType::Binary),
        ScalarShape::Timestamp => Some(ArrowType::Timestamp(TimeUnit::Microsecond, None)),
        ScalarShape::TimestampTz { zone } => Some(
            ArrowType::Timestamp(TimeUnit::Microsecond, Some(zone)),
        ),
        ScalarShape::Time => Some(ArrowType::Time64(TimeUnit::Microsecond)),
        ScalarShape::Date => Some(ArrowType::Date32),
        ScalarShape::Decimal { scale } => Some(ArrowType::Decimal128(38u8, scale)),
        ScalarShape::Null | ScalarShape::Other => None,
    }
}

/// Whether an engine value is a value of the Arrow type `t`.
pub open spec fn value_has_type(e: EngineValue, t: ArrowType) -> bool {
    match e {
        EngineValue::TypedNull => true,
        EngineValue::Boolean => t is Boolean,
        EngineValue::Int8 => t is Int8,
        EngineValue::Int16 => t is Int16,
        EngineValue::Int32 => t is Int32,
        EngineValue::Int64 => t is Int64,
        EngineValue::Float32 => t is Float32,
        EngineValue::Float64 => t is Float64,
        EngineValue::Utf8 => t is Utf8,
        EngineValue::Binary => t is Binary,
        EngineValue::Timestamp(u, z) => match t {
            ArrowType::Timestamp(u2, z2) => u == u2 && match (z, z2) {
                (None, None) => true,
                (Some(a), Some(b)) => a@ == b@,
                _ => false,
            },
            _ => false,
        },
        EngineValue::Time32(u) => t == ArrowType::Time32(u),
        EngineValue::Time64(u) => t == ArrowType::Time64(u),
        EngineValue::Date32 => t is Date32,
        EngineValue::Decimal128(p, sc) => t == ArrowType::Decimal128(p, sc),
    }
}

/// The Arrow types a wire value of a kind converts to: its own counterpart,
/// and for an `int2` also `Int8`, for a time any of the four time types of
/// whole seconds, milliseconds, microseconds or nanoseconds, for a zoned
/// timestamp a zoned timestamp in the same zone of any unit, and for a
/// decimal a `Decimal128` of the same scale.
pub open spec fn converts_to(v: ScalarShape, t: ArrowType) -> bool {
    match v {
        ScalarShape::Null => true,
        ScalarShape::Bool => t is Boolean,
        ScalarShape::Int2 => t is Int8 || t is Int16,
        ScalarShape::Int4 => t is Int32,
        ScalarShape::Int8 => t is Int64,
        ScalarShape::Float4 => t is Float32,
        ScalarShape::Float8 => t is Float64,
        ScalarShape::Text => t is Utf8,
        ScalarShape::Bytea => t is Binary,
        ScalarShape::Timestamp => t matches ArrowType::Timestamp(_, None),
        ScalarShape::TimestampTz { zone } => t matches ArrowType::Timestamp(_, Some(tz)) && tz@
            == zone@,
        ScalarShape::Time => t == ArrowType::Time32(TimeUnit::Second) || t == ArrowType::Time32(
            TimeUnit::Millisecond,
        ) || t == ArrowType::Time64(TimeUnit::Microsecond) || t == ArrowType::Time64(
            TimeUnit::Nanosecond,
        ),
        ScalarShape::Date => t is Date32,
        ScalarShape::Decimal { scale } => t matches ArrowType::Decimal128(_, s) && s == scale,
        ScalarShape::Other => false,
    }
}

/// A conversion succeeds exactly for the types a value's kind converts to;
/// a null gives the typed null of any type.
pub proof fn lemma_conversion_domain(v: ScalarShape, t: ArrowType)
    ensures
        engine_conversion(v, t) is Ok <==> converts_to(v, t),
        v is Null ==> engine_conversion(v, t) == Ok::<EngineValue, ConversionRefusal>(
            EngineValue::TypedNull,
        ),
        !(v is Null) ==> !(engine_conversion(v, t) == Ok::<EngineValue, ConversionRefusal>(
            EngineValue::TypedNull,
        )),
{
}

/// A conversion that succeeds gives a value of the requested type, and a
/// value of a kind is only ever given as a type that Postgres announces with
/// that kind's own OID (a `float8` never becomes a `Float32`, a `text` never
/// a number).
pub proof fn lemma_conversion_keeps_kind(v: ScalarShape, t: ArrowType)
    ensures
        engine_conversion(v, t) matches Ok(e) ==> value_has_type(e, t),
        (engine_conversion(v, t) is Ok && kind_oid(v) is Some) ==> arrow_type_oid(t)
            == kind_oid(v)->0,
{
}

/// Every wire kind converts to its own Arrow counterpart, whose announced
/// OID is the kind's own.
pub proof fn lemma_counterpart_converts(v: ScalarShape)
    ensures
        arrow_counterpart(v) matches Some(t) ==> {
            &&& engine_conversion(v, t) matches Ok(e)
            &&& value_has_type(e, t)
            &&& kind_oid(v) == Some(arrow_type_oid(t))
        },
        arrow_counterpart(v) is None <==> (v is Null || v is Other),
{
}

/// A conversion is refused only for a value that is not null: for a zoned
/// timestamp asked for in another zone, for a decimal asked for with another
/// scale, and otherwise for a pair with no conversion.
pub proof fn lemma_refusal_reasons(v: ScalarShape, t: ArrowType)
    ensures
        engine_conversion(v, t) is Err ==> !(v is Null),
        engine_conversion(v, t) == Err::<EngineValue, ConversionRefusal>(
            ConversionRefusal::ZoneMismatch,
        ) <==> (v matches ScalarShape::TimestampTz { zone } && t matches ArrowType::Timestamp(
            _,
            Some(tz),
        ) && tz@ != zone@),
        engine_conversion(v, t) == Err::<EngineValue, ConversionRefusal>(
            ConversionRefusal::ScaleMismatch,
        ) <==> (v matches ScalarShape::Decimal { scale } && t matches ArrowType::Decimal128(
            _,
            s,
        ) && s != scale),
{
}

/// The same string, owned.
fn copy_string(s: &String) -> (r: String)
    ensures
        r@ == s@,
{
    s.clone()
}

/// Decides the conversion of a wire value of shape `v` to the engine value
/// of type `t`.
pub fn into_engine(v: &ScalarShape, t: &ArrowType) -> (r: Result<EngineValue, ConversionRefusal>)
    ensures
        match (r, engine_conversion(*v, *t)) {
            (Ok(EngineValue::Timestamp(u1, Some(z1))), Ok(EngineValue::Timestamp(u2, Some(z2)))) => u1
                == u2 && z1@ == z2@,
            (a, b) => a == b,
        },
{
    match (v, t) {
        (ScalarShape::Null, _) => Ok(EngineValue::TypedNull),
        (ScalarShape::Bool, ArrowType::Boolean) => Ok(EngineValue::Boolean),
        (ScalarShape::Int2, ArrowType::Int8) => Ok(EngineValue::Int8),
        (ScalarShape::Int2, ArrowType::Int16) => Ok(EngineValue::Int16),
        (ScalarShape::Int4, ArrowType::Int32) => Ok(EngineValue::Int32),
        (ScalarShape::Int8, ArrowType::Int64) => Ok(EngineValue::Int64),
        (ScalarShape::Float4, ArrowType::Float32) => Ok(EngineValue::Float32),
        (ScalarShape::Float8, ArrowType::Float64) => Ok(EngineValue::Float64),
        (ScalarShape::Text, ArrowType::Utf8) => Ok(EngineValue::Utf8),
        (ScalarShape::Bytea, ArrowType::Binary) => Ok(EngineValue::Binary),
        (ScalarShape::Timestamp, ArrowType::Timestamp(unit, None)) => Ok(
            EngineValue::Timestamp(*unit, None),
        ),
        (ScalarShape::TimestampTz { zone }, ArrowType::Timestamp(unit, Some(tz))) => {
            if crate::text::str_eq(tz.as_str(), zone.as_str()) {
                Ok(EngineValue::Timestamp(*unit, Some(copy_string(tz))))
            } else {
                Err(ConversionRefusal::ZoneMismatch)
            }
        },
        (ScalarShape::Time, ArrowType::Time32(TimeUnit::Second)) => Ok(
            EngineValue::Time32(TimeUnit::Second),
        ),
        (ScalarShape::Time, ArrowType::Time32(TimeUnit::Millisecond)) => Ok(
            EngineValue::Time32(TimeUnit::Millisecond),
        ),
        (ScalarShape::Time, ArrowType::Time64(TimeUnit::Microsecond)) => Ok(
            EngineValue::Time64(TimeUnit::Microsecond),
        ),
        (ScalarShape::Time, ArrowType::Time64(TimeUnit::Nanosecond)) => Ok(
            EngineValue::Time64(TimeUnit::Nanosecond),
        ),
        (ScalarShape::Date, ArrowType::Date32) => Ok(EngineValue::Date32),
        (ScalarShape::Decimal { scale }, ArrowType::Decimal128(p, s)) => {
            if *scale == *s {
                Ok(EngineValue::Decimal128(*p, *s))
            } else {
                Err(ConversionRefusal::ScaleMismatch)
            }
        },
        _ => Err(ConversionRefusal::Unsupported),
    }
}

/// Seconds since midnight of a time of day.
pub open spec fn time_seconds(v: NaiveTime) -> int {
    time_hour(v) * 3600 + time_minute(v) * 60 + time_second(v)
}

/// A time of day counted in a unit: whole seconds since midnight, scaled to
/// the unit, plus the part of the second in that unit (rounded down).
pub open spec fn time_in_unit(v: NaiveTime, unit: TimeUnit) -> int {
    let s = time_seconds(v);
    let n = time_nanosecond(v) as int;
    match unit {
        TimeUnit::Second => s,
        TimeUnit::Millisecond => s * 1000 + n / 1_000_000,
        TimeUnit::Microsecond => s * 1_000_000 + n / 1000,
        TimeUnit::Nanosecond => s * 1_000_000_000 + n,
    }
}

/// The value of a time of day as a 32-bit time: whole seconds, or
/// milliseconds.
pub fn time32_value(v: &NaiveTime, unit: TimeUnit) -> (r: i32)
    requires
        unit == TimeUnit::Second || unit == TimeUnit::Millisecond,
    ensures
        r == time_in_unit(*v, unit),
{
    // The ranges of the hour, minute and second bound the seconds.
    let _h = hour(v);
    let _m = minute(v);
    let _s = second(v);
    let secs = seconds_from_midnight(v);
    assert(secs < 86400);
    match unit {
        TimeUnit::Second => secs as i32,
        _ => {
            let sub_millis = (nanosecond(v) / 1_000_000) as i32;
            (secs as i32) * 1000 + sub_millis
        },
    }
}

/// The value of a time of day as a 64-bit time: microseconds or
/// nanoseconds.
pub fn time64_value(v: &NaiveTime, unit: TimeUnit) -> (r: i64)
    requires
        unit == TimeUnit::Microsecond || unit == TimeUnit::Nanosecond,
    ensures
        r == time_in_unit(*v, unit),
{
    // The ranges of the hour, minute and second bound the seconds.
    let _h = hour(v);
    let _m = minute(v);
    let _s = second(v);
    let secs = seconds_from_midnight(v) as i64;
    let nanos = nanosecond(v);
    match unit {
        TimeUnit::Microsecond => secs * 1_000_000 + (nanos / 1000) as i64,
        _ => secs * 1_000_000_000 + nanos as i64,
    }
}

} // verus!
