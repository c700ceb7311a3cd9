//! The Arrow schema announced for a Delta Lake table, from the Delta types
//! of its columns.
use vstd::prelude::*;

use crate::arrow::{ArrowType, Field, TimeUnit};
use crate::pg_type_oid::{arrow_float_width, arrow_int_width, arrow_type_oid};

verus! {

/// A primitive Delta Lake type.
#[derive(Debug, Clone, Copy, PartialEq, Eq, Structural)]
pub enum DeltaPrimitive {
    String,
    Long,
    Integer,
    Short,
    Byte,
    Float,
    Double,
    Boolean,
    Binary,
    Date,
    Timestamp,
    TimestampNtz,
    /// Precision and scale.
    Decimal(u8, u8),
}

/// A Delta Lake column type: a primitive, or a nested type.
#[derive(Debug, Clone, Copy, PartialEq, Eq, Structural)]
pub enum DeltaType {
    Primitive(DeltaPrimitive),
    Struct,
    Array,
    MapType,
}

/// A column of a Delta Lake table.
#[derive(Debug, Clone)]
pub struct DeltaField {
    pub name: String,
    pub data_type: DeltaType,
    pub nullable: bool,
}

/// Whether `a` is the Arrow type announced for the Delta type `t`: each
/// primitive has its Arrow counterpart (timestamps in microseconds, with
/// the UTC zone unless they carry no zone), and nested types, which travel
/// as JSON text, are announced as `Utf8`.
pub open spec fn arrow_of_delta(t: DeltaType, a: ArrowType) -> bool {
    match t {
        DeltaType::Primitive(p) => match p {
            DeltaPrimitive::String => a is Utf8,
            DeltaPrimitive::Long => a is Int64,
            DeltaPrimitive::Integer => a is Int32,
            DeltaPrimitive::Short => a is Int16,
            DeltaPrimitive::Byte => a is Int8,
            DeltaPrimitive::Float => a is Float32,
            DeltaPrimitive::Double => a is Float64,
            DeltaPrimitive::Boolean => a is Boolean,
            DeltaPrimitive::Binary => a is Binary,
            DeltaPrimitive::Date => a is Date32,
            DeltaPrimitive::Timestamp => a matches ArrowType::Timestamp(TimeUnit::Microsecond, Some(z))
                && z@ == "UTC"@,
            DeltaPrimitive::TimestampNtz => a matches ArrowType::Timestamp(
                TimeUnit::Microsecond,
                None,
            ),
            DeltaPrimitive::Decimal(precision, scale) => a matches ArrowType::Decimal128(p2, s2)
                && p2 == precision && s2 == scale as i8,
        },
        _ => a is Utf8,
    }
}

/// The Arrow type announced for a Delta type.
pub fn delta_to_arrow(t: DeltaType) -> (a: ArrowType)
    ensures
        arrow_of_delta(t, a),
{
    match t {
        DeltaType::Primitive(p) => match p {
            DeltaPrimitive::String => ArrowType::Utf8,
            DeltaPrimitive::Long => ArrowType::Int64,
            DeltaPrimitive::Integer => ArrowType::Int32,
            DeltaPrimitive::Short => ArrowType::Int16,
            DeltaPrimitive::Byte => ArrowType::Int8,
            DeltaPrimitive::Float => ArrowType::Float32,
            DeltaPrimitive::Double => ArrowType::Float64,
            DeltaPrimitive::Boolean => ArrowType::Boolean,
            DeltaPrimitive::Binary => ArrowType::Binary,
            DeltaPrimitive::Date => ArrowType::Date32,
            DeltaPrimitive::Timestamp => ArrowType::Timestamp(
                TimeUnit::Microsecond,
                Some("UTC".to_owned()),
            ),
            DeltaPrimitive::TimestampNtz => ArrowType::Timestamp(TimeUnit::Microsecond, None),
            DeltaPrimitive::Decimal(precision, scale) => ArrowType::Decimal128(
                precision,
                scale as i8,
            ),
        },
        _ => ArrowType::Utf8,
    }
}

/// The Arrow fields announced for a Delta table's columns: one per column,
/// in order, with the column's name, its announced type and its
/// nullability.
pub fn delta_schema_fields(columns: &[DeltaField]) -> (fields: Vec<Field>)
    ensures
        fields.len() == columns.len(),
        forall|i: int|
            0 <= i < columns.len() ==> {
                &&& (#[trigger] fields[i]).name@ == columns[i].name@
                &&& fields[i].nullable == columns[i].nullable
                &&& arrow_of_delta(columns[i].data_type, fields[i].data_type)
            },
{
    let mut fields: Vec<Field> = Vec::new();
    let mut i: usize = 0;
    while i < columns.len()
        invariant
            i <= columns.len(),
            fields.len() == i,
            forall|k: int|
                0 <= k < i ==> {
                    &&& (#[trigger] fields[k]).name@ == columns[k].name@
                    &&& fields[k].nullable == columns[k].nullable
                    &&& arrow_of_delta(columns[k].data_type, fields[k].data_type)
                },
        decreases columns.len() - i,
    {
        let c = &columns[i];
        let f = Field {
            name: c.name.clone(),
            data_type: delta_to_arrow(c.data_type),
            nullable: c.nullable,
        };
        fields.push(f);
        i = i + 1;
    }
    fields
}

/// The byte width of a Delta integer type (`byte`, `short`, `integer`,
/// `long`).
pub open spec fn delta_int_width(p: DeltaPrimitive) -> Option<int> {
    match p {
        DeltaPrimitive::Byte => Some(1),
        DeltaPrimitive::Short => Some(2),
        DeltaPrimitive::Integer => Some(4),
        DeltaPrimitive::Long => Some(8),
        _ => None,
    }
}

/// The byte width of a Delta floating-point type (`float`, `double`).
pub open spec fn delta_float_width(p: DeltaPrimitive) -> Option<int> {
    match p {
        DeltaPrimitive::Float => Some(4),
        DeltaPrimitive::Double => Some(8),
        _ => None,
    }
}

/// Numbers keep their kind and width: a Delta integer column is announced as
/// the Arrow integer of the same width, a Delta float or double as the Arrow
/// float of the same width; text, dates and timestamps keep their Postgres
/// type (`text`, `date`, `timestamp`, `timestamptz`), and nested columns
/// travel as text.
pub proof fn lemma_delta_types_keep_kind(p: DeltaPrimitive, a: ArrowType)
    requires
        arrow_of_delta(DeltaType::Primitive(p), a),
    ensures
        delta_int_width(p) matches Some(w) ==> arrow_int_width(a) == Some(w) && arrow_float_width(a) is None,
        delta_float_width(p) matches Some(w) ==> arrow_float_width(a) == Some(w) && arrow_int_width(a) is None,
        p == DeltaPrimitive::String ==> arrow_type_oid(a) == 25,
        p == DeltaPrimitive::Date ==> arrow_type_oid(a) == 1082,
        p == DeltaPrimitive::Timestamp ==> arrow_type_oid(a) == 1184,
        p == DeltaPrimitive::TimestampNtz ==> arrow_type_oid(a) == 1114,
        p == DeltaPrimitive::Boolean ==> arrow_type_oid(a) == 16,
        p == DeltaPrimitive::Binary ==> arrow_type_oid(a) == 17,
        delta_int_width(p) is Some ==> (a is Int8 || a is Int16 || a is Int32 || a is Int64),
        (p == DeltaPrimitive::Timestamp || p == DeltaPrimitive::TimestampNtz) ==> (
        a matches ArrowType::Timestamp(u, _) && u == TimeUnit::Microsecond),
        p == DeltaPrimitive::Timestamp ==> (a matches ArrowType::Timestamp(_, Some(z)) && z@
            == "UTC"@),
        p matches DeltaPrimitive::Decimal(pr, sc) ==> {
            &&& arrow_type_oid(a) == 1700
            &&& a matches ArrowType::Decimal128(p2, s2)
            &&& p2 == pr
            &&& s2 == sc as i8
        },
{
}

/// Nested Delta columns are announced as text.
pub proof fn lemma_nested_delta_columns_are_text(t: DeltaType, a: ArrowType)
    requires
        !(t is Primitive),
        arrow_of_delta(t, a),
    ensures
        arrow_type_oid(a) == 25,
{
}

} // verus!
