//! The wire type announced for an Arrow column.
use tokio_postgres::types::Type;
use vstd::prelude::*;

use crate::arrow::ArrowType;
use crate::pg_type_oid::{arrow_to_pg_oid, arrow_type_oid};

verus! {

#[verifier::external_type_specification]
#[verifier::external_body]
pub struct ExPgType(Type);

/// The built-in wire type with this OID, if the Postgres client library has
/// one.
pub uninterp spec fn wire_type_for_oid(oid: u32) -> Option<Type>;

/// The OID of a wire type.
pub uninterp spec fn wire_type_oid(t: Type) -> u32;

/// The built-in wire type for an OID. Trusted: calls
/// `tokio_postgres::types::Type::from_oid`, whose table maps each known OID
/// to the type whose `oid()` is that OID, `text` (25) among them.
#[verifier::external_body]
fn type_from_oid(oid: u32) -> (r: Option<Type>)
    ensures
        r == wire_type_for_oid(oid),
        r matches Some(t) ==> wire_type_oid(t) == oid,
        oid == 25 ==> r is Some,
{
    Type::from_oid(oid)
}

/// The OID of a wire type. Trusted: calls
/// `tokio_postgres::types::Type::oid`.
#[verifier::external_body]
pub(crate) fn type_oid(t: &Type) -> (r: u32)
    ensures
        r == wire_type_oid(*t),
{
    t.oid()
}

/// The wire type for an Arrow type: the hint when there is one, otherwise
/// the built-in type with the Arrow type's OID, or `text` when the client
/// library has no type with that OID.
pub fn arrow_to_pg_type(df_type: &ArrowType, type_hint: Option<Type>) -> (r: Type)
    ensures
        match type_hint {
            Some(h) => r == h,
            None => match wire_type_for_oid(arrow_type_oid(*df_type)) {
                Some(t) => r == t && wire_type_oid(r) == arrow_type_oid(*df_type),
                None => r == wire_type_for_oid(25)->0 && wire_type_oid(r) == 25,
            },
        },
{
    match type_hint {
        Some(t) => t,
        None => {
            let oid = arrow_to_pg_oid(df_type);
            match type_from_oid(oid) {
                Some(t) => t,
                None => type_from_oid(25).unwrap(),
            }
        },
    }
}

} // verus!
