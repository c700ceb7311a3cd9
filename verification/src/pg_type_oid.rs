//! The static table of PostgreSQL types exposed in `pg_catalog.pg_type`, and
//! the mapping of Arrow types (and their names) to Postgres OIDs.
use vstd::prelude::*;

use crate::arrow::{ArrowType, Field};
use crate::text::{
    chars_of, contains_chars, end_non_space, first_non_space, is_space, is_text, lemma_end_le_len,
    lemma_first_le_len, lemma_trim_not_longer, lemma_utf8_offset_step, seq_contains, slice_chars,
    str_eq, trim_chars, trim_seq, utf8_offset, utf8_width_exec,
};

verus! {

/// PostgreSQL type metadata; every field maps to the `pg_type` column of the
/// same name.
#[derive(Debug, Clone, Copy)]
pub struct PgTypeInfo {
    pub oid: u32,
    pub name: &'static str,
    pub typlen: i16,
    pub typbyval: bool,
    pub typtype: char,
    pub typcategory: char,
    pub typispreferred: bool,
    pub typisdefined: bool,
    pub typdelim: char,
    pub typelem: u32,
    pub typarray: u32,
    pub typalign: char,
    pub typstorage: char,
}

impl PgTypeInfo {
    /// True if this type represents a Postgres array.
    pub fn is_array(&self) -> (r: bool)
        ensures
            r == (self.typelem != 0),
    {
        self.typelem != 0
    }
}

/// Number of rows in the type table.
pub open spec fn pg_types_len() -> int {
    98
}

/// Row `i` of the type table (upstream PostgreSQL OIDs).
pub open spec fn pg_type_row(i: int) -> PgTypeInfo {
    if i == 0 {
        PgTypeInfo { oid: 16, name: "bool", typlen: 1i16, typbyval: true, typtype: 'b', typcategory: 'B', typispreferred: true, typisdefined: true, typdelim: ',', typelem: 0, typarray: 1000, typalign: 'c', typstorage: 'p' }
    } else if i == 1 {
        PgTypeInfo { oid: 17, name: "bytea", typlen: -1i16, typbyval: false, typtype: 'b', typcategory: 'U', typispreferred: false, typisdefined: true, typdelim: ',', typelem: 0, typarray: 1001, typalign: 'i', typstorage: 'x' }
    } else if i == 2 {
        PgTypeInfo { oid: 18, name: "char", typlen: 1i16, typbyval: true, typtype: 'b', typcategory: 'S', typispreferred: false, typisdefined: true, typdelim: ',', typelem: 0, typarray: 1002, typalign: 'c', typstorage: 'p' }
    } else if i == 3 {
        PgTypeInfo { oid: 19, name: "name", typlen: 64i16, typbyval: false, typtype: 'b', typcategory: 'S', typispreferred: false, typisdefined: true, typdelim: ',', typelem: 18, typarray: 1003, typalign: 'c', typstorage: 'p' }
    } else if i == 4 {
        PgTypeInfo { oid: 20, name: "int8", typlen: 8i16, typbyval: true, typtype: 'b', typcategory: 'N', typispreferred: false, typisdefined: true, typdelim: ',', typelem: 0, typarray: 1016, typalign: 'd', typstorage: 'p' }
    } else if i == 5 {
        PgTypeInfo { oid: 21, name: "int2", typlen: 2i16, typbyval: true, typtype: 'b', typcategory: 'N', typispreferred: false, typisdefined: true, typdelim: ',', typelem: 0, typarray: 1005, typalign: 's', typstorage: 'p' }
    } else if i == 6 {
        PgTypeInfo { oid: 22, name: "int2vector", typlen: -1i16, typbyval: false, typtype: 'b', typcategory: 'A', typispreferred: false, typisdefined: true, typdelim: ',', typelem: 21, typarray: 1006, typalign: 'i', typstorage: 'p' }
    } else if i == 7 {
        PgTypeInfo { oid: 23, name: "int4", typlen: 4i16, typbyval: true, typtype: 'b', typcategory: 'N', typispreferred: false, typisdefined: true, typdelim: ',', typelem: 0, typarray: 1007, typalign: 'i', typstorage: 'p' }
    } else if i == 8 {
        PgTypeInfo { oid: 24, name: "regproc", typlen: 4i16, typbyval: true, typtype: 'b', typcategory: 'N', typispreferred: false, typisdefined: true, typdelim: ',', typelem: 0, typarray: 1008, typalign: 'i', typstorage: 'p' }
    } else if i == 9 {
        PgTypeInfo { oid: 25, name: "text", typlen: -1i16, typbyval: false, typtype: 'b', typcategory: 'S', typispreferred: true, typisdefined: true, typdelim: ',', typelem: 0, typarray: 1009, typalign: 'i', typstorage: 'x' }
    } else if i == 10 {
        PgTypeInfo { oid: 26, name: "oid", typlen: 4i16, typbyval: true, typtype: 'b', typcategory: 'N', typispreferred: true, typisdefined: true, typdelim: ',', typelem: 0, typarray: 1028, typalign: 'i', typstorage: 'p' }
    } else if i == 11 {
        PgTypeInfo { oid: 27, name: "tid", typlen: 6i16, typbyval: false, typtype: 'b', typcategory: 'U', typispreferred: false, typisdefined: true, typdelim: ',', typelem: 0, typarray: 1010, typalign: 's', typstorage: 'p' }
    } else if i == 12 {
        PgTypeInfo { oid: 28, name: "xid", typlen: 4i16, typbyval: true, typtype: 'b', typcategory: 'U', typispreferred: false, typisdefined: true, typdelim: ',', typelem: 0, typarray: 1011, typalign: 'i', typstorage: 'p' }
    } else if i == 13 {
        PgTypeInfo { oid: 29, name: "cid", typlen: 4i16, typbyval: true, typtype: 'b', typcategory: 'U', typispreferred: false, typisdefined: true, typdelim: ',', typelem: 0, typarray: 1012, typalign: 'i', typstorage: 'p' }
    } else if i == 14 {
        PgTypeInfo { oid: 30, name: "oidvector", typlen: -1i16, typbyval: false, typtype: 'b', typcategory: 'A', typispreferred: false, typisdefined: true, typdelim: ',', typelem: 26, typarray: 1013, typalign: 'i', typstorage: 'p' }
    } else if i == 15 {
        PgTypeInfo { oid: 194, name: "pg_node_tree", typlen: -1i16, typbyval: false, typtype: 'b', typcategory: 'S', typispreferred: false, typisdefined: true, typdelim: ',', typelem: 0, typarray: 0, typalign: 'i', typstorage: 'x' }
    } else if i == 16 {
        PgTypeInfo { oid: 114, name: "json", typlen: -1i16, typbyval: false, typtype: 'b', typcategory: 'U', typispreferred: false, typisdefined: true, typdelim: ',', typelem: 0, typarray: 199, typalign: 'i', typstorage: 'x' }
    } else if i == 17 {
        PgTypeInfo { oid: 142, name: "xml", typlen: -1i16, typbyval: false, typtype: 'b', typcategory: 'U', typispreferred: false, typisdefined: true, typdelim: ',', typelem: 0, typarray: 143, typalign: 'i', typstorage: 'x' }
    } else if i == 18 {
        PgTypeInfo { oid: 700, name: "float4", typlen: 4i16, typbyval: true, typtype: 'b', typcategory: 'N', typispreferred: false, typisdefined: true, typdelim: ',', typelem: 0, typarray: 1021, typalign: 'i', typstorage: 'p' }
    } else if i == 19 {
        PgTypeInfo { oid: 701, name: "float8", typlen: 8i16, typbyval: true, typtype: 'b', typcategory: 'N', typispreferred: true, typisdefined: true, typdelim: ',', typelem: 0, typarray: 1022, typalign: 'd', typstorage: 'p' }
    } else if i == 20 {
        PgTypeInfo { oid: 705, name: "unknown", typlen: -2i16, typbyval: false, typtype: 'p', typcategory: 'X', typispreferred: false, typisdefined: true, typdelim: ',', typelem: 0, typarray: 0, typalign: 'c', typstorage: 'p' }
    } else if i == 21 {
        PgTypeInfo { oid: 790, name: "money", typlen: 8i16, typbyval: true, typtype: 'b', typcategory: 'N', typispreferred: false, typisdefined: true, typdelim: ',', typelem: 0, typarray: 791, typalign: 'd', typstorage: 'p' }
    } else if i == 22 {
        PgTypeInfo { oid: 1042, name: "bpchar", typlen: -1i16, typbyval: false, typtype: 'b', typcategory: 'S', typispreferred: false, typisdefined: true, typdelim: ',', typelem: 0, typarray: 1014, typalign: 'i', typstorage: 'x' }
    } else if i == 23 {
        PgTypeInfo { oid: 1043, name: "varchar", typlen: -1i16, typbyval: false, typtype: 'b', typcategory: 'S', typispreferred: false, typisdefined: true, typdelim: ',', typelem: 0, typarray: 1015, typalign: 'i', typstorage: 'x' }
    } else if i == 24 {
        PgTypeInfo { oid: 1082, name: "date", typlen: 4i16, typbyval: true, typtype: 'b', typcategory: 'D', typispreferred: false, typisdefined: true, typdelim: ',', typelem: 0, typarray: 1182, typalign: 'i', typstorage: 'p' }
    } else if i == 25 {
        PgTypeInfo { oid: 1083, name: "time", typlen: 8i16, typbyval: true, typtype: 'b', typcategory: 'D', typispreferred: false, typisdefined: true, typdelim: ',', typelem: 0, typarray: 1183, typalign: 'd', typstorage: 'p' }
    } else if i == 26 {
        PgTypeInfo { oid: 1114, name: "timestamp", typlen: 8i16, typbyval: true, typtype: 'b', typcategory: 'D', typispreferred: false, typisdefined: true, typdelim: ',', typelem: 0, typarray: 1115, typalign: 'd', typstorage: 'p' }
    } else if i == 27 {
        PgTypeInfo { oid: 1184, name: "timestamptz", typlen: 8i16, typbyval: true, typtype: 'b', typcategory: 'D', typispreferred: true, typisdefined: true, typdelim: ',', typelem: 0, typarray: 1185, typalign: 'd', typstorage: 'p' }
    } else if i == 28 {
        PgTypeInfo { oid: 1186, name: "interval", typlen: 16i16, typbyval: false, typtype: 'b', typcategory: 'T', typispreferred: true, typisdefined: true, typdelim: ',', typelem: 0, typarray: 1187, typalign: 'd', typstorage: 'p' }
    } else if i == 29 {
        PgTypeInfo { oid: 1266, name: "timetz", typlen: 12i16, typbyval: false, typtype: 'b', typcategory: 'D', typispreferred: false, typisdefined: true, typdelim: ',', typelem: 0, typarray: 1270, typalign: 'd', typstorage: 'p' }
    } else if i == 30 {
        PgTypeInfo { oid: 1560, name: "bit", typlen: -1i16, typbyval: false, typtype: 'b', typcategory: 'V', typispreferred: false, typisdefined: true, typdelim: ',', typelem: 0, typarray: 1561, typalign: 'i', typstorage: 'x' }
    } else if i == 31 {
        PgTypeInfo { oid: 1562, name: "varbit", typlen: -1i16, typbyval: false, typtype: 'b', typcategory: 'V', typispreferred: true, typisdefined: true, typdelim: ',', typelem: 0, typarray: 1563, typalign: 'i', typstorage: 'x' }
    } else if i == 32 {
        PgTypeInfo { oid: 1700, name: "numeric", typlen: -1i16, typbyval: false, typtype: 'b', typcategory: 'N', typispreferred: false, typisdefined: true, typdelim: ',', typelem: 0, typarray: 1231, typalign: 'i', typstorage: 'm' }
    } else if i == 33 {
        PgTypeInfo { oid: 2202, name: "regprocedure", typlen: 4i16, typbyval: true, typtype: 'b', typcategory: 'N', typispreferred: false, typisdefined: true, typdelim: ',', typelem: 0, typarray: 2207, typalign: 'i', typstorage: 'p' }
    } else if i == 34 {
        PgTypeInfo { oid: 2203, name: "regoper", typlen: 4i16, typbyval: true, typtype: 'b', typcategory: 'N', typispreferred: false, typisdefined: true, typdelim: ',', typelem: 0, typarray: 2208, typalign: 'i', typstorage: 'p' }
    } else if i == 35 {
        PgTypeInfo { oid: 2204, name: "regoperator", typlen: 4i16, typbyval: true, typtype: 'b', typcategory: 'N', typispreferred: false, typisdefined: true, typdelim: ',', typelem: 0, typarray: 2209, typalign: 'i', typstorage: 'p' }
    } else if i == 36 {
        PgTypeInfo { oid: 2205, name: "regclass", typlen: 4i16, typbyval: true, typtype: 'b', typcategory: 'N', typispreferred: false, typisdefined: true, typdelim: ',', typelem: 0, typarray: 2210, typalign: 'i', typstorage: 'p' }
    } else if i == 37 {
        PgTypeInfo { oid: 2206, name: "regtype", typlen: 4i16, typbyval: true, typtype: 'b', typcategory: 'N', typispreferred: false, typisdefined: true, typdelim: ',', typelem: 0, typarray: 2211, typalign: 'i', typstorage: 'p' }
    } else if i == 38 {
        PgTypeInfo { oid: 4096, name: "regrole", typlen: 4i16, typbyval: true, typtype: 'b', typcategory: 'N', typispreferred: false, typisdefined: true, typdelim: ',', typelem: 0, typarray: 4097, typalign: 'i', typstorage: 'p' }
    } else if i == 39 {
        PgTypeInfo { oid: 4089, name: "regnamespace", typlen: 4i16, typbyval: true, typtype: 'b', typcategory: 'N', typispreferred: false, typisdefined: true, typdelim: ',', typelem: 0, typarray: 4090, typalign: 'i', typstorage: 'p' }
    } else if i == 40 {
        PgTypeInfo { oid: 3734, name: "regconfig", typlen: 4i16, typbyval: true, typtype: 'b', typcategory: 'N', typispreferred: false, typisdefined: true, typdelim: ',', typelem: 0, typarray: 3735, typalign: 'i', typstorage: 'p' }
    } else if i == 41 {
        PgTypeInfo { oid: 3769, name: "regdictionary", typlen: 4i16, typbyval: true, typtype: 'b', typcategory: 'N', typispreferred: false, typisdefined: true, typdelim: ',', typelem: 0, typarray: 3770, typalign: 'i', typstorage: 'p' }
    } else if i == 42 {
        PgTypeInfo { oid: 2249, name: "record", typlen: -1i16, typbyval: false, typtype: 'p', typcategory: 'P', typispreferred: false, typisdefined: true, typdelim: ',', typelem: 0, typarray: 2287, typalign: 'd', typstorage: 'x' }
    } else if i == 43 {
        PgTypeInfo { oid: 2275, name: "cstring", typlen: -2i16, typbyval: false, typtype: 'p', typcategory: 'P', typispreferred: false, typisdefined: true, typdelim: ',', typelem: 0, typarray: 1263, typalign: 'c', typstorage: 'p' }
    } else if i == 44 {
        PgTypeInfo { oid: 2276, name: "any", typlen: 4i16, typbyval: true, typtype: 'p', typcategory: 'P', typispreferred: false, typisdefined: true, typdelim: ',', typelem: 0, typarray: 0, typalign: 'i', typstorage: 'p' }
    } else if i == 45 {
        PgTypeInfo { oid: 2277, name: "anyarray", typlen: -1i16, typbyval: false, typtype: 'p', typcategory: 'P', typispreferred: false, typisdefined: true, typdelim: ',', typelem: 0, typarray: 0, typalign: 'd', typstorage: 'x' }
    } else if i == 46 {
        PgTypeInfo { oid: 2278, name: "void", typlen: 4i16, typbyval: true, typtype: 'p', typcategory: 'P', typispreferred: false, typisdefined: true, typdelim: ',', typelem: 0, typarray: 0, typalign: 'i', typstorage: 'p' }
    } else if i == 47 {
        PgTypeInfo { oid: 2279, name: "trigger", typlen: 4i16, typbyval: true, typtype: 'p', typcategory: 'P', typispreferred: false, typisdefined: true, typdelim: ',', typelem: 0, typarray: 0, typalign: 'i', typstorage: 'p' }
    } else if i == 48 {
        PgTypeInfo { oid: 2281, name: "internal", typlen: 8i16, typbyval: true, typtype: 'p', typcategory: 'P', typispreferred: false, typisdefined: true, typdelim: ',', typelem: 0, typarray: 0, typalign: 'd', typstorage: 'p' }
    } else if i == 49 {
        PgTypeInfo { oid: 2283, name: "anyelement", typlen: 4i16, typbyval: true, typtype: 'p', typcategory: 'P', typispreferred: false, typisdefined: true, typdelim: ',', typelem: 0, typarray: 0, typalign: 'i', typstorage: 'p' }
    } else if i == 50 {
        PgTypeInfo { oid: 2950, name: "uuid", typlen: 16i16, typbyval: false, typtype: 'b', typcategory: 'U', typispreferred: false, typisdefined: true, typdelim: ',', typelem: 0, typarray: 2951, typalign: 'c', typstorage: 'p' }
    } else if i == 51 {
        PgTypeInfo { oid: 3802, name: "jsonb", typlen: -1i16, typbyval: false, typtype: 'b', typcategory: 'U', typispreferred: true, typisdefined: true, typdelim: ',', typelem: 0, typarray: 3807, typalign: 'i', typstorage: 'x' }
    } else if i == 52 {
        PgTypeInfo { oid: 4072, name: "jsonpath", typlen: -1i16, typbyval: false, typtype: 'b', typcategory: 'U', typispreferred: false, typisdefined: true, typdelim: ',', typelem: 0, typarray: 4073, typalign: 'i', typstorage: 'x' }
    } else if i == 53 {
        PgTypeInfo { oid: 1000, name: "_bool", typlen: -1i16, typbyval: false, typtype: 'b', typcategory: 'A', typispreferred: false, typisdefined: true, typdelim: ',', typelem: 16, typarray: 0, typalign: 'i', typstorage: 'x' }
    } else if i == 54 {
        PgTypeInfo { oid: 1001, name: "_bytea", typlen: -1i16, typbyval: false, typtype: 'b', typcategory: 'A', typispreferred: false, typisdefined: true, typdelim: ',', typelem: 17, typarray: 0, typalign: 'i', typstorage: 'x' }
    } else if i == 55 {
        PgTypeInfo { oid: 1002, name: "_char", typlen: -1i16, typbyval: false, typtype: 'b', typcategory: 'A', typispreferred: false, typisdefined: true, typdelim: ',', typelem: 18, typarray: 0, typalign: 'i', typstorage: 'x' }
    } else if i == 56 {
        PgTypeInfo { oid: 1003, name: "_name", typlen: -1i16, typbyval: false, typtype: 'b', typcategory: 'A', typispreferred: false, typisdefined: true, typdelim: ',', typelem: 19, typarray: 0, typalign: 'i', typstorage: 'x' }
    } else if i == 57 {
        PgTypeInfo { oid: 1005, name: "_int2", typlen: -1i16, typbyval: false, typtype: 'b', typcategory: 'A', typispreferred: false, typisdefined: true, typdelim: ',', typelem: 21, typarray: 0, typalign: 'i', typstorage: 'x' }
    } else if i == 58 {
        PgTypeInfo { oid: 1006, name: "_int2vector", typlen: -1i16, typbyval: false, typtype: 'b', typcategory: 'A', typispreferred: false, typisdefined: true, typdelim: ',', typelem: 22, typarray: 0, typalign: 'i', typstorage: 'x' }
    } else if i == 59 {
        PgTypeInfo { oid: 1007, name: "_int4", typlen: -1i16, typbyval: false, typtype: 'b', typcategory: 'A', typispreferred: false, typisdefined: true, typdelim: ',', typelem: 23, typarray: 0, typalign: 'i', typstorage: 'x' }
    } else if i == 60 {
        PgTypeInfo { oid: 1008, name: "_regproc", typlen: -1i16, typbyval: false, typtype: 'b', typcategory: 'A', typispreferred: false, typisdefined: true, typdelim: ',', typelem: 24, typarray: 0, typalign: 'i', typstorage: 'x' }
    } else if i == 61 {
        PgTypeInfo { oid: 1009, name: "_text", typlen: -1i16, typbyval: false, typtype: 'b', typcategory: 'A', typispreferred: false, typisdefined: true, typdelim: ',', typelem: 25, typarray: 0, typalign: 'i', typstorage: 'x' }
    } else if i == 62 {
        PgTypeInfo { oid: 1010, name: "_tid", typlen: -1i16, typbyval: false, typtype: 'b', typcategory: 'A', typispreferred: false, typisdefined: true, typdelim: ',', typelem: 27, typarray: 0, typalign: 'i', typstorage: 'x' }
    } else if i == 63 {
        PgTypeInfo { oid: 1011, name: "_xid", typlen: -1i16, typbyval: false, typtype: 'b', typcategory: 'A', typispreferred: false, typisdefined: true, typdelim: ',', typelem: 28, typarray: 0, typalign: 'i', typstorage: 'x' }
    } else if i == 64 {
        PgTypeInfo { oid: 1012, name: "_cid", typlen: -1i16, typbyval: false, typtype: 'b', typcategory: 'A', typispreferred: false, typisdefined: true, typdelim: ',', typelem: 29, typarray: 0, typalign: 'i', typstorage: 'x' }
    } else if i == 65 {
        PgTypeInfo { oid: 1013, name: "_oidvector", typlen: -1i16, typbyval: false, typtype: 'b', typcategory: 'A', typispreferred: false, typisdefined: true, typdelim: ',', typelem: 30, typarray: 0, typalign: 'i', typstorage: 'x' }
    } else if i == 66 {
        PgTypeInfo { oid: 1014, name: "_bpchar", typlen: -1i16, typbyval: false, typtype: 'b', typcategory: 'A', typispreferred: false, typisdefined: true, typdelim: ',', typelem: 1042, typarray: 0, typalign: 'i', typstorage: 'x' }
    } else if i == 67 {
        PgTypeInfo { oid: 1015, name: "_varchar", typlen: -1i16, typbyval: false, typtype: 'b', typcategory: 'A', typispreferred: false, typisdefined: true, typdelim: ',', typelem: 1043, typarray: 0, typalign: 'i', typstorage: 'x' }
    } else if i == 68 {
        PgTypeInfo { oid: 1016, name: "_int8", typlen: -1i16, typbyval: false, typtype: 'b', typcategory: 'A', typispreferred: false, typisdefined: true, typdelim: ',', typelem: 20, typarray: 0, typalign: 'd', typstorage: 'x' }
    } else if i == 69 {
        PgTypeInfo { oid: 1021, name: "_float4", typlen: -1i16, typbyval: false, typtype: 'b', typcategory: 'A', typispreferred: false, typisdefined: true, typdelim: ',', typelem: 700, typarray: 0, typalign: 'i', typstorage: 'x' }
    } else if i == 70 {
        PgTypeInfo { oid: 1022, name: "_float8", typlen: -1i16, typbyval: false, typtype: 'b', typcategory: 'A', typispreferred: false, typisdefined: true, typdelim: ',', typelem: 701, typarray: 0, typalign: 'd', typstorage: 'x' }
    } else if i == 71 {
        PgTypeInfo { oid: 1028, name: "_oid", typlen: -1i16, typbyval: false, typtype: 'b', typcategory: 'A', typispreferred: false, typisdefined: true, typdelim: ',', typelem: 26, typarray: 0, typalign: 'i', typstorage: 'x' }
    } else if i == 72 {
        PgTypeInfo { oid: 1115, name: "_timestamp", typlen: -1i16, typbyval: false, typtype: 'b', typcategory: 'A', typispreferred: false, typisdefined: true, typdelim: ',', typelem: 1114, typarray: 0, typalign: 'd', typstorage: 'x' }
    } else if i == 73 {
        PgTypeInfo { oid: 1182, name: "_date", typlen: -1i16, typbyval: false, typtype: 'b', typcategory: 'A', typispreferred: false, typisdefined: true, typdelim: ',', typelem: 1082, typarray: 0, typalign: 'i', typstorage: 'x' }
    } else if i == 74 {
        PgTypeInfo { oid: 1183, name: "_time", typlen: -1i16, typbyval: false, typtype: 'b', typcategory: 'A', typispreferred: false, typisdefined: true, typdelim: ',', typelem: 1083, typarray: 0, typalign: 'd', typstorage: 'x' }
    } else if i == 75 {
        PgTypeInfo { oid: 1185, name: "_timestamptz", typlen: -1i16, typbyval: false, typtype: 'b', typcategory: 'A', typispreferred: false, typisdefined: true, typdelim: ',', typelem: 1184, typarray: 0, typalign: 'd', typstorage: 'x' }
    } else if i == 76 {
        PgTypeInfo { oid: 1187, name: "_interval", typlen: -1i16, typbyval: false, typtype: 'b', typcategory: 'A', typispreferred: false, typisdefined: true, typdelim: ',', typelem: 1186, typarray: 0, typalign: 'd', typstorage: 'x' }
    } else if i == 77 {
        PgTypeInfo { oid: 1231, name: "_numeric", typlen: -1i16, typbyval: false, typtype: 'b', typcategory: 'A', typispreferred: false, typisdefined: true, typdelim: ',', typelem: 1700, typarray: 0, typalign: 'i', typstorage: 'x' }
    } else if i == 78 {
        PgTypeInfo { oid: 1263, name: "_cstring", typlen: -1i16, typbyval: false, typtype: 'b', typcategory: 'A', typispreferred: false, typisdefined: true, typdelim: ',', typelem: 2275, typarray: 0, typalign: 'i', typstorage: 'x' }
    } else if i == 79 {
        PgTypeInfo { oid: 1270, name: "_timetz", typlen: -1i16, typbyval: false, typtype: 'b', typcategory: 'A', typispreferred: false, typisdefined: true, typdelim: ',', typelem: 1266, typarray: 0, typalign: 'd', typstorage: 'x' }
    } else if i == 80 {
        PgTypeInfo { oid: 1561, name: "_bit", typlen: -1i16, typbyval: false, typtype: 'b', typcategory: 'A', typispreferred: false, typisdefined: true, typdelim: ',', typelem: 1560, typarray: 0, typalign: 'i', typstorage: 'x' }
    } else if i == 81 {
        PgTypeInfo { oid: 1563, name: "_varbit", typlen: -1i16, typbyval: false, typtype: 'b', typcategory: 'A', typispreferred: false, typisdefined: true, typdelim: ',', typelem: 1562, typarray: 0, typalign: 'i', typstorage: 'x' }
    } else if i == 82 {
        PgTypeInfo { oid: 199, name: "_json", typlen: -1i16, typbyval: false, typtype: 'b', typcategory: 'A', typispreferred: false, typisdefined: true, typdelim: ',', typelem: 114, typarray: 0, typalign: 'i', typstorage: 'x' }
    } else if i == 83 {
        PgTypeInfo { oid: 143, name: "_xml", typlen: -1i16, typbyval: false, typtype: 'b', typcategory: 'A', typispreferred: false, typisdefined: true, typdelim: ',', typelem: 142, typarray: 0, typalign: 'i', typstorage: 'x' }
    } else if i == 84 {
        PgTypeInfo { oid: 791, name: "_money", typlen: -1i16, typbyval: false, typtype: 'b', typcategory: 'A', typispreferred: false, typisdefined: true, typdelim: ',', typelem: 790, typarray: 0, typalign: 'd', typstorage: 'x' }
    } else if i == 85 {
        PgTypeInfo { oid: 2207, name: "_regprocedure", typlen: -1i16, typbyval: false, typtype: 'b', typcategory: 'A', typispreferred: false, typisdefined: true, typdelim: ',', typelem: 2202, typarray: 0, typalign: 'i', typstorage: 'x' }
    } else if i == 86 {
        PgTypeInfo { oid: 2208, name: "_regoper", typlen: -1i16, typbyval: false, typtype: 'b', typcategory: 'A', typispreferred: false, typisdefined: true, typdelim: ',', typelem: 2203, typarray: 0, typalign: 'i', typstorage: 'x' }
    } else if i == 87 {
        PgTypeInfo { oid: 2209, name: "_regoperator", typlen: -1i16, typbyval: false, typtype: 'b', typcategory: 'A', typispreferred: false, typisdefined: true, typdelim: ',', typelem: 2204, typarray: 0, typalign: 'i', typstorage: 'x' }
    } else if i == 88 {
        PgTypeInfo { oid: 2210, name: "_regclass", typlen: -1i16, typbyval: false, typtype: 'b', typcategory: 'A', typispreferred: false, typisdefined: true, typdelim: ',', typelem: 2205, typarray: 0, typalign: 'i', typstorage: 'x' }
    } else if i == 89 {
        PgTypeInfo { oid: 2211, name: "_regtype", typlen: -1i16, typbyval: false, typtype: 'b', typcategory: 'A', typispreferred: false, typisdefined: true, typdelim: ',', typelem: 2206, typarray: 0, typalign: 'i', typstorage: 'x' }
    } else if i == 90 {
        PgTypeInfo { oid: 2287, name: "_record", typlen: -1i16, typbyval: false, typtype: 'p', typcategory: 'P', typispreferred: false, typisdefined: true, typdelim: ',', typelem: 2249, typarray: 0, typalign: 'd', typstorage: 'x' }
    } else if i == 91 {
        PgTypeInfo { oid: 2951, name: "_uuid", typlen: -1i16, typbyval: false, typtype: 'b', typcategory: 'A', typispreferred: false, typisdefined: true, typdelim: ',', typelem: 2950, typarray: 0, typalign: 'i', typstorage: 'x' }
    } else if i == 92 {
        PgTypeInfo { oid: 3735, name: "_regconfig", typlen: -1i16, typbyval: false, typtype: 'b', typcategory: 'A', typispreferred: false, typisdefined: true, typdelim: ',', typelem: 3734, typarray: 0, typalign: 'i', typstorage: 'x' }
    } else if i == 93 {
        PgTypeInfo { oid: 3770, name: "_regdictionary", typlen: -1i16, typbyval: false, typtype: 'b', typcategory: 'A', typispreferred: false, typisdefined: true, typdelim: ',', typelem: 3769, typarray: 0, typalign: 'i', typstorage: 'x' }
    } else if i == 94 {
        PgTypeInfo { oid: 3807, name: "_jsonb", typlen: -1i16, typbyval: false, typtype: 'b', typcategory: 'A', typispreferred: false, typisdefined: true, typdelim: ',', typelem: 3802, typarray: 0, typalign: 'i', typstorage: 'x' }
    } else if i == 95 {
        PgTypeInfo { oid: 4073, name: "_jsonpath", typlen: -1i16, typbyval: false, typtype: 'b', typcategory: 'A', typispreferred: false, typisdefined: true, typdelim: ',', typelem: 4072, typarray: 0, typalign: 'i', typstorage: 'x' }
    } else if i == 96 {
        PgTypeInfo { oid: 4090, name: "_regnamespace", typlen: -1i16, typbyval: false, typtype: 'b', typcategory: 'A', typispreferred: false, typisdefined: true, typdelim: ',', typelem: 4089, typarray: 0, typalign: 'i', typstorage: 'x' }
    } else if i == 97 {
        PgTypeInfo { oid: 4097, name: "_regrole", typlen: -1i16, typbyval: false, typtype: 'b', typcategory: 'A', typispreferred: false, typisdefined: true, typdelim: ',', typelem: 4096, typarray: 0, typalign: 'i', typstorage: 'x' }
    } else {
        PgTypeInfo { oid: 4097, name: "_regrole", typlen: -1i16, typbyval: false, typtype: 'b', typcategory: 'A', typispreferred: false, typisdefined: true, typdelim: ',', typelem: 4096, typarray: 0, typalign: 'i', typstorage: 'x' }
    }
}

/// The whole type table.
pub open spec fn pg_type_table() -> Seq<PgTypeInfo> {
    Seq::new(pg_types_len() as nat, |i: int| pg_type_row(i))
}

/// Position in the table of the row with OID `oid`, or -1 when there is none.
pub open spec fn oid_position(oid: u32) -> int {
    match oid {
        16 => 0,
        17 => 1,
        18 => 2,
        19 => 3,
        20 => 4,
        21 => 5,
        22 => 6,
        23 => 7,
        24 => 8,
        25 => 9,
        26 => 10,
        27 => 11,
        28 => 12,
        29 => 13,
        30 => 14,
        194 => 15,
        114 => 16,
        142 => 17,
        700 => 18,
        701 => 19,
        705 => 20,
        790 => 21,
        1042 => 22,
        1043 => 23,
        1082 => 24,
        1083 => 25,
        1114 => 26,
        1184 => 27,
        1186 => 28,
        1266 => 29,
        1560 => 30,
        1562 => 31,
        1700 => 32,
        2202 => 33,
        2203 => 34,
        2204 => 35,
        2205 => 36,
        2206 => 37,
        4096 => 38,
        4089 => 39,
        3734 => 40,
        3769 => 41,
        2249 => 42,
        2275 => 43,
        2276 => 44,
        2277 => 45,
        2278 => 46,
        2279 => 47,
        2281 => 48,
        2283 => 49,
        2950 => 50,
        3802 => 51,
        4072 => 52,
        1000 => 53,
        1001 => 54,
        1002 => 55,
        1003 => 56,
        1005 => 57,
        1006 => 58,
        1007 => 59,
        1008 => 60,
        1009 => 61,
        1010 => 62,
        1011 => 63,
        1012 => 64,
        1013 => 65,
        1014 => 66,
        1015 => 67,
        1016 => 68,
        1021 => 69,
        1022 => 70,
        1028 => 71,
        1115 => 72,
        1182 => 73,
        1183 => 74,
        1185 => 75,
        1187 => 76,
        1231 => 77,
        1263 => 78,
        1270 => 79,
        1561 => 80,
        1563 => 81,
        199 => 82,
        143 => 83,
        791 => 84,
        2207 => 85,
        2208 => 86,
        2209 => 87,
        2210 => 88,
        2211 => 89,
        2287 => 90,
        2951 => 91,
        3735 => 92,
        3770 => 93,
        3807 => 94,
        4073 => 95,
        4090 => 96,
        4097 => 97,
        _ => -1,
    }
}

fn row_at(i: usize) -> (r: PgTypeInfo)
    requires
        i < pg_types_len(),
    ensures
        r == pg_type_row(i as int),
{
    match i {
        0 => PgTypeInfo { oid: 16, name: "bool", typlen: 1i16, typbyval: true, typtype: 'b', typcategory: 'B', typispreferred: true, typisdefined: true, typdelim: ',', typelem: 0, typarray: 1000, typalign: 'c', typstorage: 'p' },
        1 => PgTypeInfo { oid: 17, name: "bytea", typlen: -1i16, typbyval: false, typtype: 'b', typcategory: 'U', typispreferred: false, typisdefined: true, typdelim: ',', typelem: 0, typarray: 1001, typalign: 'i', typstorage: 'x' },
        2 => PgTypeInfo { oid: 18, name: "char", typlen: 1i16, typbyval: true, typtype: 'b', typcategory: 'S', typispreferred: false, typisdefined: true, typdelim: ',', typelem: 0, typarray: 1002, typalign: 'c', typstorage: 'p' },
        3 => PgTypeInfo { oid: 19, name: "name", typlen: 64i16, typbyval: false, typtype: 'b', typcategory: 'S', typispreferred: false, typisdefined: true, typdelim: ',', typelem: 18, typarray: 1003, typalign: 'c', typstorage: 'p' },
        4 => PgTypeInfo { oid: 20, name: "int8", typlen: 8i16, typbyval: true, typtype: 'b', typcategory: 'N', typispreferred: false, typisdefined: true, typdelim: ',', typelem: 0, typarray: 1016, typalign: 'd', typstorage: 'p' },
        5 => PgTypeInfo { oid: 21, name: "int2", typlen: 2i16, typbyval: true, typtype: 'b', typcategory: 'N', typispreferred: false, typisdefined: true, typdelim: ',', typelem: 0, typarray: 1005, typalign: 's', typstorage: 'p' },
        6 => PgTypeInfo { oid: 22, name: "int2vector", typlen: -1i16, typbyval: false, typtype: 'b', typcategory: 'A', typispreferred: false, typisdefined: true, typdelim: ',', typelem: 21, typarray: 1006, typalign: 'i', typstorage: 'p' },
        7 => PgTypeInfo { oid: 23, name: "int4", typlen: 4i16, typbyval: true, typtype: 'b', typcategory: 'N', typispreferred: false, typisdefined: true, typdelim: ',', typelem: 0, typarray: 1007, typalign: 'i', typstorage: 'p' },
        8 => PgTypeInfo { oid: 24, name: "regproc", typlen: 4i16, typbyval: true, typtype: 'b', typcategory: 'N', typispreferred: false, typisdefined: true, typdelim: ',', typelem: 0, typarray: 1008, typalign: 'i', typstorage: 'p' },
        9 => PgTypeInfo { oid: 25, name: "text", typlen: -1i16, typbyval: false, typtype: 'b', typcategory: 'S', typispreferred: true, typisdefined: true, typdelim: ',', typelem: 0, typarray: 1009, typalign: 'i', typstorage: 'x' },
        10 => PgTypeInfo { oid: 26, name: "oid", typlen: 4i16, typbyval: true, typtype: 'b', typcategory: 'N', typispreferred: true, typisdefined: true, typdelim: ',', typelem: 0, typarray: 1028, typalign: 'i', typstorage: 'p' },
        11 => PgTypeInfo { oid: 27, name: "tid", typlen: 6i16, typbyval: false, typtype: 'b', typcategory: 'U', typispreferred: false, typisdefined: true, typdelim: ',', typelem: 0, typarray: 1010, typalign: 's', typstorage: 'p' },
        12 => PgTypeInfo { oid: 28, name: "xid", typlen: 4i16, typbyval: true, typtype: 'b', typcategory: 'U', typispreferred: false, typisdefined: true, typdelim: ',', typelem: 0, typarray: 1011, typalign: 'i', typstorage: 'p' },
        13 => PgTypeInfo { oid: 29, name: "cid", typlen: 4i16, typbyval: true, typtype: 'b', typcategory: 'U', typispreferred: false, typisdefined: true, typdelim: ',', typelem: 0, typarray: 1012, typalign: 'i', typstorage: 'p' },
        14 => PgTypeInfo { oid: 30, name: "oidvector", typlen: -1i16, typbyval: false, typtype: 'b', typcategory: 'A', typispreferred: false, typisdefined: true, typdelim: ',', typelem: 26, typarray: 1013, typalign: 'i', typstorage: 'p' },
        15 => PgTypeInfo { oid: 194, name: "pg_node_tree", typlen: -1i16, typbyval: false, typtype: 'b', typcategory: 'S', typispreferred: false, typisdefined: true, typdelim: ',', typelem: 0, typarray: 0, typalign: 'i', typstorage: 'x' },
        16 => PgTypeInfo { oid: 114, name: "json", typlen: -1i16, typbyval: false, typtype: 'b', typcategory: 'U', typispreferred: false, typisdefined: true, typdelim: ',', typelem: 0, typarray: 199, typalign: 'i', typstorage: 'x' },
        17 => PgTypeInfo { oid: 142, name: "xml", typlen: -1i16, typbyval: false, typtype: 'b', typcategory: 'U', typispreferred: false, typisdefined: true, typdelim: ',', typelem: 0, typarray: 143, typalign: 'i', typstorage: 'x' },
        18 => PgTypeInfo { oid: 700, name: "float4", typlen: 4i16, typbyval: true, typtype: 'b', typcategory: 'N', typispreferred: false, typisdefined: true, typdelim: ',', typelem: 0, typarray: 1021, typalign: 'i', typstorage: 'p' },
        19 => PgTypeInfo { oid: 701, name: "float8", typlen: 8i16, typbyval: true, typtype: 'b', typcategory: 'N', typispreferred: true, typisdefined: true, typdelim: ',', typelem: 0, typarray: 1022, typalign: 'd', typstorage: 'p' },
        20 => PgTypeInfo { oid: 705, name: "unknown", typlen: -2i16, typbyval: false, typtype: 'p', typcategory: 'X', typispreferred: false, typisdefined: true, typdelim: ',', typelem: 0, typarray: 0, typalign: 'c', typstorage: 'p' },
        21 => PgTypeInfo { oid: 790, name: "money", typlen: 8i16, typbyval: true, typtype: 'b', typcategory: 'N', typispreferred: false, typisdefined: true, typdelim: ',', typelem: 0, typarray: 791, typalign: 'd', typstorage: 'p' },
        22 => PgTypeInfo { oid: 1042, name: "bpchar", typlen: -1i16, typbyval: false, typtype: 'b', typcategory: 'S', typispreferred: false, typisdefined: true, typdelim: ',', typelem: 0, typarray: 1014, typalign: 'i', typstorage: 'x' },
        23 => PgTypeInfo { oid: 1043, name: "varchar", typlen: -1i16, typbyval: false, typtype: 'b', typcategory: 'S', typispreferred: false, typisdefined: true, typdelim: ',', typelem: 0, typarray: 1015, typalign: 'i', typstorage: 'x' },
        24 => PgTypeInfo { oid: 1082, name: "date", typlen: 4i16, typbyval: true, typtype: 'b', typcategory: 'D', typispreferred: false, typisdefined: true, typdelim: ',', typelem: 0, typarray: 1182, typalign: 'i', typstorage: 'p' },
        25 => PgTypeInfo { oid: 1083, name: "time", typlen: 8i16, typbyval: true, typtype: 'b', typcategory: 'D', typispreferred: false, typisdefined: true, typdelim: ',', typelem: 0, typarray: 1183, typalign: 'd', typstorage: 'p' },
        26 => PgTypeInfo { oid: 1114, name: "timestamp", typlen: 8i16, typbyval: true, typtype: 'b', typcategory: 'D', typispreferred: false, typisdefined: true, typdelim: ',', typelem: 0, typarray: 1115, typalign: 'd', typstorage: 'p' },
        27 => PgTypeInfo { oid: 1184, name: "timestamptz", typlen: 8i16, typbyval: true, typtype: 'b', typcategory: 'D', typispreferred: true, typisdefined: true, typdelim: ',', typelem: 0, typarray: 1185, typalign: 'd', typstorage: 'p' },
        28 => PgTypeInfo { oid: 1186, name: "interval", typlen: 16i16, typbyval: false, typtype: 'b', typcategory: 'T', typispreferred: true, typisdefined: true, typdelim: ',', typelem: 0, typarray: 1187, typalign: 'd', typstorage: 'p' },
        29 => PgTypeInfo { oid: 1266, name: "timetz", typlen: 12i16, typbyval: false, typtype: 'b', typcategory: 'D', typispreferred: false, typisdefined: true, typdelim: ',', typelem: 0, typarray: 1270, typalign: 'd', typstorage: 'p' },
        30 => PgTypeInfo { oid: 1560, name: "bit", typlen: -1i16, typbyval: false, typtype: 'b', typcategory: 'V', typispreferred: false, typisdefined: true, typdelim: ',', typelem: 0, typarray: 1561, typalign: 'i', typstorage: 'x' },
        31 => PgTypeInfo { oid: 1562, name: "varbit", typlen: -1i16, typbyval: false, typtype: 'b', typcategory: 'V', typispreferred: true, typisdefined: true, typdelim: ',', typelem: 0, typarray: 1563, typalign: 'i', typstorage: 'x' },
        32 => PgTypeInfo { oid: 1700, name: "numeric", typlen: -1i16, typbyval: false, typtype: 'b', typcategory: 'N', typispreferred: false, typisdefined: true, typdelim: ',', typelem: 0, typarray: 1231, typalign: 'i', typstorage: 'm' },
        33 => PgTypeInfo { oid: 2202, name: "regprocedure", typlen: 4i16, typbyval: true, typtype: 'b', typcategory: 'N', typispreferred: false, typisdefined: true, typdelim: ',', typelem: 0, typarray: 2207, typalign: 'i', typstorage: 'p' },
        34 => PgTypeInfo { oid: 2203, name: "regoper", typlen: 4i16, typbyval: true, typtype: 'b', typcategory: 'N', typispreferred: false, typisdefined: true, typdelim: ',', typelem: 0, typarray: 2208, typalign: 'i', typstorage: 'p' },
        35 => PgTypeInfo { oid: 2204, name: "regoperator", typlen: 4i16, typbyval: true, typtype: 'b', typcategory: 'N', typispreferred: false, typisdefined: true, typdelim: ',', typelem: 0, typarray: 2209, typalign: 'i', typstorage: 'p' },
        36 => PgTypeInfo { oid: 2205, name: "regclass", typlen: 4i16, typbyval: true, typtype: 'b', typcategory: 'N', typispreferred: false, typisdefined: true, typdelim: ',', typelem: 0, typarray: 2210, typalign: 'i', typstorage: 'p' },
        37 => PgTypeInfo { oid: 2206, name: "regtype", typlen: 4i16, typbyval: true, typtype: 'b', typcategory: 'N', typispreferred: false, typisdefined: true, typdelim: ',', typelem: 0, typarray: 2211, typalign: 'i', typstorage: 'p' },
        38 => PgTypeInfo { oid: 4096, name: "regrole", typlen: 4i16, typbyval: true, typtype: 'b', typcategory: 'N', typispreferred: false, typisdefined: true, typdelim: ',', typelem: 0, typarray: 4097, typalign: 'i', typstorage: 'p' },
        39 => PgTypeInfo { oid: 4089, name: "regnamespace", typlen: 4i16, typbyval: true, typtype: 'b', typcategory: 'N', typispreferred: false, typisdefined: true, typdelim: ',', typelem: 0, typarray: 4090, typalign: 'i', typstorage: 'p' },
        40 => PgTypeInfo { oid: 3734, name: "regconfig", typlen: 4i16, typbyval: true, typtype: 'b', typcategory: 'N', typispreferred: false, typisdefined: true, typdelim: ',', typelem: 0, typarray: 3735, typalign: 'i', typstorage: 'p' },
        41 => PgTypeInfo { oid: 3769, name: "regdictionary", typlen: 4i16, typbyval: true, typtype: 'b', typcategory: 'N', typispreferred: false, typisdefined: true, typdelim: ',', typelem: 0, typarray: 3770, typalign: 'i', typstorage: 'p' },
        42 => PgTypeInfo { oid: 2249, name: "record", typlen: -1i16, typbyval: false, typtype: 'p', typcategory: 'P', typispreferred: false, typisdefined: true, typdelim: ',', typelem: 0, typarray: 2287, typalign: 'd', typstorage: 'x' },
        43 => PgTypeInfo { oid: 2275, name: "cstring", typlen: -2i16, typbyval: false, typtype: 'p', typcategory: 'P', typispreferred: false, typisdefined: true, typdelim: ',', typelem: 0, typarray: 1263, typalign: 'c', typstorage: 'p' },
        44 => PgTypeInfo { oid: 2276, name: "any", typlen: 4i16, typbyval: true, typtype: 'p', typcategory: 'P', typispreferred: false, typisdefined: true, typdelim: ',', typelem: 0, typarray: 0, typalign: 'i', typstorage: 'p' },
        45 => PgTypeInfo { oid: 2277, name: "anyarray", typlen: -1i16, typbyval: false, typtype: 'p', typcategory: 'P', typispreferred: false, typisdefined: true, typdelim: ',', typelem: 0, typarray: 0, typalign: 'd', typstorage: 'x' },
        46 => PgTypeInfo { oid: 2278, name: "void", typlen: 4i16, typbyval: true, typtype: 'p', typcategory: 'P', typispreferred: false, typisdefined: true, typdelim: ',', typelem: 0, typarray: 0, typalign: 'i', typstorage: 'p' },
        47 => PgTypeInfo { oid: 2279, name: "trigger", typlen: 4i16, typbyval: true, typtype: 'p', typcategory: 'P', typispreferred: false, typisdefined: true, typdelim: ',', typelem: 0, typarray: 0, typalign: 'i', typstorage: 'p' },
        48 => PgTypeInfo { oid: 2281, name: "internal", typlen: 8i16, typbyval: true, typtype: 'p', typcategory: 'P', typispreferred: false, typisdefined: true, typdelim: ',', typelem: 0, typarray: 0, typalign: 'd', typstorage: 'p' },
        49 => PgTypeInfo { oid: 2283, name: "anyelement", typlen: 4i16, typbyval: true, typtype: 'p', typcategory: 'P', typispreferred: false, typisdefined: true, typdelim: ',', typelem: 0, typarray: 0, typalign: 'i', typstorage: 'p' },
        50 => PgTypeInfo { oid: 2950, name: "uuid", typlen: 16i16, typbyval: false, typtype: 'b', typcategory: 'U', typispreferred: false, typisdefined: true, typdelim: ',', typelem: 0, typarray: 2951, typalign: 'c', typstorage: 'p' },
        51 => PgTypeInfo { oid: 3802, name: "jsonb", typlen: -1i16, typbyval: false, typtype: 'b', typcategory: 'U', typispreferred: true, typisdefined: true, typdelim: ',', typelem: 0, typarray: 3807, typalign: 'i', typstorage: 'x' },
        52 => PgTypeInfo { oid: 4072, name: "jsonpath", typlen: -1i16, typbyval: false, typtype: 'b', typcategory: 'U', typispreferred: false, typisdefined: true, typdelim: ',', typelem: 0, typarray: 4073, typalign: 'i', typstorage: 'x' },
        53 => PgTypeInfo { oid: 1000, name: "_bool", typlen: -1i16, typbyval: false, typtype: 'b', typcategory: 'A', typispreferred: false, typisdefined: true, typdelim: ',', typelem: 16, typarray: 0, typalign: 'i', typstorage: 'x' },
        54 => PgTypeInfo { oid: 1001, name: "_bytea", typlen: -1i16, typbyval: false, typtype: 'b', typcategory: 'A', typispreferred: false, typisdefined: true, typdelim: ',', typelem: 17, typarray: 0, typalign: 'i', typstorage: 'x' },
        55 => PgTypeInfo { oid: 1002, name: "_char", typlen: -1i16, typbyval: false, typtype: 'b', typcategory: 'A', typispreferred: false, typisdefined: true, typdelim: ',', typelem: 18, typarray: 0, typalign: 'i', typstorage: 'x' },
        56 => PgTypeInfo { oid: 1003, name: "_name", typlen: -1i16, typbyval: false, typtype: 'b', typcategory: 'A', typispreferred: false, typisdefined: true, typdelim: ',', typelem: 19, typarray: 0, typalign: 'i', typstorage: 'x' },
        57 => PgTypeInfo { oid: 1005, name: "_int2", typlen: -1i16, typbyval: false, typtype: 'b', typcategory: 'A', typispreferred: false, typisdefined: true, typdelim: ',', typelem: 21, typarray: 0, typalign: 'i', typstorage: 'x' },
        58 => PgTypeInfo { oid: 1006, name: "_int2vector", typlen: -1i16, typbyval: false, typtype: 'b', typcategory: 'A', typispreferred: false, typisdefined: true, typdelim: ',', typelem: 22, typarray: 0, typalign: 'i', typstorage: 'x' },
        59 => PgTypeInfo { oid: 1007, name: "_int4", typlen: -1i16, typbyval: false, typtype: 'b', typcategory: 'A', typispreferred: false, typisdefined: true, typdelim: ',', typelem: 23, typarray: 0, typalign: 'i', typstorage: 'x' },
        60 => PgTypeInfo { oid: 1008, name: "_regproc", typlen: -1i16, typbyval: false, typtype: 'b', typcategory: 'A', typispreferred: false, typisdefined: true, typdelim: ',', typelem: 24, typarray: 0, typalign: 'i', typstorage: 'x' },
        61 => PgTypeInfo { oid: 1009, name: "_text", typlen: -1i16, typbyval: false, typtype: 'b', typcategory: 'A', typispreferred: false, typisdefined: true, typdelim: ',', typelem: 25, typarray: 0, typalign: 'i', typstorage: 'x' },
        62 => PgTypeInfo { oid: 1010, name: "_tid", typlen: -1i16, typbyval: false, typtype: 'b', typcategory: 'A', typispreferred: false, typisdefined: true, typdelim: ',', typelem: 27, typarray: 0, typalign: 'i', typstorage: 'x' },
        63 => PgTypeInfo { oid: 1011, name: "_xid", typlen: -1i16, typbyval: false, typtype: 'b', typcategory: 'A', typispreferred: false, typisdefined: true, typdelim: ',', typelem: 28, typarray: 0, typalign: 'i', typstorage: 'x' },
        64 => PgTypeInfo { oid: 1012, name: "_cid", typlen: -1i16, typbyval: false, typtype: 'b', typcategory: 'A', typispreferred: false, typisdefined: true, typdelim: ',', typelem: 29, typarray: 0, typalign: 'i', typstorage: 'x' },
        65 => PgTypeInfo { oid: 1013, name: "_oidvector", typlen: -1i16, typbyval: false, typtype: 'b', typcategory: 'A', typispreferred: false, typisdefined: true, typdelim: ',', typelem: 30, typarray: 0, typalign: 'i', typstorage: 'x' },
        66 => PgTypeInfo { oid: 1014, name: "_bpchar", typlen: -1i16, typbyval: false, typtype: 'b', typcategory: 'A', typispreferred: false, typisdefined: true, typdelim: ',', typelem: 1042, typarray: 0, typalign: 'i', typstorage: 'x' },
        67 => PgTypeInfo { oid: 1015, name: "_varchar", typlen: -1i16, typbyval: false, typtype: 'b', typcategory: 'A', typispreferred: false, typisdefined: true, typdelim: ',', typelem: 1043, typarray: 0, typalign: 'i', typstorage: 'x' },
        68 => PgTypeInfo { oid: 1016, name: "_int8", typlen: -1i16, typbyval: false, typtype: 'b', typcategory: 'A', typispreferred: false, typisdefined: true, typdelim: ',', typelem: 20, typarray: 0, typalign: 'd', typstorage: 'x' },
        69 => PgTypeInfo { oid: 1021, name: "_float4", typlen: -1i16, typbyval: false, typtype: 'b', typcategory: 'A', typispreferred: false, typisdefined: true, typdelim: ',', typelem: 700, typarray: 0, typalign: 'i', typstorage: 'x' },
        70 => PgTypeInfo { oid: 1022, name: "_float8", typlen: -1i16, typbyval: false, typtype: 'b', typcategory: 'A', typispreferred: false, typisdefined: true, typdelim: ',', typelem: 701, typarray: 0, typalign: 'd', typstorage: 'x' },
        71 => PgTypeInfo { oid: 1028, name: "_oid", typlen: -1i16, typbyval: false, typtype: 'b', typcategory: 'A', typispreferred: false, typisdefined: true, typdelim: ',', typelem: 26, typarray: 0, typalign: 'i', typstorage: 'x' },
        72 => PgTypeInfo { oid: 1115, name: "_timestamp", typlen: -1i16, typbyval: false, typtype: 'b', typcategory: 'A', typispreferred: false, typisdefined: true, typdelim: ',', typelem: 1114, typarray: 0, typalign: 'd', typstorage: 'x' },
        73 => PgTypeInfo { oid: 1182, name: "_date", typlen: -1i16, typbyval: false, typtype: 'b', typcategory: 'A', typispreferred: false, typisdefined: true, typdelim: ',', typelem: 1082, typarray: 0, typalign: 'i', typstorage: 'x' },
        74 => PgTypeInfo { oid: 1183, name: "_time", typlen: -1i16, typbyval: false, typtype: 'b', typcategory: 'A', typispreferred: false, typisdefined: true, typdelim: ',', typelem: 1083, typarray: 0, typalign: 'd', typstorage: 'x' },
        75 => PgTypeInfo { oid: 1185, name: "_timestamptz", typlen: -1i16, typbyval: false, typtype: 'b', typcategory: 'A', typispreferred: false, typisdefined: true, typdelim: ',', typelem: 1184, typarray: 0, typalign: 'd', typstorage: 'x' },
        76 => PgTypeInfo { oid: 1187, name: "_interval", typlen: -1i16, typbyval: false, typtype: 'b', typcategory: 'A', typispreferred: false, typisdefined: true, typdelim: ',', typelem: 1186, typarray: 0, typalign: 'd', typstorage: 'x' },
        77 => PgTypeInfo { oid: 1231, name: "_numeric", typlen: -1i16, typbyval: false, typtype: 'b', typcategory: 'A', typispreferred: false, typisdefined: true, typdelim: ',', typelem: 1700, typarray: 0, typalign: 'i', typstorage: 'x' },
        78 => PgTypeInfo { oid: 1263, name: "_cstring", typlen: -1i16, typbyval: false, typtype: 'b', typcategory: 'A', typispreferred: false, typisdefined: true, typdelim: ',', typelem: 2275, typarray: 0, typalign: 'i', typstorage: 'x' },
        79 => PgTypeInfo { oid: 1270, name: "_timetz", typlen: -1i16, typbyval: false, typtype: 'b', typcategory: 'A', typispreferred: false, typisdefined: true, typdelim: ',', typelem: 1266, typarray: 0, typalign: 'd', typstorage: 'x' },
        80 => PgTypeInfo { oid: 1561, name: "_bit", typlen: -1i16, typbyval: false, typtype: 'b', typcategory: 'A', typispreferred: false, typisdefined: true, typdelim: ',', typelem: 1560, typarray: 0, typalign: 'i', typstorage: 'x' },
        81 => PgTypeInfo { oid: 1563, name: "_varbit", typlen: -1i16, typbyval: false, typtype: 'b', typcategory: 'A', typispreferred: false, typisdefined: true, typdelim: ',', typelem: 1562, typarray: 0, typalign: 'i', typstorage: 'x' },
        82 => PgTypeInfo { oid: 199, name: "_json", typlen: -1i16, typbyval: false, typtype: 'b', typcategory: 'A', typispreferred: false, typisdefined: true, typdelim: ',', typelem: 114, typarray: 0, typalign: 'i', typstorage: 'x' },
        83 => PgTypeInfo { oid: 143, name: "_xml", typlen: -1i16, typbyval: false, typtype: 'b', typcategory: 'A', typispreferred: false, typisdefined: true, typdelim: ',', typelem: 142, typarray: 0, typalign: 'i', typstorage: 'x' },
        84 => PgTypeInfo { oid: 791, name: "_money", typlen: -1i16, typbyval: false, typtype: 'b', typcategory: 'A', typispreferred: false, typisdefined: true, typdelim: ',', typelem: 790, typarray: 0, typalign: 'd', typstorage: 'x' },
        85 => PgTypeInfo { oid: 2207, name: "_regprocedure", typlen: -1i16, typbyval: false, typtype: 'b', typcategory: 'A', typispreferred: false, typisdefined: true, typdelim: ',', typelem: 2202, typarray: 0, typalign: 'i', typstorage: 'x' },
        86 => PgTypeInfo { oid: 2208, name: "_regoper", typlen: -1i16, typbyval: false, typtype: 'b', typcategory: 'A', typispreferred: false, typisdefined: true, typdelim: ',', typelem: 2203, typarray: 0, typalign: 'i', typstorage: 'x' },
        87 => PgTypeInfo { oid: 2209, name: "_regoperator", typlen: -1i16, typbyval: false, typtype: 'b', typcategory: 'A', typispreferred: false, typisdefined: true, typdelim: ',', typelem: 2204, typarray: 0, typalign: 'i', typstorage: 'x' },
        88 => PgTypeInfo { oid: 2210, name: "_regclass", typlen: -1i16, typbyval: false, typtype: 'b', typcategory: 'A', typispreferred: false, typisdefined: true, typdelim: ',', typelem: 2205, typarray: 0, typalign: 'i', typstorage: 'x' },
        89 => PgTypeInfo { oid: 2211, name: "_regtype", typlen: -1i16, typbyval: false, typtype: 'b', typcategory: 'A', typispreferred: false, typisdefined: true, typdelim: ',', typelem: 2206, typarray: 0, typalign: 'i', typstorage: 'x' },
        90 => PgTypeInfo { oid: 2287, name: "_record", typlen: -1i16, typbyval: false, typtype: 'p', typcategory: 'P', typispreferred: false, typisdefined: true, typdelim: ',', typelem: 2249, typarray: 0, typalign: 'd', typstorage: 'x' },
        91 => PgTypeInfo { oid: 2951, name: "_uuid", typlen: -1i16, typbyval: false, typtype: 'b', typcategory: 'A', typispreferred: false, typisdefined: true, typdelim: ',', typelem: 2950, typarray: 0, typalign: 'i', typstorage: 'x' },
        92 => PgTypeInfo { oid: 3735, name: "_regconfig", typlen: -1i16, typbyval: false, typtype: 'b', typcategory: 'A', typispreferred: false, typisdefined: true, typdelim: ',', typelem: 3734, typarray: 0, typalign: 'i', typstorage: 'x' },
        93 => PgTypeInfo { oid: 3770, name: "_regdictionary", typlen: -1i16, typbyval: false, typtype: 'b', typcategory: 'A', typispreferred: false, typisdefined: true, typdelim: ',', typelem: 3769, typarray: 0, typalign: 'i', typstorage: 'x' },
        94 => PgTypeInfo { oid: 3807, name: "_jsonb", typlen: -1i16, typbyval: false, typtype: 'b', typcategory: 'A', typispreferred: false, typisdefined: true, typdelim: ',', typelem: 3802, typarray: 0, typalign: 'i', typstorage: 'x' },
        95 => PgTypeInfo { oid: 4073, name: "_jsonpath", typlen: -1i16, typbyval: false, typtype: 'b', typcategory: 'A', typispreferred: false, typisdefined: true, typdelim: ',', typelem: 4072, typarray: 0, typalign: 'i', typstorage: 'x' },
        96 => PgTypeInfo { oid: 4090, name: "_regnamespace", typlen: -1i16, typbyval: false, typtype: 'b', typcategory: 'A', typispreferred: false, typisdefined: true, typdelim: ',', typelem: 4089, typarray: 0, typalign: 'i', typstorage: 'x' },
        97 => PgTypeInfo { oid: 4097, name: "_regrole", typlen: -1i16, typbyval: false, typtype: 'b', typcategory: 'A', typispreferred: false, typisdefined: true, typdelim: ',', typelem: 4096, typarray: 0, typalign: 'i', typstorage: 'x' },
        _ => PgTypeInfo { oid: 4097, name: "_regrole", typlen: -1i16, typbyval: false, typtype: 'b', typcategory: 'A', typispreferred: false, typisdefined: true, typdelim: ',', typelem: 4096, typarray: 0, typalign: 'i', typstorage: 'x' },
    }
}

fn position_of_oid(oid: u32) -> (r: i64)
    ensures
        r as int == oid_position(oid),
{
    match oid {
        16 => 0,
        17 => 1,
        18 => 2,
        19 => 3,
        20 => 4,
        21 => 5,
        22 => 6,
        23 => 7,
        24 => 8,
        25 => 9,
        26 => 10,
        27 => 11,
        28 => 12,
        29 => 13,
        30 => 14,
        194 => 15,
        114 => 16,
        142 => 17,
        700 => 18,
        701 => 19,
        705 => 20,
        790 => 21,
        1042 => 22,
        1043 => 23,
        1082 => 24,
        1083 => 25,
        1114 => 26,
        1184 => 27,
        1186 => 28,
        1266 => 29,
        1560 => 30,
        1562 => 31,
        1700 => 32,
        2202 => 33,
        2203 => 34,
        2204 => 35,
        2205 => 36,
        2206 => 37,
        4096 => 38,
        4089 => 39,
        3734 => 40,
        3769 => 41,
        2249 => 42,
        2275 => 43,
        2276 => 44,
        2277 => 45,
        2278 => 46,
        2279 => 47,
        2281 => 48,
        2283 => 49,
        2950 => 50,
        3802 => 51,
        4072 => 52,
        1000 => 53,
        1001 => 54,
        1002 => 55,
        1003 => 56,
        1005 => 57,
        1006 => 58,
        1007 => 59,
        1008 => 60,
        1009 => 61,
        1010 => 62,
        1011 => 63,
        1012 => 64,
        1013 => 65,
        1014 => 66,
        1015 => 67,
        1016 => 68,
        1021 => 69,
        1022 => 70,
        1028 => 71,
        1115 => 72,
        1182 => 73,
        1183 => 74,
        1185 => 75,
        1187 => 76,
        1231 => 77,
        1263 => 78,
        1270 => 79,
        1561 => 80,
        1563 => 81,
        199 => 82,
        143 => 83,
        791 => 84,
        2207 => 85,
        2208 => 86,
        2209 => 87,
        2210 => 88,
        2211 => 89,
        2287 => 90,
        2951 => 91,
        3735 => 92,
        3770 => 93,
        3807 => 94,
        4073 => 95,
        4090 => 96,
        4097 => 97,
        _ => -1,
    }
}

/// Each row sits at the position that its OID names.
pub proof fn lemma_row_position(i: int)
    requires
        0 <= i < pg_types_len(),
    ensures
        oid_position(pg_type_row(i).oid) == i,
{
    if i == 0 {
    } else if i == 1 {
    } else if i == 2 {
    } else if i == 3 {
    } else if i == 4 {
    } else if i == 5 {
    } else if i == 6 {
    } else if i == 7 {
    } else if i == 8 {
    } else if i == 9 {
    } else if i == 10 {
    } else if i == 11 {
    } else if i == 12 {
    } else if i == 13 {
    } else if i == 14 {
    } else if i == 15 {
    } else if i == 16 {
    } else if i == 17 {
    } else if i == 18 {
    } else if i == 19 {
    } else if i == 20 {
    } else if i == 21 {
    } else if i == 22 {
    } else if i == 23 {
    } else if i == 24 {
    } else if i == 25 {
    } else if i == 26 {
    } else if i == 27 {
    } else if i == 28 {
    } else if i == 29 {
    } else if i == 30 {
    } else if i == 31 {
    } else if i == 32 {
    } else if i == 33 {
    } else if i == 34 {
    } else if i == 35 {
    } else if i == 36 {
    } else if i == 37 {
    } else if i == 38 {
    } else if i == 39 {
    } else if i == 40 {
    } else if i == 41 {
    } else if i == 42 {
    } else if i == 43 {
    } else if i == 44 {
    } else if i == 45 {
    } else if i == 46 {
    } else if i == 47 {
    } else if i == 48 {
    } else if i == 49 {
    } else if i == 50 {
    } else if i == 51 {
    } else if i == 52 {
    } else if i == 53 {
    } else if i == 54 {
    } else if i == 55 {
    } else if i == 56 {
    } else if i == 57 {
    } else if i == 58 {
    } else if i == 59 {
    } else if i == 60 {
    } else if i == 61 {
    } else if i == 62 {
    } else if i == 63 {
    } else if i == 64 {
    } else if i == 65 {
    } else if i == 66 {
    } else if i == 67 {
    } else if i == 68 {
    } else if i == 69 {
    } else if i == 70 {
    } else if i == 71 {
    } else if i == 72 {
    } else if i == 73 {
    } else if i == 74 {
    } else if i == 75 {
    } else if i == 76 {
    } else if i == 77 {
    } else if i == 78 {
    } else if i == 79 {
    } else if i == 80 {
    } else if i == 81 {
    } else if i == 82 {
    } else if i == 83 {
    } else if i == 84 {
    } else if i == 85 {
    } else if i == 86 {
    } else if i == 87 {
    } else if i == 88 {
    } else if i == 89 {
    } else if i == 90 {
    } else if i == 91 {
    } else if i == 92 {
    } else if i == 93 {
    } else if i == 94 {
    } else if i == 95 {
    } else if i == 96 {
    } else if i == 97 {
    }
}

/// A non-negative position names a row with that OID.
pub proof fn lemma_position_row(oid: u32)
    ensures
        -1 <= oid_position(oid) < pg_types_len(),
        oid_position(oid) >= 0 ==> pg_type_row(oid_position(oid)).oid == oid,
{
}


/// No two rows share an OID.
pub proof fn lemma_pg_type_oids_distinct(i: int, j: int)
    requires
        0 <= i < pg_types_len(),
        0 <= j < pg_types_len(),
        i != j,
    ensures
        pg_type_row(i).oid != pg_type_row(j).oid,
{
    lemma_row_position(i);
    lemma_row_position(j);
}

/// The element type of every array row is itself in the table.
pub proof fn lemma_array_elements_resolve(i: int)
    requires
        0 <= i < pg_types_len(),
        pg_type_row(i).typelem != 0,
    ensures
        oid_position(pg_type_row(i).typelem) >= 0,
{
    lemma_row_position(i);
}

/// Every row that names an array type finds that array in the table, and the
/// array names the row back as its element type.
pub proof fn lemma_scalar_array_pairs_match(i: int)
    requires
        0 <= i < pg_types_len(),
        pg_type_row(i).typarray != 0,
    ensures
        oid_position(pg_type_row(i).typarray) >= 0,
        pg_type_row(oid_position(pg_type_row(i).typarray)).typelem == pg_type_row(i).oid,
{
    lemma_row_position(i);
}

/// All rows of the type table, in table order.
pub fn pg_types() -> (v: Vec<PgTypeInfo>)
    ensures
        v@ == pg_type_table(),
{
    let mut v: Vec<PgTypeInfo> = Vec::new();
    let mut i: usize = 0;
    while i < 98
        invariant
            i <= 98,
            v@ == pg_type_table().take(i as int),
        decreases 98 - i,
    {
        v.push(row_at(i));
        i = i + 1;
        assert(v@ =~= pg_type_table().take(i as int));
    }
    assert(pg_type_table().take(98) =~= pg_type_table());
    v
}

/// The row with OID `oid`, if the table has one.
pub open spec fn spec_pg_type_by_oid(oid: u32) -> Option<PgTypeInfo> {
    if oid_position(oid) >= 0 {
        Some(pg_type_row(oid_position(oid)))
    } else {
        None
    }
}

/// Looks up PG type metadata by stable OID.
pub fn pg_type_by_oid(oid: u32) -> (r: Option<PgTypeInfo>)
    ensures
        r == spec_pg_type_by_oid(oid),
        r is Some <==> exists|i: int| 0 <= i < pg_types_len() && #[trigger] pg_type_row(i).oid == oid,
        r matches Some(t) ==> t.oid == oid,
{
    proof {
        lemma_position_row(oid);
        assert forall|i: int| 0 <= i < pg_types_len() && #[trigger] pg_type_row(i).oid == oid implies oid_position(oid) >= 0 by {
            lemma_row_position(i);
        }
    }
    let pos = position_of_oid(oid);
    if pos >= 0 {
        Some(row_at(pos as usize))
    } else {
        None
    }
}

/// The first row, at or after `from`, whose name is `name`.
pub open spec fn first_by_name(name: Seq<char>, from: int) -> Option<PgTypeInfo>
    decreases pg_types_len() - from,
{
    if from < 0 || from >= pg_types_len() {
        None
    } else if pg_type_row(from).name@ == name {
        Some(pg_type_row(from))
    } else {
        first_by_name(name, from + 1)
    }
}

/// Looks up PG type metadata by `typname` (e.g. "int4", "_int4").
pub fn pg_type_by_name(name: &str) -> (r: Option<PgTypeInfo>)
    ensures
        r == first_by_name(name@, 0),
        r is Some <==> exists|i: int| 0 <= i < pg_types_len() && (#[trigger] pg_type_row(i)).name@ == name@,
        r matches Some(t) ==> t.name@ == name@,
{
    let table = pg_types();
    let mut i: usize = 0;
    while i < table.len()
        invariant
            table@ == pg_type_table(),
            i <= table.len(),
            forall|k: int| 0 <= k < i ==> (#[trigger] pg_type_row(k)).name@ != name@,
            first_by_name(name@, 0) == first_by_name(name@, i as int),
        decreases table.len() - i,
    {
        let t = table[i];
        assert(t == pg_type_row(i as int));
        if str_eq(t.name, name) {
            return Some(t);
        }
        i = i + 1;
    }
    None
}

/// The row used when a mapping falls back to text (OID 25).
fn text_row() -> (r: PgTypeInfo)
    ensures
        r == pg_type_row(9),
        r.oid == 25,
{
    row_at(9)
}

/// The Postgres OID announced for an Arrow type. Dictionary and run-end
/// encodings announce their value type; nested types are sent as JSON.
pub open spec fn arrow_type_oid(t: ArrowType) -> u32
    decreases t,
{
    match t {
        ArrowType::Null => 25,
        ArrowType::Boolean => 16,
        ArrowType::Int8 | ArrowType::Int16 | ArrowType::UInt8 | ArrowType::UInt16 => 21,
        ArrowType::Int32 | ArrowType::UInt32 => 23,
        ArrowType::Int64 | ArrowType::UInt64 => 20,
        ArrowType::Float16 | ArrowType::Float32 => 700,
        ArrowType::Float64 => 701,
        ArrowType::Decimal128(_, _) | ArrowType::Decimal256(_, _) => 1700,
        ArrowType::Utf8 | ArrowType::LargeUtf8 => 25,
        ArrowType::Binary | ArrowType::LargeBinary | ArrowType::FixedSizeBinary(_) => 17,
        ArrowType::Date32 | ArrowType::Date64 => 1082,
        ArrowType::Time32(_) | ArrowType::Time64(_) => 1083,
        ArrowType::Timestamp(_, tz) => if tz is None {
            1114
        } else {
            1184
        },
        ArrowType::Duration(_) | ArrowType::Interval(_) => 1186,
        ArrowType::Dictionary(_, value) => arrow_type_oid(*value),
        ArrowType::RunEndEncoded(_, values) => arrow_type_oid(values.data_type),
        ArrowType::List(_) | ArrowType::LargeList(_) | ArrowType::FixedSizeList(_, _)
        | ArrowType::Struct(_) | ArrowType::MapType(_, _) | ArrowType::Union(_, _) => 114,
    }
}

fn by_oid_or_text(oid: u32) -> (r: PgTypeInfo)
    requires
        oid_position(oid) >= 0,
    ensures
        r == pg_type_row(oid_position(oid)),
        r.oid == oid,
{
    proof {
        lemma_position_row(oid);
    }
    match pg_type_by_oid(oid) {
        Some(t) => t,
        None => text_row(),
    }
}

/// Maps an Arrow type to the PG type metadata announced for it.
pub fn arrow_to_pg_type_info(t: &ArrowType) -> (r: PgTypeInfo)
    ensures
        r.oid == arrow_type_oid(*t),
        r == pg_type_row(oid_position(arrow_type_oid(*t))),
    decreases t,
{
    match t {
        ArrowType::Null => by_oid_or_text(25),
        ArrowType::Boolean => by_oid_or_text(16),
        ArrowType::Int8 | ArrowType::Int16 => by_oid_or_text(21),
        ArrowType::UInt8 | ArrowType::UInt16 => by_oid_or_text(21),
        ArrowType::Int32 => by_oid_or_text(23),
        ArrowType::UInt32 => by_oid_or_text(23),
        ArrowType::Int64 => by_oid_or_text(20),
        ArrowType::UInt64 => by_oid_or_text(20),
        ArrowType::Float16 | ArrowType::Float32 => by_oid_or_text(700),
        ArrowType::Float64 => by_oid_or_text(701),
        ArrowType::Decimal128(_, _) | ArrowType::Decimal256(_, _) => by_oid_or_text(1700),
        ArrowType::Utf8 | ArrowType::LargeUtf8 => by_oid_or_text(25),
        ArrowType::Binary | ArrowType::LargeBinary | ArrowType::FixedSizeBinary(_) => by_oid_or_text(17),
        ArrowType::Date32 | ArrowType::Date64 => by_oid_or_text(1082),
        ArrowType::Time32(_) | ArrowType::Time64(_) => by_oid_or_text(1083),
        ArrowType::Timestamp(_, None) => by_oid_or_text(1114),
        ArrowType::Timestamp(_, Some(_)) => by_oid_or_text(1184),
        ArrowType::Duration(_) | ArrowType::Interval(_) => by_oid_or_text(1186),
        ArrowType::Dictionary(_, value) => arrow_to_pg_type_info(value),
        ArrowType::RunEndEncoded(_, values) => arrow_to_pg_type_info(&values.data_type),
        ArrowType::List(_) | ArrowType::LargeList(_) | ArrowType::FixedSizeList(_, _)
        | ArrowType::Struct(_) | ArrowType::MapType(_, _) | ArrowType::Union(_, _) => by_oid_or_text(114),
    }
}

/// The OID announced for an Arrow type.
pub fn arrow_to_pg_oid(t: &ArrowType) -> (r: u32)
    ensures
        r == arrow_type_oid(*t),
{
    arrow_to_pg_type_info(t).oid
}

/// Every OID an Arrow type announces is in the type table.
pub proof fn lemma_arrow_type_oid_in_table(t: ArrowType)
    ensures
        oid_position(arrow_type_oid(t)) >= 0,
    decreases t,
{
    match t {
        ArrowType::Dictionary(_, value) => lemma_arrow_type_oid_in_table(*value),
        ArrowType::RunEndEncoded(_, values) => lemma_arrow_type_oid_in_table(values.data_type),
        _ => {},
    }
}


/// A dictionary-encoded column announces the OID of its value type, however
/// deeply dictionaries are nested.
pub proof fn lemma_dictionary_announces_value_type(key: ArrowType, value: ArrowType)
    ensures
        arrow_type_oid(ArrowType::Dictionary(Box::new(key), Box::new(value))) == arrow_type_oid(value),
{
}

/// A run-end-encoded column announces the OID of its values' type.
pub proof fn lemma_run_end_encoded_announces_values(run_ends: Field, values: Field)
    ensures
        arrow_type_oid(ArrowType::RunEndEncoded(Box::new(run_ends), Box::new(values)))
            == arrow_type_oid(values.data_type),
{
}

/// Every nested type (lists, structs, maps, unions) is announced as `json`
/// (114), the form its values take on the wire.
pub proof fn lemma_nested_types_announce_json(t: ArrowType)
    requires
        t is List || t is LargeList || t is FixedSizeList || t is Struct || t is MapType || t is Union,
    ensures
        arrow_type_oid(t) == 114,
{
}

/// Characters that open or close a parameter list in an Arrow type name.
pub open spec fn is_open(c: char) -> bool {
    c == '(' || c == '<'
}

pub open spec fn is_close(c: char) -> bool {
    c == ')' || c == '>'
}

/// Index of the first '(' or '<' at or after `i`, or the length of `s`.
pub open spec fn head_end_from(s: Seq<char>, i: int) -> int
    decreases s.len() - i,
{
    if i < 0 || i >= s.len() {
        s.len() as int
    } else if is_open(s[i]) {
        i
    } else {
        head_end_from(s, i + 1)
    }
}

/// The leading identifier of a type name: the text before the first '(' or
/// '<', with white space trimmed.
pub open spec fn type_name_head(s: Seq<char>) -> Seq<char> {
    trim_seq(s.take(head_end_from(s, 0)))
}

/// Index of the first `c` at or after `i`, or -1.
pub open spec fn find_from(s: Seq<char>, c: char, i: int) -> int
    decreases s.len() - i,
{
    if i < 0 || i >= s.len() {
        -1
    } else if s[i] == c {
        i
    } else {
        find_from(s, c, i + 1)
    }
}

/// Index of the last `c` before position `j`, or -1.
pub open spec fn rfind_before(s: Seq<char>, c: char, j: int) -> int
    decreases j,
{
    if j <= 0 || j > s.len() {
        -1
    } else if s[j - 1] == c {
        j - 1
    } else {
        rfind_before(s, c, j - 1)
    }
}

/// Index of the first comma at or after `i` at parenthesis depth zero, where
/// `depth` is the depth before position `i`.
pub open spec fn comma_from(s: Seq<char>, i: int, depth: int) -> Option<int>
    decreases s.len() - i,
{
    if i < 0 || i >= s.len() {
        None
    } else if is_open(s[i]) {
        comma_from(s, i + 1, depth + 1)
    } else if is_close(s[i]) {
        comma_from(s, i + 1, depth - 1)
    } else if s[i] == ',' && depth == 0 {
        Some(i)
    } else {
        comma_from(s, i + 1, depth)
    }
}

/// Character index of the first top-level comma of `s`, if any.
pub open spec fn top_level_comma(s: Seq<char>) -> Option<int> {
    comma_from(s, 0, 0)
}

pub proof fn lemma_comma_from_bounds(s: Seq<char>, i: int, depth: int)
    ensures
        comma_from(s, i, depth) matches Some(k) ==> 0 <= i <= k < s.len() && s[k] == ',',
    decreases s.len() - i,
{
    if 0 <= i < s.len() {
        if is_open(s[i]) {
            lemma_comma_from_bounds(s, i + 1, depth + 1);
        } else if is_close(s[i]) {
            lemma_comma_from_bounds(s, i + 1, depth - 1);
        } else if !(s[i] == ',' && depth == 0) {
            lemma_comma_from_bounds(s, i + 1, depth);
        }
    }
}

fn top_level_comma_chars(s: &[char]) -> (r: Option<usize>)
    ensures
        r matches Some(k) ==> top_level_comma(s@) == Some(k as int),
        r is None ==> top_level_comma(s@) is None,
{
    let mut depth: i128 = 0;
    let mut i: usize = 0;
    while i < s.len()
        invariant
            i <= s.len(),
            -(i as int) <= depth <= i as int,
            top_level_comma(s@) == comma_from(s@, i as int, depth as int),
        decreases s.len() - i,
    {
        let c = s[i];
        if c == '(' || c == '<' {
            depth = depth + 1;
        } else if c == ')' || c == '>' {
            depth = depth - 1;
        } else if c == ',' && depth == 0 {
            return Some(i);
        }
        i = i + 1;
    }
    None
}

/// Byte offset of the first comma of `s` that lives at parenthesis depth zero
/// ('(' and '<' open, ')' and '>' close), if there is one.
pub fn split_top_level_comma(s: &str) -> (r: Option<usize>)
    ensures
        r matches Some(b) ==> (top_level_comma(s@) matches Some(k) && b as int == utf8_offset(
            s@,
            k,
        )),
        r is None ==> top_level_comma(s@) is None,
{
    let total = s.as_bytes().len();
    let cs = chars_of(s);
    match top_level_comma_chars(cs.as_slice()) {
        None => None,
        Some(k) => {
            proof {
                lemma_comma_from_bounds(s@, 0, 0);
                assert(s@.take(0) =~= Seq::<char>::empty());
                assert(utf8_offset(s@, 0) == 0);
            }
            let mut off: usize = 0;
            let mut j: usize = 0;
            while j < k
                invariant
                    k < cs.len(),
                    cs@ == s@,
                    j <= k,
                    total as int == vstd::utf8::encode_utf8(s@).len(),
                    off as int == utf8_offset(s@, j as int),
                decreases k - j,
            {
                proof {
                    lemma_utf8_offset_step(s@, j as int);
                }
                off = off + utf8_width_exec(cs[j]);
                j = j + 1;
            }
            Some(off)
        }
    }
}

/// The OID announced for an Arrow type name; see [`arrow_name_to_pg_oid`].
pub open spec fn arrow_name_oid(s: Seq<char>) -> u32
    decreases s.len(),
{
    let h = type_name_head(s);
    if h == "Boolean"@ || h == "Bool"@ {
        16
    } else if h == "Int8"@ || h == "Int16"@ || h == "UInt8"@ || h == "UInt16"@ {
        21
    } else if h == "Int32"@ || h == "UInt32"@ {
        23
    } else if h == "Int64"@ || h == "UInt64"@ {
        20
    } else if h == "Float16"@ || h == "Float32"@ {
        700
    } else if h == "Float64"@ {
        701
    } else if h == "Decimal128"@ || h == "Decimal256"@ {
        1700
    } else if h == "Utf8"@ || h == "LargeUtf8"@ {
        25
    } else if h == "Binary"@ || h == "LargeBinary"@ || h == "FixedSizeBinary"@ {
        17
    } else if h == "Date32"@ || h == "Date64"@ {
        1082
    } else if h == "Time32"@ || h == "Time64"@ {
        1083
    } else if h == "Timestamp"@ {
        if seq_contains(s, "Some("@) {
            1184
        } else {
            1114
        }
    } else if h == "Duration"@ || h == "Interval"@ {
        1186
    } else if h == "Dictionary"@ {
        let start = find_from(s, '(', 0);
        let end = rfind_before(s, ')', s.len() as int);
        if start >= 0 && end >= 0 && end > start {
            let inner = s.subrange(start + 1, end);
            match top_level_comma(inner) {
                Some(c) => {
                    let value = trim_seq(inner.subrange(c + 1, inner.len() as int));
                    proof {
                        lemma_comma_from_bounds(inner, 0, 0);
                        lemma_trim_not_longer(inner.subrange(c + 1, inner.len() as int));
                        lemma_find_bounds(s, '(', 0);
                        lemma_rfind_bounds(s, ')', s.len() as int);
                    }
                    arrow_name_oid(value)
                },
                None => 114,
            }
        } else {
            114
        }
    } else if h == "List"@ || h == "LargeList"@ || h == "FixedSizeList"@ {
        114
    } else if h == "Struct"@ || h == "Map"@ || h == "Union"@ || h == "RunEndEncoded"@ {
        114
    } else {
        25
    }
}

pub proof fn lemma_find_bounds(s: Seq<char>, c: char, i: int)
    ensures
        find_from(s, c, i) == -1 || (0 <= i <= find_from(s, c, i) < s.len() && s[find_from(
            s,
            c,
            i,
        )] == c),
    decreases s.len() - i,
{
    if 0 <= i < s.len() && s[i] != c {
        lemma_find_bounds(s, c, i + 1);
    }
}

pub proof fn lemma_rfind_bounds(s: Seq<char>, c: char, j: int)
    ensures
        rfind_before(s, c, j) == -1 || (0 <= rfind_before(s, c, j) < j && rfind_before(s, c, j)
            < s.len() && s[rfind_before(s, c, j)] == c),
    decreases j,
{
    if 0 < j <= s.len() && s[j - 1] != c {
        lemma_rfind_bounds(s, c, j - 1);
    }
}

fn head_of(s: &[char]) -> (h: Vec<char>)
    ensures
        h@ == type_name_head(s@),
{
    let mut i: usize = 0;
    while i < s.len() && s[i] != '(' && s[i] != '<'
        invariant
            i <= s.len(),
            head_end_from(s@, 0) == head_end_from(s@, i as int),
        decreases s.len() - i,
    {
        i = i + 1;
    }
    let pre = slice_chars(s, 0, i);
    assert(pre@ =~= s@.take(i as int));
    trim_chars(pre.as_slice())
}

fn find_char(s: &[char], c: char) -> (r: Option<usize>)
    ensures
        r matches Some(k) ==> k as int == find_from(s@, c, 0),
        r is None ==> find_from(s@, c, 0) == -1,
{
    let mut i: usize = 0;
    while i < s.len()
        invariant
            i <= s.len(),
            find_from(s@, c, 0) == find_from(s@, c, i as int),
        decreases s.len() - i,
    {
        if s[i] == c {
            return Some(i);
        }
        i = i + 1;
    }
    None
}

fn rfind_char(s: &[char], c: char) -> (r: Option<usize>)
    ensures
        r matches Some(k) ==> k as int == rfind_before(s@, c, s@.len() as int),
        r is None ==> rfind_before(s@, c, s@.len() as int) == -1,
{
    let mut j: usize = s.len();
    while j > 0
        invariant
            j <= s.len(),
            rfind_before(s@, c, s@.len() as int) == rfind_before(s@, c, j as int),
        decreases j,
    {
        if s[j - 1] == c {
            return Some(j - 1);
        }
        j = j - 1;
    }
    None
}

fn name_oid_chars(s: &[char]) -> (r: u32)
    ensures
        r == arrow_name_oid(s@),
    decreases s.len(),
{
    let hv = head_of(s);
    let h = hv.as_slice();
    if is_text(h, "Boolean") || is_text(h, "Bool") {
        16
    } else if is_text(h, "Int8") || is_text(h, "Int16") || is_text(h, "UInt8") || is_text(h, "UInt16") {
        21
    } else if is_text(h, "Int32") || is_text(h, "UInt32") {
        23
    } else if is_text(h, "Int64") || is_text(h, "UInt64") {
        20
    } else if is_text(h, "Float16") || is_text(h, "Float32") {
        700
    } else if is_text(h, "Float64") {
        701
    } else if is_text(h, "Decimal128") || is_text(h, "Decimal256") {
        1700
    } else if is_text(h, "Utf8") || is_text(h, "LargeUtf8") {
        25
    } else if is_text(h, "Binary") || is_text(h, "LargeBinary") || is_text(h, "FixedSizeBinary") {
        17
    } else if is_text(h, "Date32") || is_text(h, "Date64") {
        1082
    } else if is_text(h, "Time32") || is_text(h, "Time64") {
        1083
    } else if is_text(h, "Timestamp") {
        let some = chars_of("Some(");
        if contains_chars(s, some.as_slice()) {
            1184
        } else {
            1114
        }
    } else if is_text(h, "Duration") || is_text(h, "Interval") {
        1186
    } else if is_text(h, "Dictionary") {
        let start = find_char(s, '(');
        let end = rfind_char(s, ')');
        proof {
            lemma_find_bounds(s@, '(', 0);
            lemma_rfind_bounds(s@, ')', s@.len() as int);
        }
        if start.is_some() && end.is_some() && end.unwrap() > start.unwrap() {
            let inner = slice_chars(s, start.unwrap() + 1, end.unwrap());
            match top_level_comma_chars(inner.as_slice()) {
                Some(c) => {
                    proof {
                        lemma_comma_from_bounds(inner@, 0, 0);
                    }
                    let rest = slice_chars(inner.as_slice(), c + 1, inner.len());
                    let value = trim_chars(rest.as_slice());
                    proof {
                        lemma_trim_not_longer(rest@);
                    }
                    name_oid_chars(value.as_slice())
                },
                None => 114,
            }
        } else {
            114
        }
    } else if is_text(h, "List") || is_text(h, "LargeList") || is_text(h, "FixedSizeList") {
        114
    } else if is_text(h, "Struct") || is_text(h, "Map") || is_text(h, "Union") || is_text(
        h,
        "RunEndEncoded",
    ) {
        114
    } else {
        25
    }
}

/// Maps an Arrow type name, as rendered in the catalog (`"Int32"`,
/// `"Decimal128(10, 2)"`, `"Dictionary(UInt16, Utf8)"`), to a Postgres OID.
/// Unknown names map to 25 (`text`).
pub fn arrow_name_to_pg_oid(name: &str) -> (r: u32)
    ensures
        r == arrow_name_oid(name@),
{
    let cs = chars_of(name);
    name_oid_chars(cs.as_slice())
}

/// Position of the type-table row with this name, or -1 when there is none.
pub open spec fn name_position(name: Seq<char>) -> int {
    if name.len() == 4 {
        if name == "bool"@ {
            0
        } else if name == "char"@ {
            2
        } else if name == "name"@ {
            3
        } else if name == "int8"@ {
            4
        } else if name == "int2"@ {
            5
        } else if name == "int4"@ {
            7
        } else if name == "text"@ {
            9
        } else if name == "json"@ {
            16
        } else if name == "date"@ {
            24
        } else if name == "time"@ {
            25
        } else if name == "void"@ {
            46
        } else if name == "uuid"@ {
            50
        } else if name == "_tid"@ {
            62
        } else if name == "_xid"@ {
            63
        } else if name == "_cid"@ {
            64
        } else if name == "_oid"@ {
            71
        } else if name == "_bit"@ {
            80
        } else if name == "_xml"@ {
            83
        } else {
            -1
        }
    } else if name.len() == 5 {
        if name == "bytea"@ {
            1
        } else if name == "money"@ {
            21
        } else if name == "jsonb"@ {
            51
        } else if name == "_bool"@ {
            53
        } else if name == "_char"@ {
            55
        } else if name == "_name"@ {
            56
        } else if name == "_int2"@ {
            57
        } else if name == "_int4"@ {
            59
        } else if name == "_text"@ {
            61
        } else if name == "_int8"@ {
            68
        } else if name == "_date"@ {
            73
        } else if name == "_time"@ {
            74
        } else if name == "_json"@ {
            82
        } else if name == "_uuid"@ {
            91
        } else {
            -1
        }
    } else if name.len() == 10 {
        if name == "int2vector"@ {
            6
        } else if name == "anyelement"@ {
            49
        } else if name == "_oidvector"@ {
            65
        } else if name == "_timestamp"@ {
            72
        } else if name == "_regconfig"@ {
            92
        } else {
            -1
        }
    } else if name.len() == 7 {
        if name == "regproc"@ {
            8
        } else if name == "unknown"@ {
            20
        } else if name == "varchar"@ {
            23
        } else if name == "numeric"@ {
            32
        } else if name == "regoper"@ {
            34
        } else if name == "regtype"@ {
            37
        } else if name == "regrole"@ {
            38
        } else if name == "cstring"@ {
            43
        } else if name == "trigger"@ {
            47
        } else if name == "_bpchar"@ {
            66
        } else if name == "_float4"@ {
            69
        } else if name == "_float8"@ {
            70
        } else if name == "_timetz"@ {
            79
        } else if name == "_varbit"@ {
            81
        } else if name == "_record"@ {
            90
        } else {
            -1
        }
    } else if name.len() == 3 {
        if name == "oid"@ {
            10
        } else if name == "tid"@ {
            11
        } else if name == "xid"@ {
            12
        } else if name == "cid"@ {
            13
        } else if name == "xml"@ {
            17
        } else if name == "bit"@ {
            30
        } else if name == "any"@ {
            44
        } else {
            -1
        }
    } else if name.len() == 9 {
        if name == "oidvector"@ {
            14
        } else if name == "timestamp"@ {
            26
        } else if name == "regconfig"@ {
            40
        } else if name == "_interval"@ {
            76
        } else if name == "_regclass"@ {
            88
        } else if name == "_jsonpath"@ {
            95
        } else {
            -1
        }
    } else if name.len() == 12 {
        if name == "pg_node_tree"@ {
            15
        } else if name == "regprocedure"@ {
            33
        } else if name == "regnamespace"@ {
            39
        } else if name == "_timestamptz"@ {
            75
        } else if name == "_regoperator"@ {
            87
        } else {
            -1
        }
    } else if name.len() == 6 {
        if name == "float4"@ {
            18
        } else if name == "float8"@ {
            19
        } else if name == "bpchar"@ {
            22
        } else if name == "timetz"@ {
            29
        } else if name == "varbit"@ {
            31
        } else if name == "record"@ {
            42
        } else if name == "_bytea"@ {
            54
        } else if name == "_money"@ {
            84
        } else if name == "_jsonb"@ {
            94
        } else {
            -1
        }
    } else if name.len() == 11 {
        if name == "timestamptz"@ {
            27
        } else if name == "regoperator"@ {
            35
        } else if name == "_int2vector"@ {
            58
        } else {
            -1
        }
    } else if name.len() == 8 {
        if name == "interval"@ {
            28
        } else if name == "regclass"@ {
            36
        } else if name == "anyarray"@ {
            45
        } else if name == "internal"@ {
            48
        } else if name == "jsonpath"@ {
            52
        } else if name == "_regproc"@ {
            60
        } else if name == "_varchar"@ {
            67
        } else if name == "_numeric"@ {
            77
        } else if name == "_cstring"@ {
            78
        } else if name == "_regoper"@ {
            86
        } else if name == "_regtype"@ {
            89
        } else if name == "_regrole"@ {
            97
        } else {
            -1
        }
    } else if name.len() == 13 {
        if name == "regdictionary"@ {
            41
        } else if name == "_regprocedure"@ {
            85
        } else if name == "_regnamespace"@ {
            96
        } else {
            -1
        }
    } else if name.len() == 14 {
        if name == "_regdictionary"@ {
            93
        } else {
            -1
        }
    } else {
        -1
    }
}

proof fn lemma_name_position_0()
    ensures
        name_position(pg_type_row(0).name@) == 0,
{
    reveal_strlit("bool");
    assert(pg_type_row(0).name@ == "bool"@);
}

proof fn lemma_name_position_1()
    ensures
        name_position(pg_type_row(1).name@) == 1,
{
    reveal_strlit("bytea");
    assert(pg_type_row(1).name@ == "bytea"@);
}

proof fn lemma_name_position_2()
    ensures
        name_position(pg_type_row(2).name@) == 2,
{
    reveal_strlit("char");
    reveal_strlit("bool");
    assert(pg_type_row(2).name@ == "char"@);
    assert("char"@[0] != "bool"@[0]);
}

proof fn lemma_name_position_3()
    ensures
        name_position(pg_type_row(3).name@) == 3,
{
    reveal_strlit("name");
    reveal_strlit("bool");
    reveal_strlit("char");
    assert(pg_type_row(3).name@ == "name"@);
    assert("name"@[0] != "bool"@[0]);
    assert("name"@[0] != "char"@[0]);
}

proof fn lemma_name_position_4()
    ensures
        name_position(pg_type_row(4).name@) == 4,
{
    reveal_strlit("int8");
    reveal_strlit("bool");
    reveal_strlit("char");
    reveal_strlit("name");
    assert(pg_type_row(4).name@ == "int8"@);
    assert("int8"@[0] != "bool"@[0]);
    assert("int8"@[0] != "char"@[0]);
    assert("int8"@[0] != "name"@[0]);
}

proof fn lemma_name_position_5()
    ensures
        name_position(pg_type_row(5).name@) == 5,
{
    reveal_strlit("int2");
    reveal_strlit("bool");
    reveal_strlit("char");
    reveal_strlit("name");
    reveal_strlit("int8");
    assert(pg_type_row(5).name@ == "int2"@);
    assert("int2"@[0] != "bool"@[0]);
    assert("int2"@[0] != "char"@[0]);
    assert("int2"@[0] != "name"@[0]);
    assert("int2"@[3] != "int8"@[3]);
}

proof fn lemma_name_position_6()
    ensures
        name_position(pg_type_row(6).name@) == 6,
{
    reveal_strlit("int2vector");
    assert(pg_type_row(6).name@ == "int2vector"@);
}

proof fn lemma_name_position_7()
    ensures
        name_position(pg_type_row(7).name@) == 7,
{
    reveal_strlit("int4");
    reveal_strlit("bool");
    reveal_strlit("char");
    reveal_strlit("name");
    reveal_strlit("int8");
    reveal_strlit("int2");
    assert(pg_type_row(7).name@ == "int4"@);
    assert("int4"@[0] != "bool"@[0]);
    assert("int4"@[0] != "char"@[0]);
    assert("int4"@[0] != "name"@[0]);
    assert("int4"@[3] != "int8"@[3]);
    assert("int4"@[3] != "int2"@[3]);
}

proof fn lemma_name_position_8()
    ensures
        name_position(pg_type_row(8).name@) == 8,
{
    reveal_strlit("regproc");
    assert(pg_type_row(8).name@ == "regproc"@);
}

proof fn lemma_name_position_9()
    ensures
        name_position(pg_type_row(9).name@) == 9,
{
    reveal_strlit("text");
    reveal_strlit("bool");
    reveal_strlit("char");
    reveal_strlit("name");
    reveal_strlit("int8");
    reveal_strlit("int2");
    reveal_strlit("int4");
    assert(pg_type_row(9).name@ == "text"@);
    assert("text"@[0] != "bool"@[0]);
    assert("text"@[0] != "char"@[0]);
    assert("text"@[0] != "name"@[0]);
    assert("text"@[0] != "int8"@[0]);
    assert("text"@[0] != "int2"@[0]);
    assert("text"@[0] != "int4"@[0]);
}

proof fn lemma_name_position_10()
    ensures
        name_position(pg_type_row(10).name@) == 10,
{
    reveal_strlit("oid");
    assert(pg_type_row(10).name@ == "oid"@);
}

proof fn lemma_name_position_11()
    ensures
        name_position(pg_type_row(11).name@) == 11,
{
    reveal_strlit("tid");
    reveal_strlit("oid");
    assert(pg_type_row(11).name@ == "tid"@);
    assert("tid"@[0] != "oid"@[0]);
}

proof fn lemma_name_position_12()
    ensures
        name_position(pg_type_row(12).name@) == 12,
{
    reveal_strlit("xid");
    reveal_strlit("oid");
    reveal_strlit("tid");
    assert(pg_type_row(12).name@ == "xid"@);
    assert("xid"@[0] != "oid"@[0]);
    assert("xid"@[0] != "tid"@[0]);
}

proof fn lemma_name_position_13()
    ensures
        name_position(pg_type_row(13).name@) == 13,
{
    reveal_strlit("cid");
    reveal_strlit("oid");
    reveal_strlit("tid");
    reveal_strlit("xid");
    assert(pg_type_row(13).name@ == "cid"@);
    assert("cid"@[0] != "oid"@[0]);
    assert("cid"@[0] != "tid"@[0]);
    assert("cid"@[0] != "xid"@[0]);
}

proof fn lemma_name_position_14()
    ensures
        name_position(pg_type_row(14).name@) == 14,
{
    reveal_strlit("oidvector");
    assert(pg_type_row(14).name@ == "oidvector"@);
}

proof fn lemma_name_position_15()
    ensures
        name_position(pg_type_row(15).name@) == 15,
{
    reveal_strlit("pg_node_tree");
    assert(pg_type_row(15).name@ == "pg_node_tree"@);
}

proof fn lemma_name_position_16()
    ensures
        name_position(pg_type_row(16).name@) == 16,
{
    reveal_strlit("json");
    reveal_strlit("bool");
    reveal_strlit("char");
    reveal_strlit("name");
    reveal_strlit("int8");
    reveal_strlit("int2");
    reveal_strlit("int4");
    reveal_strlit("text");
    assert(pg_type_row(16).name@ == "json"@);
    assert("json"@[0] != "bool"@[0]);
    assert("json"@[0] != "char"@[0]);
    assert("json"@[0] != "name"@[0]);
    assert("json"@[0] != "int8"@[0]);
    assert("json"@[0] != "int2"@[0]);
    assert("json"@[0] != "int4"@[0]);
    assert("json"@[0] != "text"@[0]);
}

proof fn lemma_name_position_17()
    ensures
        name_position(pg_type_row(17).name@) == 17,
{
    reveal_strlit("xml");
    reveal_strlit("oid");
    reveal_strlit("tid");
    reveal_strlit("xid");
    reveal_strlit("cid");
    assert(pg_type_row(17).name@ == "xml"@);
    assert("xml"@[0] != "oid"@[0]);
    assert("xml"@[0] != "tid"@[0]);
    assert("xml"@[1] != "xid"@[1]);
    assert("xml"@[0] != "cid"@[0]);
}

proof fn lemma_name_position_18()
    ensures
        name_position(pg_type_row(18).name@) == 18,
{
    reveal_strlit("float4");
    assert(pg_type_row(18).name@ == "float4"@);
}

proof fn lemma_name_position_19()
    ensures
        name_position(pg_type_row(19).name@) == 19,
{
    reveal_strlit("float8");
    reveal_strlit("float4");
    assert(pg_type_row(19).name@ == "float8"@);
    assert("float8"@[5] != "float4"@[5]);
}

proof fn lemma_name_position_20()
    ensures
        name_position(pg_type_row(20).name@) == 20,
{
    reveal_strlit("unknown");
    reveal_strlit("regproc");
    assert(pg_type_row(20).name@ == "unknown"@);
    assert("unknown"@[0] != "regproc"@[0]);
}

proof fn lemma_name_position_21()
    ensures
        name_position(pg_type_row(21).name@) == 21,
{
    reveal_strlit("money");
    reveal_strlit("bytea");
    assert(pg_type_row(21).name@ == "money"@);
    assert("money"@[0] != "bytea"@[0]);
}

proof fn lemma_name_position_22()
    ensures
        name_position(pg_type_row(22).name@) == 22,
{
    reveal_strlit("bpchar");
    reveal_strlit("float4");
    reveal_strlit("float8");
    assert(pg_type_row(22).name@ == "bpchar"@);
    assert("bpchar"@[0] != "float4"@[0]);
    assert("bpchar"@[0] != "float8"@[0]);
}

proof fn lemma_name_position_23()
    ensures
        name_position(pg_type_row(23).name@) == 23,
{
    reveal_strlit("varchar");
    reveal_strlit("regproc");
    reveal_strlit("unknown");
    assert(pg_type_row(23).name@ == "varchar"@);
    assert("varchar"@[0] != "regproc"@[0]);
    assert("varchar"@[0] != "unknown"@[0]);
}

proof fn lemma_name_position_24()
    ensures
        name_position(pg_type_row(24).name@) == 24,
{
    reveal_strlit("date");
    reveal_strlit("bool");
    reveal_strlit("char");
    reveal_strlit("name");
    reveal_strlit("int8");
    reveal_strlit("int2");
    reveal_strlit("int4");
    reveal_strlit("text");
    reveal_strlit("json");
    assert(pg_type_row(24).name@ == "date"@);
    assert("date"@[0] != "bool"@[0]);
    assert("date"@[0] != "char"@[0]);
    assert("date"@[0] != "name"@[0]);
    assert("date"@[0] != "int8"@[0]);
    assert("date"@[0] != "int2"@[0]);
    assert("date"@[0] != "int4"@[0]);
    assert("date"@[0] != "text"@[0]);
    assert("date"@[0] != "json"@[0]);
}

proof fn lemma_name_position_25()
    ensures
        name_position(pg_type_row(25).name@) == 25,
{
    reveal_strlit("time");
    reveal_strlit("bool");
    reveal_strlit("char");
    reveal_strlit("name");
    reveal_strlit("int8");
    reveal_strlit("int2");
    reveal_strlit("int4");
    reveal_strlit("text");
    reveal_strlit("json");
    reveal_strlit("date");
    assert(pg_type_row(25).name@ == "time"@);
    assert("time"@[0] != "bool"@[0]);
    assert("time"@[0] != "char"@[0]);
    assert("time"@[0] != "name"@[0]);
    assert("time"@[0] != "int8"@[0]);
    assert("time"@[0] != "int2"@[0]);
    assert("time"@[0] != "int4"@[0]);
    assert("time"@[1] != "text"@[1]);
    assert("time"@[0] != "json"@[0]);
    assert("time"@[0] != "date"@[0]);
}

proof fn lemma_name_position_26()
    ensures
        name_position(pg_type_row(26).name@) == 26,
{
    reveal_strlit("timestamp");
    reveal_strlit("oidvector");
    assert(pg_type_row(26).name@ == "timestamp"@);
    assert("timestamp"@[0] != "oidvector"@[0]);
}

proof fn lemma_name_position_27()
    ensures
        name_position(pg_type_row(27).name@) == 27,
{
    reveal_strlit("timestamptz");
    assert(pg_type_row(27).name@ == "timestamptz"@);
}

proof fn lemma_name_position_28()
    ensures
        name_position(pg_type_row(28).name@) == 28,
{
    reveal_strlit("interval");
    assert(pg_type_row(28).name@ == "interval"@);
}

proof fn lemma_name_position_29()
    ensures
        name_position(pg_type_row(29).name@) == 29,
{
    reveal_strlit("timetz");
    reveal_strlit("float4");
    reveal_strlit("float8");
    reveal_strlit("bpchar");
    assert(pg_type_row(29).name@ == "timetz"@);
    assert("timetz"@[0] != "float4"@[0]);
    assert("timetz"@[0] != "float8"@[0]);
    assert("timetz"@[0] != "bpchar"@[0]);
}

proof fn lemma_name_position_30()
    ensures
        name_position(pg_type_row(30).name@) == 30,
{
    reveal_strlit("bit");
    reveal_strlit("oid");
    reveal_strlit("tid");
    reveal_strlit("xid");
    reveal_strlit("cid");
    reveal_strlit("xml");
    assert(pg_type_row(30).name@ == "bit"@);
    assert("bit"@[0] != "oid"@[0]);
    assert("bit"@[0] != "tid"@[0]);
    assert("bit"@[0] != "xid"@[0]);
    assert("bit"@[0] != "cid"@[0]);
    assert("bit"@[0] != "xml"@[0]);
}

proof fn lemma_name_position_31()
    ensures
        name_position(pg_type_row(31).name@) == 31,
{
    reveal_strlit("varbit");
    reveal_strlit("float4");
    reveal_strlit("float8");
    reveal_strlit("bpchar");
    reveal_strlit("timetz");
    assert(pg_type_row(31).name@ == "varbit"@);
    assert("varbit"@[0] != "float4"@[0]);
    assert("varbit"@[0] != "float8"@[0]);
    assert("varbit"@[0] != "bpchar"@[0]);
    assert("varbit"@[0] != "timetz"@[0]);
}

proof fn lemma_name_position_32()
    ensures
        name_position(pg_type_row(32).name@) == 32,
{
    reveal_strlit("numeric");
    reveal_strlit("regproc");
    reveal_strlit("unknown");
    reveal_strlit("varchar");
    assert(pg_type_row(32).name@ == "numeric"@);
    assert("numeric"@[0] != "regproc"@[0]);
    assert("numeric"@[0] != "unknown"@[0]);
    assert("numeric"@[0] != "varchar"@[0]);
}

proof fn lemma_name_position_33()
    ensures
        name_position(pg_type_row(33).name@) == 33,
{
    reveal_strlit("regprocedure");
    reveal_strlit("pg_node_tree");
    assert(pg_type_row(33).name@ == "regprocedure"@);
    assert("regprocedure"@[0] != "pg_node_tree"@[0]);
}

proof fn lemma_name_position_34()
    ensures
        name_position(pg_type_row(34).name@) == 34,
{
    reveal_strlit("regoper");
    reveal_strlit("regproc");
    reveal_strlit("unknown");
    reveal_strlit("varchar");
    reveal_strlit("numeric");
    assert(pg_type_row(34).name@ == "regoper"@);
    assert("regoper"@[3] != "regproc"@[3]);
    assert("regoper"@[0] != "unknown"@[0]);
    assert("regoper"@[0] != "varchar"@[0]);
    assert("regoper"@[0] != "numeric"@[0]);
}

proof fn lemma_name_position_35()
    ensures
        name_position(pg_type_row(35).name@) == 35,
{
    reveal_strlit("regoperator");
    reveal_strlit("timestamptz");
    assert(pg_type_row(35).name@ == "regoperator"@);
    assert("regoperator"@[0] != "timestamptz"@[0]);
}

proof fn lemma_name_position_36()
    ensures
        name_position(pg_type_row(36).name@) == 36,
{
    reveal_strlit("regclass");
    reveal_strlit("interval");
    assert(pg_type_row(36).name@ == "regclass"@);
    assert("regclass"@[0] != "interval"@[0]);
}

proof fn lemma_name_position_37()
    ensures
        name_position(pg_type_row(37).name@) == 37,
{
    reveal_strlit("regtype");
    reveal_strlit("regproc");
    reveal_strlit("unknown");
    reveal_strlit("varchar");
    reveal_strlit("numeric");
    reveal_strlit("regoper");
    assert(pg_type_row(37).name@ == "regtype"@);
    assert("regtype"@[3] != "regproc"@[3]);
    assert("regtype"@[0] != "unknown"@[0]);
    assert("regtype"@[0] != "varchar"@[0]);
    assert("regtype"@[0] != "numeric"@[0]);
    assert("regtype"@[3] != "regoper"@[3]);
}

proof fn lemma_name_position_38()
    ensures
        name_position(pg_type_row(38).name@) == 38,
{
    reveal_strlit("regrole");
    reveal_strlit("regproc");
    reveal_strlit("unknown");
    reveal_strlit("varchar");
    reveal_strlit("numeric");
    reveal_strlit("regoper");
    reveal_strlit("regtype");
    assert(pg_type_row(38).name@ == "regrole"@);
    assert("regrole"@[3] != "regproc"@[3]);
    assert("regrole"@[0] != "unknown"@[0]);
    assert("regrole"@[0] != "varchar"@[0]);
    assert("regrole"@[0] != "numeric"@[0]);
    assert("regrole"@[3] != "regoper"@[3]);
    assert("regrole"@[3] != "regtype"@[3]);
}

proof fn lemma_name_position_39()
    ensures
        name_position(pg_type_row(39).name@) == 39,
{
    reveal_strlit("regnamespace");
    reveal_strlit("pg_node_tree");
    reveal_strlit("regprocedure");
    assert(pg_type_row(39).name@ == "regnamespace"@);
    assert("regnamespace"@[0] != "pg_node_tree"@[0]);
    assert("regnamespace"@[3] != "regprocedure"@[3]);
}

proof fn lemma_name_position_40()
    ensures
        name_position(pg_type_row(40).name@) == 40,
{
    reveal_strlit("regconfig");
    reveal_strlit("oidvector");
    reveal_strlit("timestamp");
    assert(pg_type_row(40).name@ == "regconfig"@);
    assert("regconfig"@[0] != "oidvector"@[0]);
    assert("regconfig"@[0] != "timestamp"@[0]);
}

proof fn lemma_name_position_41()
    ensures
        name_position(pg_type_row(41).name@) == 41,
{
    reveal_strlit("regdictionary");
    assert(pg_type_row(41).name@ == "regdictionary"@);
}

proof fn lemma_name_position_42()
    ensures
        name_position(pg_type_row(42).name@) == 42,
{
    reveal_strlit("record");
    reveal_strlit("float4");
    reveal_strlit("float8");
    reveal_strlit("bpchar");
    reveal_strlit("timetz");
    reveal_strlit("varbit");
    assert(pg_type_row(42).name@ == "record"@);
    assert("record"@[0] != "float4"@[0]);
    assert("record"@[0] != "float8"@[0]);
    assert("record"@[0] != "bpchar"@[0]);
    assert("record"@[0] != "timetz"@[0]);
    assert("record"@[0] != "varbit"@[0]);
}

proof fn lemma_name_position_43()
    ensures
        name_position(pg_type_row(43).name@) == 43,
{
    reveal_strlit("cstring");
    reveal_strlit("regproc");
    reveal_strlit("unknown");
    reveal_strlit("varchar");
    reveal_strlit("numeric");
    reveal_strlit("regoper");
    reveal_strlit("regtype");
    reveal_strlit("regrole");
    assert(pg_type_row(43).name@ == "cstring"@);
    assert("cstring"@[0] != "regproc"@[0]);
    assert("cstring"@[0] != "unknown"@[0]);
    assert("cstring"@[0] != "varchar"@[0]);
    assert("cstring"@[0] != "numeric"@[0]);
    assert("cstring"@[0] != "regoper"@[0]);
    assert("cstring"@[0] != "regtype"@[0]);
    assert("cstring"@[0] != "regrole"@[0]);
}

proof fn lemma_name_position_44()
    ensures
        name_position(pg_type_row(44).name@) == 44,
{
    reveal_strlit("any");
    reveal_strlit("oid");
    reveal_strlit("tid");
    reveal_strlit("xid");
    reveal_strlit("cid");
    reveal_strlit("xml");
    reveal_strlit("bit");
    assert(pg_type_row(44).name@ == "any"@);
    assert("any"@[0] != "oid"@[0]);
    assert("any"@[0] != "tid"@[0]);
    assert("any"@[0] != "xid"@[0]);
    assert("any"@[0] != "cid"@[0]);
    assert("any"@[0] != "xml"@[0]);
    assert("any"@[0] != "bit"@[0]);
}

proof fn lemma_name_position_45()
    ensures
        name_position(pg_type_row(45).name@) == 45,
{
    reveal_strlit("anyarray");
    reveal_strlit("interval");
    reveal_strlit("regclass");
    assert(pg_type_row(45).name@ == "anyarray"@);
    assert("anyarray"@[0] != "interval"@[0]);
    assert("anyarray"@[0] != "regclass"@[0]);
}

proof fn lemma_name_position_46()
    ensures
        name_position(pg_type_row(46).name@) == 46,
{
    reveal_strlit("void");
    reveal_strlit("bool");
    reveal_strlit("char");
    reveal_strlit("name");
    reveal_strlit("int8");
    reveal_strlit("int2");
    reveal_strlit("int4");
    reveal_strlit("text");
    reveal_strlit("json");
    reveal_strlit("date");
    reveal_strlit("time");
    assert(pg_type_row(46).name@ == "void"@);
    assert("void"@[0] != "bool"@[0]);
    assert("void"@[0] != "char"@[0]);
    assert("void"@[0] != "name"@[0]);
    assert("void"@[0] != "int8"@[0]);
    assert("void"@[0] != "int2"@[0]);
    assert("void"@[0] != "int4"@[0]);
    assert("void"@[0] != "text"@[0]);
    assert("void"@[0] != "json"@[0]);
    assert("void"@[0] != "date"@[0]);
    assert("void"@[0] != "time"@[0]);
}

proof fn lemma_name_position_47()
    ensures
        name_position(pg_type_row(47).name@) == 47,
{
    reveal_strlit("trigger");
    reveal_strlit("regproc");
    reveal_strlit("unknown");
    reveal_strlit("varchar");
    reveal_strlit("numeric");
    reveal_strlit("regoper");
    reveal_strlit("regtype");
    reveal_strlit("regrole");
    reveal_strlit("cstring");
    assert(pg_type_row(47).name@ == "trigger"@);
    assert("trigger"@[0] != "regproc"@[0]);
    assert("trigger"@[0] != "unknown"@[0]);
    assert("trigger"@[0] != "varchar"@[0]);
    assert("trigger"@[0] != "numeric"@[0]);
    assert("trigger"@[0] != "regoper"@[0]);
    assert("trigger"@[0] != "regtype"@[0]);
    assert("trigger"@[0] != "regrole"@[0]);
    assert("trigger"@[0] != "cstring"@[0]);
}

proof fn lemma_name_position_48()
    ensures
        name_position(pg_type_row(48).name@) == 48,
{
    reveal_strlit("internal");
    reveal_strlit("interval");
    reveal_strlit("regclass");
    reveal_strlit("anyarray");
    assert(pg_type_row(48).name@ == "internal"@);
    assert("internal"@[5] != "interval"@[5]);
    assert("internal"@[0] != "regclass"@[0]);
    assert("internal"@[0] != "anyarray"@[0]);
}

proof fn lemma_name_position_49()
    ensures
        name_position(pg_type_row(49).name@) == 49,
{
    reveal_strlit("anyelement");
    reveal_strlit("int2vector");
    assert(pg_type_row(49).name@ == "anyelement"@);
    assert("anyelement"@[0] != "int2vector"@[0]);
}

proof fn lemma_name_position_50()
    ensures
        name_position(pg_type_row(50).name@) == 50,
{
    reveal_strlit("uuid");
    reveal_strlit("bool");
    reveal_strlit("char");
    reveal_strlit("name");
    reveal_strlit("int8");
    reveal_strlit("int2");
    reveal_strlit("int4");
    reveal_strlit("text");
    reveal_strlit("json");
    reveal_strlit("date");
    reveal_strlit("time");
    reveal_strlit("void");
    assert(pg_type_row(50).name@ == "uuid"@);
    assert("uuid"@[0] != "bool"@[0]);
    assert("uuid"@[0] != "char"@[0]);
    assert("uuid"@[0] != "name"@[0]);
    assert("uuid"@[0] != "int8"@[0]);
    assert("uuid"@[0] != "int2"@[0]);
    assert("uuid"@[0] != "int4"@[0]);
    assert("uuid"@[0] != "text"@[0]);
    assert("uuid"@[0] != "json"@[0]);
    assert("uuid"@[0] != "date"@[0]);
    assert("uuid"@[0] != "time"@[0]);
    assert("uuid"@[0] != "void"@[0]);
}

proof fn lemma_name_position_51()
    ensures
        name_position(pg_type_row(51).name@) == 51,
{
    reveal_strlit("jsonb");
    reveal_strlit("bytea");
    reveal_strlit("money");
    assert(pg_type_row(51).name@ == "jsonb"@);
    assert("jsonb"@[0] != "bytea"@[0]);
    assert("jsonb"@[0] != "money"@[0]);
}

proof fn lemma_name_position_52()
    ensures
        name_position(pg_type_row(52).name@) == 52,
{
    reveal_strlit("jsonpath");
    reveal_strlit("interval");
    reveal_strlit("regclass");
    reveal_strlit("anyarray");
    reveal_strlit("internal");
    assert(pg_type_row(52).name@ == "jsonpath"@);
    assert("jsonpath"@[0] != "interval"@[0]);
    assert("jsonpath"@[0] != "regclass"@[0]);
    assert("jsonpath"@[0] != "anyarray"@[0]);
    assert("jsonpath"@[0] != "internal"@[0]);
}

proof fn lemma_name_position_53()
    ensures
        name_position(pg_type_row(53).name@) == 53,
{
    reveal_strlit("_bool");
    reveal_strlit("bytea");
    reveal_strlit("money");
    reveal_strlit("jsonb");
    assert(pg_type_row(53).name@ == "_bool"@);
    assert("_bool"@[0] != "bytea"@[0]);
    assert("_bool"@[0] != "money"@[0]);
    assert("_bool"@[0] != "jsonb"@[0]);
}

proof fn lemma_name_position_54()
    ensures
        name_position(pg_type_row(54).name@) == 54,
{
    reveal_strlit("_bytea");
    reveal_strlit("float4");
    reveal_strlit("float8");
    reveal_strlit("bpchar");
    reveal_strlit("timetz");
    reveal_strlit("varbit");
    reveal_strlit("record");
    assert(pg_type_row(54).name@ == "_bytea"@);
    assert("_bytea"@[0] != "float4"@[0]);
    assert("_bytea"@[0] != "float8"@[0]);
    assert("_bytea"@[0] != "bpchar"@[0]);
    assert("_bytea"@[0] != "timetz"@[0]);
    assert("_bytea"@[0] != "varbit"@[0]);
    assert("_bytea"@[0] != "record"@[0]);
}

proof fn lemma_name_position_55()
    ensures
        name_position(pg_type_row(55).name@) == 55,
{
    reveal_strlit("_char");
    reveal_strlit("bytea");
    reveal_strlit("money");
    reveal_strlit("jsonb");
    reveal_strlit("_bool");
    assert(pg_type_row(55).name@ == "_char"@);
    assert("_char"@[0] != "bytea"@[0]);
    assert("_char"@[0] != "money"@[0]);
    assert("_char"@[0] != "jsonb"@[0]);
    assert("_char"@[1] != "_bool"@[1]);
}

proof fn lemma_name_position_56()
    ensures
        name_position(pg_type_row(56).name@) == 56,
{
    reveal_strlit("_name");
    reveal_strlit("bytea");
    reveal_strlit("money");
    reveal_strlit("jsonb");
    reveal_strlit("_bool");
    reveal_strlit("_char");
    assert(pg_type_row(56).name@ == "_name"@);
    assert("_name"@[0] != "bytea"@[0]);
    assert("_name"@[0] != "money"@[0]);
    assert("_name"@[0] != "jsonb"@[0]);
    assert("_name"@[1] != "_bool"@[1]);
    assert("_name"@[1] != "_char"@[1]);
}

proof fn lemma_name_position_57()
    ensures
        name_position(pg_type_row(57).name@) == 57,
{
    reveal_strlit("_int2");
    reveal_strlit("bytea");
    reveal_strlit("money");
    reveal_strlit("jsonb");
    reveal_strlit("_bool");
    reveal_strlit("_char");
    reveal_strlit("_name");
    assert(pg_type_row(57).name@ == "_int2"@);
    assert("_int2"@[0] != "bytea"@[0]);
    assert("_int2"@[0] != "money"@[0]);
    assert("_int2"@[0] != "jsonb"@[0]);
    assert("_int2"@[1] != "_bool"@[1]);
    assert("_int2"@[1] != "_char"@[1]);
    assert("_int2"@[1] != "_name"@[1]);
}

proof fn lemma_name_position_58()
    ensures
        name_position(pg_type_row(58).name@) == 58,
{
    reveal_strlit("_int2vector");
    reveal_strlit("timestamptz");
    reveal_strlit("regoperator");
    assert(pg_type_row(58).name@ == "_int2vector"@);
    assert("_int2vector"@[0] != "timestamptz"@[0]);
    assert("_int2vector"@[0] != "regoperator"@[0]);
}

proof fn lemma_name_position_59()
    ensures
        name_position(pg_type_row(59).name@) == 59,
{
    reveal_strlit("_int4");
    reveal_strlit("bytea");
    reveal_strlit("money");
    reveal_strlit("jsonb");
    reveal_strlit("_bool");
    reveal_strlit("_char");
    reveal_strlit("_name");
    reveal_strlit("_int2");
    assert(pg_type_row(59).name@ == "_int4"@);
    assert("_int4"@[0] != "bytea"@[0]);
    assert("_int4"@[0] != "money"@[0]);
    assert("_int4"@[0] != "jsonb"@[0]);
    assert("_int4"@[1] != "_bool"@[1]);
    assert("_int4"@[1] != "_char"@[1]);
    assert("_int4"@[1] != "_name"@[1]);
    assert("_int4"@[4] != "_int2"@[4]);
}

proof fn lemma_name_position_60()
    ensures
        name_position(pg_type_row(60).name@) == 60,
{
    reveal_strlit("_regproc");
    reveal_strlit("interval");
    reveal_strlit("regclass");
    reveal_strlit("anyarray");
    reveal_strlit("internal");
    reveal_strlit("jsonpath");
    assert(pg_type_row(60).name@ == "_regproc"@);
    assert("_regproc"@[0] != "interval"@[0]);
    assert("_regproc"@[0] != "regclass"@[0]);
    assert("_regproc"@[0] != "anyarray"@[0]);
    assert("_regproc"@[0] != "internal"@[0]);
    assert("_regproc"@[0] != "jsonpath"@[0]);
}

proof fn lemma_name_position_61()
    ensures
        name_position(pg_type_row(61).name@) == 61,
{
    reveal_strlit("_text");
    reveal_strlit("bytea");
    reveal_strlit("money");
    reveal_strlit("jsonb");
    reveal_strlit("_bool");
    reveal_strlit("_char");
    reveal_strlit("_name");
    reveal_strlit("_int2");
    reveal_strlit("_int4");
    assert(pg_type_row(61).name@ == "_text"@);
    assert("_text"@[0] != "bytea"@[0]);
    assert("_text"@[0] != "money"@[0]);
    assert("_text"@[0] != "jsonb"@[0]);
    assert("_text"@[1] != "_bool"@[1]);
    assert("_text"@[1] != "_char"@[1]);
    assert("_text"@[1] != "_name"@[1]);
    assert("_text"@[1] != "_int2"@[1]);
    assert("_text"@[1] != "_int4"@[1]);
}

proof fn lemma_name_position_62()
    ensures
        name_position(pg_type_row(62).name@) == 62,
{
    reveal_strlit("_tid");
    reveal_strlit("bool");
    reveal_strlit("char");
    reveal_strlit("name");
    reveal_strlit("int8");
    reveal_strlit("int2");
    reveal_strlit("int4");
    reveal_strlit("text");
    reveal_strlit("json");
    reveal_strlit("date");
    reveal_strlit("time");
    reveal_strlit("void");
    reveal_strlit("uuid");
    assert(pg_type_row(62).name@ == "_tid"@);
    assert("_tid"@[0] != "bool"@[0]);
    assert("_tid"@[0] != "char"@[0]);
    assert("_tid"@[0] != "name"@[0]);
    assert("_tid"@[0] != "int8"@[0]);
    assert("_tid"@[0] != "int2"@[0]);
    assert("_tid"@[0] != "int4"@[0]);
    assert("_tid"@[0] != "text"@[0]);
    assert("_tid"@[0] != "json"@[0]);
    assert("_tid"@[0] != "date"@[0]);
    assert("_tid"@[0] != "time"@[0]);
    assert("_tid"@[0] != "void"@[0]);
    assert("_tid"@[0] != "uuid"@[0]);
}

proof fn lemma_name_position_63()
    ensures
        name_position(pg_type_row(63).name@) == 63,
{
    reveal_strlit("_xid");
    reveal_strlit("bool");
    reveal_strlit("char");
    reveal_strlit("name");
    reveal_strlit("int8");
    reveal_strlit("int2");
    reveal_strlit("int4");
    reveal_strlit("text");
    reveal_strlit("json");
    reveal_strlit("date");
    reveal_strlit("time");
    reveal_strlit("void");
    reveal_strlit("uuid");
    reveal_strlit("_tid");
    assert(pg_type_row(63).name@ == "_xid"@);
    assert("_xid"@[0] != "bool"@[0]);
    assert("_xid"@[0] != "char"@[0]);
    assert("_xid"@[0] != "name"@[0]);
    assert("_xid"@[0] != "int8"@[0]);
    assert("_xid"@[0] != "int2"@[0]);
    assert("_xid"@[0] != "int4"@[0]);
    assert("_xid"@[0] != "text"@[0]);
    assert("_xid"@[0] != "json"@[0]);
    assert("_xid"@[0] != "date"@[0]);
    assert("_xid"@[0] != "time"@[0]);
    assert("_xid"@[0] != "void"@[0]);
    assert("_xid"@[0] != "uuid"@[0]);
    assert("_xid"@[1] != "_tid"@[1]);
}

proof fn lemma_name_position_64()
    ensures
        name_position(pg_type_row(64).name@) == 64,
{
    reveal_strlit("_cid");
    reveal_strlit("bool");
    reveal_strlit("char");
    reveal_strlit("name");
    reveal_strlit("int8");
    reveal_strlit("int2");
    reveal_strlit("int4");
    reveal_strlit("text");
    reveal_strlit("json");
    reveal_strlit("date");
    reveal_strlit("time");
    reveal_strlit("void");
    reveal_strlit("uuid");
    reveal_strlit("_tid");
    reveal_strlit("_xid");
    assert(pg_type_row(64).name@ == "_cid"@);
    assert("_cid"@[0] != "bool"@[0]);
    assert("_cid"@[0] != "char"@[0]);
    assert("_cid"@[0] != "name"@[0]);
    assert("_cid"@[0] != "int8"@[0]);
    assert("_cid"@[0] != "int2"@[0]);
    assert("_cid"@[0] != "int4"@[0]);
    assert("_cid"@[0] != "text"@[0]);
    assert("_cid"@[0] != "json"@[0]);
    assert("_cid"@[0] != "date"@[0]);
    assert("_cid"@[0] != "time"@[0]);
    assert("_cid"@[0] != "void"@[0]);
    assert("_cid"@[0] != "uuid"@[0]);
    assert("_cid"@[1] != "_tid"@[1]);
    assert("_cid"@[1] != "_xid"@[1]);
}

proof fn lemma_name_position_65()
    ensures
        name_position(pg_type_row(65).name@) == 65,
{
    reveal_strlit("_oidvector");
    reveal_strlit("int2vector");
    reveal_strlit("anyelement");
    assert(pg_type_row(65).name@ == "_oidvector"@);
    assert("_oidvector"@[0] != "int2vector"@[0]);
    assert("_oidvector"@[0] != "anyelement"@[0]);
}

proof fn lemma_name_position_66()
    ensures
        name_position(pg_type_row(66).name@) == 66,
{
    reveal_strlit("_bpchar");
    reveal_strlit("regproc");
    reveal_strlit("unknown");
    reveal_strlit("varchar");
    reveal_strlit("numeric");
    reveal_strlit("regoper");
    reveal_strlit("regtype");
    reveal_strlit("regrole");
    reveal_strlit("cstring");
    reveal_strlit("trigger");
    assert(pg_type_row(66).name@ == "_bpchar"@);
    assert("_bpchar"@[0] != "regproc"@[0]);
    assert("_bpchar"@[0] != "unknown"@[0]);
    assert("_bpchar"@[0] != "varchar"@[0]);
    assert("_bpchar"@[0] != "numeric"@[0]);
    assert("_bpchar"@[0] != "regoper"@[0]);
    assert("_bpchar"@[0] != "regtype"@[0]);
    assert("_bpchar"@[0] != "regrole"@[0]);
    assert("_bpchar"@[0] != "cstring"@[0]);
    assert("_bpchar"@[0] != "trigger"@[0]);
}

proof fn lemma_name_position_67()
    ensures
        name_position(pg_type_row(67).name@) == 67,
{
    reveal_strlit("_varchar");
    reveal_strlit("interval");
    reveal_strlit("regclass");
    reveal_strlit("anyarray");
    reveal_strlit("internal");
    reveal_strlit("jsonpath");
    reveal_strlit("_regproc");
    assert(pg_type_row(67).name@ == "_varchar"@);
    assert("_varchar"@[0] != "interval"@[0]);
    assert("_varchar"@[0] != "regclass"@[0]);
    assert("_varchar"@[0] != "anyarray"@[0]);
    assert("_varchar"@[0] != "internal"@[0]);
    assert("_varchar"@[0] != "jsonpath"@[0]);
    assert("_varchar"@[1] != "_regproc"@[1]);
}

proof fn lemma_name_position_68()
    ensures
        name_position(pg_type_row(68).name@) == 68,
{
    reveal_strlit("_int8");
    reveal_strlit("bytea");
    reveal_strlit("money");
    reveal_strlit("jsonb");
    reveal_strlit("_bool");
    reveal_strlit("_char");
    reveal_strlit("_name");
    reveal_strlit("_int2");
    reveal_strlit("_int4");
    reveal_strlit("_text");
    assert(pg_type_row(68).name@ == "_int8"@);
    assert("_int8"@[0] != "bytea"@[0]);
    assert("_int8"@[0] != "money"@[0]);
    assert("_int8"@[0] != "jsonb"@[0]);
    assert("_int8"@[1] != "_bool"@[1]);
    assert("_int8"@[1] != "_char"@[1]);
    assert("_int8"@[1] != "_name"@[1]);
    assert("_int8"@[4] != "_int2"@[4]);
    assert("_int8"@[4] != "_int4"@[4]);
    assert("_int8"@[1] != "_text"@[1]);
}

proof fn lemma_name_position_69()
    ensures
        name_position(pg_type_row(69).name@) == 69,
{
    reveal_strlit("_float4");
    reveal_strlit("regproc");
    reveal_strlit("unknown");
    reveal_strlit("varchar");
    reveal_strlit("numeric");
    reveal_strlit("regoper");
    reveal_strlit("regtype");
    reveal_strlit("regrole");
    reveal_strlit("cstring");
    reveal_strlit("trigger");
    reveal_strlit("_bpchar");
    assert(pg_type_row(69).name@ == "_float4"@);
    assert("_float4"@[0] != "regproc"@[0]);
    assert("_float4"@[0] != "unknown"@[0]);
    assert("_float4"@[0] != "varchar"@[0]);
    assert("_float4"@[0] != "numeric"@[0]);
    assert("_float4"@[0] != "regoper"@[0]);
    assert("_float4"@[0] != "regtype"@[0]);
    assert("_float4"@[0] != "regrole"@[0]);
    assert("_float4"@[0] != "cstring"@[0]);
    assert("_float4"@[0] != "trigger"@[0]);
    assert("_float4"@[1] != "_bpchar"@[1]);
}

proof fn lemma_name_position_70()
    ensures
        name_position(pg_type_row(70).name@) == 70,
{
    reveal_strlit("_float8");
    reveal_strlit("regproc");
    reveal_strlit("unknown");
    reveal_strlit("varchar");
    reveal_strlit("numeric");
    reveal_strlit("regoper");
    reveal_strlit("regtype");
    reveal_strlit("regrole");
    reveal_strlit("cstring");
    reveal_strlit("trigger");
    reveal_strlit("_bpchar");
    reveal_strlit("_float4");
    assert(pg_type_row(70).name@ == "_float8"@);
    assert("_float8"@[0] != "regproc"@[0]);
    assert("_float8"@[0] != "unknown"@[0]);
    assert("_float8"@[0] != "varchar"@[0]);
    assert("_float8"@[0] != "numeric"@[0]);
    assert("_float8"@[0] != "regoper"@[0]);
    assert("_float8"@[0] != "regtype"@[0]);
    assert("_float8"@[0] != "regrole"@[0]);
    assert("_float8"@[0] != "cstring"@[0]);
    assert("_float8"@[0] != "trigger"@[0]);
    assert("_float8"@[1] != "_bpchar"@[1]);
    assert("_float8"@[6] != "_float4"@[6]);
}

proof fn lemma_name_position_71()
    ensures
        name_position(pg_type_row(71).name@) == 71,
{
    reveal_strlit("_oid");
    reveal_strlit("bool");
    reveal_strlit("char");
    reveal_strlit("name");
    reveal_strlit("int8");
    reveal_strlit("int2");
    reveal_strlit("int4");
    reveal_strlit("text");
    reveal_strlit("json");
    reveal_strlit("date");
    reveal_strlit("time");
    reveal_strlit("void");
    reveal_strlit("uuid");
    reveal_strlit("_tid");
    reveal_strlit("_xid");
    reveal_strlit("_cid");
    assert(pg_type_row(71).name@ == "_oid"@);
    assert("_oid"@[0] != "bool"@[0]);
    assert("_oid"@[0] != "char"@[0]);
    assert("_oid"@[0] != "name"@[0]);
    assert("_oid"@[0] != "int8"@[0]);
    assert("_oid"@[0] != "int2"@[0]);
    assert("_oid"@[0] != "int4"@[0]);
    assert("_oid"@[0] != "text"@[0]);
    assert("_oid"@[0] != "json"@[0]);
    assert("_oid"@[0] != "date"@[0]);
    assert("_oid"@[0] != "time"@[0]);
    assert("_oid"@[0] != "void"@[0]);
    assert("_oid"@[0] != "uuid"@[0]);
    assert("_oid"@[1] != "_tid"@[1]);
    assert("_oid"@[1] != "_xid"@[1]);
    assert("_oid"@[1] != "_cid"@[1]);
}

proof fn lemma_name_position_72()
    ensures
        name_position(pg_type_row(72).name@) == 72,
{
    reveal_strlit("_timestamp");
    reveal_strlit("int2vector");
    reveal_strlit("anyelement");
    reveal_strlit("_oidvector");
    assert(pg_type_row(72).name@ == "_timestamp"@);
    assert("_timestamp"@[0] != "int2vector"@[0]);
    assert("_timestamp"@[0] != "anyelement"@[0]);
    assert("_timestamp"@[1] != "_oidvector"@[1]);
}

proof fn lemma_name_position_73()
    ensures
        name_position(pg_type_row(73).name@) == 73,
{
    reveal_strlit("_date");
    reveal_strlit("bytea");
    reveal_strlit("money");
    reveal_strlit("jsonb");
    reveal_strlit("_bool");
    reveal_strlit("_char");
    reveal_strlit("_name");
    reveal_strlit("_int2");
    reveal_strlit("_int4");
    reveal_strlit("_text");
    reveal_strlit("_int8");
    assert(pg_type_row(73).name@ == "_date"@);
    assert("_date"@[0] != "bytea"@[0]);
    assert("_date"@[0] != "money"@[0]);
    assert("_date"@[0] != "jsonb"@[0]);
    assert("_date"@[1] != "_bool"@[1]);
    assert("_date"@[1] != "_char"@[1]);
    assert("_date"@[1] != "_name"@[1]);
    assert("_date"@[1] != "_int2"@[1]);
    assert("_date"@[1] != "_int4"@[1]);
    assert("_date"@[1] != "_text"@[1]);
    assert("_date"@[1] != "_int8"@[1]);
}

proof fn lemma_name_position_74()
    ensures
        name_position(pg_type_row(74).name@) == 74,
{
    reveal_strlit("_time");
    reveal_strlit("bytea");
    reveal_strlit("money");
    reveal_strlit("jsonb");
    reveal_strlit("_bool");
    reveal_strlit("_char");
    reveal_strlit("_name");
    reveal_strlit("_int2");
    reveal_strlit("_int4");
    reveal_strlit("_text");
    reveal_strlit("_int8");
    reveal_strlit("_date");
    assert(pg_type_row(74).name@ == "_time"@);
    assert("_time"@[0] != "bytea"@[0]);
    assert("_time"@[0] != "money"@[0]);
    assert("_time"@[0] != "jsonb"@[0]);
    assert("_time"@[1] != "_bool"@[1]);
    assert("_time"@[1] != "_char"@[1]);
    assert("_time"@[1] != "_name"@[1]);
    assert("_time"@[1] != "_int2"@[1]);
    assert("_time"@[1] != "_int4"@[1]);
    assert("_time"@[2] != "_text"@[2]);
    assert("_time"@[1] != "_int8"@[1]);
    assert("_time"@[1] != "_date"@[1]);
}

proof fn lemma_name_position_75()
    ensures
        name_position(pg_type_row(75).name@) == 75,
{
    reveal_strlit("_timestamptz");
    reveal_strlit("pg_node_tree");
    reveal_strlit("regprocedure");
    reveal_strlit("regnamespace");
    assert(pg_type_row(75).name@ == "_timestamptz"@);
    assert("_timestamptz"@[0] != "pg_node_tree"@[0]);
    assert("_timestamptz"@[0] != "regprocedure"@[0]);
    assert("_timestamptz"@[0] != "regnamespace"@[0]);
}

proof fn lemma_name_position_76()
    ensures
        name_position(pg_type_row(76).name@) == 76,
{
    reveal_strlit("_interval");
    reveal_strlit("oidvector");
    reveal_strlit("timestamp");
    reveal_strlit("regconfig");
    assert(pg_type_row(76).name@ == "_interval"@);
    assert("_interval"@[0] != "oidvector"@[0]);
    assert("_interval"@[0] != "timestamp"@[0]);
    assert("_interval"@[0] != "regconfig"@[0]);
}

proof fn lemma_name_position_77()
    ensures
        name_position(pg_type_row(77).name@) == 77,
{
    reveal_strlit("_numeric");
    reveal_strlit("interval");
    reveal_strlit("regclass");
    reveal_strlit("anyarray");
    reveal_strlit("internal");
    reveal_strlit("jsonpath");
    reveal_strlit("_regproc");
    reveal_strlit("_varchar");
    assert(pg_type_row(77).name@ == "_numeric"@);
    assert("_numeric"@[0] != "interval"@[0]);
    assert("_numeric"@[0] != "regclass"@[0]);
    assert("_numeric"@[0] != "anyarray"@[0]);
    assert("_numeric"@[0] != "internal"@[0]);
    assert("_numeric"@[0] != "jsonpath"@[0]);
    assert("_numeric"@[1] != "_regproc"@[1]);
    assert("_numeric"@[1] != "_varchar"@[1]);
}

proof fn lemma_name_position_78()
    ensures
        name_position(pg_type_row(78).name@) == 78,
{
    reveal_strlit("_cstring");
    reveal_strlit("interval");
    reveal_strlit("regclass");
    reveal_strlit("anyarray");
    reveal_strlit("internal");
    reveal_strlit("jsonpath");
    reveal_strlit("_regproc");
    reveal_strlit("_varchar");
    reveal_strlit("_numeric");
    assert(pg_type_row(78).name@ == "_cstring"@);
    assert("_cstring"@[0] != "interval"@[0]);
    assert("_cstring"@[0] != "regclass"@[0]);
    assert("_cstring"@[0] != "anyarray"@[0]);
    assert("_cstring"@[0] != "internal"@[0]);
    assert("_cstring"@[0] != "jsonpath"@[0]);
    assert("_cstring"@[1] != "_regproc"@[1]);
    assert("_cstring"@[1] != "_varchar"@[1]);
    assert("_cstring"@[1] != "_numeric"@[1]);
}

proof fn lemma_name_position_79()
    ensures
        name_position(pg_type_row(79).name@) == 79,
{
    reveal_strlit("_timetz");
    reveal_strlit("regproc");
    reveal_strlit("unknown");
    reveal_strlit("varchar");
    reveal_strlit("numeric");
    reveal_strlit("regoper");
    reveal_strlit("regtype");
    reveal_strlit("regrole");
    reveal_strlit("cstring");
    reveal_strlit("trigger");
    reveal_strlit("_bpchar");
    reveal_strlit("_float4");
    reveal_strlit("_float8");
    assert(pg_type_row(79).name@ == "_timetz"@);
    assert("_timetz"@[0] != "regproc"@[0]);
    assert("_timetz"@[0] != "unknown"@[0]);
    assert("_timetz"@[0] != "varchar"@[0]);
    assert("_timetz"@[0] != "numeric"@[0]);
    assert("_timetz"@[0] != "regoper"@[0]);
    assert("_timetz"@[0] != "regtype"@[0]);
    assert("_timetz"@[0] != "regrole"@[0]);
    assert("_timetz"@[0] != "cstring"@[0]);
    assert("_timetz"@[0] != "trigger"@[0]);
    assert("_timetz"@[1] != "_bpchar"@[1]);
    assert("_timetz"@[1] != "_float4"@[1]);
    assert("_timetz"@[1] != "_float8"@[1]);
}

proof fn lemma_name_position_80()
    ensures
        name_position(pg_type_row(80).name@) == 80,
{
    reveal_strlit("_bit");
    reveal_strlit("bool");
    reveal_strlit("char");
    reveal_strlit("name");
    reveal_strlit("int8");
    reveal_strlit("int2");
    reveal_strlit("int4");
    reveal_strlit("text");
    reveal_strlit("json");
    reveal_strlit("date");
    reveal_strlit("time");
    reveal_strlit("void");
    reveal_strlit("uuid");
    reveal_strlit("_tid");
    reveal_strlit("_xid");
    reveal_strlit("_cid");
    reveal_strlit("_oid");
    assert(pg_type_row(80).name@ == "_bit"@);
    assert("_bit"@[0] != "bool"@[0]);
    assert("_bit"@[0] != "char"@[0]);
    assert("_bit"@[0] != "name"@[0]);
    assert("_bit"@[0] != "int8"@[0]);
    assert("_bit"@[0] != "int2"@[0]);
    assert("_bit"@[0] != "int4"@[0]);
    assert("_bit"@[0] != "text"@[0]);
    assert("_bit"@[0] != "json"@[0]);
    assert("_bit"@[0] != "date"@[0]);
    assert("_bit"@[0] != "time"@[0]);
    assert("_bit"@[0] != "void"@[0]);
    assert("_bit"@[0] != "uuid"@[0]);
    assert("_bit"@[1] != "_tid"@[1]);
    assert("_bit"@[1] != "_xid"@[1]);
    assert("_bit"@[1] != "_cid"@[1]);
    assert("_bit"@[1] != "_oid"@[1]);
}

proof fn lemma_name_position_81()
    ensures
        name_position(pg_type_row(81).name@) == 81,
{
    reveal_strlit("_varbit");
    reveal_strlit("regproc");
    reveal_strlit("unknown");
    reveal_strlit("varchar");
    reveal_strlit("numeric");
    reveal_strlit("regoper");
    reveal_strlit("regtype");
    reveal_strlit("regrole");
    reveal_strlit("cstring");
    reveal_strlit("trigger");
    reveal_strlit("_bpchar");
    reveal_strlit("_float4");
    reveal_strlit("_float8");
    reveal_strlit("_timetz");
    assert(pg_type_row(81).name@ == "_varbit"@);
    assert("_varbit"@[0] != "regproc"@[0]);
    assert("_varbit"@[0] != "unknown"@[0]);
    assert("_varbit"@[0] != "varchar"@[0]);
    assert("_varbit"@[0] != "numeric"@[0]);
    assert("_varbit"@[0] != "regoper"@[0]);
    assert("_varbit"@[0] != "regtype"@[0]);
    assert("_varbit"@[0] != "regrole"@[0]);
    assert("_varbit"@[0] != "cstring"@[0]);
    assert("_varbit"@[0] != "trigger"@[0]);
    assert("_varbit"@[1] != "_bpchar"@[1]);
    assert("_varbit"@[1] != "_float4"@[1]);
    assert("_varbit"@[1] != "_float8"@[1]);
    assert("_varbit"@[1] != "_timetz"@[1]);
}

proof fn lemma_name_position_82()
    ensures
        name_position(pg_type_row(82).name@) == 82,
{
    reveal_strlit("_json");
    reveal_strlit("bytea");
    reveal_strlit("money");
    reveal_strlit("jsonb");
    reveal_strlit("_bool");
    reveal_strlit("_char");
    reveal_strlit("_name");
    reveal_strlit("_int2");
    reveal_strlit("_int4");
    reveal_strlit("_text");
    reveal_strlit("_int8");
    reveal_strlit("_date");
    reveal_strlit("_time");
    assert(pg_type_row(82).name@ == "_json"@);
    assert("_json"@[0] != "bytea"@[0]);
    assert("_json"@[0] != "money"@[0]);
    assert("_json"@[0] != "jsonb"@[0]);
    assert("_json"@[1] != "_bool"@[1]);
    assert("_json"@[1] != "_char"@[1]);
    assert("_json"@[1] != "_name"@[1]);
    assert("_json"@[1] != "_int2"@[1]);
    assert("_json"@[1] != "_int4"@[1]);
    assert("_json"@[1] != "_text"@[1]);
    assert("_json"@[1] != "_int8"@[1]);
    assert("_json"@[1] != "_date"@[1]);
    assert("_json"@[1] != "_time"@[1]);
}

proof fn lemma_name_position_83()
    ensures
        name_position(pg_type_row(83).name@) == 83,
{
    reveal_strlit("_xml");
    reveal_strlit("bool");
    reveal_strlit("char");
    reveal_strlit("name");
    reveal_strlit("int8");
    reveal_strlit("int2");
    reveal_strlit("int4");
    reveal_strlit("text");
    reveal_strlit("json");
    reveal_strlit("date");
    reveal_strlit("time");
    reveal_strlit("void");
    reveal_strlit("uuid");
    reveal_strlit("_tid");
    reveal_strlit("_xid");
    reveal_strlit("_cid");
    reveal_strlit("_oid");
    reveal_strlit("_bit");
    assert(pg_type_row(83).name@ == "_xml"@);
    assert("_xml"@[0] != "bool"@[0]);
    assert("_xml"@[0] != "char"@[0]);
    assert("_xml"@[0] != "name"@[0]);
    assert("_xml"@[0] != "int8"@[0]);
    assert("_xml"@[0] != "int2"@[0]);
    assert("_xml"@[0] != "int4"@[0]);
    assert("_xml"@[0] != "text"@[0]);
    assert("_xml"@[0] != "json"@[0]);
    assert("_xml"@[0] != "date"@[0]);
    assert("_xml"@[0] != "time"@[0]);
    assert("_xml"@[0] != "void"@[0]);
    assert("_xml"@[0] != "uuid"@[0]);
    assert("_xml"@[1] != "_tid"@[1]);
    assert("_xml"@[2] != "_xid"@[2]);
    assert("_xml"@[1] != "_cid"@[1]);
    assert("_xml"@[1] != "_oid"@[1]);
    assert("_xml"@[1] != "_bit"@[1]);
}

proof fn lemma_name_position_84()
    ensures
        name_position(pg_type_row(84).name@) == 84,
{
    reveal_strlit("_money");
    reveal_strlit("float4");
    reveal_strlit("float8");
    reveal_strlit("bpchar");
    reveal_strlit("timetz");
    reveal_strlit("varbit");
    reveal_strlit("record");
    reveal_strlit("_bytea");
    assert(pg_type_row(84).name@ == "_money"@);
    assert("_money"@[0] != "float4"@[0]);
    assert("_money"@[0] != "float8"@[0]);
    assert("_money"@[0] != "bpchar"@[0]);
    assert("_money"@[0] != "timetz"@[0]);
    assert("_money"@[0] != "varbit"@[0]);
    assert("_money"@[0] != "record"@[0]);
    assert("_money"@[1] != "_bytea"@[1]);
}

proof fn lemma_name_position_85()
    ensures
        name_position(pg_type_row(85).name@) == 85,
{
    reveal_strlit("_regprocedure");
    reveal_strlit("regdictionary");
    assert(pg_type_row(85).name@ == "_regprocedure"@);
    assert("_regprocedure"@[0] != "regdictionary"@[0]);
}

proof fn lemma_name_position_86()
    ensures
        name_position(pg_type_row(86).name@) == 86,
{
    reveal_strlit("_regoper");
    reveal_strlit("interval");
    reveal_strlit("regclass");
    reveal_strlit("anyarray");
    reveal_strlit("internal");
    reveal_strlit("jsonpath");
    reveal_strlit("_regproc");
    reveal_strlit("_varchar");
    reveal_strlit("_numeric");
    reveal_strlit("_cstring");
    assert(pg_type_row(86).name@ == "_regoper"@);
    assert("_regoper"@[0] != "interval"@[0]);
    assert("_regoper"@[0] != "regclass"@[0]);
    assert("_regoper"@[0] != "anyarray"@[0]);
    assert("_regoper"@[0] != "internal"@[0]);
    assert("_regoper"@[0] != "jsonpath"@[0]);
    assert("_regoper"@[4] != "_regproc"@[4]);
    assert("_regoper"@[1] != "_varchar"@[1]);
    assert("_regoper"@[1] != "_numeric"@[1]);
    assert("_regoper"@[1] != "_cstring"@[1]);
}

proof fn lemma_name_position_87()
    ensures
        name_position(pg_type_row(87).name@) == 87,
{
    reveal_strlit("_regoperator");
    reveal_strlit("pg_node_tree");
    reveal_strlit("regprocedure");
    reveal_strlit("regnamespace");
    reveal_strlit("_timestamptz");
    assert(pg_type_row(87).name@ == "_regoperator"@);
    assert("_regoperator"@[0] != "pg_node_tree"@[0]);
    assert("_regoperator"@[0] != "regprocedure"@[0]);
    assert("_regoperator"@[0] != "regnamespace"@[0]);
    assert("_regoperator"@[1] != "_timestamptz"@[1]);
}

proof fn lemma_name_position_88()
    ensures
        name_position(pg_type_row(88).name@) == 88,
{
    reveal_strlit("_regclass");
    reveal_strlit("oidvector");
    reveal_strlit("timestamp");
    reveal_strlit("regconfig");
    reveal_strlit("_interval");
    assert(pg_type_row(88).name@ == "_regclass"@);
    assert("_regclass"@[0] != "oidvector"@[0]);
    assert("_regclass"@[0] != "timestamp"@[0]);
    assert("_regclass"@[0] != "regconfig"@[0]);
    assert("_regclass"@[1] != "_interval"@[1]);
}

proof fn lemma_name_position_89()
    ensures
        name_position(pg_type_row(89).name@) == 89,
{
    reveal_strlit("_regtype");
    reveal_strlit("interval");
    reveal_strlit("regclass");
    reveal_strlit("anyarray");
    reveal_strlit("internal");
    reveal_strlit("jsonpath");
    reveal_strlit("_regproc");
    reveal_strlit("_varchar");
    reveal_strlit("_numeric");
    reveal_strlit("_cstring");
    reveal_strlit("_regoper");
    assert(pg_type_row(89).name@ == "_regtype"@);
    assert("_regtype"@[0] != "interval"@[0]);
    assert("_regtype"@[0] != "regclass"@[0]);
    assert("_regtype"@[0] != "anyarray"@[0]);
    assert("_regtype"@[0] != "internal"@[0]);
    assert("_regtype"@[0] != "jsonpath"@[0]);
    assert("_regtype"@[4] != "_regproc"@[4]);
    assert("_regtype"@[1] != "_varchar"@[1]);
    assert("_regtype"@[1] != "_numeric"@[1]);
    assert("_regtype"@[1] != "_cstring"@[1]);
    assert("_regtype"@[4] != "_regoper"@[4]);
}

proof fn lemma_name_position_90()
    ensures
        name_position(pg_type_row(90).name@) == 90,
{
    reveal_strlit("_record");
    reveal_strlit("regproc");
    reveal_strlit("unknown");
    reveal_strlit("varchar");
    reveal_strlit("numeric");
    reveal_strlit("regoper");
    reveal_strlit("regtype");
    reveal_strlit("regrole");
    reveal_strlit("cstring");
    reveal_strlit("trigger");
    reveal_strlit("_bpchar");
    reveal_strlit("_float4");
    reveal_strlit("_float8");
    reveal_strlit("_timetz");
    reveal_strlit("_varbit");
    assert(pg_type_row(90).name@ == "_record"@);
    assert("_record"@[0] != "regproc"@[0]);
    assert("_record"@[0] != "unknown"@[0]);
    assert("_record"@[0] != "varchar"@[0]);
    assert("_record"@[0] != "numeric"@[0]);
    assert("_record"@[0] != "regoper"@[0]);
    assert("_record"@[0] != "regtype"@[0]);
    assert("_record"@[0] != "regrole"@[0]);
    assert("_record"@[0] != "cstring"@[0]);
    assert("_record"@[0] != "trigger"@[0]);
    assert("_record"@[1] != "_bpchar"@[1]);
    assert("_record"@[1] != "_float4"@[1]);
    assert("_record"@[1] != "_float8"@[1]);
    assert("_record"@[1] != "_timetz"@[1]);
    assert("_record"@[1] != "_varbit"@[1]);
}

proof fn lemma_name_position_91()
    ensures
        name_position(pg_type_row(91).name@) == 91,
{
    reveal_strlit("_uuid");
    reveal_strlit("bytea");
    reveal_strlit("money");
    reveal_strlit("jsonb");
    reveal_strlit("_bool");
    reveal_strlit("_char");
    reveal_strlit("_name");
    reveal_strlit("_int2");
    reveal_strlit("_int4");
    reveal_strlit("_text");
    reveal_strlit("_int8");
    reveal_strlit("_date");
    reveal_strlit("_time");
    reveal_strlit("_json");
    assert(pg_type_row(91).name@ == "_uuid"@);
    assert("_uuid"@[0] != "bytea"@[0]);
    assert("_uuid"@[0] != "money"@[0]);
    assert("_uuid"@[0] != "jsonb"@[0]);
    assert("_uuid"@[1] != "_bool"@[1]);
    assert("_uuid"@[1] != "_char"@[1]);
    assert("_uuid"@[1] != "_name"@[1]);
    assert("_uuid"@[1] != "_int2"@[1]);
    assert("_uuid"@[1] != "_int4"@[1]);
    assert("_uuid"@[1] != "_text"@[1]);
    assert("_uuid"@[1] != "_int8"@[1]);
    assert("_uuid"@[1] != "_date"@[1]);
    assert("_uuid"@[1] != "_time"@[1]);
    assert("_uuid"@[1] != "_json"@[1]);
}

proof fn lemma_name_position_92()
    ensures
        name_position(pg_type_row(92).name@) == 92,
{
    reveal_strlit("_regconfig");
    reveal_strlit("int2vector");
    reveal_strlit("anyelement");
    reveal_strlit("_oidvector");
    reveal_strlit("_timestamp");
    assert(pg_type_row(92).name@ == "_regconfig"@);
    assert("_regconfig"@[0] != "int2vector"@[0]);
    assert("_regconfig"@[0] != "anyelement"@[0]);
    assert("_regconfig"@[1] != "_oidvector"@[1]);
    assert("_regconfig"@[1] != "_timestamp"@[1]);
}

proof fn lemma_name_position_93()
    ensures
        name_position(pg_type_row(93).name@) == 93,
{
    reveal_strlit("_regdictionary");
    assert(pg_type_row(93).name@ == "_regdictionary"@);
}

proof fn lemma_name_position_94()
    ensures
        name_position(pg_type_row(94).name@) == 94,
{
    reveal_strlit("_jsonb");
    reveal_strlit("float4");
    reveal_strlit("float8");
    reveal_strlit("bpchar");
    reveal_strlit("timetz");
    reveal_strlit("varbit");
    reveal_strlit("record");
    reveal_strlit("_bytea");
    reveal_strlit("_money");
    assert(pg_type_row(94).name@ == "_jsonb"@);
    assert("_jsonb"@[0] != "float4"@[0]);
    assert("_jsonb"@[0] != "float8"@[0]);
    assert("_jsonb"@[0] != "bpchar"@[0]);
    assert("_jsonb"@[0] != "timetz"@[0]);
    assert("_jsonb"@[0] != "varbit"@[0]);
    assert("_jsonb"@[0] != "record"@[0]);
    assert("_jsonb"@[1] != "_bytea"@[1]);
    assert("_jsonb"@[1] != "_money"@[1]);
}

proof fn lemma_name_position_95()
    ensures
        name_position(pg_type_row(95).name@) == 95,
{
    reveal_strlit("_jsonpath");
    reveal_strlit("oidvector");
    reveal_strlit("timestamp");
    reveal_strlit("regconfig");
    reveal_strlit("_interval");
    reveal_strlit("_regclass");
    assert(pg_type_row(95).name@ == "_jsonpath"@);
    assert("_jsonpath"@[0] != "oidvector"@[0]);
    assert("_jsonpath"@[0] != "timestamp"@[0]);
    assert("_jsonpath"@[0] != "regconfig"@[0]);
    assert("_jsonpath"@[1] != "_interval"@[1]);
    assert("_jsonpath"@[1] != "_regclass"@[1]);
}

proof fn lemma_name_position_96()
    ensures
        name_position(pg_type_row(96).name@) == 96,
{
    reveal_strlit("_regnamespace");
    reveal_strlit("regdictionary");
    reveal_strlit("_regprocedure");
    assert(pg_type_row(96).name@ == "_regnamespace"@);
    assert("_regnamespace"@[0] != "regdictionary"@[0]);
    assert("_regnamespace"@[4] != "_regprocedure"@[4]);
}

proof fn lemma_name_position_97()
    ensures
        name_position(pg_type_row(97).name@) == 97,
{
    reveal_strlit("_regrole");
    reveal_strlit("interval");
    reveal_strlit("regclass");
    reveal_strlit("anyarray");
    reveal_strlit("internal");
    reveal_strlit("jsonpath");
    reveal_strlit("_regproc");
    reveal_strlit("_varchar");
    reveal_strlit("_numeric");
    reveal_strlit("_cstring");
    reveal_strlit("_regoper");
    reveal_strlit("_regtype");
    assert(pg_type_row(97).name@ == "_regrole"@);
    assert("_regrole"@[0] != "interval"@[0]);
    assert("_regrole"@[0] != "regclass"@[0]);
    assert("_regrole"@[0] != "anyarray"@[0]);
    assert("_regrole"@[0] != "internal"@[0]);
    assert("_regrole"@[0] != "jsonpath"@[0]);
    assert("_regrole"@[4] != "_regproc"@[4]);
    assert("_regrole"@[1] != "_varchar"@[1]);
    assert("_regrole"@[1] != "_numeric"@[1]);
    assert("_regrole"@[1] != "_cstring"@[1]);
    assert("_regrole"@[4] != "_regoper"@[4]);
    assert("_regrole"@[4] != "_regtype"@[4]);
}

/// Each row sits at the position its name gives.
pub proof fn lemma_name_position(i: int)
    requires
        0 <= i < pg_types_len(),
    ensures
        name_position(pg_type_row(i).name@) == i,
{
    if i == 0 {
        lemma_name_position_0();
    } else if i == 1 {
        lemma_name_position_1();
    } else if i == 2 {
        lemma_name_position_2();
    } else if i == 3 {
        lemma_name_position_3();
    } else if i == 4 {
        lemma_name_position_4();
    } else if i == 5 {
        lemma_name_position_5();
    } else if i == 6 {
        lemma_name_position_6();
    } else if i == 7 {
        lemma_name_position_7();
    } else if i == 8 {
        lemma_name_position_8();
    } else if i == 9 {
        lemma_name_position_9();
    } else if i == 10 {
        lemma_name_position_10();
    } else if i == 11 {
        lemma_name_position_11();
    } else if i == 12 {
        lemma_name_position_12();
    } else if i == 13 {
        lemma_name_position_13();
    } else if i == 14 {
        lemma_name_position_14();
    } else if i == 15 {
        lemma_name_position_15();
    } else if i == 16 {
        lemma_name_position_16();
    } else if i == 17 {
        lemma_name_position_17();
    } else if i == 18 {
        lemma_name_position_18();
    } else if i == 19 {
        lemma_name_position_19();
    } else if i == 20 {
        lemma_name_position_20();
    } else if i == 21 {
        lemma_name_position_21();
    } else if i == 22 {
        lemma_name_position_22();
    } else if i == 23 {
        lemma_name_position_23();
    } else if i == 24 {
        lemma_name_position_24();
    } else if i == 25 {
        lemma_name_position_25();
    } else if i == 26 {
        lemma_name_position_26();
    } else if i == 27 {
        lemma_name_position_27();
    } else if i == 28 {
        lemma_name_position_28();
    } else if i == 29 {
        lemma_name_position_29();
    } else if i == 30 {
        lemma_name_position_30();
    } else if i == 31 {
        lemma_name_position_31();
    } else if i == 32 {
        lemma_name_position_32();
    } else if i == 33 {
        lemma_name_position_33();
    } else if i == 34 {
        lemma_name_position_34();
    } else if i == 35 {
        lemma_name_position_35();
    } else if i == 36 {
        lemma_name_position_36();
    } else if i == 37 {
        lemma_name_position_37();
    } else if i == 38 {
        lemma_name_position_38();
    } else if i == 39 {
        lemma_name_position_39();
    } else if i == 40 {
        lemma_name_position_40();
    } else if i == 41 {
        lemma_name_position_41();
    } else if i == 42 {
        lemma_name_position_42();
    } else if i == 43 {
        lemma_name_position_43();
    } else if i == 44 {
        lemma_name_position_44();
    } else if i == 45 {
        lemma_name_position_45();
    } else if i == 46 {
        lemma_name_position_46();
    } else if i == 47 {
        lemma_name_position_47();
    } else if i == 48 {
        lemma_name_position_48();
    } else if i == 49 {
        lemma_name_position_49();
    } else if i == 50 {
        lemma_name_position_50();
    } else if i == 51 {
        lemma_name_position_51();
    } else if i == 52 {
        lemma_name_position_52();
    } else if i == 53 {
        lemma_name_position_53();
    } else if i == 54 {
        lemma_name_position_54();
    } else if i == 55 {
        lemma_name_position_55();
    } else if i == 56 {
        lemma_name_position_56();
    } else if i == 57 {
        lemma_name_position_57();
    } else if i == 58 {
        lemma_name_position_58();
    } else if i == 59 {
        lemma_name_position_59();
    } else if i == 60 {
        lemma_name_position_60();
    } else if i == 61 {
        lemma_name_position_61();
    } else if i == 62 {
        lemma_name_position_62();
    } else if i == 63 {
        lemma_name_position_63();
    } else if i == 64 {
        lemma_name_position_64();
    } else if i == 65 {
        lemma_name_position_65();
    } else if i == 66 {
        lemma_name_position_66();
    } else if i == 67 {
        lemma_name_position_67();
    } else if i == 68 {
        lemma_name_position_68();
    } else if i == 69 {
        lemma_name_position_69();
    } else if i == 70 {
        lemma_name_position_70();
    } else if i == 71 {
        lemma_name_position_71();
    } else if i == 72 {
        lemma_name_position_72();
    } else if i == 73 {
        lemma_name_position_73();
    } else if i == 74 {
        lemma_name_position_74();
    } else if i == 75 {
        lemma_name_position_75();
    } else if i == 76 {
        lemma_name_position_76();
    } else if i == 77 {
        lemma_name_position_77();
    } else if i == 78 {
        lemma_name_position_78();
    } else if i == 79 {
        lemma_name_position_79();
    } else if i == 80 {
        lemma_name_position_80();
    } else if i == 81 {
        lemma_name_position_81();
    } else if i == 82 {
        lemma_name_position_82();
    } else if i == 83 {
        lemma_name_position_83();
    } else if i == 84 {
        lemma_name_position_84();
    } else if i == 85 {
        lemma_name_position_85();
    } else if i == 86 {
        lemma_name_position_86();
    } else if i == 87 {
        lemma_name_position_87();
    } else if i == 88 {
        lemma_name_position_88();
    } else if i == 89 {
        lemma_name_position_89();
    } else if i == 90 {
        lemma_name_position_90();
    } else if i == 91 {
        lemma_name_position_91();
    } else if i == 92 {
        lemma_name_position_92();
    } else if i == 93 {
        lemma_name_position_93();
    } else if i == 94 {
        lemma_name_position_94();
    } else if i == 95 {
        lemma_name_position_95();
    } else if i == 96 {
        lemma_name_position_96();
    } else if i == 97 {
        lemma_name_position_97();
    }
}

/// No two rows of the type table share a name.
pub proof fn lemma_pg_type_names_distinct(i: int, j: int)
    requires
        0 <= i < pg_types_len(),
        0 <= j < pg_types_len(),
        i != j,
    ensures
        pg_type_row(i).name@ != pg_type_row(j).name@,
{
    lemma_name_position(i);
    lemma_name_position(j);
}

proof fn lemma_first_by_name_finds(i: int, from: int)
    requires
        0 <= from <= i < pg_types_len(),
    ensures
        first_by_name(pg_type_row(i).name@, from) == Some(pg_type_row(i)),
    decreases i - from,
{
    if from < i {
        lemma_pg_type_names_distinct(from, i);
        lemma_first_by_name_finds(i, from + 1);
    }
}

/// Every row of the type table is what a lookup by its OID, and a lookup by
/// its name, gives back.
pub proof fn lemma_lookups_find_row(i: int)
    requires
        0 <= i < pg_types_len(),
    ensures
        spec_pg_type_by_oid(pg_type_row(i).oid) == Some(pg_type_row(i)),
        first_by_name(pg_type_row(i).name@, 0) == Some(pg_type_row(i)),
{
    lemma_row_position(i);
    lemma_first_by_name_finds(i, 0);
}

/// Whether a character separates or brackets the parameters of a type
/// name.
pub open spec fn is_param_mark(c: char) -> bool {
    c == ',' || is_open(c) || is_close(c)
}

proof fn lemma_head_end_at(s: Seq<char>, i: int, stop: int)
    requires
        0 <= i <= stop < s.len(),
        is_open(s[stop]),
        forall|j: int| i <= j < stop ==> !is_open(#[trigger] s[j]),
    ensures
        head_end_from(s, i) == stop,
    decreases stop - i,
{
    if i < stop {
        lemma_head_end_at(s, i + 1, stop);
    }
}

proof fn lemma_find_at(s: Seq<char>, c: char, i: int, stop: int)
    requires
        0 <= i <= stop < s.len(),
        s[stop] == c,
        forall|j: int| i <= j < stop ==> #[trigger] s[j] != c,
    ensures
        find_from(s, c, i) == stop,
    decreases stop - i,
{
    if i < stop {
        lemma_find_at(s, c, i + 1, stop);
    }
}

proof fn lemma_comma_at(s: Seq<char>, i: int, stop: int)
    requires
        0 <= i <= stop < s.len(),
        s[stop] == ',',
        forall|j: int| i <= j < stop ==> !is_param_mark(#[trigger] s[j]),
    ensures
        comma_from(s, i, 0) == Some(stop),
    decreases stop - i,
{
    if i < stop {
        lemma_comma_at(s, i + 1, stop);
    }
}

/// A trimmed text keeps its trim after one leading space.
proof fn lemma_trim_after_space(v: Seq<char>)
    requires
        trim_seq(v) == v,
    ensures
        trim_seq(seq![' '] + v) == v,
{
    let w = seq![' '] + v;
    assert(w.drop_first() =~= v);
    lemma_first_le_len(v);
    lemma_end_le_len(v);
    if v.len() == 0 {
        assert(w.drop_last() =~= Seq::<char>::empty());
        assert(end_non_space(w) == 0);
    } else {
        let a = first_non_space(v);
        let b = end_non_space(v);
        assert(a < b);
        assert(v.subrange(a, b).len() == v.len());
        assert(a == 0 && b == v.len());
        lemma_end_le_len(v.drop_last());
        assert(!is_space(v.last()));
        assert(w.last() == v.last());
        assert(end_non_space(w) == w.len());
        assert(first_non_space(w) == 1);
        assert(w.subrange(1, w.len() as int) =~= v);
    }
}

/// A `Dictionary(K, V)` name announces the OID of its value type's name,
/// whatever the key: for a key name with no comma or bracket and a value
/// name with no white space at its ends (commas and brackets inside it are
/// fine).
pub proof fn lemma_dictionary_name_announces_value(k: Seq<char>, v: Seq<char>)
    requires
        forall|i: int| 0 <= i < k.len() ==> !is_param_mark(#[trigger] k[i]),
        trim_seq(v) == v,
    ensures
        arrow_name_oid("Dictionary("@ + k + ", "@ + v + ")"@) == arrow_name_oid(v),
{
    reveal_strlit("Dictionary(");
    reveal_strlit(", ");
    reveal_strlit(")");
    reveal_strlit("Dictionary");
    reveal_strlit("Boolean");
    reveal_strlit("Bool");
    reveal_strlit("Int8");
    reveal_strlit("Int16");
    reveal_strlit("UInt8");
    reveal_strlit("UInt16");
    reveal_strlit("Int32");
    reveal_strlit("UInt32");
    reveal_strlit("Int64");
    reveal_strlit("UInt64");
    reveal_strlit("Float16");
    reveal_strlit("Float32");
    reveal_strlit("Float64");
    reveal_strlit("Decimal128");
    reveal_strlit("Decimal256");
    reveal_strlit("Utf8");
    reveal_strlit("LargeUtf8");
    reveal_strlit("Binary");
    reveal_strlit("LargeBinary");
    reveal_strlit("FixedSizeBinary");
    reveal_strlit("Date32");
    reveal_strlit("Date64");
    reveal_strlit("Time32");
    reveal_strlit("Time64");
    reveal_strlit("Timestamp");
    reveal_strlit("Duration");
    reveal_strlit("Interval");
    let s = "Dictionary("@ + k + ", "@ + v + ")"@;
    let n = s.len() as int;
    assert(n == 14 + k.len() + v.len());
    assert forall|j: int| 0 <= j < 10 implies !is_open(#[trigger] s[j]) && s[j] != '(' by {
        assert(s[j] == "Dictionary("@[j]);
    }
    assert(s[10] == '(');
    lemma_head_end_at(s, 0, 10);
    lemma_find_at(s, '(', 0, 10);
    let head = s.take(10);
    assert(head =~= "Dictionary"@);
    assert(first_non_space(head) == 0);
    assert(end_non_space(head) == 10);
    assert(head.subrange(0, 10) =~= head);
    assert(type_name_head(s) == "Dictionary"@);
    assert(s[n - 1] == ')');
    assert(rfind_before(s, ')', n) == n - 1);
    let inner = s.subrange(11, n - 1);
    assert(inner =~= k + ", "@ + v);
    assert forall|j: int| 0 <= j < k.len() implies !is_param_mark(#[trigger] inner[j]) by {
        assert(inner[j] == k[j]);
    }
    assert(inner[k.len() as int] == ',');
    lemma_comma_at(inner, 0, k.len() as int);
    assert(top_level_comma(inner) == Some(k.len() as int));
    assert(inner.subrange(k.len() as int + 1, inner.len() as int) =~= seq![' '] + v);
    lemma_trim_after_space(v);
}

/// A row whose name starts with `_` is an array: its element OID is set.
proof fn lemma_underscore_names_have_elements(i: int)
    requires
        0 <= i < pg_types_len(),
        pg_type_row(i).name@.len() > 0,
        pg_type_row(i).name@[0] == '_',
    ensures
        pg_type_row(i).typelem != 0,
{
    if i == 0 {
        reveal_strlit("bool");
        assert(pg_type_row(0).name@ == "bool"@);
    } else if i == 1 {
        reveal_strlit("bytea");
        assert(pg_type_row(1).name@ == "bytea"@);
    } else if i == 2 {
        reveal_strlit("char");
        assert(pg_type_row(2).name@ == "char"@);
    } else if i == 4 {
        reveal_strlit("int8");
        assert(pg_type_row(4).name@ == "int8"@);
    } else if i == 5 {
        reveal_strlit("int2");
        assert(pg_type_row(5).name@ == "int2"@);
    } else if i == 7 {
        reveal_strlit("int4");
        assert(pg_type_row(7).name@ == "int4"@);
    } else if i == 8 {
        reveal_strlit("regproc");
        assert(pg_type_row(8).name@ == "regproc"@);
    } else if i == 9 {
        reveal_strlit("text");
        assert(pg_type_row(9).name@ == "text"@);
    } else if i == 10 {
        reveal_strlit("oid");
        assert(pg_type_row(10).name@ == "oid"@);
    } else if i == 11 {
        reveal_strlit("tid");
        assert(pg_type_row(11).name@ == "tid"@);
    } else if i == 12 {
        reveal_strlit("xid");
        assert(pg_type_row(12).name@ == "xid"@);
    } else if i == 13 {
        reveal_strlit("cid");
        assert(pg_type_row(13).name@ == "cid"@);
    } else if i == 15 {
        reveal_strlit("pg_node_tree");
        assert(pg_type_row(15).name@ == "pg_node_tree"@);
    } else if i == 16 {
        reveal_strlit("json");
        assert(pg_type_row(16).name@ == "json"@);
    } else if i == 17 {
        reveal_strlit("xml");
        assert(pg_type_row(17).name@ == "xml"@);
    } else if i == 18 {
        reveal_strlit("float4");
        assert(pg_type_row(18).name@ == "float4"@);
    } else if i == 19 {
        reveal_strlit("float8");
        assert(pg_type_row(19).name@ == "float8"@);
    } else if i == 20 {
        reveal_strlit("unknown");
        assert(pg_type_row(20).name@ == "unknown"@);
    } else if i == 21 {
        reveal_strlit("money");
        assert(pg_type_row(21).name@ == "money"@);
    } else if i == 22 {
        reveal_strlit("bpchar");
        assert(pg_type_row(22).name@ == "bpchar"@);
    } else if i == 23 {
        reveal_strlit("varchar");
        assert(pg_type_row(23).name@ == "varchar"@);
    } else if i == 24 {
        reveal_strlit("date");
        assert(pg_type_row(24).name@ == "date"@);
    } else if i == 25 {
        reveal_strlit("time");
        assert(pg_type_row(25).name@ == "time"@);
    } else if i == 26 {
        reveal_strlit("timestamp");
        assert(pg_type_row(26).name@ == "timestamp"@);
    } else if i == 27 {
        reveal_strlit("timestamptz");
        assert(pg_type_row(27).name@ == "timestamptz"@);
    } else if i == 28 {
        reveal_strlit("interval");
        assert(pg_type_row(28).name@ == "interval"@);
    } else if i == 29 {
        reveal_strlit("timetz");
        assert(pg_type_row(29).name@ == "timetz"@);
    } else if i == 30 {
        reveal_strlit("bit");
        assert(pg_type_row(30).name@ == "bit"@);
    } else if i == 31 {
        reveal_strlit("varbit");
        assert(pg_type_row(31).name@ == "varbit"@);
    } else if i == 32 {
        reveal_strlit("numeric");
        assert(pg_type_row(32).name@ == "numeric"@);
    } else if i == 33 {
        reveal_strlit("regprocedure");
        assert(pg_type_row(33).name@ == "regprocedure"@);
    } else if i == 34 {
        reveal_strlit("regoper");
        assert(pg_type_row(34).name@ == "regoper"@);
    } else if i == 35 {
        reveal_strlit("regoperator");
        assert(pg_type_row(35).name@ == "regoperator"@);
    } else if i == 36 {
        reveal_strlit("regclass");
        assert(pg_type_row(36).name@ == "regclass"@);
    } else if i == 37 {
        reveal_strlit("regtype");
        assert(pg_type_row(37).name@ == "regtype"@);
    } else if i == 38 {
        reveal_strlit("regrole");
        assert(pg_type_row(38).name@ == "regrole"@);
    } else if i == 39 {
        reveal_strlit("regnamespace");
        assert(pg_type_row(39).name@ == "regnamespace"@);
    } else if i == 40 {
        reveal_strlit("regconfig");
        assert(pg_type_row(40).name@ == "regconfig"@);
    } else if i == 41 {
        reveal_strlit("regdictionary");
        assert(pg_type_row(41).name@ == "regdictionary"@);
    } else if i == 42 {
        reveal_strlit("record");
        assert(pg_type_row(42).name@ == "record"@);
    } else if i == 43 {
        reveal_strlit("cstring");
        assert(pg_type_row(43).name@ == "cstring"@);
    } else if i == 44 {
        reveal_strlit("any");
        assert(pg_type_row(44).name@ == "any"@);
    } else if i == 45 {
        reveal_strlit("anyarray");
        assert(pg_type_row(45).name@ == "anyarray"@);
    } else if i == 46 {
        reveal_strlit("void");
        assert(pg_type_row(46).name@ == "void"@);
    } else if i == 47 {
        reveal_strlit("trigger");
        assert(pg_type_row(47).name@ == "trigger"@);
    } else if i == 48 {
        reveal_strlit("internal");
        assert(pg_type_row(48).name@ == "internal"@);
    } else if i == 49 {
        reveal_strlit("anyelement");
        assert(pg_type_row(49).name@ == "anyelement"@);
    } else if i == 50 {
        reveal_strlit("uuid");
        assert(pg_type_row(50).name@ == "uuid"@);
    } else if i == 51 {
        reveal_strlit("jsonb");
        assert(pg_type_row(51).name@ == "jsonb"@);
    } else if i == 52 {
        reveal_strlit("jsonpath");
        assert(pg_type_row(52).name@ == "jsonpath"@);
    }
}

/// Every row whose name starts with `_` names an element type that is
/// itself a row of the type table.
pub proof fn lemma_underscore_rows_resolve(i: int)
    requires
        0 <= i < pg_types_len(),
        pg_type_row(i).name@.len() > 0,
        pg_type_row(i).name@[0] == '_',
    ensures
        spec_pg_type_by_oid(pg_type_row(i).typelem) is Some,
{
    lemma_underscore_names_have_elements(i);
    lemma_array_elements_resolve(i);
}

/// The name the catalog stores for an Arrow type that takes no parameters:
/// the type's own identifier.
pub open spec fn plain_arrow_name(t: ArrowType) -> Option<Seq<char>> {
    match t {
        ArrowType::Null => Some("Null"@),
        ArrowType::Boolean => Some("Boolean"@),
        ArrowType::Int8 => Some("Int8"@),
        ArrowType::Int16 => Some("Int16"@),
        ArrowType::Int32 => Some("Int32"@),
        ArrowType::Int64 => Some("Int64"@),
        ArrowType::UInt8 => Some("UInt8"@),
        ArrowType::UInt16 => Some("UInt16"@),
        ArrowType::UInt32 => Some("UInt32"@),
        ArrowType::UInt64 => Some("UInt64"@),
        ArrowType::Float16 => Some("Float16"@),
        ArrowType::Float32 => Some("Float32"@),
        ArrowType::Float64 => Some("Float64"@),
        ArrowType::Utf8 => Some("Utf8"@),
        ArrowType::LargeUtf8 => Some("LargeUtf8"@),
        ArrowType::Binary => Some("Binary"@),
        ArrowType::LargeBinary => Some("LargeBinary"@),
        ArrowType::Date32 => Some("Date32"@),
        ArrowType::Date64 => Some("Date64"@),
        _ => None,
    }
}

proof fn lemma_plain_name_head(n: Seq<char>)
    requires
        0 < n.len() <= 12,
        forall|j: int| 0 <= j < n.len() ==> !is_open(#[trigger] n[j]) && !is_space(n[j]),
    ensures
        type_name_head(n) == n,
{
    reveal_with_fuel(head_end_from, 13);
    assert(head_end_from(n, 0) == n.len());
    assert(n.take(n.len() as int) =~= n);
    assert(first_non_space(n) == 0);
    assert(end_non_space(n) == n.len());
    assert(n.subrange(0, n.len() as int) =~= n);
}

/// The name of an Arrow type's variant, as its stored name begins.
pub open spec fn arrow_variant_name(t: ArrowType) -> Seq<char> {
    match t {
        ArrowType::Null => "Null"@,
        ArrowType::Boolean => "Boolean"@,
        ArrowType::Int8 => "Int8"@,
        ArrowType::Int16 => "Int16"@,
        ArrowType::Int32 => "Int32"@,
        ArrowType::Int64 => "Int64"@,
        ArrowType::UInt8 => "UInt8"@,
        ArrowType::UInt16 => "UInt16"@,
        ArrowType::UInt32 => "UInt32"@,
        ArrowType::UInt64 => "UInt64"@,
        ArrowType::Float16 => "Float16"@,
        ArrowType::Float32 => "Float32"@,
        ArrowType::Float64 => "Float64"@,
        ArrowType::Timestamp(_, _) => "Timestamp"@,
        ArrowType::Date32 => "Date32"@,
        ArrowType::Date64 => "Date64"@,
        ArrowType::Time32(_) => "Time32"@,
        ArrowType::Time64(_) => "Time64"@,
        ArrowType::Duration(_) => "Duration"@,
        ArrowType::Interval(_) => "Interval"@,
        ArrowType::Binary => "Binary"@,
        ArrowType::FixedSizeBinary(_) => "FixedSizeBinary"@,
        ArrowType::LargeBinary => "LargeBinary"@,
        ArrowType::Utf8 => "Utf8"@,
        ArrowType::LargeUtf8 => "LargeUtf8"@,
        ArrowType::List(_) => "List"@,
        ArrowType::FixedSizeList(_, _) => "FixedSizeList"@,
        ArrowType::LargeList(_) => "LargeList"@,
        ArrowType::Struct(_) => "Struct"@,
        ArrowType::Union(_, _) => "Union"@,
        ArrowType::Dictionary(_, _) => "Dictionary"@,
        ArrowType::Decimal128(_, _) => "Decimal128"@,
        ArrowType::Decimal256(_, _) => "Decimal256"@,
        ArrowType::MapType(_, _) => "Map"@,
        ArrowType::RunEndEncoded(_, _) => "RunEndEncoded"@,
    }
}

/// A stored type name announces the OID of the type whose variant it
/// names: for every Arrow type but a dictionary or run-end encoded one
/// (whose OID is that of their values), a name that begins with the
/// variant's name gives the type's own OID, a timestamp name telling a
/// zoned timestamp by its `Some(` (`"Float64"` gives `float8` as `Float64`
/// does, `"Timestamp(Microsecond, Some(\"UTC\"))"` gives `timestamptz`).
#[verifier::rlimit(50)]
pub proof fn lemma_name_head_decides_oid(s: Seq<char>, t: ArrowType)
    requires
        type_name_head(s) == arrow_variant_name(t),
        !(t is Dictionary),
        !(t is RunEndEncoded),
        t matches ArrowType::Timestamp(_, tz) ==> (seq_contains(s, "Some("@) <==> tz is Some),
    ensures
        arrow_name_oid(s) == arrow_type_oid(t),
{
    reveal_strlit("Boolean");
    reveal_strlit("Bool");
    reveal_strlit("Int8");
    reveal_strlit("Int16");
    reveal_strlit("UInt8");
    reveal_strlit("UInt16");
    reveal_strlit("Int32");
    reveal_strlit("UInt32");
    reveal_strlit("Int64");
    reveal_strlit("UInt64");
    reveal_strlit("Float16");
    reveal_strlit("Float32");
    reveal_strlit("Float64");
    reveal_strlit("Decimal128");
    reveal_strlit("Decimal256");
    reveal_strlit("Utf8");
    reveal_strlit("LargeUtf8");
    reveal_strlit("Binary");
    reveal_strlit("LargeBinary");
    reveal_strlit("FixedSizeBinary");
    reveal_strlit("Date32");
    reveal_strlit("Date64");
    reveal_strlit("Time32");
    reveal_strlit("Time64");
    reveal_strlit("Timestamp");
    reveal_strlit("Duration");
    reveal_strlit("Interval");
    reveal_strlit("Dictionary");
    reveal_strlit("List");
    reveal_strlit("LargeList");
    reveal_strlit("FixedSizeList");
    reveal_strlit("Struct");
    reveal_strlit("Map");
    reveal_strlit("Union");
    reveal_strlit("RunEndEncoded");
    reveal_strlit("Null");
    let h = type_name_head(s);
    match t {
        ArrowType::Timestamp(_, tz) => {
            assert(h == "Timestamp"@);
            assert("Timestamp"@.len() != "Boolean"@.len());
            assert("Timestamp"@.len() != "Bool"@.len());
            assert("Timestamp"@.len() != "Int8"@.len());
            assert("Timestamp"@.len() != "Int16"@.len());
            assert("Timestamp"@.len() != "UInt8"@.len());
            assert("Timestamp"@.len() != "UInt16"@.len());
            assert("Timestamp"@.len() != "Int32"@.len());
            assert("Timestamp"@.len() != "UInt32"@.len());
            assert("Timestamp"@.len() != "Int64"@.len());
            assert("Timestamp"@.len() != "UInt64"@.len());
            assert("Timestamp"@.len() != "Float16"@.len());
            assert("Timestamp"@.len() != "Float32"@.len());
            assert("Timestamp"@.len() != "Float64"@.len());
            assert("Timestamp"@.len() != "Decimal128"@.len());
            assert("Timestamp"@.len() != "Decimal256"@.len());
            assert("Timestamp"@.len() != "Utf8"@.len());
            assert("Timestamp"@[0] != "LargeUtf8"@[0]);
            assert("Timestamp"@.len() != "Binary"@.len());
            assert("Timestamp"@.len() != "LargeBinary"@.len());
            assert("Timestamp"@.len() != "FixedSizeBinary"@.len());
            assert("Timestamp"@.len() != "Date32"@.len());
            assert("Timestamp"@.len() != "Date64"@.len());
            assert("Timestamp"@.len() != "Time32"@.len());
            assert("Timestamp"@.len() != "Time64"@.len());
            if tz is Some {
                assert(seq_contains(s, "Some("@));
            } else {
                assert(!seq_contains(s, "Some("@));
            }
        },
        ArrowType::Time32(_) => {
            assert(h == "Time32"@);
            assert("Time32"@.len() != "Boolean"@.len());
            assert("Time32"@.len() != "Bool"@.len());
            assert("Time32"@.len() != "Int8"@.len());
            assert("Time32"@.len() != "Int16"@.len());
            assert("Time32"@.len() != "UInt8"@.len());
            assert("Time32"@[0] != "UInt16"@[0]);
            assert("Time32"@.len() != "Int32"@.len());
            assert("Time32"@[0] != "UInt32"@[0]);
            assert("Time32"@.len() != "Int64"@.len());
            assert("Time32"@[0] != "UInt64"@[0]);
            assert("Time32"@.len() != "Float16"@.len());
            assert("Time32"@.len() != "Float32"@.len());
            assert("Time32"@.len() != "Float64"@.len());
            assert("Time32"@.len() != "Decimal128"@.len());
            assert("Time32"@.len() != "Decimal256"@.len());
            assert("Time32"@.len() != "Utf8"@.len());
            assert("Time32"@.len() != "LargeUtf8"@.len());
            assert("Time32"@[0] != "Binary"@[0]);
            assert("Time32"@.len() != "LargeBinary"@.len());
            assert("Time32"@.len() != "FixedSizeBinary"@.len());
            assert("Time32"@[0] != "Date32"@[0]);
            assert("Time32"@[0] != "Date64"@[0]);
        },
        ArrowType::Time64(_) => {
            assert(h == "Time64"@);
            assert("Time64"@.len() != "Boolean"@.len());
            assert("Time64"@.len() != "Bool"@.len());
            assert("Time64"@.len() != "Int8"@.len());
            assert("Time64"@.len() != "Int16"@.len());
            assert("Time64"@.len() != "UInt8"@.len());
            assert("Time64"@[0] != "UInt16"@[0]);
            assert("Time64"@.len() != "Int32"@.len());
            assert("Time64"@[0] != "UInt32"@[0]);
            assert("Time64"@.len() != "Int64"@.len());
            assert("Time64"@[0] != "UInt64"@[0]);
            assert("Time64"@.len() != "Float16"@.len());
            assert("Time64"@.len() != "Float32"@.len());
            assert("Time64"@.len() != "Float64"@.len());
            assert("Time64"@.len() != "Decimal128"@.len());
            assert("Time64"@.len() != "Decimal256"@.len());
            assert("Time64"@.len() != "Utf8"@.len());
            assert("Time64"@.len() != "LargeUtf8"@.len());
            assert("Time64"@[0] != "Binary"@[0]);
            assert("Time64"@.len() != "LargeBinary"@.len());
            assert("Time64"@.len() != "FixedSizeBinary"@.len());
            assert("Time64"@[0] != "Date32"@[0]);
            assert("Time64"@[0] != "Date64"@[0]);
            assert("Time64"@[4] != "Time32"@[4]);
        },
        ArrowType::Decimal128(_, _) => {
            assert(h == "Decimal128"@);
            assert("Decimal128"@.len() != "Boolean"@.len());
            assert("Decimal128"@.len() != "Bool"@.len());
            assert("Decimal128"@.len() != "Int8"@.len());
            assert("Decimal128"@.len() != "Int16"@.len());
            assert("Decimal128"@.len() != "UInt8"@.len());
            assert("Decimal128"@.len() != "UInt16"@.len());
            assert("Decimal128"@.len() != "Int32"@.len());
            assert("Decimal128"@.len() != "UInt32"@.len());
            assert("Decimal128"@.len() != "Int64"@.len());
            assert("Decimal128"@.len() != "UInt64"@.len());
            assert("Decimal128"@.len() != "Float16"@.len());
            assert("Decimal128"@.len() != "Float32"@.len());
            assert("Decimal128"@.len() != "Float64"@.len());
        },
        ArrowType::Decimal256(_, _) => {
            assert(h == "Decimal256"@);
            assert("Decimal256"@.len() != "Boolean"@.len());
            assert("Decimal256"@.len() != "Bool"@.len());
            assert("Decimal256"@.len() != "Int8"@.len());
            assert("Decimal256"@.len() != "Int16"@.len());
            assert("Decimal256"@.len() != "UInt8"@.len());
            assert("Decimal256"@.len() != "UInt16"@.len());
            assert("Decimal256"@.len() != "Int32"@.len());
            assert("Decimal256"@.len() != "UInt32"@.len());
            assert("Decimal256"@.len() != "Int64"@.len());
            assert("Decimal256"@.len() != "UInt64"@.len());
            assert("Decimal256"@.len() != "Float16"@.len());
            assert("Decimal256"@.len() != "Float32"@.len());
            assert("Decimal256"@.len() != "Float64"@.len());
            assert("Decimal256"@[7] != "Decimal128"@[7]);
        },
        ArrowType::Duration(_) => {
            assert(h == "Duration"@);
            assert("Duration"@.len() != "Boolean"@.len());
            assert("Duration"@.len() != "Bool"@.len());
            assert("Duration"@.len() != "Int8"@.len());
            assert("Duration"@.len() != "Int16"@.len());
            assert("Duration"@.len() != "UInt8"@.len());
            assert("Duration"@.len() != "UInt16"@.len());
            assert("Duration"@.len() != "Int32"@.len());
            assert("Duration"@.len() != "UInt32"@.len());
            assert("Duration"@.len() != "Int64"@.len());
            assert("Duration"@.len() != "UInt64"@.len());
            assert("Duration"@.len() != "Float16"@.len());
            assert("Duration"@.len() != "Float32"@.len());
            assert("Duration"@.len() != "Float64"@.len());
            assert("Duration"@.len() != "Decimal128"@.len());
            assert("Duration"@.len() != "Decimal256"@.len());
            assert("Duration"@.len() != "Utf8"@.len());
            assert("Duration"@.len() != "LargeUtf8"@.len());
            assert("Duration"@.len() != "Binary"@.len());
            assert("Duration"@.len() != "LargeBinary"@.len());
            assert("Duration"@.len() != "FixedSizeBinary"@.len());
            assert("Duration"@.len() != "Date32"@.len());
            assert("Duration"@.len() != "Date64"@.len());
            assert("Duration"@.len() != "Time32"@.len());
            assert("Duration"@.len() != "Time64"@.len());
            assert("Duration"@.len() != "Timestamp"@.len());
        },
        ArrowType::Interval(_) => {
            assert(h == "Interval"@);
            assert("Interval"@.len() != "Boolean"@.len());
            assert("Interval"@.len() != "Bool"@.len());
            assert("Interval"@.len() != "Int8"@.len());
            assert("Interval"@.len() != "Int16"@.len());
            assert("Interval"@.len() != "UInt8"@.len());
            assert("Interval"@.len() != "UInt16"@.len());
            assert("Interval"@.len() != "Int32"@.len());
            assert("Interval"@.len() != "UInt32"@.len());
            assert("Interval"@.len() != "Int64"@.len());
            assert("Interval"@.len() != "UInt64"@.len());
            assert("Interval"@.len() != "Float16"@.len());
            assert("Interval"@.len() != "Float32"@.len());
            assert("Interval"@.len() != "Float64"@.len());
            assert("Interval"@.len() != "Decimal128"@.len());
            assert("Interval"@.len() != "Decimal256"@.len());
            assert("Interval"@.len() != "Utf8"@.len());
            assert("Interval"@.len() != "LargeUtf8"@.len());
            assert("Interval"@.len() != "Binary"@.len());
            assert("Interval"@.len() != "LargeBinary"@.len());
            assert("Interval"@.len() != "FixedSizeBinary"@.len());
            assert("Interval"@.len() != "Date32"@.len());
            assert("Interval"@.len() != "Date64"@.len());
            assert("Interval"@.len() != "Time32"@.len());
            assert("Interval"@.len() != "Time64"@.len());
            assert("Interval"@.len() != "Timestamp"@.len());
            assert("Interval"@[0] != "Duration"@[0]);
        },
        ArrowType::FixedSizeBinary(_) => {
            assert(h == "FixedSizeBinary"@);
            assert("FixedSizeBinary"@.len() != "Boolean"@.len());
            assert("FixedSizeBinary"@.len() != "Bool"@.len());
            assert("FixedSizeBinary"@.len() != "Int8"@.len());
            assert("FixedSizeBinary"@.len() != "Int16"@.len());
            assert("FixedSizeBinary"@.len() != "UInt8"@.len());
            assert("FixedSizeBinary"@.len() != "UInt16"@.len());
            assert("FixedSizeBinary"@.len() != "Int32"@.len());
            assert("FixedSizeBinary"@.len() != "UInt32"@.len());
            assert("FixedSizeBinary"@.len() != "Int64"@.len());
            assert("FixedSizeBinary"@.len() != "UInt64"@.len());
            assert("FixedSizeBinary"@.len() != "Float16"@.len());
            assert("FixedSizeBinary"@.len() != "Float32"@.len());
            assert("FixedSizeBinary"@.len() != "Float64"@.len());
            assert("FixedSizeBinary"@.len() != "Decimal128"@.len());
            assert("FixedSizeBinary"@.len() != "Decimal256"@.len());
            assert("FixedSizeBinary"@.len() != "Utf8"@.len());
            assert("FixedSizeBinary"@.len() != "LargeUtf8"@.len());
            assert("FixedSizeBinary"@.len() != "Binary"@.len());
            assert("FixedSizeBinary"@.len() != "LargeBinary"@.len());
        },
        ArrowType::List(_) => {
            assert(h == "List"@);
            assert("List"@.len() != "Boolean"@.len());
            assert("List"@[0] != "Bool"@[0]);
            assert("List"@[0] != "Int8"@[0]);
            assert("List"@.len() != "Int16"@.len());
            assert("List"@.len() != "UInt8"@.len());
            assert("List"@.len() != "UInt16"@.len());
            assert("List"@.len() != "Int32"@.len());
            assert("List"@.len() != "UInt32"@.len());
            assert("List"@.len() != "Int64"@.len());
            assert("List"@.len() != "UInt64"@.len());
            assert("List"@.len() != "Float16"@.len());
            assert("List"@.len() != "Float32"@.len());
            assert("List"@.len() != "Float64"@.len());
            assert("List"@.len() != "Decimal128"@.len());
            assert("List"@.len() != "Decimal256"@.len());
            assert("List"@[0] != "Utf8"@[0]);
            assert("List"@.len() != "LargeUtf8"@.len());
            assert("List"@.len() != "Binary"@.len());
            assert("List"@.len() != "LargeBinary"@.len());
            assert("List"@.len() != "FixedSizeBinary"@.len());
            assert("List"@.len() != "Date32"@.len());
            assert("List"@.len() != "Date64"@.len());
            assert("List"@.len() != "Time32"@.len());
            assert("List"@.len() != "Time64"@.len());
            assert("List"@.len() != "Timestamp"@.len());
            assert("List"@.len() != "Duration"@.len());
            assert("List"@.len() != "Interval"@.len());
            assert("List"@.len() != "Dictionary"@.len());
        },
        ArrowType::LargeList(_) => {
            assert(h == "LargeList"@);
            assert("LargeList"@.len() != "Boolean"@.len());
            assert("LargeList"@.len() != "Bool"@.len());
            assert("LargeList"@.len() != "Int8"@.len());
            assert("LargeList"@.len() != "Int16"@.len());
            assert("LargeList"@.len() != "UInt8"@.len());
            assert("LargeList"@.len() != "UInt16"@.len());
            assert("LargeList"@.len() != "Int32"@.len());
            assert("LargeList"@.len() != "UInt32"@.len());
            assert("LargeList"@.len() != "Int64"@.len());
            assert("LargeList"@.len() != "UInt64"@.len());
            assert("LargeList"@.len() != "Float16"@.len());
            assert("LargeList"@.len() != "Float32"@.len());
            assert("LargeList"@.len() != "Float64"@.len());
            assert("LargeList"@.len() != "Decimal128"@.len());
            assert("LargeList"@.len() != "Decimal256"@.len());
            assert("LargeList"@.len() != "Utf8"@.len());
            assert("LargeList"@[5] != "LargeUtf8"@[5]);
            assert("LargeList"@.len() != "Binary"@.len());
            assert("LargeList"@.len() != "LargeBinary"@.len());
            assert("LargeList"@.len() != "FixedSizeBinary"@.len());
            assert("LargeList"@.len() != "Date32"@.len());
            assert("LargeList"@.len() != "Date64"@.len());
            assert("LargeList"@.len() != "Time32"@.len());
            assert("LargeList"@.len() != "Time64"@.len());
            assert("LargeList"@[0] != "Timestamp"@[0]);
            assert("LargeList"@.len() != "Duration"@.len());
            assert("LargeList"@.len() != "Interval"@.len());
            assert("LargeList"@.len() != "Dictionary"@.len());
            assert("LargeList"@.len() != "List"@.len());
        },
        ArrowType::FixedSizeList(_, _) => {
            assert(h == "FixedSizeList"@);
            assert("FixedSizeList"@.len() != "Boolean"@.len());
            assert("FixedSizeList"@.len() != "Bool"@.len());
            assert("FixedSizeList"@.len() != "Int8"@.len());
            assert("FixedSizeList"@.len() != "Int16"@.len());
            assert("FixedSizeList"@.len() != "UInt8"@.len());
            assert("FixedSizeList"@.len() != "UInt16"@.len());
            assert("FixedSizeList"@.len() != "Int32"@.len());
            assert("FixedSizeList"@.len() != "UInt32"@.len());
            assert("FixedSizeList"@.len() != "Int64"@.len());
            assert("FixedSizeList"@.len() != "UInt64"@.len());
            assert("FixedSizeList"@.len() != "Float16"@.len());
            assert("FixedSizeList"@.len() != "Float32"@.len());
            assert("FixedSizeList"@.len() != "Float64"@.len());
            assert("FixedSizeList"@.len() != "Decimal128"@.len());
            assert("FixedSizeList"@.len() != "Decimal256"@.len());
            assert("FixedSizeList"@.len() != "Utf8"@.len());
            assert("FixedSizeList"@.len() != "LargeUtf8"@.len());
            assert("FixedSizeList"@.len() != "Binary"@.len());
            assert("FixedSizeList"@.len() != "LargeBinary"@.len());
            assert("FixedSizeList"@.len() != "FixedSizeBinary"@.len());
            assert("FixedSizeList"@.len() != "Date32"@.len());
            assert("FixedSizeList"@.len() != "Date64"@.len());
            assert("FixedSizeList"@.len() != "Time32"@.len());
            assert("FixedSizeList"@.len() != "Time64"@.len());
            assert("FixedSizeList"@.len() != "Timestamp"@.len());
            assert("FixedSizeList"@.len() != "Duration"@.len());
            assert("FixedSizeList"@.len() != "Interval"@.len());
            assert("FixedSizeList"@.len() != "Dictionary"@.len());
            assert("FixedSizeList"@.len() != "List"@.len());
            assert("FixedSizeList"@.len() != "LargeList"@.len());
        },
        ArrowType::Struct(_) => {
            assert(h == "Struct"@);
            assert("Struct"@.len() != "Boolean"@.len());
            assert("Struct"@.len() != "Bool"@.len());
            assert("Struct"@.len() != "Int8"@.len());
            assert("Struct"@.len() != "Int16"@.len());
            assert("Struct"@.len() != "UInt8"@.len());
            assert("Struct"@[0] != "UInt16"@[0]);
            assert("Struct"@.len() != "Int32"@.len());
            assert("Struct"@[0] != "UInt32"@[0]);
            assert("Struct"@.len() != "Int64"@.len());
            assert("Struct"@[0] != "UInt64"@[0]);
            assert("Struct"@.len() != "Float16"@.len());
            assert("Struct"@.len() != "Float32"@.len());
            assert("Struct"@.len() != "Float64"@.len());
            assert("Struct"@.len() != "Decimal128"@.len());
            assert("Struct"@.len() != "Decimal256"@.len());
            assert("Struct"@.len() != "Utf8"@.len());
            assert("Struct"@.len() != "LargeUtf8"@.len());
            assert("Struct"@[0] != "Binary"@[0]);
            assert("Struct"@.len() != "LargeBinary"@.len());
            assert("Struct"@.len() != "FixedSizeBinary"@.len());
            assert("Struct"@[0] != "Date32"@[0]);
            assert("Struct"@[0] != "Date64"@[0]);
            assert("Struct"@[0] != "Time32"@[0]);
            assert("Struct"@[0] != "Time64"@[0]);
            assert("Struct"@.len() != "Timestamp"@.len());
            assert("Struct"@.len() != "Duration"@.len());
            assert("Struct"@.len() != "Interval"@.len());
            assert("Struct"@.len() != "Dictionary"@.len());
            assert("Struct"@.len() != "List"@.len());
            assert("Struct"@.len() != "LargeList"@.len());
            assert("Struct"@.len() != "FixedSizeList"@.len());
        },
        ArrowType::MapType(_, _) => {
            assert(h == "Map"@);
            assert("Map"@.len() != "Boolean"@.len());
            assert("Map"@.len() != "Bool"@.len());
            assert("Map"@.len() != "Int8"@.len());
            assert("Map"@.len() != "Int16"@.len());
            assert("Map"@.len() != "UInt8"@.len());
            assert("Map"@.len() != "UInt16"@.len());
            assert("Map"@.len() != "Int32"@.len());
            assert("Map"@.len() != "UInt32"@.len());
            assert("Map"@.len() != "Int64"@.len());
            assert("Map"@.len() != "UInt64"@.len());
            assert("Map"@.len() != "Float16"@.len());
            assert("Map"@.len() != "Float32"@.len());
            assert("Map"@.len() != "Float64"@.len());
            assert("Map"@.len() != "Decimal128"@.len());
            assert("Map"@.len() != "Decimal256"@.len());
            assert("Map"@.len() != "Utf8"@.len());
            assert("Map"@.len() != "LargeUtf8"@.len());
            assert("Map"@.len() != "Binary"@.len());
            assert("Map"@.len() != "LargeBinary"@.len());
            assert("Map"@.len() != "FixedSizeBinary"@.len());
            assert("Map"@.len() != "Date32"@.len());
            assert("Map"@.len() != "Date64"@.len());
            assert("Map"@.len() != "Time32"@.len());
            assert("Map"@.len() != "Time64"@.len());
            assert("Map"@.len() != "Timestamp"@.len());
            assert("Map"@.len() != "Duration"@.len());
            assert("Map"@.len() != "Interval"@.len());
            assert("Map"@.len() != "Dictionary"@.len());
            assert("Map"@.len() != "List"@.len());
            assert("Map"@.len() != "LargeList"@.len());
            assert("Map"@.len() != "FixedSizeList"@.len());
            assert("Map"@.len() != "Struct"@.len());
        },
        ArrowType::Union(_, _) => {
            assert(h == "Union"@);
            assert("Union"@.len() != "Boolean"@.len());
            assert("Union"@.len() != "Bool"@.len());
            assert("Union"@.len() != "Int8"@.len());
            assert("Union"@[0] != "Int16"@[0]);
            assert("Union"@[1] != "UInt8"@[1]);
            assert("Union"@.len() != "UInt16"@.len());
            assert("Union"@[0] != "Int32"@[0]);
            assert("Union"@.len() != "UInt32"@.len());
            assert("Union"@[0] != "Int64"@[0]);
            assert("Union"@.len() != "UInt64"@.len());
            assert("Union"@.len() != "Float16"@.len());
            assert("Union"@.len() != "Float32"@.len());
            assert("Union"@.len() != "Float64"@.len());
            assert("Union"@.len() != "Decimal128"@.len());
            assert("Union"@.len() != "Decimal256"@.len());
            assert("Union"@.len() != "Utf8"@.len());
            assert("Union"@.len() != "LargeUtf8"@.len());
            assert("Union"@.len() != "Binary"@.len());
            assert("Union"@.len() != "LargeBinary"@.len());
            assert("Union"@.len() != "FixedSizeBinary"@.len());
            assert("Union"@.len() != "Date32"@.len());
            assert("Union"@.len() != "Date64"@.len());
            assert("Union"@.len() != "Time32"@.len());
            assert("Union"@.len() != "Time64"@.len());
            assert("Union"@.len() != "Timestamp"@.len());
            assert("Union"@.len() != "Duration"@.len());
            assert("Union"@.len() != "Interval"@.len());
            assert("Union"@.len() != "Dictionary"@.len());
            assert("Union"@.len() != "List"@.len());
            assert("Union"@.len() != "LargeList"@.len());
            assert("Union"@.len() != "FixedSizeList"@.len());
            assert("Union"@.len() != "Struct"@.len());
            assert("Union"@.len() != "Map"@.len());
        },
        ArrowType::Null => {
            assert(h == "Null"@);
            assert("Null"@.len() != "Boolean"@.len());
            assert("Null"@[0] != "Bool"@[0]);
            assert("Null"@[0] != "Int8"@[0]);
            assert("Null"@.len() != "Int16"@.len());
            assert("Null"@.len() != "UInt8"@.len());
            assert("Null"@.len() != "UInt16"@.len());
            assert("Null"@.len() != "Int32"@.len());
            assert("Null"@.len() != "UInt32"@.len());
            assert("Null"@.len() != "Int64"@.len());
            assert("Null"@.len() != "UInt64"@.len());
            assert("Null"@.len() != "Float16"@.len());
            assert("Null"@.len() != "Float32"@.len());
            assert("Null"@.len() != "Float64"@.len());
            assert("Null"@.len() != "Decimal128"@.len());
            assert("Null"@.len() != "Decimal256"@.len());
            assert("Null"@[0] != "Utf8"@[0]);
            assert("Null"@.len() != "LargeUtf8"@.len());
            assert("Null"@.len() != "Binary"@.len());
            assert("Null"@.len() != "LargeBinary"@.len());
            assert("Null"@.len() != "FixedSizeBinary"@.len());
            assert("Null"@.len() != "Date32"@.len());
            assert("Null"@.len() != "Date64"@.len());
            assert("Null"@.len() != "Time32"@.len());
            assert("Null"@.len() != "Time64"@.len());
            assert("Null"@.len() != "Timestamp"@.len());
            assert("Null"@.len() != "Duration"@.len());
            assert("Null"@.len() != "Interval"@.len());
            assert("Null"@.len() != "Dictionary"@.len());
            assert("Null"@[0] != "List"@[0]);
            assert("Null"@.len() != "LargeList"@.len());
            assert("Null"@.len() != "FixedSizeList"@.len());
            assert("Null"@.len() != "Struct"@.len());
            assert("Null"@.len() != "Map"@.len());
            assert("Null"@.len() != "Union"@.len());
            assert("Null"@.len() != "RunEndEncoded"@.len());
        },
        ArrowType::Boolean => {
            assert(h == "Boolean"@);
        },
        ArrowType::Int8 => {
            assert(h == "Int8"@);
            assert("Int8"@.len() != "Boolean"@.len());
            assert("Int8"@[0] != "Bool"@[0]);
        },
        ArrowType::Int16 => {
            assert(h == "Int16"@);
            assert("Int16"@.len() != "Boolean"@.len());
            assert("Int16"@.len() != "Bool"@.len());
            assert("Int16"@.len() != "Int8"@.len());
        },
        ArrowType::Int32 => {
            assert(h == "Int32"@);
            assert("Int32"@.len() != "Boolean"@.len());
            assert("Int32"@.len() != "Bool"@.len());
            assert("Int32"@.len() != "Int8"@.len());
            assert("Int32"@[3] != "Int16"@[3]);
            assert("Int32"@[0] != "UInt8"@[0]);
            assert("Int32"@.len() != "UInt16"@.len());
        },
        ArrowType::Int64 => {
            assert(h == "Int64"@);
            assert("Int64"@.len() != "Boolean"@.len());
            assert("Int64"@.len() != "Bool"@.len());
            assert("Int64"@.len() != "Int8"@.len());
            assert("Int64"@[3] != "Int16"@[3]);
            assert("Int64"@[0] != "UInt8"@[0]);
            assert("Int64"@.len() != "UInt16"@.len());
            assert("Int64"@[3] != "Int32"@[3]);
            assert("Int64"@.len() != "UInt32"@.len());
        },
        ArrowType::UInt8 => {
            assert(h == "UInt8"@);
            assert("UInt8"@.len() != "Boolean"@.len());
            assert("UInt8"@.len() != "Bool"@.len());
            assert("UInt8"@.len() != "Int8"@.len());
            assert("UInt8"@[0] != "Int16"@[0]);
        },
        ArrowType::UInt16 => {
            assert(h == "UInt16"@);
            assert("UInt16"@.len() != "Boolean"@.len());
            assert("UInt16"@.len() != "Bool"@.len());
            assert("UInt16"@.len() != "Int8"@.len());
            assert("UInt16"@.len() != "Int16"@.len());
            assert("UInt16"@.len() != "UInt8"@.len());
        },
        ArrowType::UInt32 => {
            assert(h == "UInt32"@);
            assert("UInt32"@.len() != "Boolean"@.len());
            assert("UInt32"@.len() != "Bool"@.len());
            assert("UInt32"@.len() != "Int8"@.len());
            assert("UInt32"@.len() != "Int16"@.len());
            assert("UInt32"@.len() != "UInt8"@.len());
            assert("UInt32"@[4] != "UInt16"@[4]);
            assert("UInt32"@.len() != "Int32"@.len());
        },
        ArrowType::UInt64 => {
            assert(h == "UInt64"@);
            assert("UInt64"@.len() != "Boolean"@.len());
            assert("UInt64"@.len() != "Bool"@.len());
            assert("UInt64"@.len() != "Int8"@.len());
            assert("UInt64"@.len() != "Int16"@.len());
            assert("UInt64"@.len() != "UInt8"@.len());
            assert("UInt64"@[4] != "UInt16"@[4]);
            assert("UInt64"@.len() != "Int32"@.len());
            assert("UInt64"@[4] != "UInt32"@[4]);
            assert("UInt64"@.len() != "Int64"@.len());
        },
        ArrowType::Float16 => {
            assert(h == "Float16"@);
            assert("Float16"@[0] != "Boolean"@[0]);
            assert("Float16"@.len() != "Bool"@.len());
            assert("Float16"@.len() != "Int8"@.len());
            assert("Float16"@.len() != "Int16"@.len());
            assert("Float16"@.len() != "UInt8"@.len());
            assert("Float16"@.len() != "UInt16"@.len());
            assert("Float16"@.len() != "Int32"@.len());
            assert("Float16"@.len() != "UInt32"@.len());
            assert("Float16"@.len() != "Int64"@.len());
            assert("Float16"@.len() != "UInt64"@.len());
        },
        ArrowType::Float32 => {
            assert(h == "Float32"@);
            assert("Float32"@[0] != "Boolean"@[0]);
            assert("Float32"@.len() != "Bool"@.len());
            assert("Float32"@.len() != "Int8"@.len());
            assert("Float32"@.len() != "Int16"@.len());
            assert("Float32"@.len() != "UInt8"@.len());
            assert("Float32"@.len() != "UInt16"@.len());
            assert("Float32"@.len() != "Int32"@.len());
            assert("Float32"@.len() != "UInt32"@.len());
            assert("Float32"@.len() != "Int64"@.len());
            assert("Float32"@.len() != "UInt64"@.len());
            assert("Float32"@[5] != "Float16"@[5]);
        },
        ArrowType::Float64 => {
            assert(h == "Float64"@);
            assert("Float64"@[0] != "Boolean"@[0]);
            assert("Float64"@.len() != "Bool"@.len());
            assert("Float64"@.len() != "Int8"@.len());
            assert("Float64"@.len() != "Int16"@.len());
            assert("Float64"@.len() != "UInt8"@.len());
            assert("Float64"@.len() != "UInt16"@.len());
            assert("Float64"@.len() != "Int32"@.len());
            assert("Float64"@.len() != "UInt32"@.len());
            assert("Float64"@.len() != "Int64"@.len());
            assert("Float64"@.len() != "UInt64"@.len());
            assert("Float64"@[5] != "Float16"@[5]);
            assert("Float64"@[5] != "Float32"@[5]);
        },
        ArrowType::Utf8 => {
            assert(h == "Utf8"@);
            assert("Utf8"@.len() != "Boolean"@.len());
            assert("Utf8"@[0] != "Bool"@[0]);
            assert("Utf8"@[0] != "Int8"@[0]);
            assert("Utf8"@.len() != "Int16"@.len());
            assert("Utf8"@.len() != "UInt8"@.len());
            assert("Utf8"@.len() != "UInt16"@.len());
            assert("Utf8"@.len() != "Int32"@.len());
            assert("Utf8"@.len() != "UInt32"@.len());
            assert("Utf8"@.len() != "Int64"@.len());
            assert("Utf8"@.len() != "UInt64"@.len());
            assert("Utf8"@.len() != "Float16"@.len());
            assert("Utf8"@.len() != "Float32"@.len());
            assert("Utf8"@.len() != "Float64"@.len());
            assert("Utf8"@.len() != "Decimal128"@.len());
            assert("Utf8"@.len() != "Decimal256"@.len());
        },
        ArrowType::LargeUtf8 => {
            assert(h == "LargeUtf8"@);
            assert("LargeUtf8"@.len() != "Boolean"@.len());
            assert("LargeUtf8"@.len() != "Bool"@.len());
            assert("LargeUtf8"@.len() != "Int8"@.len());
            assert("LargeUtf8"@.len() != "Int16"@.len());
            assert("LargeUtf8"@.len() != "UInt8"@.len());
            assert("LargeUtf8"@.len() != "UInt16"@.len());
            assert("LargeUtf8"@.len() != "Int32"@.len());
            assert("LargeUtf8"@.len() != "UInt32"@.len());
            assert("LargeUtf8"@.len() != "Int64"@.len());
            assert("LargeUtf8"@.len() != "UInt64"@.len());
            assert("LargeUtf8"@.len() != "Float16"@.len());
            assert("LargeUtf8"@.len() != "Float32"@.len());
            assert("LargeUtf8"@.len() != "Float64"@.len());
            assert("LargeUtf8"@.len() != "Decimal128"@.len());
            assert("LargeUtf8"@.len() != "Decimal256"@.len());
            assert("LargeUtf8"@.len() != "Utf8"@.len());
        },
        ArrowType::Binary => {
            assert(h == "Binary"@);
            assert("Binary"@.len() != "Boolean"@.len());
            assert("Binary"@.len() != "Bool"@.len());
            assert("Binary"@.len() != "Int8"@.len());
            assert("Binary"@.len() != "Int16"@.len());
            assert("Binary"@.len() != "UInt8"@.len());
            assert("Binary"@[0] != "UInt16"@[0]);
            assert("Binary"@.len() != "Int32"@.len());
            assert("Binary"@[0] != "UInt32"@[0]);
            assert("Binary"@.len() != "Int64"@.len());
            assert("Binary"@[0] != "UInt64"@[0]);
            assert("Binary"@.len() != "Float16"@.len());
            assert("Binary"@.len() != "Float32"@.len());
            assert("Binary"@.len() != "Float64"@.len());
            assert("Binary"@.len() != "Decimal128"@.len());
            assert("Binary"@.len() != "Decimal256"@.len());
            assert("Binary"@.len() != "Utf8"@.len());
            assert("Binary"@.len() != "LargeUtf8"@.len());
        },
        ArrowType::LargeBinary => {
            assert(h == "LargeBinary"@);
            assert("LargeBinary"@.len() != "Boolean"@.len());
            assert("LargeBinary"@.len() != "Bool"@.len());
            assert("LargeBinary"@.len() != "Int8"@.len());
            assert("LargeBinary"@.len() != "Int16"@.len());
            assert("LargeBinary"@.len() != "UInt8"@.len());
            assert("LargeBinary"@.len() != "UInt16"@.len());
            assert("LargeBinary"@.len() != "Int32"@.len());
            assert("LargeBinary"@.len() != "UInt32"@.len());
            assert("LargeBinary"@.len() != "Int64"@.len());
            assert("LargeBinary"@.len() != "UInt64"@.len());
            assert("LargeBinary"@.len() != "Float16"@.len());
            assert("LargeBinary"@.len() != "Float32"@.len());
            assert("LargeBinary"@.len() != "Float64"@.len());
            assert("LargeBinary"@.len() != "Decimal128"@.len());
            assert("LargeBinary"@.len() != "Decimal256"@.len());
            assert("LargeBinary"@.len() != "Utf8"@.len());
            assert("LargeBinary"@.len() != "LargeUtf8"@.len());
            assert("LargeBinary"@.len() != "Binary"@.len());
        },
        ArrowType::Date32 => {
            assert(h == "Date32"@);
            assert("Date32"@.len() != "Boolean"@.len());
            assert("Date32"@.len() != "Bool"@.len());
            assert("Date32"@.len() != "Int8"@.len());
            assert("Date32"@.len() != "Int16"@.len());
            assert("Date32"@.len() != "UInt8"@.len());
            assert("Date32"@[0] != "UInt16"@[0]);
            assert("Date32"@.len() != "Int32"@.len());
            assert("Date32"@[0] != "UInt32"@[0]);
            assert("Date32"@.len() != "Int64"@.len());
            assert("Date32"@[0] != "UInt64"@[0]);
            assert("Date32"@.len() != "Float16"@.len());
            assert("Date32"@.len() != "Float32"@.len());
            assert("Date32"@.len() != "Float64"@.len());
            assert("Date32"@.len() != "Decimal128"@.len());
            assert("Date32"@.len() != "Decimal256"@.len());
            assert("Date32"@.len() != "Utf8"@.len());
            assert("Date32"@.len() != "LargeUtf8"@.len());
            assert("Date32"@[0] != "Binary"@[0]);
            assert("Date32"@.len() != "LargeBinary"@.len());
            assert("Date32"@.len() != "FixedSizeBinary"@.len());
        },
        ArrowType::Date64 => {
            assert(h == "Date64"@);
            assert("Date64"@.len() != "Boolean"@.len());
            assert("Date64"@.len() != "Bool"@.len());
            assert("Date64"@.len() != "Int8"@.len());
            assert("Date64"@.len() != "Int16"@.len());
            assert("Date64"@.len() != "UInt8"@.len());
            assert("Date64"@[0] != "UInt16"@[0]);
            assert("Date64"@.len() != "Int32"@.len());
            assert("Date64"@[0] != "UInt32"@[0]);
            assert("Date64"@.len() != "Int64"@.len());
            assert("Date64"@[0] != "UInt64"@[0]);
            assert("Date64"@.len() != "Float16"@.len());
            assert("Date64"@.len() != "Float32"@.len());
            assert("Date64"@.len() != "Float64"@.len());
            assert("Date64"@.len() != "Decimal128"@.len());
            assert("Date64"@.len() != "Decimal256"@.len());
            assert("Date64"@.len() != "Utf8"@.len());
            assert("Date64"@.len() != "LargeUtf8"@.len());
            assert("Date64"@[0] != "Binary"@[0]);
            assert("Date64"@.len() != "LargeBinary"@.len());
            assert("Date64"@.len() != "FixedSizeBinary"@.len());
            assert("Date64"@[4] != "Date32"@[4]);
        },
        _ => {},
    }
}

/// The OID announced for the stored name of an Arrow type agrees with the
/// OID announced for the type itself (`"Float64"` and `Float64` both give
/// `float8`).
pub proof fn lemma_type_name_agrees_with_type(t: ArrowType)
    ensures
        plain_arrow_name(t) matches Some(n) ==> arrow_name_oid(n) == arrow_type_oid(t),
{
    reveal_strlit("Boolean");
    reveal_strlit("Bool");
    reveal_strlit("Int8");
    reveal_strlit("Int16");
    reveal_strlit("UInt8");
    reveal_strlit("UInt16");
    reveal_strlit("Int32");
    reveal_strlit("UInt32");
    reveal_strlit("Int64");
    reveal_strlit("UInt64");
    reveal_strlit("Float16");
    reveal_strlit("Float32");
    reveal_strlit("Float64");
    reveal_strlit("Decimal128");
    reveal_strlit("Decimal256");
    reveal_strlit("Utf8");
    reveal_strlit("LargeUtf8");
    reveal_strlit("Binary");
    reveal_strlit("LargeBinary");
    reveal_strlit("FixedSizeBinary");
    reveal_strlit("Date32");
    reveal_strlit("Date64");
    reveal_strlit("Time32");
    reveal_strlit("Time64");
    reveal_strlit("Timestamp");
    reveal_strlit("Duration");
    reveal_strlit("Interval");
    reveal_strlit("Dictionary");
    reveal_strlit("List");
    reveal_strlit("LargeList");
    reveal_strlit("FixedSizeList");
    reveal_strlit("Struct");
    reveal_strlit("Map");
    reveal_strlit("Union");
    reveal_strlit("RunEndEncoded");
    reveal_strlit("Null");
    match t {
        ArrowType::Null => {
            lemma_plain_name_head("Null"@);
        },
        ArrowType::Boolean => {
            lemma_plain_name_head("Boolean"@);
        },
        ArrowType::Int8 => {
            lemma_plain_name_head("Int8"@);
        },
        ArrowType::Int16 => {
            lemma_plain_name_head("Int16"@);
        },
        ArrowType::Int32 => {
            lemma_plain_name_head("Int32"@);
        },
        ArrowType::Int64 => {
            lemma_plain_name_head("Int64"@);
        },
        ArrowType::UInt8 => {
            lemma_plain_name_head("UInt8"@);
        },
        ArrowType::UInt16 => {
            lemma_plain_name_head("UInt16"@);
        },
        ArrowType::UInt32 => {
            lemma_plain_name_head("UInt32"@);
        },
        ArrowType::UInt64 => {
            lemma_plain_name_head("UInt64"@);
        },
        ArrowType::Float16 => {
            lemma_plain_name_head("Float16"@);
        },
        ArrowType::Float32 => {
            lemma_plain_name_head("Float32"@);
        },
        ArrowType::Float64 => {
            lemma_plain_name_head("Float64"@);
        },
        ArrowType::Utf8 => {
            lemma_plain_name_head("Utf8"@);
        },
        ArrowType::LargeUtf8 => {
            lemma_plain_name_head("LargeUtf8"@);
        },
        ArrowType::Binary => {
            lemma_plain_name_head("Binary"@);
        },
        ArrowType::LargeBinary => {
            lemma_plain_name_head("LargeBinary"@);
        },
        ArrowType::Date32 => {
            lemma_plain_name_head("Date32"@);
        },
        ArrowType::Date64 => {
            lemma_plain_name_head("Date64"@);
        },
        _ => {},
    }
}

/// The byte width of a fixed-width integer Arrow type.
pub open spec fn arrow_int_width(t: ArrowType) -> Option<int> {
    match t {
        ArrowType::Int8 | ArrowType::UInt8 => Some(1),
        ArrowType::Int16 | ArrowType::UInt16 => Some(2),
        ArrowType::Int32 | ArrowType::UInt32 => Some(4),
        ArrowType::Int64 | ArrowType::UInt64 => Some(8),
        _ => None,
    }
}

/// The byte width of a floating-point Arrow type.
pub open spec fn arrow_float_width(t: ArrowType) -> Option<int> {
    match t {
        ArrowType::Float16 => Some(2),
        ArrowType::Float32 => Some(4),
        ArrowType::Float64 => Some(8),
        _ => None,
    }
}

/// The type-table row announced for an Arrow type.
pub open spec fn announced_row(t: ArrowType) -> PgTypeInfo {
    pg_type_row(oid_position(arrow_type_oid(t)))
}

/// Numbers keep their kind and width: an integer Arrow type is announced
/// as a Postgres integer (`int2`, `int4`, `int8`) of the same width, or
/// `int2` when narrower; a floating-point type as a Postgres float
/// (`float4`, `float8`) of the same width, or `float4` when narrower.
pub proof fn lemma_numeric_types_keep_width(t: ArrowType)
    ensures
        arrow_int_width(t) matches Some(w) ==> {
            &&& announced_row(t).typcategory == 'N'
            &&& announced_row(t).name@.len() == 4
            &&& announced_row(t).name@.take(3) == "int"@
            &&& announced_row(t).typlen == if w < 2 { 2 } else { w }
        },
        arrow_float_width(t) matches Some(w) ==> {
            &&& announced_row(t).typcategory == 'N'
            &&& announced_row(t).name@.len() == 6
            &&& announced_row(t).name@.take(5) == "float"@
            &&& announced_row(t).typlen == if w < 4 { 4 } else { w }
        },
{
    reveal_strlit("int");
    reveal_strlit("float");
    reveal_strlit("int2");
    reveal_strlit("int4");
    reveal_strlit("int8");
    reveal_strlit("float4");
    reveal_strlit("float8");
    assert("int2"@.take(3) =~= "int"@);
    assert("int4"@.take(3) =~= "int"@);
    assert("int8"@.take(3) =~= "int"@);
    assert("float4"@.take(5) =~= "float"@);
    assert("float8"@.take(5) =~= "float"@);
}

} // verus!
