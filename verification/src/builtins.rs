//! The objects every catalog is created with: the default database, the
//! builtin schemas, the system tables of `glare_catalog` and their column
//! shapes, and the views of `information_schema` and `pg_catalog`.
use vstd::prelude::*;

use crate::arrow::{ArrowType, Field};
pub use crate::builtin_views::BuiltinView;
use crate::text::str_eq;

verus! {

/// The default catalog that exists in all databases.
pub const DEFAULT_CATALOG: &'static str = "default";

/// Default schema that is created on every startup.
pub const DEFAULT_SCHEMA: &'static str = "public";

/// Internal schema for system tables.
pub const INTERNAL_SCHEMA: &'static str = "glare_catalog";

pub const INFORMATION_SCHEMA: &'static str = "information_schema";

pub const POSTGRES_SCHEMA: &'static str = "pg_catalog";

/// Schema of temporary objects, valid for the current session only.
pub const CURRENT_SESSION_SCHEMA: &'static str = "current_session";

/// First OID given to builtin objects.
pub const FIRST_GLAREDB_BUILTIN_ID: u32 = 16384;

/// First OID available for builtin objects without a stable OID. Builtin
/// schemas take 16385 to 16400, builtin tables 16401 to 16500.
pub const FIRST_NON_STATIC_OID: u32 = FIRST_GLAREDB_BUILTIN_ID + 116;

/// A builtin database.
#[derive(Debug, Clone, Copy)]
pub struct BuiltinDatabase {
    pub name: &'static str,
    pub oid: u32,
}

impl BuiltinDatabase {
    /// The builtin databases: only the default one.
    pub fn builtins() -> (v: Vec<BuiltinDatabase>)
        ensures
            v@ == seq![BuiltinDatabase { name: DEFAULT_CATALOG, oid: FIRST_GLAREDB_BUILTIN_ID }],
    {
        vec![BuiltinDatabase { name: DEFAULT_CATALOG, oid: FIRST_GLAREDB_BUILTIN_ID }]
    }
}

/// A builtin schema.
#[derive(Debug, Clone, Copy)]
pub struct BuiltinSchema {
    pub name: &'static str,
    pub oid: u32,
}

/// Number of builtin schemas.
pub open spec fn schemas_len() -> int {
    5
}

/// Builtin schema `i`.
pub open spec fn schema_row(i: int) -> BuiltinSchema {
    if i == 0 {
        BuiltinSchema { name: INTERNAL_SCHEMA, oid: 16385 }
    } else if i == 1 {
        BuiltinSchema { name: DEFAULT_SCHEMA, oid: 16386 }
    } else if i == 2 {
        BuiltinSchema { name: INFORMATION_SCHEMA, oid: 16387 }
    } else if i == 3 {
        BuiltinSchema { name: POSTGRES_SCHEMA, oid: 16388 }
    } else {
        BuiltinSchema { name: CURRENT_SESSION_SCHEMA, oid: 16389 }
    }
}

impl BuiltinSchema {
    /// The builtin schemas: `glare_catalog`, `public`, `information_schema`,
    /// `pg_catalog` and `current_session`.
    pub fn builtins() -> (v: Vec<BuiltinSchema>)
        ensures
            v@ == Seq::new(schemas_len() as nat, |i: int| schema_row(i)),
    {
        let v = vec![
            BuiltinSchema { name: INTERNAL_SCHEMA, oid: 16385 },
            BuiltinSchema { name: DEFAULT_SCHEMA, oid: 16386 },
            BuiltinSchema { name: INFORMATION_SCHEMA, oid: 16387 },
            BuiltinSchema { name: POSTGRES_SCHEMA, oid: 16388 },
            BuiltinSchema { name: CURRENT_SESSION_SCHEMA, oid: 16389 },
        ];
        assert(v@ =~= Seq::new(schemas_len() as nat, |i: int| schema_row(i)));
        v
    }
}

/// Builtin schema OIDs lie in 16385..=16400, above the first builtin OID and
/// below the first OID without a stable value, and no two are equal.
pub proof fn lemma_schema_oids(i: int, j: int)
    requires
        0 <= i < schemas_len(),
        0 <= j < schemas_len(),
    ensures
        FIRST_GLAREDB_BUILTIN_ID < schema_row(i).oid < FIRST_NON_STATIC_OID,
        16385 <= schema_row(i).oid <= 16400,
        i != j ==> schema_row(i).oid != schema_row(j).oid,
{
}

/// The Arrow types of the columns of the builtin tables.
#[derive(Debug, Clone, Copy, PartialEq, Eq, Structural)]
pub enum ColumnKind {
    UInt32,
    Utf8,
    Boolean,
    Float64,
    /// A list of nullable `Utf8` items named `item`.
    Utf8List,
}

/// Whether an Arrow type is the type of a column kind.
pub open spec fn has_kind(t: ArrowType, k: ColumnKind) -> bool {
    match k {
        ColumnKind::UInt32 => t == ArrowType::UInt32,
        ColumnKind::Utf8 => t == ArrowType::Utf8,
        ColumnKind::Boolean => t == ArrowType::Boolean,
        ColumnKind::Float64 => t == ArrowType::Float64,
        ColumnKind::Utf8List => t matches ArrowType::List(f) && f.name@ == "item"@ && f.data_type
            == ArrowType::Utf8 && f.nullable,
    }
}

/// A column of a builtin table.
#[derive(Debug, Clone, Copy)]
pub struct ColumnDefinition {
    pub name: &'static str,
    pub kind: ColumnKind,
    pub nullable: bool,
}

impl ColumnDefinition {
    /// The Arrow type of the column.
    pub fn arrow_type(&self) -> (t: ArrowType)
        ensures
            has_kind(t, self.kind),
    {
        match self.kind {
            ColumnKind::UInt32 => ArrowType::UInt32,
            ColumnKind::Utf8 => ArrowType::Utf8,
            ColumnKind::Boolean => ArrowType::Boolean,
            ColumnKind::Float64 => ArrowType::Float64,
            ColumnKind::Utf8List => ArrowType::List(
                Box::new(Field { name: "item".to_owned(), data_type: ArrowType::Utf8, nullable: true }),
            ),
        }
    }
}

/// Whether an Arrow field describes a column: same name, type and
/// nullability.
pub open spec fn field_of_column(f: Field, c: ColumnDefinition) -> bool {
    f.name@ == c.name@ && has_kind(f.data_type, c.kind) && f.nullable == c.nullable
}

/// Whether a table is builtin table `i`.
pub open spec fn is_table_row(t: BuiltinTable, i: int) -> bool {
    (t.schema, t.name, t.oid) == table_head(i) && t.columns@ == table_columns(i)
}

/// A builtin table.
#[derive(Debug, Clone)]
pub struct BuiltinTable {
    pub schema: &'static str,
    pub name: &'static str,
    pub columns: Vec<ColumnDefinition>,
    pub oid: u32,
}


/// Number of builtin tables.
pub open spec fn tables_len() -> int {
    14
}

/// Schema, name and OID of builtin table `i`.
pub open spec fn table_head(i: int) -> (&'static str, &'static str, u32) {
    if i == 0 {
        (INTERNAL_SCHEMA, "databases", 16401)
    } else if i == 1 {
        (INTERNAL_SCHEMA, "tunnels", 16402)
    } else if i == 2 {
        (INTERNAL_SCHEMA, "credentials", 16403)
    } else if i == 3 {
        (INTERNAL_SCHEMA, "schemas", 16404)
    } else if i == 4 {
        (INTERNAL_SCHEMA, "views", 16406)
    } else if i == 5 {
        (INTERNAL_SCHEMA, "tables", 16405)
    } else if i == 6 {
        (INTERNAL_SCHEMA, "columns", 16407)
    } else if i == 7 {
        (INTERNAL_SCHEMA, "functions", 16408)
    } else if i == 8 {
        (INTERNAL_SCHEMA, "ssh_keys", 16409)
    } else if i == 9 {
        (INTERNAL_SCHEMA, "deployment_metadata", 16410)
    } else if i == 10 {
        (INTERNAL_SCHEMA, "cached_external_database_tables", 16411)
    } else if i == 11 {
        (INTERNAL_SCHEMA, "indexes", 16412)
    } else if i == 12 {
        (INTERNAL_SCHEMA, "constraints", 16413)
    } else {
        (INTERNAL_SCHEMA, "session_vars", 16414)
    }
}

/// Columns of builtin table `i`, in order.
pub open spec fn table_columns(i: int) -> Seq<ColumnDefinition> {
    if i == 0 {
        seq![
            ColumnDefinition { name: "oid", kind: ColumnKind::UInt32, nullable: false },
            ColumnDefinition { name: "database_name", kind: ColumnKind::Utf8, nullable: false },
            ColumnDefinition { name: "builtin", kind: ColumnKind::Boolean, nullable: false },
            ColumnDefinition { name: "external", kind: ColumnKind::Boolean, nullable: false },
            ColumnDefinition { name: "datasource", kind: ColumnKind::Utf8, nullable: false },
            ColumnDefinition { name: "access_mode", kind: ColumnKind::Utf8, nullable: false },
        ]
    } else if i == 1 {
        seq![
            ColumnDefinition { name: "oid", kind: ColumnKind::UInt32, nullable: false },
            ColumnDefinition { name: "tunnel_name", kind: ColumnKind::Utf8, nullable: false },
            ColumnDefinition { name: "builtin", kind: ColumnKind::Boolean, nullable: false },
            ColumnDefinition { name: "tunnel_type", kind: ColumnKind::Utf8, nullable: false },
        ]
    } else if i == 2 {
        seq![
            ColumnDefinition { name: "oid", kind: ColumnKind::UInt32, nullable: false },
            ColumnDefinition { name: "credentials_name", kind: ColumnKind::Utf8, nullable: false },
            ColumnDefinition { name: "builtin", kind: ColumnKind::Boolean, nullable: false },
            ColumnDefinition { name: "provider", kind: ColumnKind::Utf8, nullable: false },
            ColumnDefinition { name: "comment", kind: ColumnKind::Utf8, nullable: false },
        ]
    } else if i == 3 {
        seq![
            ColumnDefinition { name: "oid", kind: ColumnKind::UInt32, nullable: false },
            ColumnDefinition { name: "database_oid", kind: ColumnKind::UInt32, nullable: false },
            ColumnDefinition { name: "database_name", kind: ColumnKind::Utf8, nullable: false },
            ColumnDefinition { name: "schema_name", kind: ColumnKind::Utf8, nullable: false },
            ColumnDefinition { name: "builtin", kind: ColumnKind::Boolean, nullable: false },
        ]
    } else if i == 4 {
        seq![
            ColumnDefinition { name: "oid", kind: ColumnKind::UInt32, nullable: false },
            ColumnDefinition { name: "database_oid", kind: ColumnKind::UInt32, nullable: false },
            ColumnDefinition { name: "schema_oid", kind: ColumnKind::UInt32, nullable: false },
            ColumnDefinition { name: "schema_name", kind: ColumnKind::Utf8, nullable: false },
            ColumnDefinition { name: "view_name", kind: ColumnKind::Utf8, nullable: false },
            ColumnDefinition { name: "builtin", kind: ColumnKind::Boolean, nullable: false },
            ColumnDefinition { name: "sql", kind: ColumnKind::Utf8, nullable: false },
            ColumnDefinition { name: "comment", kind: ColumnKind::Utf8, nullable: true },
        ]
    } else if i == 5 {
        seq![
            ColumnDefinition { name: "oid", kind: ColumnKind::UInt32, nullable: false },
            ColumnDefinition { name: "database_oid", kind: ColumnKind::UInt32, nullable: false },
            ColumnDefinition { name: "schema_oid", kind: ColumnKind::UInt32, nullable: false },
            ColumnDefinition { name: "schema_name", kind: ColumnKind::Utf8, nullable: false },
            ColumnDefinition { name: "table_name", kind: ColumnKind::Utf8, nullable: false },
            ColumnDefinition { name: "builtin", kind: ColumnKind::Boolean, nullable: false },
            ColumnDefinition { name: "external", kind: ColumnKind::Boolean, nullable: false },
            ColumnDefinition { name: "datasource", kind: ColumnKind::Utf8, nullable: false },
            ColumnDefinition { name: "access_mode", kind: ColumnKind::Utf8, nullable: false },
            ColumnDefinition { name: "comment", kind: ColumnKind::Utf8, nullable: true },
            ColumnDefinition { name: "reltuples", kind: ColumnKind::Float64, nullable: true },
        ]
    } else if i == 6 {
        seq![
            ColumnDefinition { name: "schema_oid", kind: ColumnKind::UInt32, nullable: false },
            ColumnDefinition { name: "table_oid", kind: ColumnKind::UInt32, nullable: false },
            ColumnDefinition { name: "table_name", kind: ColumnKind::Utf8, nullable: false },
            ColumnDefinition { name: "column_name", kind: ColumnKind::Utf8, nullable: false },
            ColumnDefinition { name: "column_ordinal", kind: ColumnKind::UInt32, nullable: false },
            ColumnDefinition { name: "data_type", kind: ColumnKind::Utf8, nullable: false },
            ColumnDefinition { name: "is_nullable", kind: ColumnKind::Boolean, nullable: false },
        ]
    } else if i == 7 {
        seq![
            ColumnDefinition { name: "oid", kind: ColumnKind::UInt32, nullable: false },
            ColumnDefinition { name: "schema_oid", kind: ColumnKind::UInt32, nullable: false },
            ColumnDefinition { name: "function_name", kind: ColumnKind::Utf8, nullable: false },
            ColumnDefinition { name: "function_type", kind: ColumnKind::Utf8, nullable: false },
            ColumnDefinition { name: "parameters", kind: ColumnKind::Utf8List, nullable: false },
            ColumnDefinition { name: "builtin", kind: ColumnKind::Boolean, nullable: false },
            ColumnDefinition { name: "example", kind: ColumnKind::Utf8, nullable: true },
            ColumnDefinition { name: "description", kind: ColumnKind::Utf8, nullable: true },
            ColumnDefinition { name: "argument_types", kind: ColumnKind::Utf8List, nullable: false },
            ColumnDefinition { name: "argument_oids_text", kind: ColumnKind::Utf8, nullable: true },
            ColumnDefinition { name: "return_type", kind: ColumnKind::Utf8, nullable: true },
            ColumnDefinition { name: "is_set_returning", kind: ColumnKind::Boolean, nullable: false },
        ]
    } else if i == 8 {
        seq![
            ColumnDefinition { name: "ssh_tunnel_oid", kind: ColumnKind::UInt32, nullable: false },
            ColumnDefinition { name: "ssh_tunnel_name", kind: ColumnKind::Utf8, nullable: false },
            ColumnDefinition { name: "public_key", kind: ColumnKind::Utf8, nullable: false },
        ]
    } else if i == 9 {
        seq![
            ColumnDefinition { name: "key", kind: ColumnKind::Utf8, nullable: false },
            ColumnDefinition { name: "value", kind: ColumnKind::Utf8, nullable: false },
        ]
    } else if i == 10 {
        seq![
            ColumnDefinition { name: "database_oid", kind: ColumnKind::UInt32, nullable: false },
            ColumnDefinition { name: "schema_name", kind: ColumnKind::Utf8, nullable: false },
            ColumnDefinition { name: "table_name", kind: ColumnKind::Utf8, nullable: false },
            ColumnDefinition { name: "column_name", kind: ColumnKind::Utf8, nullable: false },
            ColumnDefinition { name: "data_type", kind: ColumnKind::Utf8, nullable: false },
        ]
    } else if i == 11 {
        seq![
            ColumnDefinition { name: "oid", kind: ColumnKind::UInt32, nullable: false },
            ColumnDefinition { name: "table_oid", kind: ColumnKind::UInt32, nullable: false },
            ColumnDefinition { name: "schema_oid", kind: ColumnKind::UInt32, nullable: false },
            ColumnDefinition { name: "index_name", kind: ColumnKind::Utf8, nullable: false },
            ColumnDefinition { name: "is_primary", kind: ColumnKind::Boolean, nullable: false },
            ColumnDefinition { name: "is_unique", kind: ColumnKind::Boolean, nullable: false },
            ColumnDefinition { name: "column_positions", kind: ColumnKind::Utf8, nullable: true },
            ColumnDefinition { name: "predicate", kind: ColumnKind::Utf8, nullable: true },
            ColumnDefinition { name: "expression", kind: ColumnKind::Utf8, nullable: true },
            ColumnDefinition { name: "access_method", kind: ColumnKind::Utf8, nullable: false },
        ]
    } else if i == 12 {
        seq![
            ColumnDefinition { name: "oid", kind: ColumnKind::UInt32, nullable: false },
            ColumnDefinition { name: "conname", kind: ColumnKind::Utf8, nullable: false },
            ColumnDefinition { name: "schema_oid", kind: ColumnKind::UInt32, nullable: false },
            ColumnDefinition { name: "contype", kind: ColumnKind::Utf8, nullable: false },
            ColumnDefinition { name: "table_oid", kind: ColumnKind::UInt32, nullable: false },
            ColumnDefinition { name: "ref_table_oid", kind: ColumnKind::UInt32, nullable: true },
            ColumnDefinition { name: "column_positions", kind: ColumnKind::Utf8, nullable: true },
            ColumnDefinition { name: "ref_column_positions", kind: ColumnKind::Utf8, nullable: true },
            ColumnDefinition { name: "update_action", kind: ColumnKind::Utf8, nullable: true },
            ColumnDefinition { name: "delete_action", kind: ColumnKind::Utf8, nullable: true },
            ColumnDefinition { name: "match_type", kind: ColumnKind::Utf8, nullable: true },
            ColumnDefinition { name: "is_deferrable", kind: ColumnKind::Boolean, nullable: false },
            ColumnDefinition { name: "is_deferred", kind: ColumnKind::Boolean, nullable: false },
            ColumnDefinition { name: "is_validated", kind: ColumnKind::Boolean, nullable: false },
            ColumnDefinition { name: "definition", kind: ColumnKind::Utf8, nullable: true },
        ]
    } else {
        seq![
            ColumnDefinition { name: "name", kind: ColumnKind::Utf8, nullable: false },
            ColumnDefinition { name: "setting", kind: ColumnKind::Utf8, nullable: true },
            ColumnDefinition { name: "short_desc", kind: ColumnKind::Utf8, nullable: true },
        ]
    }
}

/// Builtin table `i`.
fn table_at(i: usize) -> (t: BuiltinTable)
    requires
        i < tables_len(),
    ensures
        is_table_row(t, i as int),
{
    if i == 0 {
        BuiltinTable {
            schema: INTERNAL_SCHEMA,
            name: "databases",
            columns: vec![
                ColumnDefinition { name: "oid", kind: ColumnKind::UInt32, nullable: false },
                ColumnDefinition { name: "database_name", kind: ColumnKind::Utf8, nullable: false },
                ColumnDefinition { name: "builtin", kind: ColumnKind::Boolean, nullable: false },
                ColumnDefinition { name: "external", kind: ColumnKind::Boolean, nullable: false },
                ColumnDefinition { name: "datasource", kind: ColumnKind::Utf8, nullable: false },
                ColumnDefinition { name: "access_mode", kind: ColumnKind::Utf8, nullable: false },
            ],
            oid: 16401,
        }
    } else if i == 1 {
        BuiltinTable {
            schema: INTERNAL_SCHEMA,
            name: "tunnels",
            columns: vec![
                ColumnDefinition { name: "oid", kind: ColumnKind::UInt32, nullable: false },
                ColumnDefinition { name: "tunnel_name", kind: ColumnKind::Utf8, nullable: false },
                ColumnDefinition { name: "builtin", kind: ColumnKind::Boolean, nullable: false },
                ColumnDefinition { name: "tunnel_type", kind: ColumnKind::Utf8, nullable: false },
            ],
            oid: 16402,
        }
    } else if i == 2 {
        BuiltinTable {
            schema: INTERNAL_SCHEMA,
            name: "credentials",
            columns: vec![
                ColumnDefinition { name: "oid", kind: ColumnKind::UInt32, nullable: false },
                ColumnDefinition { name: "credentials_name", kind: ColumnKind::Utf8, nullable: false },
                ColumnDefinition { name: "builtin", kind: ColumnKind::Boolean, nullable: false },
                ColumnDefinition { name: "provider", kind: ColumnKind::Utf8, nullable: false },
                ColumnDefinition { name: "comment", kind: ColumnKind::Utf8, nullable: false },
            ],
            oid: 16403,
        }
    } else if i == 3 {
        BuiltinTable {
            schema: INTERNAL_SCHEMA,
            name: "schemas",
            columns: vec![
                ColumnDefinition { name: "oid", kind: ColumnKind::UInt32, nullable: false },
                ColumnDefinition { name: "database_oid", kind: ColumnKind::UInt32, nullable: false },
                ColumnDefinition { name: "database_name", kind: ColumnKind::Utf8, nullable: false },
                ColumnDefinition { name: "schema_name", kind: ColumnKind::Utf8, nullable: false },
                ColumnDefinition { name: "builtin", kind: ColumnKind::Boolean, nullable: false },
            ],
            oid: 16404,
        }
    } else if i == 4 {
        BuiltinTable {
            schema: INTERNAL_SCHEMA,
            name: "views",
            columns: vec![
                ColumnDefinition { name: "oid", kind: ColumnKind::UInt32, nullable: false },
                ColumnDefinition { name: "database_oid", kind: ColumnKind::UInt32, nullable: false },
                ColumnDefinition { name: "schema_oid", kind: ColumnKind::UInt32, nullable: false },
                ColumnDefinition { name: "schema_name", kind: ColumnKind::Utf8, nullable: false },
                ColumnDefinition { name: "view_name", kind: ColumnKind::Utf8, nullable: false },
                ColumnDefinition { name: "builtin", kind: ColumnKind::Boolean, nullable: false },
                ColumnDefinition { name: "sql", kind: ColumnKind::Utf8, nullable: false },
                ColumnDefinition { name: "comment", kind: ColumnKind::Utf8, nullable: true },
            ],
            oid: 16406,
        }
    } else if i == 5 {
        BuiltinTable {
            schema: INTERNAL_SCHEMA,
            name: "tables",
            columns: vec![
                ColumnDefinition { name: "oid", kind: ColumnKind::UInt32, nullable: false },
                ColumnDefinition { name: "database_oid", kind: ColumnKind::UInt32, nullable: false },
                ColumnDefinition { name: "schema_oid", kind: ColumnKind::UInt32, nullable: false },
                ColumnDefinition { name: "schema_name", kind: ColumnKind::Utf8, nullable: false },
                ColumnDefinition { name: "table_name", kind: ColumnKind::Utf8, nullable: false },
                ColumnDefinition { name: "builtin", kind: ColumnKind::Boolean, nullable: false },
                ColumnDefinition { name: "external", kind: ColumnKind::Boolean, nullable: false },
                ColumnDefinition { name: "datasource", kind: ColumnKind::Utf8, nullable: false },
                ColumnDefinition { name: "access_mode", kind: ColumnKind::Utf8, nullable: false },
                ColumnDefinition { name: "comment", kind: ColumnKind::Utf8, nullable: true },
                ColumnDefinition { name: "reltuples", kind: ColumnKind::Float64, nullable: true },
            ],
            oid: 16405,
        }
    } else if i == 6 {
        BuiltinTable {
            schema: INTERNAL_SCHEMA,
            name: "columns",
            columns: vec![
                ColumnDefinition { name: "schema_oid", kind: ColumnKind::UInt32, nullable: false },
                ColumnDefinition { name: "table_oid", kind: ColumnKind::UInt32, nullable: false },
                ColumnDefinition { name: "table_name", kind: ColumnKind::Utf8, nullable: false },
                ColumnDefinition { name: "column_name", kind: ColumnKind::Utf8, nullable: false },
                ColumnDefinition { name: "column_ordinal", kind: ColumnKind::UInt32, nullable: false },
                ColumnDefinition { name: "data_type", kind: ColumnKind::Utf8, nullable: false },
                ColumnDefinition { name: "is_nullable", kind: ColumnKind::Boolean, nullable: false },
            ],
            oid: 16407,
        }
    } else if i == 7 {
        BuiltinTable {
            schema: INTERNAL_SCHEMA,
            name: "functions",
            columns: vec![
                ColumnDefinition { name: "oid", kind: ColumnKind::UInt32, nullable: false },
                ColumnDefinition { name: "schema_oid", kind: ColumnKind::UInt32, nullable: false },
                ColumnDefinition { name: "function_name", kind: ColumnKind::Utf8, nullable: false },
                ColumnDefinition { name: "function_type", kind: ColumnKind::Utf8, nullable: false },
                ColumnDefinition { name: "parameters", kind: ColumnKind::Utf8List, nullable: false },
                ColumnDefinition { name: "builtin", kind: ColumnKind::Boolean, nullable: false },
                ColumnDefinition { name: "example", kind: ColumnKind::Utf8, nullable: true },
                ColumnDefinition { name: "description", kind: ColumnKind::Utf8, nullable: true },
                ColumnDefinition { name: "argument_types", kind: ColumnKind::Utf8List, nullable: false },
                ColumnDefinition { name: "argument_oids_text", kind: ColumnKind::Utf8, nullable: true },
                ColumnDefinition { name: "return_type", kind: ColumnKind::Utf8, nullable: true },
                ColumnDefinition { name: "is_set_returning", kind: ColumnKind::Boolean, nullable: false },
            ],
            oid: 16408,
        }
    } else if i == 8 {
        BuiltinTable {
            schema: INTERNAL_SCHEMA,
            name: "ssh_keys",
            columns: vec![
                ColumnDefinition { name: "ssh_tunnel_oid", kind: ColumnKind::UInt32, nullable: false },
                ColumnDefinition { name: "ssh_tunnel_name", kind: ColumnKind::Utf8, nullable: false },
                ColumnDefinition { name: "public_key", kind: ColumnKind::Utf8, nullable: false },
            ],
            oid: 16409,
        }
    } else if i == 9 {
        BuiltinTable {
            schema: INTERNAL_SCHEMA,
            name: "deployment_metadata",
            columns: vec![
                ColumnDefinition { name: "key", kind: ColumnKind::Utf8, nullable: false },
                ColumnDefinition { name: "value", kind: ColumnKind::Utf8, nullable: false },
            ],
            oid: 16410,
        }
    } else if i == 10 {
        BuiltinTable {
            schema: INTERNAL_SCHEMA,
            name: "cached_external_database_tables",
            columns: vec![
                ColumnDefinition { name: "database_oid", kind: ColumnKind::UInt32, nullable: false },
                ColumnDefinition { name: "schema_name", kind: ColumnKind::Utf8, nullable: false },
                ColumnDefinition { name: "table_name", kind: ColumnKind::Utf8, nullable: false },
                ColumnDefinition { name: "column_name", kind: ColumnKind::Utf8, nullable: false },
                ColumnDefinition { name: "data_type", kind: ColumnKind::Utf8, nullable: false },
            ],
            oid: 16411,
        }
    } else if i == 11 {
        BuiltinTable {
            schema: INTERNAL_SCHEMA,
            name: "indexes",
            columns: vec![
                ColumnDefinition { name: "oid", kind: ColumnKind::UInt32, nullable: false },
                ColumnDefinition { name: "table_oid", kind: ColumnKind::UInt32, nullable: false },
                ColumnDefinition { name: "schema_oid", kind: ColumnKind::UInt32, nullable: false },
                ColumnDefinition { name: "index_name", kind: ColumnKind::Utf8, nullable: false },
                ColumnDefinition { name: "is_primary", kind: ColumnKind::Boolean, nullable: false },
                ColumnDefinition { name: "is_unique", kind: ColumnKind::Boolean, nullable: false },
                ColumnDefinition { name: "column_positions", kind: ColumnKind::Utf8, nullable: true },
                ColumnDefinition { name: "predicate", kind: ColumnKind::Utf8, nullable: true },
                ColumnDefinition { name: "expression", kind: ColumnKind::Utf8, nullable: true },
                ColumnDefinition { name: "access_method", kind: ColumnKind::Utf8, nullable: false },
            ],
            oid: 16412,
        }
    } else if i == 12 {
        BuiltinTable {
            schema: INTERNAL_SCHEMA,
            name: "constraints",
            columns: vec![
                ColumnDefinition { name: "oid", kind: ColumnKind::UInt32, nullable: false },
                ColumnDefinition { name: "conname", kind: ColumnKind::Utf8, nullable: false },
                ColumnDefinition { name: "schema_oid", kind: ColumnKind::UInt32, nullable: false },
                ColumnDefinition { name: "contype", kind: ColumnKind::Utf8, nullable: false },
                ColumnDefinition { name: "table_oid", kind: ColumnKind::UInt32, nullable: false },
                ColumnDefinition { name: "ref_table_oid", kind: ColumnKind::UInt32, nullable: true },
                ColumnDefinition { name: "column_positions", kind: ColumnKind::Utf8, nullable: true },
                ColumnDefinition { name: "ref_column_positions", kind: ColumnKind::Utf8, nullable: true },
                ColumnDefinition { name: "update_action", kind: ColumnKind::Utf8, nullable: true },
                ColumnDefinition { name: "delete_action", kind: ColumnKind::Utf8, nullable: true },
                ColumnDefinition { name: "match_type", kind: ColumnKind::Utf8, nullable: true },
                ColumnDefinition { name: "is_deferrable", kind: ColumnKind::Boolean, nullable: false },
                ColumnDefinition { name: "is_deferred", kind: ColumnKind::Boolean, nullable: false },
                ColumnDefinition { name: "is_validated", kind: ColumnKind::Boolean, nullable: false },
                ColumnDefinition { name: "definition", kind: ColumnKind::Utf8, nullable: true },
            ],
            oid: 16413,
        }
    } else {
        BuiltinTable {
            schema: INTERNAL_SCHEMA,
            name: "session_vars",
            columns: vec![
                ColumnDefinition { name: "name", kind: ColumnKind::Utf8, nullable: false },
                ColumnDefinition { name: "setting", kind: ColumnKind::Utf8, nullable: true },
                ColumnDefinition { name: "short_desc", kind: ColumnKind::Utf8, nullable: true },
            ],
            oid: 16414,
        }
    }
}

impl BuiltinTable {
    /// Whether this is the table `name` of schema `schema`.
    pub fn matches(&self, schema: &str, name: &str) -> (r: bool)
        ensures
            r == (self.schema@ == schema@ && self.name@ == name@),
    {
        str_eq(self.schema, schema) && str_eq(self.name, name)
    }

    /// The table's columns as Arrow fields, in order.
    pub fn arrow_schema(&self) -> (fields: Vec<Field>)
        ensures
            fields.len() == self.columns.len(),
            forall|k: int|
                0 <= k < fields.len() ==> field_of_column(#[trigger] fields@[k], self.columns@[k]),
    {
        let mut fields: Vec<Field> = Vec::new();
        let mut k: usize = 0;
        while k < self.columns.len()
            invariant
                k <= self.columns.len(),
                fields.len() == k,
                forall|j: int| 0 <= j < k ==> field_of_column(#[trigger] fields@[j], self.columns@[j]),
            decreases self.columns.len() - k,
        {
            let c = self.columns[k];
            let f = Field { name: c.name.to_owned(), data_type: c.arrow_type(), nullable: c.nullable };
            fields.push(f);
            k = k + 1;
        }
        fields
    }

    /// All builtin tables, in catalog order.
    pub fn builtins() -> (v: Vec<BuiltinTable>)
        ensures
            v.len() == tables_len(),
            forall|i: int| 0 <= i < tables_len() ==> is_table_row(#[trigger] v@[i], i),
    {
        let mut v: Vec<BuiltinTable> = Vec::new();
        let mut i: usize = 0;
        while i < 14
            invariant
                i <= tables_len(),
                v.len() == i,
                forall|j: int| 0 <= j < i ==> is_table_row(#[trigger] v@[j], j),
            decreases tables_len() - i,
        {
            v.push(table_at(i));
            i = i + 1;
        }
        v
    }
}

/// Builtin table OIDs lie in 16401..=16500, between the first builtin OID
/// and the first OID without a stable value, and no two are equal.
pub proof fn lemma_table_oids(i: int, j: int)
    requires
        0 <= i < tables_len(),
        0 <= j < tables_len(),
    ensures
        FIRST_GLAREDB_BUILTIN_ID <= table_head(i).2 < FIRST_NON_STATIC_OID,
        16401 <= table_head(i).2 <= 16500,
        i != j ==> table_head(i).2 != table_head(j).2,
{
}

/// Position of the builtin table with this name, or -1 when there is none.
pub open spec fn table_position(name: Seq<char>) -> int {
    if name.len() == 9 {
        if name == "databases"@ {
            0
        } else if name == "functions"@ {
            7
        } else {
            -1
        }
    } else if name.len() == 7 {
        if name == "tunnels"@ {
            1
        } else if name == "schemas"@ {
            3
        } else if name == "columns"@ {
            6
        } else if name == "indexes"@ {
            11
        } else {
            -1
        }
    } else if name.len() == 11 {
        if name == "credentials"@ {
            2
        } else if name == "constraints"@ {
            12
        } else {
            -1
        }
    } else if name.len() == 5 {
        if name == "views"@ {
            4
        } else {
            -1
        }
    } else if name.len() == 6 {
        if name == "tables"@ {
            5
        } else {
            -1
        }
    } else if name.len() == 8 {
        if name == "ssh_keys"@ {
            8
        } else {
            -1
        }
    } else if name.len() == 19 {
        if name == "deployment_metadata"@ {
            9
        } else {
            -1
        }
    } else if name.len() == 31 {
        if name == "cached_external_database_tables"@ {
            10
        } else {
            -1
        }
    } else if name.len() == 12 {
        if name == "session_vars"@ {
            13
        } else {
            -1
        }
    } else {
        -1
    }
}

proof fn lemma_table_position_0()
    ensures
        table_position(table_head(0).1@) == 0,
{
    reveal_strlit("databases");
    assert(table_head(0).1@ == "databases"@);
}

proof fn lemma_table_position_1()
    ensures
        table_position(table_head(1).1@) == 1,
{
    reveal_strlit("tunnels");
    assert(table_head(1).1@ == "tunnels"@);
}

proof fn lemma_table_position_2()
    ensures
        table_position(table_head(2).1@) == 2,
{
    reveal_strlit("credentials");
    assert(table_head(2).1@ == "credentials"@);
}

proof fn lemma_table_position_3()
    ensures
        table_position(table_head(3).1@) == 3,
{
    reveal_strlit("schemas");
    reveal_strlit("tunnels");
    assert(table_head(3).1@ == "schemas"@);
    assert("schemas"@[0] != "tunnels"@[0]);
}

proof fn lemma_table_position_4()
    ensures
        table_position(table_head(4).1@) == 4,
{
    reveal_strlit("views");
    assert(table_head(4).1@ == "views"@);
}

proof fn lemma_table_position_5()
    ensures
        table_position(table_head(5).1@) == 5,
{
    reveal_strlit("tables");
    assert(table_head(5).1@ == "tables"@);
}

proof fn lemma_table_position_6()
    ensures
        table_position(table_head(6).1@) == 6,
{
    reveal_strlit("columns");
    reveal_strlit("tunnels");
    reveal_strlit("schemas");
    assert(table_head(6).1@ == "columns"@);
    assert("columns"@[0] != "tunnels"@[0]);
    assert("columns"@[0] != "schemas"@[0]);
}

proof fn lemma_table_position_7()
    ensures
        table_position(table_head(7).1@) == 7,
{
    reveal_strlit("functions");
    reveal_strlit("databases");
    assert(table_head(7).1@ == "functions"@);
    assert("functions"@[0] != "databases"@[0]);
}

proof fn lemma_table_position_8()
    ensures
        table_position(table_head(8).1@) == 8,
{
    reveal_strlit("ssh_keys");
    assert(table_head(8).1@ == "ssh_keys"@);
}

proof fn lemma_table_position_9()
    ensures
        table_position(table_head(9).1@) == 9,
{
    reveal_strlit("deployment_metadata");
    assert(table_head(9).1@ == "deployment_metadata"@);
}

proof fn lemma_table_position_10()
    ensures
        table_position(table_head(10).1@) == 10,
{
    reveal_strlit("cached_external_database_tables");
    assert(table_head(10).1@ == "cached_external_database_tables"@);
}

proof fn lemma_table_position_11()
    ensures
        table_position(table_head(11).1@) == 11,
{
    reveal_strlit("indexes");
    reveal_strlit("tunnels");
    reveal_strlit("schemas");
    reveal_strlit("columns");
    assert(table_head(11).1@ == "indexes"@);
    assert("indexes"@[0] != "tunnels"@[0]);
    assert("indexes"@[0] != "schemas"@[0]);
    assert("indexes"@[0] != "columns"@[0]);
}

proof fn lemma_table_position_12()
    ensures
        table_position(table_head(12).1@) == 12,
{
    reveal_strlit("constraints");
    reveal_strlit("credentials");
    assert(table_head(12).1@ == "constraints"@);
    assert("constraints"@[1] != "credentials"@[1]);
}

proof fn lemma_table_position_13()
    ensures
        table_position(table_head(13).1@) == 13,
{
    reveal_strlit("session_vars");
    assert(table_head(13).1@ == "session_vars"@);
}

/// Each builtin table sits at the position its name gives.
pub proof fn lemma_table_position(i: int)
    requires
        0 <= i < tables_len(),
    ensures
        table_position(table_head(i).1@) == i,
{
    if i == 0 {
        lemma_table_position_0();
    } else if i == 1 {
        lemma_table_position_1();
    } else if i == 2 {
        lemma_table_position_2();
    } else if i == 3 {
        lemma_table_position_3();
    } else if i == 4 {
        lemma_table_position_4();
    } else if i == 5 {
        lemma_table_position_5();
    } else if i == 6 {
        lemma_table_position_6();
    } else if i == 7 {
        lemma_table_position_7();
    } else if i == 8 {
        lemma_table_position_8();
    } else if i == 9 {
        lemma_table_position_9();
    } else if i == 10 {
        lemma_table_position_10();
    } else if i == 11 {
        lemma_table_position_11();
    } else if i == 12 {
        lemma_table_position_12();
    } else if i == 13 {
        lemma_table_position_13();
    }
}

/// No two builtin tables share a name (all are in `glare_catalog`), so none
/// shares a qualified name.
pub proof fn lemma_table_names_distinct(i: int, j: int)
    requires
        0 <= i < tables_len(),
        0 <= j < tables_len(),
        i != j,
    ensures
        table_head(i).1@ != table_head(j).1@,
        table_head(i).0 == INTERNAL_SCHEMA,
{
    lemma_table_position(i);
    lemma_table_position(j);
}

/// Position of the builtin schema with this name, or -1 when there is none.
pub open spec fn schema_position(name: Seq<char>) -> int {
    if name.len() == 13 {
        if name == "glare_catalog"@ {
            0
        } else {
            -1
        }
    } else if name.len() == 6 {
        if name == "public"@ {
            1
        } else {
            -1
        }
    } else if name.len() == 18 {
        if name == "information_schema"@ {
            2
        } else {
            -1
        }
    } else if name.len() == 10 {
        if name == "pg_catalog"@ {
            3
        } else {
            -1
        }
    } else if name.len() == 15 {
        if name == "current_session"@ {
            4
        } else {
            -1
        }
    } else {
        -1
    }
}

proof fn lemma_schema_position_0()
    ensures
        schema_position(schema_row(0).name@) == 0,
{
    reveal_strlit("glare_catalog");
    assert(schema_row(0).name@ == "glare_catalog"@);
}

proof fn lemma_schema_position_1()
    ensures
        schema_position(schema_row(1).name@) == 1,
{
    reveal_strlit("public");
    assert(schema_row(1).name@ == "public"@);
}

proof fn lemma_schema_position_2()
    ensures
        schema_position(schema_row(2).name@) == 2,
{
    reveal_strlit("information_schema");
    assert(schema_row(2).name@ == "information_schema"@);
}

proof fn lemma_schema_position_3()
    ensures
        schema_position(schema_row(3).name@) == 3,
{
    reveal_strlit("pg_catalog");
    assert(schema_row(3).name@ == "pg_catalog"@);
}

proof fn lemma_schema_position_4()
    ensures
        schema_position(schema_row(4).name@) == 4,
{
    reveal_strlit("current_session");
    assert(schema_row(4).name@ == "current_session"@);
}

/// Each builtin schema sits at the position its name gives.
pub proof fn lemma_schema_position(i: int)
    requires
        0 <= i < schemas_len(),
    ensures
        schema_position(schema_row(i).name@) == i,
{
    if i == 0 {
        lemma_schema_position_0();
    } else if i == 1 {
        lemma_schema_position_1();
    } else if i == 2 {
        lemma_schema_position_2();
    } else if i == 3 {
        lemma_schema_position_3();
    } else if i == 4 {
        lemma_schema_position_4();
    }
}

/// No two builtin schemas share a name.
pub proof fn lemma_schema_names_distinct(i: int, j: int)
    requires
        0 <= i < schemas_len(),
        0 <= j < schemas_len(),
        i != j,
    ensures
        schema_row(i).name@ != schema_row(j).name@,
{
    lemma_schema_position(i);
    lemma_schema_position(j);
}


} // verus!
