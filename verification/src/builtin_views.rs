//! The SQL text of the builtin views of `glare_catalog`, `information_schema`
//! and `pg_catalog`.
use vstd::prelude::*;

use crate::builtins::{INFORMATION_SCHEMA, INTERNAL_SCHEMA, POSTGRES_SCHEMA};

verus! {

/// A builtin view.
#[derive(Debug, Clone, Copy)]
pub struct BuiltinView {
    pub schema: &'static str,
    pub name: &'static str,
    pub sql: &'static str,
}

pub const GLARE_EXTERNAL_DATASOURCES_SQL: &'static str = "
WITH datasources(oid, name, datasource, object_type, external, access_mode) AS (
    SELECT oid,
           database_name,
           datasource,
           'database',
           external,
           access_mode
    FROM glare_catalog.databases
    UNION
    SELECT oid,
           table_name,
           datasource,
           'table',
           external,
           access_mode
    FROM glare_catalog.tables
)
SELECT * FROM datasources WHERE external = true";

pub const INFORMATION_SCHEMA_SCHEMATA_SQL: &'static str = "
SELECT
    database_name AS catalog_name,
    schema_name AS schema_name,
    null AS schema_owner,
    null AS default_character_set_catalog,
    null AS default_character_set_schema,
    null AS default_character_set_name,
    null AS sql_path
FROM glare_catalog.schemas";

pub const INFORMATION_SCHEMA_TABLES_SQL: &'static str = "
SELECT *
FROM (
    SELECT
        d.database_name AS table_catalog,
        t.schema_name AS table_schema,
        t.table_name AS table_name,
        'BASE TABLE' AS table_type,
        null AS self_referencing_column_name,
        null AS reference_generation,
        null AS user_defined_type_catalog,
        null AS user_defined_type_schema,
        null AS user_defined_type_name,
        'NO' AS is_insertable_into,
        'NO' AS is_typed,
        null AS commit_action
    FROM glare_catalog.tables t INNER JOIN glare_catalog.databases d ON t.database_oid = d.oid
    UNION ALL
    SELECT
        d.database_name AS table_catalog,
        v.schema_name AS table_schema,
        v.view_name AS table_name,
        'VIEW' AS table_type,
        null AS self_referencing_column_name,
        null AS reference_generation,
        null AS user_defined_type_catalog,
        null AS user_defined_type_schema,
        null AS user_defined_type_name,
        'NO' AS is_insertable_into,
        'NO' AS is_typed,
        null AS commit_action
    FROM glare_catalog.views v INNER JOIN glare_catalog.databases d ON v.database_oid = d.oid
)";

pub const INFORMATION_SCHEMA_COLUMNS_SQL: &'static str = "
SELECT
    d.database_name AS table_catalog,
    s.schema_name AS table_schema,
    c.table_name AS table_name,
    c.column_name AS column_name,
    c.column_ordinal + 1 AS ordinal_position,
    null AS column_default,
    c.is_nullable AS is_nullable,
    c.data_type AS data_type,
    null AS character_maximum_length,
    null AS numeric_precision,
    null AS numeric_precision_radix,
    null AS numeric_scale,
    null AS datetime_precision,
    null AS interval_type,
    null AS interval_precision,
    null AS character_set_catalog,
    null AS character_set_schema,
    null AS character_set_name,
    null AS collation_catalog,
    null AS collation_schema,
    null AS collation_name,
    null AS domain_catalog,
    null AS domain_schema,
    null AS domain_name,
    null AS udt_catalog,
    null AS udt_schema,
    null AS udt_name,
    null AS scope_catalog,
    null AS scope_schema,
    null AS scope_name,
    null AS maximum_cardinality,
    null AS dtd_identifier,
    null AS is_self_referencing,
    null AS is_identity,
    null AS identity_generation,
    null AS identity_start,
    null AS identity_increment,
    null AS identity_maximum,
    null AS identity_minimum,
    null AS identity_cycle,
    null AS is_generated,
    null AS generation_expression,
    'NO' AS is_updatable
FROM glare_catalog.columns c
INNER JOIN glare_catalog.schemas s ON c.schema_oid = s.oid
INNER JOIN glare_catalog.databases d ON s.database_oid = d.oid
";

pub const PG_AM_SQL: &'static str = "
SELECT * FROM (VALUES
    (CAST(403 AS INT), 'btree', CAST(0 AS INT), 'i'),
    (CAST(405 AS INT), 'hash',  CAST(0 AS INT), 'i'),
    (CAST(783 AS INT), 'gist',  CAST(0 AS INT), 'i'),
    (CAST(2742 AS INT),'gin',   CAST(0 AS INT), 'i'),
    (CAST(3580 AS INT),'brin',  CAST(0 AS INT), 'i')
) AS am(oid, amname, amhandler, amtype)";

pub const PG_ATTRIBUTE_SQL: &'static str = "
SELECT
    c.table_oid                            AS attrelid,
    c.column_name                          AS attname,
    pg_catalog.pg_type_oid_by_name(c.data_type) AS atttypid,
    CAST(0 AS INT)                         AS attstattarget,
    CAST(-1 AS SMALLINT)                   AS attlen,
    CAST(c.column_ordinal AS SMALLINT) + 1 AS attnum,
    CAST(0 AS SMALLINT)                    AS attndims,
    CAST(-1 AS INT)                        AS attcacheoff,
    CAST(-1 AS INT)                        AS atttypmod,
    false                                  AS attbyval,
    CAST(NULL AS TEXT)                     AS attalign,
    CAST(NULL AS TEXT)                     AS attstorage,
    CAST(NULL AS TEXT)                     AS attcompression,
    NOT c.is_nullable                      AS attnotnull,
    false                                  AS atthasdef,
    false                                  AS atthasmissing,
    CAST('' AS TEXT)                       AS attidentity,
    CAST('' AS TEXT)                       AS attgenerated,
    false                                  AS attisdropped,
    true                                   AS attislocal,
    CAST(0 AS SMALLINT)                    AS attinhcount,
    CAST(0 AS INT)                         AS attcollation,
    CAST(NULL AS TEXT)                     AS attacl,
    CAST(NULL AS TEXT)                     AS attoptions,
    CAST(NULL AS TEXT)                     AS attfdwoptions,
    CAST(NULL AS TEXT)                     AS attmissingval
FROM glare_catalog.columns c";

pub const PG_ATTRDEF_SQL: &'static str = "
SELECT
    CAST(NULL AS INT)      AS oid,
    CAST(NULL AS INT)      AS adrelid,
    CAST(NULL AS SMALLINT) AS adnum,
    CAST(NULL AS TEXT)     AS adbin,
    CAST(NULL AS TEXT)     AS adsrc
FROM (VALUES (1)) WHERE false";

pub const PG_AUTHID_SQL: &'static str = "
SELECT * FROM (VALUES
    (CAST(10 AS INT), 'glaredb', true, true, true, true, true, true, false, CAST(-1 AS INT), CAST(NULL AS TEXT), CAST(NULL AS TEXT))
) AS a(oid, rolname, rolsuper, rolinherit, rolcreaterole, rolcreatedb, rolcanlogin, rolreplication, rolbypassrls, rolconnlimit, rolpassword, rolvaliduntil)";

pub const PG_AVAILABLE_EXTENSIONS_SQL: &'static str = "
SELECT
    CAST(NULL AS TEXT) AS name,
    CAST(NULL AS TEXT) AS default_version,
    CAST(NULL AS TEXT) AS installed_version,
    CAST(NULL AS TEXT) AS comment
FROM (VALUES (1)) WHERE false";

pub const PG_AGGREGATE_SQL: &'static str = "
SELECT
    f.oid                          AS aggfnoid,
    'n'                            AS aggkind,
    CAST(0 AS SMALLINT)            AS aggnumdirectargs,
    CAST(0 AS INT)                 AS aggtransfn,
    CAST(0 AS INT)                 AS aggfinalfn,
    CAST(0 AS INT)                 AS aggcombinefn,
    CAST(0 AS INT)                 AS aggserialfn,
    CAST(0 AS INT)                 AS aggdeserialfn,
    CAST(0 AS INT)                 AS aggmtransfn,
    CAST(0 AS INT)                 AS aggminvtransfn,
    CAST(0 AS INT)                 AS aggmfinalfn,
    false                          AS aggfinalextra,
    false                          AS aggmfinalextra,
    'r'                            AS aggfinalmodify,
    'r'                            AS aggmfinalmodify,
    CAST(0 AS INT)                 AS aggsortop,
    CAST(0 AS INT)                 AS aggtranstype,
    CAST(0 AS INT)                 AS aggtransspace,
    CAST(0 AS INT)                 AS aggmtranstype,
    CAST(0 AS INT)                 AS aggmtransspace,
    CAST(NULL AS TEXT)             AS agginitval,
    CAST(NULL AS TEXT)             AS aggminitval
FROM glare_catalog.functions f
WHERE f.function_type = 'aggregate'";

pub const PG_CLASS_SQL: &'static str = "
SELECT
    t.oid                                                    AS oid,
    t.table_name                                             AS relname,
    CASE t.schema_oid WHEN 16388 THEN 11 WHEN 16386 THEN 2200
         ELSE t.schema_oid END                               AS relnamespace,
    CAST(0 AS INT)                                           AS reltype,
    CAST(0 AS INT)                                           AS reloftype,
    CAST(10 AS INT)                                          AS relowner,
    CAST(0 AS INT)                                           AS relam,
    CAST(0 AS INT)                                           AS relfilenode,
    CAST(0 AS INT)                                           AS reltablespace,
    CAST(0 AS INT)                                           AS relpages,
    CAST(COALESCE(t.reltuples, 0.0) AS REAL)                 AS reltuples,
    CAST(0 AS INT)                                           AS relallvisible,
    CAST(0 AS INT)                                           AS reltoastrelid,
    false                                                    AS relhasindex,
    false                                                    AS relisshared,
    'p'                                                      AS relpersistence,
    'r'                                                      AS relkind,
    CAST((SELECT COUNT(*) FROM glare_catalog.columns cc
          WHERE cc.table_oid = t.oid) AS SMALLINT)           AS relnatts,
    CAST(0 AS SMALLINT)                                      AS relchecks,
    false                                                    AS relhasrules,
    false                                                    AS relhastriggers,
    false                                                    AS relhassubclass,
    false                                                    AS relrowsecurity,
    false                                                    AS relforcerowsecurity,
    true                                                     AS relispopulated,
    'd'                                                      AS relreplident,
    false                                                    AS relispartition,
    CAST(0 AS INT)                                           AS relrewrite,
    CAST(0 AS BIGINT)                                        AS relfrozenxid,
    CAST(0 AS BIGINT)                                        AS relminmxid,
    CAST(NULL AS TEXT)                                       AS relacl,
    CAST(NULL AS TEXT)                                       AS reloptions,
    CAST(NULL AS TEXT)                                       AS relpartbound
FROM glare_catalog.tables t
UNION ALL
SELECT
    v.oid                                                    AS oid,
    v.view_name                                              AS relname,
    CASE v.schema_oid WHEN 16388 THEN 11 WHEN 16386 THEN 2200
         ELSE v.schema_oid END                               AS relnamespace,
    CAST(0 AS INT)                                           AS reltype,
    CAST(0 AS INT)                                           AS reloftype,
    CAST(10 AS INT)                                          AS relowner,
    CAST(0 AS INT)                                           AS relam,
    CAST(0 AS INT)                                           AS relfilenode,
    CAST(0 AS INT)                                           AS reltablespace,
    CAST(0 AS INT)                                           AS relpages,
    CAST(0.0 AS REAL)                                        AS reltuples,
    CAST(0 AS INT)                                           AS relallvisible,
    CAST(0 AS INT)                                           AS reltoastrelid,
    false                                                    AS relhasindex,
    false                                                    AS relisshared,
    'p'                                                      AS relpersistence,
    'v'                                                      AS relkind,
    CAST(0 AS SMALLINT)                                      AS relnatts,
    CAST(0 AS SMALLINT)                                      AS relchecks,
    false                                                    AS relhasrules,
    false                                                    AS relhastriggers,
    false                                                    AS relhassubclass,
    false                                                    AS relrowsecurity,
    false                                                    AS relforcerowsecurity,
    true                                                     AS relispopulated,
    'd'                                                      AS relreplident,
    false                                                    AS relispartition,
    CAST(0 AS INT)                                           AS relrewrite,
    CAST(0 AS BIGINT)                                        AS relfrozenxid,
    CAST(0 AS BIGINT)                                        AS relminmxid,
    CAST(NULL AS TEXT)                                       AS relacl,
    CAST(NULL AS TEXT)                                       AS reloptions,
    CAST(NULL AS TEXT)                                       AS relpartbound
FROM glare_catalog.views v";

pub const PG_COLLATION_SQL: &'static str = "
SELECT * FROM (VALUES
    (CAST(100 AS INT), 'default', CAST(11 AS INT), CAST(10 AS INT), 'd', true, CAST(-1 AS INT), CAST(NULL AS TEXT), CAST(NULL AS TEXT), CAST(NULL AS TEXT), CAST(NULL AS TEXT), CAST(NULL AS TEXT)),
    (CAST(950 AS INT), 'C',       CAST(11 AS INT), CAST(10 AS INT), 'c', true, CAST(-1 AS INT), 'C', 'C', CAST(NULL AS TEXT), CAST(NULL AS TEXT), CAST(NULL AS TEXT)),
    (CAST(951 AS INT), 'POSIX',   CAST(11 AS INT), CAST(10 AS INT), 'c', true, CAST(-1 AS INT), 'POSIX', 'POSIX', CAST(NULL AS TEXT), CAST(NULL AS TEXT), CAST(NULL AS TEXT))
) AS c(oid, collname, collnamespace, collowner, collprovider, collisdeterministic, collencoding, collcollate, collctype, colliculocale, collicurules, collversion)";

pub const PG_CONSTRAINT_SQL: &'static str = "
SELECT
    c.oid                       AS oid,
    c.conname                   AS conname,
    CASE c.schema_oid WHEN 16388 THEN 11 WHEN 16386 THEN 2200
         ELSE c.schema_oid END   AS connamespace,
    c.contype                   AS contype,
    c.is_deferrable             AS condeferrable,
    c.is_deferred               AS condeferred,
    c.is_validated              AS convalidated,
    c.table_oid                 AS conrelid,
    CAST(0 AS INT)              AS contypid,
    CAST(0 AS INT)              AS conindid,
    CAST(0 AS INT)              AS conparentid,
    c.ref_table_oid             AS confrelid,
    c.update_action             AS confupdtype,
    c.delete_action             AS confdeltype,
    c.match_type                AS confmatchtype,
    true                        AS conislocal,
    CAST(0 AS INT)              AS coninhcount,
    true                        AS connoinherit,
    -- `conkey` / `confkey` are `int2[]` upstream, formatted as the
    -- Postgres array literal `{1,2,3}` on the wire. Convert from our
    -- internal space-separated `column_positions` ('1 2 3') by
    -- swapping spaces for commas and wrapping in braces. NULL-safe.
    CASE WHEN c.column_positions IS NULL THEN NULL
         ELSE '{' || replace(c.column_positions, ' ', ',') || '}'
    END                         AS conkey,
    CASE WHEN c.ref_column_positions IS NULL THEN NULL
         ELSE '{' || replace(c.ref_column_positions, ' ', ',') || '}'
    END                         AS confkey,
    CAST(NULL AS TEXT)          AS conpfeqop,
    CAST(NULL AS TEXT)          AS conppeqop,
    CAST(NULL AS TEXT)          AS conffeqop,
    CAST(NULL AS TEXT)          AS confdelsetcols,
    CAST(NULL AS TEXT)          AS conexclop,
    c.definition                AS conbin
FROM glare_catalog.constraints c";

pub const PG_CONVERSION_SQL: &'static str = "
SELECT * FROM (VALUES
    (CAST(0 AS INT), 'utf8_to_utf8', CAST(11 AS INT), CAST(10 AS INT), CAST(6 AS INT), CAST(6 AS INT), CAST(0 AS INT), true)
) AS c(oid, conname, connamespace, conowner, conforencoding, contoencoding, conproc, condefault)";

pub const PG_DATABASE_SQL: &'static str = "
SELECT
    oid                              AS oid,
    database_name                    AS datname,
    CAST(10 AS INT)                  AS datdba,
    CAST(6 AS INT)                   AS encoding,
    'c'                              AS datlocprovider,
    false                            AS datistemplate,
    true                             AS datallowconn,
    CAST(-1 AS INT)                  AS datconnlimit,
    CAST(0 AS BIGINT)                AS datfrozenxid,
    CAST(0 AS BIGINT)                AS datminmxid,
    CAST(1663 AS INT)                AS dattablespace,
    'en_US.UTF-8'                    AS datcollate,
    'en_US.UTF-8'                    AS datctype,
    CAST(NULL AS TEXT)               AS daticulocal,
    -- `daticurules` (PG 16+) — ICU locale rules. NULL when the
    -- collation provider is not ICU (we use libc).
    CAST(NULL AS TEXT)               AS daticurules,
    CAST(NULL AS TEXT)               AS datcollversion,
    CAST(NULL AS TEXT)               AS datacl
FROM glare_catalog.databases
UNION ALL
SELECT
    CAST(0 AS INT)                   AS oid,
    current_database()               AS datname,
    CAST(10 AS INT)                  AS datdba,
    CAST(6 AS INT)                   AS encoding,
    'c'                              AS datlocprovider,
    false                            AS datistemplate,
    true                             AS datallowconn,
    CAST(-1 AS INT)                  AS datconnlimit,
    CAST(0 AS BIGINT)                AS datfrozenxid,
    CAST(0 AS BIGINT)                AS datminmxid,
    CAST(1663 AS INT)                AS dattablespace,
    'en_US.UTF-8'                    AS datcollate,
    'en_US.UTF-8'                    AS datctype,
    CAST(NULL AS TEXT)               AS daticulocal,
    -- `daticurules` (PG 16+) — ICU locale rules. NULL when the
    -- collation provider is not ICU (we use libc).
    CAST(NULL AS TEXT)               AS daticurules,
    CAST(NULL AS TEXT)               AS datcollversion,
    CAST(NULL AS TEXT)               AS datacl
WHERE current_database() NOT IN
      (SELECT database_name FROM glare_catalog.databases)";

pub const PG_DEFAULT_ACL_SQL: &'static str = "
SELECT
    CAST(NULL AS INT)  AS oid,
    CAST(NULL AS INT)  AS defaclrole,
    CAST(NULL AS INT)  AS defaclnamespace,
    CAST(NULL AS TEXT) AS defaclobjtype,
    CAST(NULL AS TEXT) AS defaclacl
FROM (VALUES (1)) WHERE false";

pub const PG_DEPEND_SQL: &'static str = "
SELECT
    CAST(NULL AS INT)  AS classid,
    CAST(NULL AS INT)  AS objid,
    CAST(NULL AS INT)  AS objsubid,
    CAST(NULL AS INT)  AS refclassid,
    CAST(NULL AS INT)  AS refobjid,
    CAST(NULL AS INT)  AS refobjsubid,
    CAST(NULL AS TEXT) AS deptype
FROM (VALUES (1)) WHERE false";

pub const PG_DESCRIPTION_SQL: &'static str = "
SELECT
    t.oid                  AS objoid,
    CAST(1259 AS INT)      AS classoid,
    CAST(0 AS INT)         AS objsubid,
    t.comment              AS description
FROM glare_catalog.tables t
WHERE t.comment IS NOT NULL
UNION ALL
SELECT
    v.oid                  AS objoid,
    CAST(1259 AS INT)      AS classoid,
    CAST(0 AS INT)         AS objsubid,
    v.comment              AS description
FROM glare_catalog.views v
WHERE v.comment IS NOT NULL";

pub const PG_ENUM_SQL: &'static str = "
SELECT
    CAST(NULL AS INT)   AS oid,
    CAST(NULL AS INT)   AS enumtypid,
    CAST(NULL AS REAL)  AS enumsortorder,
    CAST(NULL AS TEXT)  AS enumlabel
FROM (VALUES (1)) WHERE false";

pub const PG_EVENT_TRIGGER_SQL: &'static str = "
SELECT
    CAST(NULL AS INT)  AS oid,
    CAST(NULL AS TEXT) AS evtname,
    CAST(NULL AS TEXT) AS evtevent,
    CAST(NULL AS INT)  AS evtowner,
    CAST(NULL AS INT)  AS evtfoid,
    CAST(NULL AS TEXT) AS evtenabled,
    CAST(NULL AS TEXT) AS evttags
FROM (VALUES (1)) WHERE false";

pub const PG_EXTENSION_SQL: &'static str = "
SELECT
    CAST(NULL AS INT)     AS oid,
    CAST(NULL AS TEXT)    AS extname,
    CAST(NULL AS INT)     AS extowner,
    CAST(NULL AS INT)     AS extnamespace,
    CAST(NULL AS BOOLEAN) AS extrelocatable,
    CAST(NULL AS TEXT)    AS extversion,
    CAST(NULL AS TEXT)    AS extconfig,
    CAST(NULL AS TEXT)    AS extcondition
FROM (VALUES (1)) WHERE false";

pub const PG_FOREIGN_DATA_WRAPPER_SQL: &'static str = "
SELECT
    CAST(NULL AS INT)  AS oid,
    CAST(NULL AS TEXT) AS fdwname,
    CAST(NULL AS INT)  AS fdwowner,
    CAST(NULL AS INT)  AS fdwhandler,
    CAST(NULL AS INT)  AS fdwvalidator,
    CAST(NULL AS TEXT) AS fdwacl,
    CAST(NULL AS TEXT) AS fdwoptions
FROM (VALUES (1)) WHERE false";

pub const PG_FOREIGN_SERVER_SQL: &'static str = "
SELECT
    CAST(NULL AS INT)  AS oid,
    CAST(NULL AS TEXT) AS srvname,
    CAST(NULL AS INT)  AS srvowner,
    CAST(NULL AS INT)  AS srvfdw,
    CAST(NULL AS TEXT) AS srvtype,
    CAST(NULL AS TEXT) AS srvversion,
    CAST(NULL AS TEXT) AS srvacl,
    CAST(NULL AS TEXT) AS srvoptions
FROM (VALUES (1)) WHERE false";

pub const PG_INDEX_SQL: &'static str = "
SELECT
    i.oid               AS indexrelid,
    i.table_oid         AS indrelid,
    CAST(0 AS SMALLINT) AS indnatts,
    CAST(0 AS SMALLINT) AS indnkeyatts,
    i.is_unique         AS indisunique,
    -- `indnullsnotdistinct` (PG 15+) — column position 6 in upstream
    -- pg_index.h. Always false; we don't model UNIQUE NULL semantics.
    false               AS indnullsnotdistinct,
    i.is_primary        AS indisprimary,
    false               AS indisexclusion,
    false               AS indimmediate,
    false               AS indisclustered,
    true                AS indisvalid,
    false               AS indcheckxmin,
    true                AS indisready,
    true                AS indislive,
    false               AS indisreplident,
    COALESCE(i.column_positions, '')                            AS indkey,
    CAST(NULL AS TEXT)                                          AS indcollation,
    -- Per-key op-class oid stub; one '0' per indkey ordinal. The
    -- 'g' flag is critical — the 3-arg form replaces only the first
    -- match, which would corrupt multi-key vectors (`'1 17 42'` →
    -- `'0 17 42'` instead of `'0 0 0'`).
    regexp_replace(COALESCE(i.column_positions, ''), '[0-9]+', '0', 'g') AS indclass,
    -- Per-key option bitmap stub; '0' = ASC NULLS LAST.
    regexp_replace(COALESCE(i.column_positions, ''), '[0-9]+', '0', 'g') AS indoption,
    i.expression                                                AS indexprs,
    i.predicate                                                 AS indpred
FROM glare_catalog.indexes i";

pub const PG_INHERITS_SQL: &'static str = "
SELECT
    CAST(NULL AS INT)      AS inhrelid,
    CAST(NULL AS INT)      AS inhparent,
    CAST(NULL AS INT)      AS inhseqno,
    CAST(NULL AS BOOLEAN)  AS inhdetachpending
FROM (VALUES (1)) WHERE false";

pub const PG_LANGUAGE_SQL: &'static str = "
SELECT * FROM (VALUES
    (CAST(12 AS INT), 'internal', CAST(10 AS INT), false, false, CAST(0 AS INT), CAST(0 AS INT), CAST(2246 AS INT), CAST(NULL AS TEXT)),
    (CAST(13 AS INT), 'c',        CAST(10 AS INT), false, false, CAST(0 AS INT), CAST(0 AS INT), CAST(2247 AS INT), CAST(NULL AS TEXT)),
    (CAST(14 AS INT), 'sql',      CAST(10 AS INT), false, true,  CAST(0 AS INT), CAST(0 AS INT), CAST(2248 AS INT), CAST(NULL AS TEXT))
) AS l(oid, lanname, lanowner, lanispl, lanpltrusted, lanplcallfoid, laninline, lanvalidator, lanacl)";

pub const PG_MATVIEWS_SQL: &'static str = "
SELECT
    CAST(NULL AS TEXT)    AS schemaname,
    CAST(NULL AS TEXT)    AS matviewname,
    CAST(NULL AS TEXT)    AS matviewowner,
    CAST(NULL AS TEXT)    AS tablespace,
    CAST(NULL AS BOOLEAN) AS hasindexes,
    CAST(NULL AS BOOLEAN) AS ispopulated,
    CAST(NULL AS TEXT)    AS definition
FROM (VALUES (1)) WHERE false";

pub const PG_NAMESPACE_SQL: &'static str = "
SELECT
    CASE s.schema_name
        WHEN 'pg_catalog' THEN 11
        WHEN 'public' THEN 2200
        ELSE s.oid
    END                    AS oid,
    s.schema_name          AS nspname,
    CAST(10 AS INT)        AS nspowner,
    CAST(NULL AS TEXT)     AS nspacl
FROM glare_catalog.schemas s";

pub const PG_PARTITIONED_TABLE_SQL: &'static str = "
SELECT
    CAST(NULL AS INT)     AS partrelid,
    CAST(NULL AS TEXT)    AS partstrat,
    CAST(NULL AS SMALLINT) AS partnatts,
    CAST(NULL AS INT)     AS partdefid,
    CAST(NULL AS TEXT)    AS partattrs,
    CAST(NULL AS TEXT)    AS partclass,
    CAST(NULL AS TEXT)    AS partcollation,
    CAST(NULL AS TEXT)    AS partexprs
FROM (VALUES (1)) WHERE false";

pub const PG_PROC_SQL: &'static str = "
SELECT
    f.oid                                      AS oid,
    f.function_name                            AS proname,
    CASE f.schema_oid WHEN 16388 THEN 11 WHEN 16386 THEN 2200
         ELSE f.schema_oid END                  AS pronamespace,
    CAST(10 AS INT)                            AS proowner,
    CAST(12 AS INT)                            AS prolang,
    CAST(0.0 AS REAL)                          AS procost,
    CAST(0.0 AS REAL)                          AS prorows,
    CAST(0 AS INT)                             AS provariadic,
    CAST(0 AS INT)                             AS prosupport,
    CASE f.function_type
        WHEN 'aggregate' THEN 'a'
        ELSE                  'f'
    END                                        AS prokind,
    f.function_type = 'aggregate'              AS proisagg,
    false                                      AS proiswindow,
    false                                      AS prosecdef,
    false                                      AS proleakproof,
    false                                      AS proisstrict,
    f.is_set_returning                         AS proretset,
    'v'                                        AS provolatile,
    's'                                        AS proparallel,
    CAST(COALESCE(cardinality(f.argument_types), 0) AS SMALLINT) AS pronargs,
    CAST(0 AS SMALLINT)                        AS pronargdefaults,
    -- `prorettype` is NULL when the function does not declare a return
    -- type at registration (DataFusion `ScalarUDF`s defer to planning) —
    -- fall back to OID 0 (`InvalidOid`) which DBeaver renders as
    -- `<unknown>`. When a return type is recorded, resolve via
    -- `pg_type_oid_by_name`.
    COALESCE(
        pg_catalog.pg_type_oid_by_name(f.return_type),
        CAST(0 AS INT)
    )                                          AS prorettype,
    -- Pre-formatted oidvector wire string from
    -- `glare_catalog.functions.argument_oids_text` (populated at
    -- dispatch time via `arrow_name_to_pg_oid`). PgJDBC's
    -- `getFunctionColumns` runs `StringTokenizer` over this column
    -- and yields one parameter row per token.
    f.argument_oids_text                       AS proargtypes,
    -- `proallargtypes` mirrors `proargtypes` since we don't
    -- distinguish OUT/INOUT parameters today.
    f.argument_oids_text                       AS proallargtypes,
    -- `prosqlbody` (PG 16+) — SQL function body for SQL-LANGUAGE
    -- functions; NULL for the C/internal-language functions we ship.
    CAST(NULL AS TEXT)                         AS prosqlbody,
    CAST(NULL AS TEXT)                         AS proargmodes,
    -- proargnames is `text[]` in real Postgres — argument *names*
    -- (NULL when the function uses positional-only args). The source
    -- column `glare_catalog.functions.parameters` actually stores
    -- type-signature strings (`Int8/Int16/...`), not parameter names,
    -- so emitting them here would be a lie that confuses introspection
    -- tools. Real Postgres returns NULL for builtins without recorded
    -- argument names; we do the same. (When DataFusion eventually
    -- exposes real argument names on `ScalarUDF`, swap this for the
    -- proper text-array projection.)
    CAST(NULL AS TEXT)                         AS proargnames,
    CAST(NULL AS TEXT)                         AS proargdefaults,
    CAST(NULL AS TEXT)                         AS protrftypes,
    COALESCE(f.example, '')                    AS prosrc,
    CAST(NULL AS TEXT)                         AS probin,
    CAST(NULL AS TEXT)                         AS proconfig,
    CAST(NULL AS TEXT)                         AS proacl
FROM glare_catalog.functions f";

pub const PG_CURSORS_SQL: &'static str = "
SELECT
    CAST(NULL AS TEXT)      AS name,
    CAST(NULL AS TEXT)      AS statement,
    CAST(NULL AS BOOLEAN)   AS is_holdable,
    CAST(NULL AS BOOLEAN)   AS is_binary,
    CAST(NULL AS BOOLEAN)   AS is_scrollable,
    CAST(NULL AS TIMESTAMP) AS creation_time
FROM (VALUES (1)) WHERE false";

pub const PG_GROUP_SQL: &'static str = "
SELECT
    rolname                AS groname,
    oid                    AS grosysid,
    CAST(NULL AS TEXT)     AS grolist
FROM pg_catalog.pg_authid
WHERE rolcanlogin = false";

pub const PG_INDEXES_SQL: &'static str = "
SELECT
    n.nspname                       AS schemaname,
    c.relname                       AS tablename,
    ic.relname                      AS indexname,
    CAST(NULL AS TEXT)              AS tablespace,
    pg_catalog.pg_get_indexdef(i.indexrelid) AS indexdef
FROM pg_catalog.pg_index i
JOIN pg_catalog.pg_class c  ON c.oid  = i.indrelid
JOIN pg_catalog.pg_class ic ON ic.oid = i.indexrelid
LEFT JOIN pg_catalog.pg_namespace n ON n.oid = c.relnamespace";

pub const PG_INIT_PRIVS_SQL: &'static str = "
SELECT
    CAST(NULL AS INT)     AS objoid,
    CAST(NULL AS INT)     AS classoid,
    CAST(NULL AS INT)     AS objsubid,
    CAST(NULL AS TEXT)    AS privtype,
    CAST(NULL AS TEXT)    AS initprivs
FROM (VALUES (1)) WHERE false";

pub const PG_LARGEOBJECT_SQL: &'static str = "
SELECT
    CAST(NULL AS INT)     AS loid,
    CAST(NULL AS INT)     AS pageno,
    CAST(NULL AS TEXT)    AS data
FROM (VALUES (1)) WHERE false";

pub const PG_LARGEOBJECT_METADATA_SQL: &'static str = "
SELECT
    CAST(NULL AS INT)     AS oid,
    CAST(NULL AS INT)     AS lomowner,
    CAST(NULL AS TEXT)    AS lomacl
FROM (VALUES (1)) WHERE false";

pub const PG_LOCKS_SQL: &'static str = "
SELECT
    CAST(NULL AS TEXT)        AS locktype,
    CAST(NULL AS INT)         AS database,
    CAST(NULL AS INT)         AS relation,
    CAST(NULL AS INT)         AS page,
    CAST(NULL AS SMALLINT)    AS tuple,
    CAST(NULL AS TEXT)        AS virtualxid,
    CAST(NULL AS BIGINT)      AS transactionid,
    CAST(NULL AS INT)         AS classid,
    CAST(NULL AS INT)         AS objid,
    CAST(NULL AS SMALLINT)    AS objsubid,
    CAST(NULL AS TEXT)        AS virtualtransaction,
    CAST(NULL AS INT)         AS pid,
    CAST(NULL AS TEXT)        AS mode,
    CAST(NULL AS BOOLEAN)     AS granted,
    CAST(NULL AS BOOLEAN)     AS fastpath,
    CAST(NULL AS TIMESTAMP)   AS waitstart
FROM (VALUES (1)) WHERE false";

pub const PG_POLICIES_SQL: &'static str = "
SELECT
    CAST(NULL AS TEXT)    AS schemaname,
    CAST(NULL AS TEXT)    AS tablename,
    CAST(NULL AS TEXT)    AS policyname,
    CAST(NULL AS TEXT)    AS permissive,
    CAST(NULL AS TEXT)    AS roles,
    CAST(NULL AS TEXT)    AS cmd,
    CAST(NULL AS TEXT)    AS qual,
    CAST(NULL AS TEXT)    AS with_check
FROM (VALUES (1)) WHERE false";

pub const PG_POLICY_SQL: &'static str = "
SELECT
    CAST(NULL AS INT)     AS oid,
    CAST(NULL AS TEXT)    AS polname,
    CAST(NULL AS INT)     AS polrelid,
    CAST(NULL AS TEXT)    AS polcmd,
    CAST(NULL AS BOOLEAN) AS polpermissive,
    CAST(NULL AS TEXT)    AS polroles,
    CAST(NULL AS TEXT)    AS polqual,
    CAST(NULL AS TEXT)    AS polwithcheck
FROM (VALUES (1)) WHERE false";

pub const PG_PREPARED_STATEMENTS_SQL: &'static str = "
SELECT
    CAST(NULL AS TEXT)      AS name,
    CAST(NULL AS TEXT)      AS statement,
    CAST(NULL AS TIMESTAMP) AS prepare_time,
    CAST(NULL AS TEXT)      AS parameter_types,
    CAST(NULL AS BOOLEAN)   AS from_sql,
    CAST(NULL AS BIGINT)    AS generic_plans,
    CAST(NULL AS BIGINT)    AS custom_plans
FROM (VALUES (1)) WHERE false";

pub const PG_PUBLICATION_SQL: &'static str = "
SELECT
    CAST(NULL AS INT)     AS oid,
    CAST(NULL AS TEXT)    AS pubname,
    CAST(NULL AS INT)     AS pubowner,
    CAST(NULL AS BOOLEAN) AS puballtables,
    CAST(NULL AS BOOLEAN) AS pubinsert,
    CAST(NULL AS BOOLEAN) AS pubupdate,
    CAST(NULL AS BOOLEAN) AS pubdelete,
    CAST(NULL AS BOOLEAN) AS pubtruncate,
    CAST(NULL AS BOOLEAN) AS pubviaroot
FROM (VALUES (1)) WHERE false";

pub const PG_PUBLICATION_TABLES_SQL: &'static str = "
SELECT
    CAST(NULL AS TEXT)    AS pubname,
    CAST(NULL AS TEXT)    AS schemaname,
    CAST(NULL AS TEXT)    AS tablename,
    CAST(NULL AS TEXT)    AS attnames,
    CAST(NULL AS TEXT)    AS rowfilter
FROM (VALUES (1)) WHERE false";

pub const PG_RANGE_SQL: &'static str = "
SELECT
    CAST(NULL AS INT)  AS rngtypid,
    CAST(NULL AS INT)  AS rngsubtype,
    CAST(NULL AS INT)  AS rngmultitypid,
    CAST(NULL AS INT)  AS rngcollation,
    CAST(NULL AS INT)  AS rngsubopc,
    CAST(NULL AS TEXT) AS rngcanonical,
    CAST(NULL AS TEXT) AS rngsubdiff
FROM (VALUES (1)) WHERE false";

pub const PG_REPLICATION_SLOTS_SQL: &'static str = "
SELECT
    CAST(NULL AS TEXT)    AS slot_name,
    CAST(NULL AS TEXT)    AS plugin,
    CAST(NULL AS TEXT)    AS slot_type,
    CAST(NULL AS INT)     AS datoid,
    CAST(NULL AS TEXT)    AS database,
    CAST(NULL AS BOOLEAN) AS temporary,
    CAST(NULL AS BOOLEAN) AS active,
    CAST(NULL AS INT)     AS active_pid,
    CAST(NULL AS BIGINT)  AS xmin,
    CAST(NULL AS BIGINT)  AS catalog_xmin,
    CAST(NULL AS TEXT)    AS restart_lsn,
    CAST(NULL AS TEXT)    AS confirmed_flush_lsn,
    CAST(NULL AS TEXT)    AS wal_status,
    CAST(NULL AS BIGINT)  AS safe_wal_size
FROM (VALUES (1)) WHERE false";

pub const PG_REWRITE_SQL: &'static str = "
SELECT
    CAST(NULL AS INT)      AS oid,
    CAST(NULL AS TEXT)     AS rulename,
    CAST(NULL AS INT)      AS ev_class,
    CAST(NULL AS TEXT)     AS ev_type,
    CAST(NULL AS TEXT)     AS ev_enabled,
    CAST(NULL AS BOOLEAN)  AS is_instead,
    CAST(NULL AS TEXT)     AS ev_qual,
    CAST(NULL AS TEXT)     AS ev_action
FROM (VALUES (1)) WHERE false";

pub const PG_ROLES_SQL: &'static str = "
SELECT * FROM (VALUES
    (CAST(10 AS INT), 'glaredb', true, true, true, true, true, true, false, CAST(-1 AS INT), CAST(NULL AS TEXT), CAST(NULL AS TEXT), CAST(NULL AS TEXT))
) AS r(oid, rolname, rolsuper, rolinherit, rolcreaterole, rolcreatedb, rolcanlogin, rolreplication, rolbypassrls, rolconnlimit, rolpassword, rolvaliduntil, rolconfig)";

pub const PG_RULES_SQL: &'static str = "
SELECT
    CAST(NULL AS TEXT)    AS schemaname,
    CAST(NULL AS TEXT)    AS tablename,
    CAST(NULL AS TEXT)    AS rulename,
    CAST(NULL AS TEXT)    AS definition
FROM (VALUES (1)) WHERE false";

pub const PG_SECLABEL_SQL: &'static str = "
SELECT
    CAST(NULL AS INT)     AS objoid,
    CAST(NULL AS INT)     AS classoid,
    CAST(NULL AS INT)     AS objsubid,
    CAST(NULL AS TEXT)    AS provider,
    CAST(NULL AS TEXT)    AS label
FROM (VALUES (1)) WHERE false";

pub const PG_SEQUENCES_SQL: &'static str = "
SELECT
    CAST(NULL AS TEXT)    AS schemaname,
    CAST(NULL AS TEXT)    AS sequencename,
    CAST(NULL AS TEXT)    AS sequenceowner,
    CAST(NULL AS TEXT)    AS data_type,
    CAST(NULL AS BIGINT)  AS start_value,
    CAST(NULL AS BIGINT)  AS min_value,
    CAST(NULL AS BIGINT)  AS max_value,
    CAST(NULL AS BIGINT)  AS increment_by,
    CAST(NULL AS BOOLEAN) AS cycle,
    CAST(NULL AS BIGINT)  AS cache_size,
    CAST(NULL AS BIGINT)  AS last_value
FROM (VALUES (1)) WHERE false";

pub const PG_SETTINGS_SQL: &'static str = "
SELECT
    name                   AS name,
    setting                AS setting,
    CAST(NULL AS TEXT)     AS unit,
    CAST(NULL AS TEXT)     AS category,
    short_desc             AS short_desc,
    CAST(NULL AS TEXT)     AS extra_desc,
    'user'                 AS context,
    'string'               AS vartype,
    'session'              AS source,
    CAST(NULL AS TEXT)     AS min_val,
    CAST(NULL AS TEXT)     AS max_val,
    CAST(NULL AS TEXT)     AS enumvals,
    setting                AS boot_val,
    setting                AS reset_val,
    CAST(NULL AS TEXT)     AS sourcefile,
    CAST(NULL AS INT)      AS sourceline,
    false                  AS pending_restart
FROM glare_catalog.session_vars
UNION ALL
-- `max_index_keys` — read by PgJDBC `getMaxIndexKeys` on every
-- `Connection.getMetaData()` call. Without this row the call logs a
-- SQLException at WARN. Real PG hardcodes this to 32 in pg_settings.
SELECT
    'max_index_keys'       AS name,
    '32'                   AS setting,
    CAST(NULL AS TEXT)     AS unit,
    'Preset Options'       AS category,
    'Shows the maximum number of index keys.' AS short_desc,
    CAST(NULL AS TEXT)     AS extra_desc,
    'internal'             AS context,
    'integer'              AS vartype,
    'default'              AS source,
    '32'                   AS min_val,
    '32'                   AS max_val,
    CAST(NULL AS TEXT)     AS enumvals,
    '32'                   AS boot_val,
    '32'                   AS reset_val,
    CAST(NULL AS TEXT)     AS sourcefile,
    CAST(NULL AS INT)      AS sourceline,
    false                  AS pending_restart";

pub const PG_SHADOW_SQL: &'static str = "
SELECT
    rolname                AS usename,
    oid                    AS usesysid,
    rolcreatedb            AS usecreatedb,
    rolsuper               AS usesuper,
    rolreplication         AS userepl,
    rolbypassrls           AS usebypassrls,
    CAST('********' AS TEXT) AS passwd,
    CAST(NULL AS TIMESTAMP) AS valuntil,
    CAST(NULL AS TEXT)     AS useconfig
FROM pg_catalog.pg_authid
WHERE rolcanlogin = true";

pub const PG_SHDESCRIPTION_SQL: &'static str = "
SELECT
    CAST(NULL AS INT)  AS objoid,
    CAST(NULL AS INT)  AS classoid,
    CAST(NULL AS TEXT) AS description
FROM (VALUES (1)) WHERE false";

pub const PG_SHSECLABEL_SQL: &'static str = "
SELECT
    CAST(NULL AS INT)     AS objoid,
    CAST(NULL AS INT)     AS classoid,
    CAST(NULL AS TEXT)    AS provider,
    CAST(NULL AS TEXT)    AS label
FROM (VALUES (1)) WHERE false";

pub const PG_STAT_ACTIVITY_SQL: &'static str = "
SELECT
    CAST(0 AS INT)            AS datid,
    current_database()        AS datname,
    CAST(0 AS INT)            AS pid,
    CAST(NULL AS INT)         AS leader_pid,
    CAST(10 AS INT)           AS usesysid,
    'glaredb'                 AS usename,
    CAST(NULL AS TEXT)        AS application_name,
    CAST(NULL AS TEXT)        AS client_addr,
    CAST(NULL AS TEXT)        AS client_hostname,
    CAST(NULL AS INT)         AS client_port,
    CAST(NULL AS TIMESTAMP)   AS backend_start,
    CAST(NULL AS TIMESTAMP)   AS xact_start,
    CAST(NULL AS TIMESTAMP)   AS query_start,
    CAST(NULL AS TIMESTAMP)   AS state_change,
    CAST(NULL AS TEXT)        AS wait_event_type,
    CAST(NULL AS TEXT)        AS wait_event,
    'active'                  AS state,
    CAST(NULL AS BIGINT)      AS backend_xid,
    CAST(NULL AS BIGINT)      AS backend_xmin,
    CAST(NULL AS BIGINT)      AS query_id,
    CAST('' AS TEXT)          AS query,
    'client backend'          AS backend_type";

pub const PG_STAT_USER_INDEXES_SQL: &'static str = "
SELECT
    CAST(NULL AS INT)     AS relid,
    CAST(NULL AS INT)     AS indexrelid,
    CAST(NULL AS TEXT)    AS schemaname,
    CAST(NULL AS TEXT)    AS relname,
    CAST(NULL AS TEXT)    AS indexrelname,
    CAST(NULL AS BIGINT)  AS idx_scan,
    CAST(NULL AS BIGINT)  AS idx_tup_read,
    CAST(NULL AS BIGINT)  AS idx_tup_fetch
FROM (VALUES (1)) WHERE false";

pub const PG_STAT_USER_TABLES_SQL: &'static str = "
SELECT
    CAST(NULL AS INT)     AS relid,
    CAST(NULL AS TEXT)    AS schemaname,
    CAST(NULL AS TEXT)    AS relname,
    CAST(NULL AS BIGINT)  AS seq_scan,
    CAST(NULL AS BIGINT)  AS seq_tup_read,
    CAST(NULL AS BIGINT)  AS idx_scan,
    CAST(NULL AS BIGINT)  AS idx_tup_fetch,
    CAST(NULL AS BIGINT)  AS n_tup_ins,
    CAST(NULL AS BIGINT)  AS n_tup_upd,
    CAST(NULL AS BIGINT)  AS n_tup_del,
    CAST(NULL AS BIGINT)  AS n_tup_hot_upd,
    CAST(NULL AS BIGINT)  AS n_live_tup,
    CAST(NULL AS BIGINT)  AS n_dead_tup,
    CAST(NULL AS BIGINT)  AS n_mod_since_analyze,
    CAST(NULL AS BIGINT)  AS n_ins_since_vacuum,
    CAST(NULL AS TIMESTAMP) AS last_vacuum,
    CAST(NULL AS TIMESTAMP) AS last_autovacuum,
    CAST(NULL AS TIMESTAMP) AS last_analyze,
    CAST(NULL AS TIMESTAMP) AS last_autoanalyze,
    CAST(NULL AS BIGINT)  AS vacuum_count,
    CAST(NULL AS BIGINT)  AS autovacuum_count,
    CAST(NULL AS BIGINT)  AS analyze_count,
    CAST(NULL AS BIGINT)  AS autoanalyze_count
FROM (VALUES (1)) WHERE false";

pub const PG_STATIO_USER_TABLES_SQL: &'static str = "
SELECT
    CAST(NULL AS INT)     AS relid,
    CAST(NULL AS TEXT)    AS schemaname,
    CAST(NULL AS TEXT)    AS relname,
    CAST(NULL AS BIGINT)  AS heap_blks_read,
    CAST(NULL AS BIGINT)  AS heap_blks_hit,
    CAST(NULL AS BIGINT)  AS idx_blks_read,
    CAST(NULL AS BIGINT)  AS idx_blks_hit,
    CAST(NULL AS BIGINT)  AS toast_blks_read,
    CAST(NULL AS BIGINT)  AS toast_blks_hit,
    CAST(NULL AS BIGINT)  AS tidx_blks_read,
    CAST(NULL AS BIGINT)  AS tidx_blks_hit
FROM (VALUES (1)) WHERE false";

pub const PG_STATS_SQL: &'static str = "
SELECT
    CAST(NULL AS TEXT)     AS schemaname,
    CAST(NULL AS TEXT)     AS tablename,
    CAST(NULL AS TEXT)     AS attname,
    CAST(NULL AS BOOLEAN)  AS inherited,
    CAST(NULL AS REAL)     AS null_frac,
    CAST(NULL AS INT)      AS avg_width,
    CAST(NULL AS REAL)     AS n_distinct,
    CAST(NULL AS TEXT)     AS most_common_vals,
    CAST(NULL AS TEXT)     AS most_common_freqs,
    CAST(NULL AS TEXT)     AS histogram_bounds,
    CAST(NULL AS REAL)     AS correlation,
    CAST(NULL AS TEXT)     AS most_common_elems,
    CAST(NULL AS TEXT)     AS most_common_elem_freqs,
    CAST(NULL AS TEXT)     AS elem_count_histogram
FROM (VALUES (1)) WHERE false";

pub const PG_SUBSCRIPTION_SQL: &'static str = "
SELECT
    CAST(NULL AS INT)     AS oid,
    CAST(NULL AS INT)     AS subdbid,
    CAST(NULL AS TEXT)    AS subname,
    CAST(NULL AS INT)     AS subowner,
    CAST(NULL AS BOOLEAN) AS subenabled,
    CAST(NULL AS TEXT)    AS subconninfo,
    CAST(NULL AS TEXT)    AS subslotname,
    CAST(NULL AS TEXT)    AS subsynccommit,
    CAST(NULL AS INT)     AS subpublications
FROM (VALUES (1)) WHERE false";

pub const PG_TABLES_SQL: &'static str = "
SELECT
    schema_name        AS schemaname,
    table_name         AS tablename,
    CAST('' AS TEXT)   AS tableowner,
    CAST('' AS TEXT)   AS tablespace,
    false              AS hasindexes,
    false              AS hasrules,
    false              AS hastriggers,
    false              AS rowsecurity
FROM glare_catalog.tables";

pub const PG_TABLESPACE_SQL: &'static str = "
SELECT * FROM (VALUES
    (CAST(1663 AS INT), 'pg_default', CAST(10 AS INT), CAST(NULL AS TEXT), CAST(NULL AS TEXT)),
    (CAST(1664 AS INT), 'pg_global',  CAST(10 AS INT), CAST(NULL AS TEXT), CAST(NULL AS TEXT))
) AS t(oid, spcname, spcowner, spcacl, spcoptions)";

pub const PG_TIMEZONE_ABBREVS_SQL: &'static str = "
SELECT
    CAST(NULL AS TEXT)     AS abbrev,
    CAST(NULL AS INTERVAL) AS utc_offset,
    CAST(NULL AS BOOLEAN)  AS is_dst
FROM (VALUES (1)) WHERE false";

pub const PG_TIMEZONE_NAMES_SQL: &'static str = "
SELECT
    CAST(NULL AS TEXT)     AS name,
    CAST(NULL AS TEXT)     AS abbrev,
    CAST(NULL AS INTERVAL) AS utc_offset,
    CAST(NULL AS BOOLEAN)  AS is_dst
FROM (VALUES (1)) WHERE false";

pub const PG_TRIGGER_SQL: &'static str = "
SELECT
    CAST(NULL AS INT)      AS oid,
    CAST(NULL AS INT)      AS tgrelid,
    CAST(NULL AS INT)      AS tgparentid,
    CAST(NULL AS TEXT)     AS tgname,
    CAST(NULL AS INT)      AS tgfoid,
    CAST(NULL AS SMALLINT) AS tgtype,
    CAST(NULL AS TEXT)     AS tgenabled,
    CAST(NULL AS BOOLEAN)  AS tgisinternal,
    CAST(NULL AS INT)      AS tgconstrrelid,
    CAST(NULL AS INT)      AS tgconstrindid,
    CAST(NULL AS INT)      AS tgconstraint,
    CAST(NULL AS BOOLEAN)  AS tgdeferrable,
    CAST(NULL AS BOOLEAN)  AS tginitdeferred,
    CAST(NULL AS SMALLINT) AS tgnargs,
    CAST(NULL AS TEXT)     AS tgattr,
    CAST(NULL AS TEXT)     AS tgargs,
    CAST(NULL AS TEXT)     AS tgqual,
    CAST(NULL AS TEXT)     AS tgoldtable,
    CAST(NULL AS TEXT)     AS tgnewtable
FROM (VALUES (1)) WHERE false";

pub const PG_TYPE_SQL: &'static str = "
SELECT t.*,
    CAST(0 AS INT)     AS typsubscript,
    CAST(0 AS INT)     AS typinput,
    CAST(0 AS INT)     AS typoutput,
    CAST(0 AS INT)     AS typreceive,
    CAST(0 AS INT)     AS typsend,
    CAST(0 AS INT)     AS typmodin,
    CAST(0 AS INT)     AS typmodout,
    CAST(0 AS INT)     AS typanalyze,
    CAST(0 AS INT)     AS typndims,
    CAST(NULL AS TEXT) AS typdefaultbin,
    CAST(NULL AS TEXT) AS typacl
FROM (
SELECT * FROM (VALUES
    -- (oid, typname, typnamespace, typlen, typbyval, typtype, typcategory, typispreferred, typisdefined, typdelim, typrelid, typelem, typarray, typalign, typstorage, typnotnull, typbasetype, typtypmod, typowner, typdefault, typcollation)
    (CAST(16 AS INT),   'bool',         CAST(11 AS INT), CAST(1 AS SMALLINT),  true,  'b', 'B', true,  true, ',', CAST(0 AS INT), CAST(0 AS INT),    CAST(1000 AS INT), 'c', 'p', false, CAST(0 AS INT), CAST(-1 AS INT), CAST(10 AS INT), CAST(NULL AS TEXT), CAST(0 AS INT)),
    (CAST(17 AS INT),   'bytea',        CAST(11 AS INT), CAST(-1 AS SMALLINT), false, 'b', 'U', false, true, ',', CAST(0 AS INT), CAST(0 AS INT),    CAST(1001 AS INT), 'i', 'x', false, CAST(0 AS INT), CAST(-1 AS INT), CAST(10 AS INT), CAST(NULL AS TEXT), CAST(0 AS INT)),
    (CAST(18 AS INT),   'char',         CAST(11 AS INT), CAST(1 AS SMALLINT),  true,  'b', 'S', false, true, ',', CAST(0 AS INT), CAST(0 AS INT),    CAST(1002 AS INT), 'c', 'p', false, CAST(0 AS INT), CAST(-1 AS INT), CAST(10 AS INT), CAST(NULL AS TEXT), CAST(0 AS INT)),
    (CAST(19 AS INT),   'name',         CAST(11 AS INT), CAST(64 AS SMALLINT), false, 'b', 'S', false, true, ',', CAST(0 AS INT), CAST(18 AS INT),   CAST(1003 AS INT), 'c', 'p', false, CAST(0 AS INT), CAST(-1 AS INT), CAST(10 AS INT), CAST(NULL AS TEXT), CAST(950 AS INT)),
    (CAST(20 AS INT),   'int8',         CAST(11 AS INT), CAST(8 AS SMALLINT),  true,  'b', 'N', false, true, ',', CAST(0 AS INT), CAST(0 AS INT),    CAST(1016 AS INT), 'd', 'p', false, CAST(0 AS INT), CAST(-1 AS INT), CAST(10 AS INT), CAST(NULL AS TEXT), CAST(0 AS INT)),
    (CAST(21 AS INT),   'int2',         CAST(11 AS INT), CAST(2 AS SMALLINT),  true,  'b', 'N', false, true, ',', CAST(0 AS INT), CAST(0 AS INT),    CAST(1005 AS INT), 's', 'p', false, CAST(0 AS INT), CAST(-1 AS INT), CAST(10 AS INT), CAST(NULL AS TEXT), CAST(0 AS INT)),
    (CAST(23 AS INT),   'int4',         CAST(11 AS INT), CAST(4 AS SMALLINT),  true,  'b', 'N', false, true, ',', CAST(0 AS INT), CAST(0 AS INT),    CAST(1007 AS INT), 'i', 'p', false, CAST(0 AS INT), CAST(-1 AS INT), CAST(10 AS INT), CAST(NULL AS TEXT), CAST(0 AS INT)),
    (CAST(25 AS INT),   'text',         CAST(11 AS INT), CAST(-1 AS SMALLINT), false, 'b', 'S', true,  true, ',', CAST(0 AS INT), CAST(0 AS INT),    CAST(1009 AS INT), 'i', 'x', false, CAST(0 AS INT), CAST(-1 AS INT), CAST(10 AS INT), CAST(NULL AS TEXT), CAST(100 AS INT)),
    (CAST(26 AS INT),   'oid',          CAST(11 AS INT), CAST(4 AS SMALLINT),  true,  'b', 'N', true,  true, ',', CAST(0 AS INT), CAST(0 AS INT),    CAST(1028 AS INT), 'i', 'p', false, CAST(0 AS INT), CAST(-1 AS INT), CAST(10 AS INT), CAST(NULL AS TEXT), CAST(0 AS INT)),
    (CAST(114 AS INT),  'json',         CAST(11 AS INT), CAST(-1 AS SMALLINT), false, 'b', 'U', false, true, ',', CAST(0 AS INT), CAST(0 AS INT),    CAST(199 AS INT),  'i', 'x', false, CAST(0 AS INT), CAST(-1 AS INT), CAST(10 AS INT), CAST(NULL AS TEXT), CAST(0 AS INT)),
    (CAST(700 AS INT),  'float4',       CAST(11 AS INT), CAST(4 AS SMALLINT),  true,  'b', 'N', false, true, ',', CAST(0 AS INT), CAST(0 AS INT),    CAST(1021 AS INT), 'i', 'p', false, CAST(0 AS INT), CAST(-1 AS INT), CAST(10 AS INT), CAST(NULL AS TEXT), CAST(0 AS INT)),
    (CAST(701 AS INT),  'float8',       CAST(11 AS INT), CAST(8 AS SMALLINT),  true,  'b', 'N', true,  true, ',', CAST(0 AS INT), CAST(0 AS INT),    CAST(1022 AS INT), 'd', 'p', false, CAST(0 AS INT), CAST(-1 AS INT), CAST(10 AS INT), CAST(NULL AS TEXT), CAST(0 AS INT)),
    (CAST(1042 AS INT), 'bpchar',       CAST(11 AS INT), CAST(-1 AS SMALLINT), false, 'b', 'S', false, true, ',', CAST(0 AS INT), CAST(0 AS INT),    CAST(1014 AS INT), 'i', 'x', false, CAST(0 AS INT), CAST(-1 AS INT), CAST(10 AS INT), CAST(NULL AS TEXT), CAST(100 AS INT)),
    (CAST(1043 AS INT), 'varchar',      CAST(11 AS INT), CAST(-1 AS SMALLINT), false, 'b', 'S', false, true, ',', CAST(0 AS INT), CAST(0 AS INT),    CAST(1015 AS INT), 'i', 'x', false, CAST(0 AS INT), CAST(-1 AS INT), CAST(10 AS INT), CAST(NULL AS TEXT), CAST(100 AS INT)),
    (CAST(1082 AS INT), 'date',         CAST(11 AS INT), CAST(4 AS SMALLINT),  true,  'b', 'D', false, true, ',', CAST(0 AS INT), CAST(0 AS INT),    CAST(1182 AS INT), 'i', 'p', false, CAST(0 AS INT), CAST(-1 AS INT), CAST(10 AS INT), CAST(NULL AS TEXT), CAST(0 AS INT)),
    (CAST(1083 AS INT), 'time',         CAST(11 AS INT), CAST(8 AS SMALLINT),  true,  'b', 'D', false, true, ',', CAST(0 AS INT), CAST(0 AS INT),    CAST(1183 AS INT), 'd', 'p', false, CAST(0 AS INT), CAST(-1 AS INT), CAST(10 AS INT), CAST(NULL AS TEXT), CAST(0 AS INT)),
    (CAST(1114 AS INT), 'timestamp',    CAST(11 AS INT), CAST(8 AS SMALLINT),  true,  'b', 'D', false, true, ',', CAST(0 AS INT), CAST(0 AS INT),    CAST(1115 AS INT), 'd', 'p', false, CAST(0 AS INT), CAST(-1 AS INT), CAST(10 AS INT), CAST(NULL AS TEXT), CAST(0 AS INT)),
    (CAST(1184 AS INT), 'timestamptz',  CAST(11 AS INT), CAST(8 AS SMALLINT),  true,  'b', 'D', true,  true, ',', CAST(0 AS INT), CAST(0 AS INT),    CAST(1185 AS INT), 'd', 'p', false, CAST(0 AS INT), CAST(-1 AS INT), CAST(10 AS INT), CAST(NULL AS TEXT), CAST(0 AS INT)),
    (CAST(1186 AS INT), 'interval',     CAST(11 AS INT), CAST(16 AS SMALLINT), false, 'b', 'T', true,  true, ',', CAST(0 AS INT), CAST(0 AS INT),    CAST(1187 AS INT), 'd', 'p', false, CAST(0 AS INT), CAST(-1 AS INT), CAST(10 AS INT), CAST(NULL AS TEXT), CAST(0 AS INT)),
    (CAST(1700 AS INT), 'numeric',      CAST(11 AS INT), CAST(-1 AS SMALLINT), false, 'b', 'N', false, true, ',', CAST(0 AS INT), CAST(0 AS INT),    CAST(1231 AS INT), 'i', 'm', false, CAST(0 AS INT), CAST(-1 AS INT), CAST(10 AS INT), CAST(NULL AS TEXT), CAST(0 AS INT)),
    (CAST(2205 AS INT), 'regclass',     CAST(11 AS INT), CAST(4 AS SMALLINT),  true,  'b', 'N', false, true, ',', CAST(0 AS INT), CAST(0 AS INT),    CAST(2210 AS INT), 'i', 'p', false, CAST(0 AS INT), CAST(-1 AS INT), CAST(10 AS INT), CAST(NULL AS TEXT), CAST(0 AS INT)),
    (CAST(2206 AS INT), 'regtype',      CAST(11 AS INT), CAST(4 AS SMALLINT),  true,  'b', 'N', false, true, ',', CAST(0 AS INT), CAST(0 AS INT),    CAST(2211 AS INT), 'i', 'p', false, CAST(0 AS INT), CAST(-1 AS INT), CAST(10 AS INT), CAST(NULL AS TEXT), CAST(0 AS INT)),
    (CAST(2249 AS INT), 'record',       CAST(11 AS INT), CAST(-1 AS SMALLINT), false, 'p', 'P', false, true, ',', CAST(0 AS INT), CAST(0 AS INT),    CAST(2287 AS INT), 'd', 'x', false, CAST(0 AS INT), CAST(-1 AS INT), CAST(10 AS INT), CAST(NULL AS TEXT), CAST(0 AS INT)),
    (CAST(2278 AS INT), 'void',         CAST(11 AS INT), CAST(4 AS SMALLINT),  true,  'p', 'P', false, true, ',', CAST(0 AS INT), CAST(0 AS INT),    CAST(0 AS INT),    'i', 'p', false, CAST(0 AS INT), CAST(-1 AS INT), CAST(10 AS INT), CAST(NULL AS TEXT), CAST(0 AS INT)),
    (CAST(2950 AS INT), 'uuid',         CAST(11 AS INT), CAST(16 AS SMALLINT), false, 'b', 'U', false, true, ',', CAST(0 AS INT), CAST(0 AS INT),    CAST(2951 AS INT), 'c', 'p', false, CAST(0 AS INT), CAST(-1 AS INT), CAST(10 AS INT), CAST(NULL AS TEXT), CAST(0 AS INT)),
    (CAST(3802 AS INT), 'jsonb',        CAST(11 AS INT), CAST(-1 AS SMALLINT), false, 'b', 'U', true,  true, ',', CAST(0 AS INT), CAST(0 AS INT),    CAST(3807 AS INT), 'i', 'x', false, CAST(0 AS INT), CAST(-1 AS INT), CAST(10 AS INT), CAST(NULL AS TEXT), CAST(0 AS INT)),
    -- arrays
    (CAST(1000 AS INT), '_bool',        CAST(11 AS INT), CAST(-1 AS SMALLINT), false, 'b', 'A', false, true, ',', CAST(0 AS INT), CAST(16 AS INT),   CAST(0 AS INT),    'i', 'x', false, CAST(0 AS INT), CAST(-1 AS INT), CAST(10 AS INT), CAST(NULL AS TEXT), CAST(0 AS INT)),
    (CAST(1005 AS INT), '_int2',        CAST(11 AS INT), CAST(-1 AS SMALLINT), false, 'b', 'A', false, true, ',', CAST(0 AS INT), CAST(21 AS INT),   CAST(0 AS INT),    'i', 'x', false, CAST(0 AS INT), CAST(-1 AS INT), CAST(10 AS INT), CAST(NULL AS TEXT), CAST(0 AS INT)),
    (CAST(1007 AS INT), '_int4',        CAST(11 AS INT), CAST(-1 AS SMALLINT), false, 'b', 'A', false, true, ',', CAST(0 AS INT), CAST(23 AS INT),   CAST(0 AS INT),    'i', 'x', false, CAST(0 AS INT), CAST(-1 AS INT), CAST(10 AS INT), CAST(NULL AS TEXT), CAST(0 AS INT)),
    (CAST(1009 AS INT), '_text',        CAST(11 AS INT), CAST(-1 AS SMALLINT), false, 'b', 'A', false, true, ',', CAST(0 AS INT), CAST(25 AS INT),   CAST(0 AS INT),    'i', 'x', false, CAST(0 AS INT), CAST(-1 AS INT), CAST(10 AS INT), CAST(NULL AS TEXT), CAST(100 AS INT)),
    (CAST(1014 AS INT), '_bpchar',      CAST(11 AS INT), CAST(-1 AS SMALLINT), false, 'b', 'A', false, true, ',', CAST(0 AS INT), CAST(1042 AS INT), CAST(0 AS INT),    'i', 'x', false, CAST(0 AS INT), CAST(-1 AS INT), CAST(10 AS INT), CAST(NULL AS TEXT), CAST(100 AS INT)),
    (CAST(1015 AS INT), '_varchar',     CAST(11 AS INT), CAST(-1 AS SMALLINT), false, 'b', 'A', false, true, ',', CAST(0 AS INT), CAST(1043 AS INT), CAST(0 AS INT),    'i', 'x', false, CAST(0 AS INT), CAST(-1 AS INT), CAST(10 AS INT), CAST(NULL AS TEXT), CAST(100 AS INT)),
    (CAST(1016 AS INT), '_int8',        CAST(11 AS INT), CAST(-1 AS SMALLINT), false, 'b', 'A', false, true, ',', CAST(0 AS INT), CAST(20 AS INT),   CAST(0 AS INT),    'd', 'x', false, CAST(0 AS INT), CAST(-1 AS INT), CAST(10 AS INT), CAST(NULL AS TEXT), CAST(0 AS INT)),
    (CAST(1021 AS INT), '_float4',      CAST(11 AS INT), CAST(-1 AS SMALLINT), false, 'b', 'A', false, true, ',', CAST(0 AS INT), CAST(700 AS INT),  CAST(0 AS INT),    'i', 'x', false, CAST(0 AS INT), CAST(-1 AS INT), CAST(10 AS INT), CAST(NULL AS TEXT), CAST(0 AS INT)),
    (CAST(1022 AS INT), '_float8',      CAST(11 AS INT), CAST(-1 AS SMALLINT), false, 'b', 'A', false, true, ',', CAST(0 AS INT), CAST(701 AS INT),  CAST(0 AS INT),    'd', 'x', false, CAST(0 AS INT), CAST(-1 AS INT), CAST(10 AS INT), CAST(NULL AS TEXT), CAST(0 AS INT)),
    (CAST(1115 AS INT), '_timestamp',   CAST(11 AS INT), CAST(-1 AS SMALLINT), false, 'b', 'A', false, true, ',', CAST(0 AS INT), CAST(1114 AS INT), CAST(0 AS INT),    'd', 'x', false, CAST(0 AS INT), CAST(-1 AS INT), CAST(10 AS INT), CAST(NULL AS TEXT), CAST(0 AS INT)),
    (CAST(1185 AS INT), '_timestamptz', CAST(11 AS INT), CAST(-1 AS SMALLINT), false, 'b', 'A', false, true, ',', CAST(0 AS INT), CAST(1184 AS INT), CAST(0 AS INT),    'd', 'x', false, CAST(0 AS INT), CAST(-1 AS INT), CAST(10 AS INT), CAST(NULL AS TEXT), CAST(0 AS INT)),
    (CAST(1182 AS INT), '_date',        CAST(11 AS INT), CAST(-1 AS SMALLINT), false, 'b', 'A', false, true, ',', CAST(0 AS INT), CAST(1082 AS INT), CAST(0 AS INT),    'i', 'x', false, CAST(0 AS INT), CAST(-1 AS INT), CAST(10 AS INT), CAST(NULL AS TEXT), CAST(0 AS INT)),
    (CAST(1183 AS INT), '_time',        CAST(11 AS INT), CAST(-1 AS SMALLINT), false, 'b', 'A', false, true, ',', CAST(0 AS INT), CAST(1083 AS INT), CAST(0 AS INT),    'd', 'x', false, CAST(0 AS INT), CAST(-1 AS INT), CAST(10 AS INT), CAST(NULL AS TEXT), CAST(0 AS INT)),
    (CAST(1187 AS INT), '_interval',    CAST(11 AS INT), CAST(-1 AS SMALLINT), false, 'b', 'A', false, true, ',', CAST(0 AS INT), CAST(1186 AS INT), CAST(0 AS INT),    'd', 'x', false, CAST(0 AS INT), CAST(-1 AS INT), CAST(10 AS INT), CAST(NULL AS TEXT), CAST(0 AS INT)),
    (CAST(1231 AS INT), '_numeric',     CAST(11 AS INT), CAST(-1 AS SMALLINT), false, 'b', 'A', false, true, ',', CAST(0 AS INT), CAST(1700 AS INT), CAST(0 AS INT),    'i', 'x', false, CAST(0 AS INT), CAST(-1 AS INT), CAST(10 AS INT), CAST(NULL AS TEXT), CAST(0 AS INT)),
    (CAST(1028 AS INT), '_oid',         CAST(11 AS INT), CAST(-1 AS SMALLINT), false, 'b', 'A', false, true, ',', CAST(0 AS INT), CAST(26 AS INT),   CAST(0 AS INT),    'i', 'x', false, CAST(0 AS INT), CAST(-1 AS INT), CAST(10 AS INT), CAST(NULL AS TEXT), CAST(0 AS INT)),
    (CAST(199 AS INT),  '_json',        CAST(11 AS INT), CAST(-1 AS SMALLINT), false, 'b', 'A', false, true, ',', CAST(0 AS INT), CAST(114 AS INT),  CAST(0 AS INT),    'i', 'x', false, CAST(0 AS INT), CAST(-1 AS INT), CAST(10 AS INT), CAST(NULL AS TEXT), CAST(0 AS INT)),
    (CAST(2951 AS INT), '_uuid',        CAST(11 AS INT), CAST(-1 AS SMALLINT), false, 'b', 'A', false, true, ',', CAST(0 AS INT), CAST(2950 AS INT), CAST(0 AS INT),    'i', 'x', false, CAST(0 AS INT), CAST(-1 AS INT), CAST(10 AS INT), CAST(NULL AS TEXT), CAST(0 AS INT)),
    (CAST(3807 AS INT), '_jsonb',       CAST(11 AS INT), CAST(-1 AS SMALLINT), false, 'b', 'A', false, true, ',', CAST(0 AS INT), CAST(3802 AS INT), CAST(0 AS INT),    'i', 'x', false, CAST(0 AS INT), CAST(-1 AS INT), CAST(10 AS INT), CAST(NULL AS TEXT), CAST(0 AS INT))
) AS t(oid, typname, typnamespace, typlen, typbyval, typtype, typcategory, typispreferred, typisdefined, typdelim, typrelid, typelem, typarray, typalign, typstorage, typnotnull, typbasetype, typtypmod, typowner, typdefault, typcollation)
) AS t";

pub const PG_USER_SQL: &'static str = "
SELECT
    rolname                AS usename,
    oid                    AS usesysid,
    rolcreatedb            AS usecreatedb,
    rolsuper               AS usesuper,
    rolreplication         AS userepl,
    rolbypassrls           AS usebypassrls,
    CAST('********' AS TEXT) AS passwd,
    CAST(NULL AS TIMESTAMP) AS valuntil,
    CAST(NULL AS TEXT)     AS useconfig
FROM pg_catalog.pg_authid
WHERE rolcanlogin = true";

pub const PG_USER_MAPPINGS_SQL: &'static str = "
SELECT
    CAST(NULL AS INT)     AS umid,
    CAST(NULL AS INT)     AS srvid,
    CAST(NULL AS TEXT)    AS srvname,
    CAST(NULL AS INT)     AS umuser,
    CAST(NULL AS TEXT)    AS usename,
    CAST(NULL AS TEXT)    AS umoptions
FROM (VALUES (1)) WHERE false";

pub const PG_VIEWS_SQL: &'static str = "
SELECT
    schema_name        AS schemaname,
    view_name          AS viewname,
    CAST('' AS TEXT)   AS viewowner,
    sql                AS definition
FROM glare_catalog.views";

/// Number of builtin views.
pub open spec fn views_len() -> int {
    68
}

/// Builtin view `i`.
pub open spec fn view_row(i: int) -> BuiltinView {
    if i == 0 {
        BuiltinView { schema: INTERNAL_SCHEMA, name: "external_datasources", sql: GLARE_EXTERNAL_DATASOURCES_SQL }
    } else if i == 1 {
        BuiltinView { schema: INFORMATION_SCHEMA, name: "schemata", sql: INFORMATION_SCHEMA_SCHEMATA_SQL }
    } else if i == 2 {
        BuiltinView { schema: INFORMATION_SCHEMA, name: "tables", sql: INFORMATION_SCHEMA_TABLES_SQL }
    } else if i == 3 {
        BuiltinView { schema: INFORMATION_SCHEMA, name: "columns", sql: INFORMATION_SCHEMA_COLUMNS_SQL }
    } else if i == 4 {
        BuiltinView { schema: POSTGRES_SCHEMA, name: "pg_am", sql: PG_AM_SQL }
    } else if i == 5 {
        BuiltinView { schema: POSTGRES_SCHEMA, name: "pg_attribute", sql: PG_ATTRIBUTE_SQL }
    } else if i == 6 {
        BuiltinView { schema: POSTGRES_SCHEMA, name: "pg_attrdef", sql: PG_ATTRDEF_SQL }
    } else if i == 7 {
        BuiltinView { schema: POSTGRES_SCHEMA, name: "pg_authid", sql: PG_AUTHID_SQL }
    } else if i == 8 {
        BuiltinView { schema: POSTGRES_SCHEMA, name: "pg_available_extensions", sql: PG_AVAILABLE_EXTENSIONS_SQL }
    } else if i == 9 {
        BuiltinView { schema: POSTGRES_SCHEMA, name: "pg_aggregate", sql: PG_AGGREGATE_SQL }
    } else if i == 10 {
        BuiltinView { schema: POSTGRES_SCHEMA, name: "pg_class", sql: PG_CLASS_SQL }
    } else if i == 11 {
        BuiltinView { schema: POSTGRES_SCHEMA, name: "pg_collation", sql: PG_COLLATION_SQL }
    } else if i == 12 {
        BuiltinView { schema: POSTGRES_SCHEMA, name: "pg_constraint", sql: PG_CONSTRAINT_SQL }
    } else if i == 13 {
        BuiltinView { schema: POSTGRES_SCHEMA, name: "pg_conversion", sql: PG_CONVERSION_SQL }
    } else if i == 14 {
        BuiltinView { schema: POSTGRES_SCHEMA, name: "pg_database", sql: PG_DATABASE_SQL }
    } else if i == 15 {
        BuiltinView { schema: POSTGRES_SCHEMA, name: "pg_default_acl", sql: PG_DEFAULT_ACL_SQL }
    } else if i == 16 {
        BuiltinView { schema: POSTGRES_SCHEMA, name: "pg_depend", sql: PG_DEPEND_SQL }
    } else if i == 17 {
        BuiltinView { schema: POSTGRES_SCHEMA, name: "pg_description", sql: PG_DESCRIPTION_SQL }
    } else if i == 18 {
        BuiltinView { schema: POSTGRES_SCHEMA, name: "pg_enum", sql: PG_ENUM_SQL }
    } else if i == 19 {
        BuiltinView { schema: POSTGRES_SCHEMA, name: "pg_event_trigger", sql: PG_EVENT_TRIGGER_SQL }
    } else if i == 20 {
        BuiltinView { schema: POSTGRES_SCHEMA, name: "pg_extension", sql: PG_EXTENSION_SQL }
    } else if i == 21 {
        BuiltinView { schema: POSTGRES_SCHEMA, name: "pg_foreign_data_wrapper", sql: PG_FOREIGN_DATA_WRAPPER_SQL }
    } else if i == 22 {
        BuiltinView { schema: POSTGRES_SCHEMA, name: "pg_foreign_server", sql: PG_FOREIGN_SERVER_SQL }
    } else if i == 23 {
        BuiltinView { schema: POSTGRES_SCHEMA, name: "pg_index", sql: PG_INDEX_SQL }
    } else if i == 24 {
        BuiltinView { schema: POSTGRES_SCHEMA, name: "pg_inherits", sql: PG_INHERITS_SQL }
    } else if i == 25 {
        BuiltinView { schema: POSTGRES_SCHEMA, name: "pg_language", sql: PG_LANGUAGE_SQL }
    } else if i == 26 {
        BuiltinView { schema: POSTGRES_SCHEMA, name: "pg_matviews", sql: PG_MATVIEWS_SQL }
    } else if i == 27 {
        BuiltinView { schema: POSTGRES_SCHEMA, name: "pg_namespace", sql: PG_NAMESPACE_SQL }
    } else if i == 28 {
        BuiltinView { schema: POSTGRES_SCHEMA, name: "pg_partitioned_table", sql: PG_PARTITIONED_TABLE_SQL }
    } else if i == 29 {
        BuiltinView { schema: POSTGRES_SCHEMA, name: "pg_proc", sql: PG_PROC_SQL }
    } else if i == 30 {
        BuiltinView { schema: POSTGRES_SCHEMA, name: "pg_cursors", sql: PG_CURSORS_SQL }
    } else if i == 31 {
        BuiltinView { schema: POSTGRES_SCHEMA, name: "pg_group", sql: PG_GROUP_SQL }
    } else if i == 32 {
        BuiltinView { schema: POSTGRES_SCHEMA, name: "pg_indexes", sql: PG_INDEXES_SQL }
    } else if i == 33 {
        BuiltinView { schema: POSTGRES_SCHEMA, name: "pg_init_privs", sql: PG_INIT_PRIVS_SQL }
    } else if i == 34 {
        BuiltinView { schema: POSTGRES_SCHEMA, name: "pg_largeobject", sql: PG_LARGEOBJECT_SQL }
    } else if i == 35 {
        BuiltinView { schema: POSTGRES_SCHEMA, name: "pg_largeobject_metadata", sql: PG_LARGEOBJECT_METADATA_SQL }
    } else if i == 36 {
        BuiltinView { schema: POSTGRES_SCHEMA, name: "pg_locks", sql: PG_LOCKS_SQL }
    } else if i == 37 {
        BuiltinView { schema: POSTGRES_SCHEMA, name: "pg_policies", sql: PG_POLICIES_SQL }
    } else if i == 38 {
        BuiltinView { schema: POSTGRES_SCHEMA, name: "pg_policy", sql: PG_POLICY_SQL }
    } else if i == 39 {
        BuiltinView { schema: POSTGRES_SCHEMA, name: "pg_prepared_statements", sql: PG_PREPARED_STATEMENTS_SQL }
    } else if i == 40 {
        BuiltinView { schema: POSTGRES_SCHEMA, name: "pg_publication", sql: PG_PUBLICATION_SQL }
    } else if i == 41 {
        BuiltinView { schema: POSTGRES_SCHEMA, name: "pg_publication_tables", sql: PG_PUBLICATION_TABLES_SQL }
    } else if i == 42 {
        BuiltinView { schema: POSTGRES_SCHEMA, name: "pg_range", sql: PG_RANGE_SQL }
    } else if i == 43 {
        BuiltinView { schema: POSTGRES_SCHEMA, name: "pg_replication_slots", sql: PG_REPLICATION_SLOTS_SQL }
    } else if i == 44 {
        BuiltinView { schema: POSTGRES_SCHEMA, name: "pg_rewrite", sql: PG_REWRITE_SQL }
    } else if i == 45 {
        BuiltinView { schema: POSTGRES_SCHEMA, name: "pg_roles", sql: PG_ROLES_SQL }
    } else if i == 46 {
        BuiltinView { schema: POSTGRES_SCHEMA, name: "pg_rules", sql: PG_RULES_SQL }
    } else if i == 47 {
        BuiltinView { schema: POSTGRES_SCHEMA, name: "pg_seclabel", sql: PG_SECLABEL_SQL }
    } else if i == 48 {
        BuiltinView { schema: POSTGRES_SCHEMA, name: "pg_sequences", sql: PG_SEQUENCES_SQL }
    } else if i == 49 {
        BuiltinView { schema: POSTGRES_SCHEMA, name: "pg_settings", sql: PG_SETTINGS_SQL }
    } else if i == 50 {
        BuiltinView { schema: POSTGRES_SCHEMA, name: "pg_shadow", sql: PG_SHADOW_SQL }
    } else if i == 51 {
        BuiltinView { schema: POSTGRES_SCHEMA, name: "pg_shdescription", sql: PG_SHDESCRIPTION_SQL }
    } else if i == 52 {
        BuiltinView { schema: POSTGRES_SCHEMA, name: "pg_shseclabel", sql: PG_SHSECLABEL_SQL }
    } else if i == 53 {
        BuiltinView { schema: POSTGRES_SCHEMA, name: "pg_stat_activity", sql: PG_STAT_ACTIVITY_SQL }
    } else if i == 54 {
        BuiltinView { schema: POSTGRES_SCHEMA, name: "pg_stat_user_indexes", sql: PG_STAT_USER_INDEXES_SQL }
    } else if i == 55 {
        BuiltinView { schema: POSTGRES_SCHEMA, name: "pg_stat_user_tables", sql: PG_STAT_USER_TABLES_SQL }
    } else if i == 56 {
        BuiltinView { schema: POSTGRES_SCHEMA, name: "pg_statio_user_tables", sql: PG_STATIO_USER_TABLES_SQL }
    } else if i == 57 {
        BuiltinView { schema: POSTGRES_SCHEMA, name: "pg_stats", sql: PG_STATS_SQL }
    } else if i == 58 {
        BuiltinView { schema: POSTGRES_SCHEMA, name: "pg_subscription", sql: PG_SUBSCRIPTION_SQL }
    } else if i == 59 {
        BuiltinView { schema: POSTGRES_SCHEMA, name: "pg_tables", sql: PG_TABLES_SQL }
    } else if i == 60 {
        BuiltinView { schema: POSTGRES_SCHEMA, name: "pg_tablespace", sql: PG_TABLESPACE_SQL }
    } else if i == 61 {
        BuiltinView { schema: POSTGRES_SCHEMA, name: "pg_timezone_abbrevs", sql: PG_TIMEZONE_ABBREVS_SQL }
    } else if i == 62 {
        BuiltinView { schema: POSTGRES_SCHEMA, name: "pg_timezone_names", sql: PG_TIMEZONE_NAMES_SQL }
    } else if i == 63 {
        BuiltinView { schema: POSTGRES_SCHEMA, name: "pg_trigger", sql: PG_TRIGGER_SQL }
    } else if i == 64 {
        BuiltinView { schema: POSTGRES_SCHEMA, name: "pg_type", sql: PG_TYPE_SQL }
    } else if i == 65 {
        BuiltinView { schema: POSTGRES_SCHEMA, name: "pg_user", sql: PG_USER_SQL }
    } else if i == 66 {
        BuiltinView { schema: POSTGRES_SCHEMA, name: "pg_user_mappings", sql: PG_USER_MAPPINGS_SQL }
    } else {
        BuiltinView { schema: POSTGRES_SCHEMA, name: "pg_views", sql: PG_VIEWS_SQL }
    }
}

/// Builtin view `i`.
fn view_at(i: usize) -> (r: BuiltinView)
    requires
        i < views_len(),
    ensures
        r == view_row(i as int),
{
    if i == 0 {
        BuiltinView { schema: INTERNAL_SCHEMA, name: "external_datasources", sql: GLARE_EXTERNAL_DATASOURCES_SQL }
    } else if i == 1 {
        BuiltinView { schema: INFORMATION_SCHEMA, name: "schemata", sql: INFORMATION_SCHEMA_SCHEMATA_SQL }
    } else if i == 2 {
        BuiltinView { schema: INFORMATION_SCHEMA, name: "tables", sql: INFORMATION_SCHEMA_TABLES_SQL }
    } else if i == 3 {
        BuiltinView { schema: INFORMATION_SCHEMA, name: "columns", sql: INFORMATION_SCHEMA_COLUMNS_SQL }
    } else if i == 4 {
        BuiltinView { schema: POSTGRES_SCHEMA, name: "pg_am", sql: PG_AM_SQL }
    } else if i == 5 {
        BuiltinView { schema: POSTGRES_SCHEMA, name: "pg_attribute", sql: PG_ATTRIBUTE_SQL }
    } else if i == 6 {
        BuiltinView { schema: POSTGRES_SCHEMA, name: "pg_attrdef", sql: PG_ATTRDEF_SQL }
    } else if i == 7 {
        BuiltinView { schema: POSTGRES_SCHEMA, name: "pg_authid", sql: PG_AUTHID_SQL }
    } else if i == 8 {
        BuiltinView { schema: POSTGRES_SCHEMA, name: "pg_available_extensions", sql: PG_AVAILABLE_EXTENSIONS_SQL }
    } else if i == 9 {
        BuiltinView { schema: POSTGRES_SCHEMA, name: "pg_aggregate", sql: PG_AGGREGATE_SQL }
    } else if i == 10 {
        BuiltinView { schema: POSTGRES_SCHEMA, name: "pg_class", sql: PG_CLASS_SQL }
    } else if i == 11 {
        BuiltinView { schema: POSTGRES_SCHEMA, name: "pg_collation", sql: PG_COLLATION_SQL }
    } else if i == 12 {
        BuiltinView { schema: POSTGRES_SCHEMA, name: "pg_constraint", sql: PG_CONSTRAINT_SQL }
    } else if i == 13 {
        BuiltinView { schema: POSTGRES_SCHEMA, name: "pg_conversion", sql: PG_CONVERSION_SQL }
    } else if i == 14 {
        BuiltinView { schema: POSTGRES_SCHEMA, name: "pg_database", sql: PG_DATABASE_SQL }
    } else if i == 15 {
        BuiltinView { schema: POSTGRES_SCHEMA, name: "pg_default_acl", sql: PG_DEFAULT_ACL_SQL }
    } else if i == 16 {
        BuiltinView { schema: POSTGRES_SCHEMA, name: "pg_depend", sql: PG_DEPEND_SQL }
    } else if i == 17 {
        BuiltinView { schema: POSTGRES_SCHEMA, name: "pg_description", sql: PG_DESCRIPTION_SQL }
    } else if i == 18 {
        BuiltinView { schema: POSTGRES_SCHEMA, name: "pg_enum", sql: PG_ENUM_SQL }
    } else if i == 19 {
        BuiltinView { schema: POSTGRES_SCHEMA, name: "pg_event_trigger", sql: PG_EVENT_TRIGGER_SQL }
    } else if i == 20 {
        BuiltinView { schema: POSTGRES_SCHEMA, name: "pg_extension", sql: PG_EXTENSION_SQL }
    } else if i == 21 {
        BuiltinView { schema: POSTGRES_SCHEMA, name: "pg_foreign_data_wrapper", sql: PG_FOREIGN_DATA_WRAPPER_SQL }
    } else if i == 22 {
        BuiltinView { schema: POSTGRES_SCHEMA, name: "pg_foreign_server", sql: PG_FOREIGN_SERVER_SQL }
    } else if i == 23 {
        BuiltinView { schema: POSTGRES_SCHEMA, name: "pg_index", sql: PG_INDEX_SQL }
    } else if i == 24 {
        BuiltinView { schema: POSTGRES_SCHEMA, name: "pg_inherits", sql: PG_INHERITS_SQL }
    } else if i == 25 {
        BuiltinView { schema: POSTGRES_SCHEMA, name: "pg_language", sql: PG_LANGUAGE_SQL }
    } else if i == 26 {
        BuiltinView { schema: POSTGRES_SCHEMA, name: "pg_matviews", sql: PG_MATVIEWS_SQL }
    } else if i == 27 {
        BuiltinView { schema: POSTGRES_SCHEMA, name: "pg_namespace", sql: PG_NAMESPACE_SQL }
    } else if i == 28 {
        BuiltinView { schema: POSTGRES_SCHEMA, name: "pg_partitioned_table", sql: PG_PARTITIONED_TABLE_SQL }
    } else if i == 29 {
        BuiltinView { schema: POSTGRES_SCHEMA, name: "pg_proc", sql: PG_PROC_SQL }
    } else if i == 30 {
        BuiltinView { schema: POSTGRES_SCHEMA, name: "pg_cursors", sql: PG_CURSORS_SQL }
    } else if i == 31 {
        BuiltinView { schema: POSTGRES_SCHEMA, name: "pg_group", sql: PG_GROUP_SQL }
    } else if i == 32 {
        BuiltinView { schema: POSTGRES_SCHEMA, name: "pg_indexes", sql: PG_INDEXES_SQL }
    } else if i == 33 {
        BuiltinView { schema: POSTGRES_SCHEMA, name: "pg_init_privs", sql: PG_INIT_PRIVS_SQL }
    } else if i == 34 {
        BuiltinView { schema: POSTGRES_SCHEMA, name: "pg_largeobject", sql: PG_LARGEOBJECT_SQL }
    } else if i == 35 {
        BuiltinView { schema: POSTGRES_SCHEMA, name: "pg_largeobject_metadata", sql: PG_LARGEOBJECT_METADATA_SQL }
    } else if i == 36 {
        BuiltinView { schema: POSTGRES_SCHEMA, name: "pg_locks", sql: PG_LOCKS_SQL }
    } else if i == 37 {
        BuiltinView { schema: POSTGRES_SCHEMA, name: "pg_policies", sql: PG_POLICIES_SQL }
    } else if i == 38 {
        BuiltinView { schema: POSTGRES_SCHEMA, name: "pg_policy", sql: PG_POLICY_SQL }
    } else if i == 39 {
        BuiltinView { schema: POSTGRES_SCHEMA, name: "pg_prepared_statements", sql: PG_PREPARED_STATEMENTS_SQL }
    } else if i == 40 {
        BuiltinView { schema: POSTGRES_SCHEMA, name: "pg_publication", sql: PG_PUBLICATION_SQL }
    } else if i == 41 {
        BuiltinView { schema: POSTGRES_SCHEMA, name: "pg_publication_tables", sql: PG_PUBLICATION_TABLES_SQL }
    } else if i == 42 {
        BuiltinView { schema: POSTGRES_SCHEMA, name: "pg_range", sql: PG_RANGE_SQL }
    } else if i == 43 {
        BuiltinView { schema: POSTGRES_SCHEMA, name: "pg_replication_slots", sql: PG_REPLICATION_SLOTS_SQL }
    } else if i == 44 {
        BuiltinView { schema: POSTGRES_SCHEMA, name: "pg_rewrite", sql: PG_REWRITE_SQL }
    } else if i == 45 {
        BuiltinView { schema: POSTGRES_SCHEMA, name: "pg_roles", sql: PG_ROLES_SQL }
    } else if i == 46 {
        BuiltinView { schema: POSTGRES_SCHEMA, name: "pg_rules", sql: PG_RULES_SQL }
    } else if i == 47 {
        BuiltinView { schema: POSTGRES_SCHEMA, name: "pg_seclabel", sql: PG_SECLABEL_SQL }
    } else if i == 48 {
        BuiltinView { schema: POSTGRES_SCHEMA, name: "pg_sequences", sql: PG_SEQUENCES_SQL }
    } else if i == 49 {
        BuiltinView { schema: POSTGRES_SCHEMA, name: "pg_settings", sql: PG_SETTINGS_SQL }
    } else if i == 50 {
        BuiltinView { schema: POSTGRES_SCHEMA, name: "pg_shadow", sql: PG_SHADOW_SQL }
    } else if i == 51 {
        BuiltinView { schema: POSTGRES_SCHEMA, name: "pg_shdescription", sql: PG_SHDESCRIPTION_SQL }
    } else if i == 52 {
        BuiltinView { schema: POSTGRES_SCHEMA, name: "pg_shseclabel", sql: PG_SHSECLABEL_SQL }
    } else if i == 53 {
        BuiltinView { schema: POSTGRES_SCHEMA, name: "pg_stat_activity", sql: PG_STAT_ACTIVITY_SQL }
    } else if i == 54 {
        BuiltinView { schema: POSTGRES_SCHEMA, name: "pg_stat_user_indexes", sql: PG_STAT_USER_INDEXES_SQL }
    } else if i == 55 {
        BuiltinView { schema: POSTGRES_SCHEMA, name: "pg_stat_user_tables", sql: PG_STAT_USER_TABLES_SQL }
    } else if i == 56 {
        BuiltinView { schema: POSTGRES_SCHEMA, name: "pg_statio_user_tables", sql: PG_STATIO_USER_TABLES_SQL }
    } else if i == 57 {
        BuiltinView { schema: POSTGRES_SCHEMA, name: "pg_stats", sql: PG_STATS_SQL }
    } else if i == 58 {
        BuiltinView { schema: POSTGRES_SCHEMA, name: "pg_subscription", sql: PG_SUBSCRIPTION_SQL }
    } else if i == 59 {
        BuiltinView { schema: POSTGRES_SCHEMA, name: "pg_tables", sql: PG_TABLES_SQL }
    } else if i == 60 {
        BuiltinView { schema: POSTGRES_SCHEMA, name: "pg_tablespace", sql: PG_TABLESPACE_SQL }
    } else if i == 61 {
        BuiltinView { schema: POSTGRES_SCHEMA, name: "pg_timezone_abbrevs", sql: PG_TIMEZONE_ABBREVS_SQL }
    } else if i == 62 {
        BuiltinView { schema: POSTGRES_SCHEMA, name: "pg_timezone_names", sql: PG_TIMEZONE_NAMES_SQL }
    } else if i == 63 {
        BuiltinView { schema: POSTGRES_SCHEMA, name: "pg_trigger", sql: PG_TRIGGER_SQL }
    } else if i == 64 {
        BuiltinView { schema: POSTGRES_SCHEMA, name: "pg_type", sql: PG_TYPE_SQL }
    } else if i == 65 {
        BuiltinView { schema: POSTGRES_SCHEMA, name: "pg_user", sql: PG_USER_SQL }
    } else if i == 66 {
        BuiltinView { schema: POSTGRES_SCHEMA, name: "pg_user_mappings", sql: PG_USER_MAPPINGS_SQL }
    } else {
        BuiltinView { schema: POSTGRES_SCHEMA, name: "pg_views", sql: PG_VIEWS_SQL }
    }
}

impl BuiltinView {
    /// All builtin views, in catalog order.
    pub fn builtins() -> (v: Vec<BuiltinView>)
        ensures
            v@ == Seq::new(views_len() as nat, |i: int| view_row(i)),
    {
        let mut v: Vec<BuiltinView> = Vec::new();
        let mut i: usize = 0;
        while i < 68
            invariant
                i <= views_len(),
                v@ == Seq::new(i as nat, |j: int| view_row(j)),
            decreases views_len() - i,
        {
            v.push(view_at(i));
            i = i + 1;
            assert(v@ =~= Seq::new(i as nat, |j: int| view_row(j)));
        }
        v
    }
}

} // verus!
