//! The Postgres compatibility functions of `pg_catalog`: their names,
//! descriptions, examples, signatures and namespaces, and the values they
//! compute.
use vstd::prelude::*;

use crate::arrow::{ArrowType, TimeUnit};
use crate::pg_type_oid::{arrow_name_oid, arrow_name_to_pg_oid};

verus! {

/// Where a function is registered.
#[derive(Debug, Clone, Copy)]
pub enum FunctionNamespace {
    /// Under its bare name only.
    Unqualified,
    /// Under its bare name and qualified by the schema.
    Optional(&'static str),
    /// Only qualified by the schema.
    Required(&'static str),
}

#[derive(Debug, Clone, Copy, PartialEq, Eq, Structural)]
pub enum Volatility {
    Immutable,
    Stable,
    Volatile,
}

/// The argument types a function accepts.
#[derive(Debug)]
pub enum TypeSignature {
    /// Exactly these argument types.
    Exact(Vec<ArrowType>),
    /// Any one of these lists of argument types.
    OneOf(Vec<Vec<ArrowType>>),
    /// This many arguments, each of one of these types.
    Uniform(usize, Vec<ArrowType>),
}

#[derive(Debug)]
pub struct Signature {
    pub type_signature: TypeSignature,
    pub volatility: Volatility,
}

/// The argument lists of a `OneOf` signature, as sequences.
pub open spec fn arg_lists(v: Vec<Vec<ArrowType>>) -> Seq<Seq<ArrowType>> {
    v@.map_values(|l: Vec<ArrowType>| l@)
}

/// A value passed to or returned by a function.
#[derive(Debug, Clone)]
pub enum ScalarValue {
    Null,
    Boolean(Option<bool>),
    Int32(Option<i32>),
    Int64(Option<i64>),
    Utf8(Option<String>),
    /// Microseconds since the Unix epoch, and a time zone.
    TimestampMicrosecond(Option<i64>, Option<String>),
}

/// The error of a call with the wrong number of arguments.
pub open spec fn array_to_string_arity_message() -> Seq<char> {
    "array_to_string() takes exactly two or three arguments"@
}

#[derive(Debug, Clone, Copy)]
pub struct PgGetUserById;

impl PgGetUserById {
    pub fn name(&self) -> (r: &'static str)
        ensures
            r@ == "pg_get_userbyid"@,
    {
        "pg_get_userbyid"
    }

    pub fn description(&self) -> (r: &'static str)
        ensures
            r@ == "Postgres `pg_get_userbyid` function"@,
    {
        "Postgres `pg_get_userbyid` function"
    }

    pub fn example(&self) -> (r: &'static str)
        ensures
            r@ == "pg_get_userbyid(1)"@,
    {
        "pg_get_userbyid(1)"
    }

    pub fn signature(&self) -> (r: Option<Signature>)
        ensures
            r matches Some(s) && s.volatility == Volatility::Immutable && (s.type_signature matches TypeSignature::OneOf(v)
                && arg_lists(v) == seq![seq![ArrowType::Int32], seq![ArrowType::Int64]]),
    {
        let a0: Vec<ArrowType> = vec![ArrowType::Int32];
        let a1: Vec<ArrowType> = vec![ArrowType::Int64];
        let v: Vec<Vec<ArrowType>> = vec![a0, a1];
        assert(arg_lists(v)[0] == seq![ArrowType::Int32]);
        assert(arg_lists(v)[1] == seq![ArrowType::Int64]);
        assert(arg_lists(v) =~= seq![seq![ArrowType::Int32], seq![ArrowType::Int64]]);
        Some(Signature { type_signature: TypeSignature::OneOf(v), volatility: Volatility::Immutable })
    }

    pub fn namespace(&self) -> (r: FunctionNamespace)
        ensures
            r matches FunctionNamespace::Optional(s) && s@ == "pg_catalog"@,
    {
        FunctionNamespace::Optional("pg_catalog")
    }

    pub fn return_type(&self) -> (t: ArrowType)
        ensures
            t == ArrowType::Utf8,
    {
        ArrowType::Utf8
    }

    /// The name of the role with this OID: `glaredb` for the single role
    /// (OID 10), `unknown` for any other integer, null for anything else.
    pub fn evaluate(&self, v: &ScalarValue) -> (r: ScalarValue)
        ensures
            match *v {
                ScalarValue::Int64(Some(x)) => r matches ScalarValue::Utf8(Some(s)) && s@ == if x == 10 {
                    "glaredb"@
                } else {
                    "unknown"@
                },
                ScalarValue::Int32(Some(x)) => r matches ScalarValue::Utf8(Some(s)) && s@ == if x == 10 {
                    "glaredb"@
                } else {
                    "unknown"@
                },
                _ => r matches ScalarValue::Utf8(None),
            },
    {
        match v {
            ScalarValue::Int64(Some(x)) => if *x == 10 {
                ScalarValue::Utf8(Some("glaredb".to_owned()))
            } else {
                ScalarValue::Utf8(Some("unknown".to_owned()))
            },
            ScalarValue::Int32(Some(x)) => if *x == 10 {
                ScalarValue::Utf8(Some("glaredb".to_owned()))
            } else {
                ScalarValue::Utf8(Some("unknown".to_owned()))
            },
            _ => ScalarValue::Utf8(None),
        }
    }

}

#[derive(Debug, Clone, Copy)]
pub struct PgTableIsVisible;

impl PgTableIsVisible {
    pub fn name(&self) -> (r: &'static str)
        ensures
            r@ == "pg_table_is_visible"@,
    {
        "pg_table_is_visible"
    }

    pub fn description(&self) -> (r: &'static str)
        ensures
            r@ == "Postgres `pg_table_is_visible` function"@,
    {
        "Postgres `pg_table_is_visible` function"
    }

    pub fn example(&self) -> (r: &'static str)
        ensures
            r@ == "pg_table_is_visible(1)"@,
    {
        "pg_table_is_visible(1)"
    }

    pub fn signature(&self) -> (r: Option<Signature>)
        ensures
            r matches Some(s) && s.volatility == Volatility::Immutable && (s.type_signature matches TypeSignature::Exact(v) && v@ == seq![ArrowType::Int64]),
    {
        Some(Signature { type_signature: TypeSignature::Exact(vec![ArrowType::Int64]), volatility: Volatility::Immutable })
    }

    pub fn namespace(&self) -> (r: FunctionNamespace)
        ensures
            r matches FunctionNamespace::Optional(s) && s@ == "pg_catalog"@,
    {
        FunctionNamespace::Optional("pg_catalog")
    }

    pub fn return_type(&self) -> (t: ArrowType)
        ensures
            t == ArrowType::Boolean,
    {
        ArrowType::Boolean
    }

    /// True for any `int8` OID, null for anything else.
    pub fn evaluate(&self, v: &ScalarValue) -> (r: ScalarValue)
        ensures
            r == match *v {
                ScalarValue::Int64(Some(_)) => ScalarValue::Boolean(Some(true)),
                _ => ScalarValue::Boolean(None),
            },
    {
        match v {
            ScalarValue::Int64(Some(_)) => ScalarValue::Boolean(Some(true)),
            _ => ScalarValue::Boolean(None),
        }
    }

}

#[derive(Debug, Clone, Copy)]
pub struct PgEncodingToChar;

impl PgEncodingToChar {
    pub fn name(&self) -> (r: &'static str)
        ensures
            r@ == "pg_encoding_to_char"@,
    {
        "pg_encoding_to_char"
    }

    pub fn description(&self) -> (r: &'static str)
        ensures
            r@ == "Postgres `pg_encoding_to_char` function"@,
    {
        "Postgres `pg_encoding_to_char` function"
    }

    pub fn example(&self) -> (r: &'static str)
        ensures
            r@ == "pg_encoding_to_char(1)"@,
    {
        "pg_encoding_to_char(1)"
    }

    pub fn signature(&self) -> (r: Option<Signature>)
        ensures
            r matches Some(s) && s.volatility == Volatility::Immutable && (s.type_signature matches TypeSignature::Exact(v) && v@ == seq![ArrowType::Int64]),
    {
        Some(Signature { type_signature: TypeSignature::Exact(vec![ArrowType::Int64]), volatility: Volatility::Immutable })
    }

    pub fn namespace(&self) -> (r: FunctionNamespace)
        ensures
            r matches FunctionNamespace::Optional(s) && s@ == "pg_catalog"@,
    {
        FunctionNamespace::Optional("pg_catalog")
    }

    pub fn return_type(&self) -> (t: ArrowType)
        ensures
            t == ArrowType::Utf8,
    {
        ArrowType::Utf8
    }

    /// `UTF8` for encoding 6, the empty text for any other `int8`, null for
    /// anything else.
    pub fn evaluate(&self, v: &ScalarValue) -> (r: ScalarValue)
        ensures
            match *v {
                ScalarValue::Int64(Some(x)) => r matches ScalarValue::Utf8(Some(s)) && s@ == if x == 6 {
                    "UTF8"@
                } else {
                    ""@
                },
                _ => r matches ScalarValue::Utf8(None),
            },
    {
        match v {
            ScalarValue::Int64(Some(x)) => if *x == 6 {
                ScalarValue::Utf8(Some("UTF8".to_owned()))
            } else {
                ScalarValue::Utf8(Some("".to_owned()))
            },
            _ => ScalarValue::Utf8(None),
        }
    }

}

#[derive(Debug, Clone, Copy)]
pub struct HasSchemaPrivilege;

impl HasSchemaPrivilege {
    pub fn name(&self) -> (r: &'static str)
        ensures
            r@ == "has_schema_privilege"@,
    {
        "has_schema_privilege"
    }

    pub fn description(&self) -> (r: &'static str)
        ensures
            r@ == "Returns true if user have privilege for schema"@,
    {
        "Returns true if user have privilege for schema"
    }

    pub fn example(&self) -> (r: &'static str)
        ensures
            r@ == "has_schema_privilege('foo', 'bar', 'baz')"@,
    {
        "has_schema_privilege('foo', 'bar', 'baz')"
    }

    pub fn signature(&self) -> (r: Option<Signature>)
        ensures
            r matches Some(s) && s.volatility == Volatility::Stable && (s.type_signature matches TypeSignature::OneOf(v)
                && arg_lists(v) == seq![seq![ArrowType::Utf8, ArrowType::Utf8, ArrowType::Utf8], seq![ArrowType::Utf8, ArrowType::Utf8]]),
    {
        let a0: Vec<ArrowType> = vec![ArrowType::Utf8, ArrowType::Utf8, ArrowType::Utf8];
        let a1: Vec<ArrowType> = vec![ArrowType::Utf8, ArrowType::Utf8];
        let v: Vec<Vec<ArrowType>> = vec![a0, a1];
        assert(arg_lists(v)[0] == seq![ArrowType::Utf8, ArrowType::Utf8, ArrowType::Utf8]);
        assert(arg_lists(v)[1] == seq![ArrowType::Utf8, ArrowType::Utf8]);
        assert(arg_lists(v) =~= seq![seq![ArrowType::Utf8, ArrowType::Utf8, ArrowType::Utf8], seq![ArrowType::Utf8, ArrowType::Utf8]]);
        Some(Signature { type_signature: TypeSignature::OneOf(v), volatility: Volatility::Stable })
    }

    pub fn namespace(&self) -> (r: FunctionNamespace)
        ensures
            r matches FunctionNamespace::Optional(s) && s@ == "pg_catalog"@,
    {
        FunctionNamespace::Optional("pg_catalog")
    }

    /// The type of the value the function returns.
    pub fn return_type(&self) -> (t: ArrowType)
        ensures
            t == ArrowType::Boolean,
    {
        ArrowType::Boolean
    }

    /// The value returned for every input: the boolean true.
    pub fn value(&self) -> (r: ScalarValue)
        ensures
            r == ScalarValue::Boolean(Some(true)),
    {
        ScalarValue::Boolean(Some(true))
    }

}

#[derive(Debug, Clone, Copy)]
pub struct HasDatabasePrivilege;

impl HasDatabasePrivilege {
    pub fn name(&self) -> (r: &'static str)
        ensures
            r@ == "has_database_privilege"@,
    {
        "has_database_privilege"
    }

    pub fn description(&self) -> (r: &'static str)
        ensures
            r@ == "Returns true if user have privilege for database"@,
    {
        "Returns true if user have privilege for database"
    }

    pub fn example(&self) -> (r: &'static str)
        ensures
            r@ == "has_database_privilege('foo', 'bar', 'baz')"@,
    {
        "has_database_privilege('foo', 'bar', 'baz')"
    }

    pub fn signature(&self) -> (r: Option<Signature>)
        ensures
            r matches Some(s) && s.volatility == Volatility::Stable && (s.type_signature matches TypeSignature::OneOf(v)
                && arg_lists(v) == seq![seq![ArrowType::Utf8, ArrowType::Utf8, ArrowType::Utf8], seq![ArrowType::Utf8, ArrowType::Utf8]]),
    {
        let a0: Vec<ArrowType> = vec![ArrowType::Utf8, ArrowType::Utf8, ArrowType::Utf8];
        let a1: Vec<ArrowType> = vec![ArrowType::Utf8, ArrowType::Utf8];
        let v: Vec<Vec<ArrowType>> = vec![a0, a1];
        assert(arg_lists(v)[0] == seq![ArrowType::Utf8, ArrowType::Utf8, ArrowType::Utf8]);
        assert(arg_lists(v)[1] == seq![ArrowType::Utf8, ArrowType::Utf8]);
        assert(arg_lists(v) =~= seq![seq![ArrowType::Utf8, ArrowType::Utf8, ArrowType::Utf8], seq![ArrowType::Utf8, ArrowType::Utf8]]);
        Some(Signature { type_signature: TypeSignature::OneOf(v), volatility: Volatility::Stable })
    }

    pub fn namespace(&self) -> (r: FunctionNamespace)
        ensures
            r matches FunctionNamespace::Optional(s) && s@ == "pg_catalog"@,
    {
        FunctionNamespace::Optional("pg_catalog")
    }

    /// The type of the value the function returns.
    pub fn return_type(&self) -> (t: ArrowType)
        ensures
            t == ArrowType::Boolean,
    {
        ArrowType::Boolean
    }

    /// The value returned for every input: the boolean true.
    pub fn value(&self) -> (r: ScalarValue)
        ensures
            r == ScalarValue::Boolean(Some(true)),
    {
        ScalarValue::Boolean(Some(true))
    }

}

#[derive(Debug, Clone, Copy)]
pub struct HasTablePrivilege;

impl HasTablePrivilege {
    pub fn name(&self) -> (r: &'static str)
        ensures
            r@ == "has_table_privilege"@,
    {
        "has_table_privilege"
    }

    pub fn description(&self) -> (r: &'static str)
        ensures
            r@ == "Returns true if user have privilege for table"@,
    {
        "Returns true if user have privilege for table"
    }

    pub fn example(&self) -> (r: &'static str)
        ensures
            r@ == "has_table_privilege('foo', 'bar', 'baz')"@,
    {
        "has_table_privilege('foo', 'bar', 'baz')"
    }

    pub fn signature(&self) -> (r: Option<Signature>)
        ensures
            r matches Some(s) && s.volatility == Volatility::Stable && (s.type_signature matches TypeSignature::OneOf(v)
                && arg_lists(v) == seq![seq![ArrowType::Utf8, ArrowType::Utf8, ArrowType::Utf8], seq![ArrowType::Utf8, ArrowType::Utf8]]),
    {
        let a0: Vec<ArrowType> = vec![ArrowType::Utf8, ArrowType::Utf8, ArrowType::Utf8];
        let a1: Vec<ArrowType> = vec![ArrowType::Utf8, ArrowType::Utf8];
        let v: Vec<Vec<ArrowType>> = vec![a0, a1];
        assert(arg_lists(v)[0] == seq![ArrowType::Utf8, ArrowType::Utf8, ArrowType::Utf8]);
        assert(arg_lists(v)[1] == seq![ArrowType::Utf8, ArrowType::Utf8]);
        assert(arg_lists(v) =~= seq![seq![ArrowType::Utf8, ArrowType::Utf8, ArrowType::Utf8], seq![ArrowType::Utf8, ArrowType::Utf8]]);
        Some(Signature { type_signature: TypeSignature::OneOf(v), volatility: Volatility::Stable })
    }

    pub fn namespace(&self) -> (r: FunctionNamespace)
        ensures
            r matches FunctionNamespace::Optional(s) && s@ == "pg_catalog"@,
    {
        FunctionNamespace::Optional("pg_catalog")
    }

    /// The type of the value the function returns.
    pub fn return_type(&self) -> (t: ArrowType)
        ensures
            t == ArrowType::Boolean,
    {
        ArrowType::Boolean
    }

    /// The value returned for every input: the boolean true.
    pub fn value(&self) -> (r: ScalarValue)
        ensures
            r == ScalarValue::Boolean(Some(true)),
    {
        ScalarValue::Boolean(Some(true))
    }

}

#[derive(Debug, Clone, Copy)]
pub struct CurrentSchemas;

impl CurrentSchemas {
    pub fn name(&self) -> (r: &'static str)
        ensures
            r@ == "current_schemas"@,
    {
        "current_schemas"
    }

    pub fn description(&self) -> (r: &'static str)
        ensures
            r@ == "Returns current schemas"@,
    {
        "Returns current schemas"
    }

    pub fn example(&self) -> (r: &'static str)
        ensures
            r@ == "current_schemas()"@,
    {
        "current_schemas()"
    }

    pub fn signature(&self) -> (r: Option<Signature>)
        ensures
            r matches Some(s) && s.volatility == Volatility::Stable && (s.type_signature matches TypeSignature::OneOf(v)
                && arg_lists(v) == seq![Seq::<ArrowType>::empty(), seq![ArrowType::Boolean]]),
    {
        let a0: Vec<ArrowType> = Vec::<ArrowType>::new();
        let a1: Vec<ArrowType> = vec![ArrowType::Boolean];
        let v: Vec<Vec<ArrowType>> = vec![a0, a1];
        assert(arg_lists(v)[0] == Seq::<ArrowType>::empty());
        assert(arg_lists(v)[1] == seq![ArrowType::Boolean]);
        assert(arg_lists(v) =~= seq![Seq::<ArrowType>::empty(), seq![ArrowType::Boolean]]);
        Some(Signature { type_signature: TypeSignature::OneOf(v), volatility: Volatility::Stable })
    }

    pub fn namespace(&self) -> (r: FunctionNamespace)
        ensures
            r matches FunctionNamespace::Optional(s) && s@ == "pg_catalog"@,
    {
        FunctionNamespace::Optional("pg_catalog")
    }

    /// The session variable the call reads: the one that includes the
    /// implicit schemas when the first argument is the literal `true`.
    pub fn variable(&self, include_implicit: bool) -> (r: &'static str)
        ensures
            r@ == if include_implicit {
                "current_schemas_include_implicit"@
            } else {
                "current_schemas"@
            },
    {
        if include_implicit {
            "current_schemas_include_implicit"
        } else {
            "current_schemas"
        }
    }

    /// The type of the value: a list of nullable texts named `item`.
    pub fn return_type(&self) -> (t: ArrowType)
        ensures
            t matches ArrowType::List(f) && f.name@ == "item"@ && f.data_type == ArrowType::Utf8
                && f.nullable,
    {
        ArrowType::List(
            Box::new(crate::arrow::Field { name: "item".to_owned(), data_type: ArrowType::Utf8, nullable: true }),
        )
    }

    /// The name the result is given.
    pub fn alias(&self) -> (r: &'static str)
        ensures
            r@ == "current_schemas"@,
    {
        "current_schemas"
    }

}

#[derive(Debug, Clone, Copy)]
pub struct CurrentUser;

impl CurrentUser {
    pub fn name(&self) -> (r: &'static str)
        ensures
            r@ == "current_user"@,
    {
        "current_user"
    }

    pub fn description(&self) -> (r: &'static str)
        ensures
            r@ == "Returns current user"@,
    {
        "Returns current user"
    }

    pub fn example(&self) -> (r: &'static str)
        ensures
            r@ == "current_user()"@,
    {
        "current_user()"
    }

    pub fn signature(&self) -> (r: Option<Signature>)
        ensures
            r matches Some(s) && s.volatility == Volatility::Stable && (s.type_signature matches TypeSignature::Exact(v) && v@ == Seq::<ArrowType>::empty()),
    {
        Some(Signature { type_signature: TypeSignature::Exact(Vec::<ArrowType>::new()), volatility: Volatility::Stable })
    }

    pub fn namespace(&self) -> (r: FunctionNamespace)
        ensures
            r matches FunctionNamespace::Unqualified,
    {
        FunctionNamespace::Unqualified
    }

    /// The session variable the call reads.
    pub fn variable(&self) -> (r: &'static str)
        ensures
            r@ == "current_user"@,
    {
        "current_user"
    }

}

#[derive(Debug, Clone, Copy)]
pub struct CurrentRole;

impl CurrentRole {
    pub fn name(&self) -> (r: &'static str)
        ensures
            r@ == "current_role"@,
    {
        "current_role"
    }

    pub fn description(&self) -> (r: &'static str)
        ensures
            r@ == "Returns current role"@,
    {
        "Returns current role"
    }

    pub fn example(&self) -> (r: &'static str)
        ensures
            r@ == "current_role()"@,
    {
        "current_role()"
    }

    pub fn signature(&self) -> (r: Option<Signature>)
        ensures
            r matches Some(s) && s.volatility == Volatility::Stable && (s.type_signature matches TypeSignature::Exact(v) && v@ == Seq::<ArrowType>::empty()),
    {
        Some(Signature { type_signature: TypeSignature::Exact(Vec::<ArrowType>::new()), volatility: Volatility::Stable })
    }

    pub fn namespace(&self) -> (r: FunctionNamespace)
        ensures
            r matches FunctionNamespace::Optional(s) && s@ == "pg_catalog"@,
    {
        FunctionNamespace::Optional("pg_catalog")
    }

    /// The session variable the call reads.
    pub fn variable(&self) -> (r: &'static str)
        ensures
            r@ == "current_role"@,
    {
        "current_role"
    }

}

#[derive(Debug, Clone, Copy)]
pub struct CurrentSchema;

impl CurrentSchema {
    pub fn name(&self) -> (r: &'static str)
        ensures
            r@ == "current_schema"@,
    {
        "current_schema"
    }

    pub fn description(&self) -> (r: &'static str)
        ensures
            r@ == "Returns current schema"@,
    {
        "Returns current schema"
    }

    pub fn example(&self) -> (r: &'static str)
        ensures
            r@ == "current_schema()"@,
    {
        "current_schema()"
    }

    pub fn signature(&self) -> (r: Option<Signature>)
        ensures
            r matches Some(s) && s.volatility == Volatility::Stable && (s.type_signature matches TypeSignature::Exact(v) && v@ == Seq::<ArrowType>::empty()),
    {
        Some(Signature { type_signature: TypeSignature::Exact(Vec::<ArrowType>::new()), volatility: Volatility::Stable })
    }

    pub fn namespace(&self) -> (r: FunctionNamespace)
        ensures
            r matches FunctionNamespace::Optional(s) && s@ == "pg_catalog"@,
    {
        FunctionNamespace::Optional("pg_catalog")
    }

    /// The session variable the call reads.
    pub fn variable(&self) -> (r: &'static str)
        ensures
            r@ == "current_schema"@,
    {
        "current_schema"
    }

}

#[derive(Debug, Clone, Copy)]
pub struct CurrentDatabase;

impl CurrentDatabase {
    pub fn name(&self) -> (r: &'static str)
        ensures
            r@ == "current_database"@,
    {
        "current_database"
    }

    pub fn description(&self) -> (r: &'static str)
        ensures
            r@ == "Returns current database"@,
    {
        "Returns current database"
    }

    pub fn example(&self) -> (r: &'static str)
        ensures
            r@ == "current_database()"@,
    {
        "current_database()"
    }

    pub fn signature(&self) -> (r: Option<Signature>)
        ensures
            r matches Some(s) && s.volatility == Volatility::Stable && (s.type_signature matches TypeSignature::Exact(v) && v@ == Seq::<ArrowType>::empty()),
    {
        Some(Signature { type_signature: TypeSignature::Exact(Vec::<ArrowType>::new()), volatility: Volatility::Stable })
    }

    pub fn namespace(&self) -> (r: FunctionNamespace)
        ensures
            r matches FunctionNamespace::Unqualified,
    {
        FunctionNamespace::Unqualified
    }

    /// The session variable the call reads.
    pub fn variable(&self) -> (r: &'static str)
        ensures
            r@ == "current_database"@,
    {
        "current_database"
    }

}

#[derive(Debug, Clone, Copy)]
pub struct CurrentCatalog;

impl CurrentCatalog {
    pub fn name(&self) -> (r: &'static str)
        ensures
            r@ == "current_catalog"@,
    {
        "current_catalog"
    }

    pub fn description(&self) -> (r: &'static str)
        ensures
            r@ == "Returns current catalog"@,
    {
        "Returns current catalog"
    }

    pub fn example(&self) -> (r: &'static str)
        ensures
            r@ == "current_catalog()"@,
    {
        "current_catalog()"
    }

    pub fn signature(&self) -> (r: Option<Signature>)
        ensures
            r matches Some(s) && s.volatility == Volatility::Stable && (s.type_signature matches TypeSignature::Exact(v) && v@ == Seq::<ArrowType>::empty()),
    {
        Some(Signature { type_signature: TypeSignature::Exact(Vec::<ArrowType>::new()), volatility: Volatility::Stable })
    }

    pub fn namespace(&self) -> (r: FunctionNamespace)
        ensures
            r matches FunctionNamespace::Optional(s) && s@ == "pg_catalog"@,
    {
        FunctionNamespace::Optional("pg_catalog")
    }

    /// The session variable the call reads.
    pub fn variable(&self) -> (r: &'static str)
        ensures
            r@ == "current_catalog"@,
    {
        "current_catalog"
    }

}

#[derive(Debug, Clone, Copy)]
pub struct User;

impl User {
    pub fn name(&self) -> (r: &'static str)
        ensures
            r@ == "user"@,
    {
        "user"
    }

    pub fn description(&self) -> (r: &'static str)
        ensures
            r@ == "equivalent to `current_user`"@,
    {
        "equivalent to `current_user`"
    }

    pub fn example(&self) -> (r: &'static str)
        ensures
            r@ == "user()"@,
    {
        "user()"
    }

    pub fn signature(&self) -> (r: Option<Signature>)
        ensures
            r matches Some(s) && s.volatility == Volatility::Stable && (s.type_signature matches TypeSignature::Exact(v) && v@ == Seq::<ArrowType>::empty()),
    {
        Some(Signature { type_signature: TypeSignature::Exact(Vec::<ArrowType>::new()), volatility: Volatility::Stable })
    }

    pub fn namespace(&self) -> (r: FunctionNamespace)
        ensures
            r matches FunctionNamespace::Unqualified,
    {
        FunctionNamespace::Unqualified
    }

    /// The session variable the call reads: the current user.
    pub fn variable(&self) -> (r: &'static str)
        ensures
            r@ == "current_user"@,
    {
        CurrentUser.variable()
    }

    /// The name the result is given.
    pub fn alias(&self) -> (r: &'static str)
        ensures
            r@ == "user"@,
    {
        "user"
    }

}

#[derive(Debug, Clone, Copy)]
pub struct PgArrayToString;

impl PgArrayToString {
    /// No signature: the arguments are checked when the call is built.
    pub fn signature(&self) -> (r: Option<Signature>)
        ensures
            r is None,
    {
        None
    }

    pub fn namespace(&self) -> (r: FunctionNamespace)
        ensures
            r matches FunctionNamespace::Optional(s) && s@ == "pg_catalog"@,
    {
        FunctionNamespace::Optional("pg_catalog")
    }

    /// The call takes two or three arguments.
    pub fn check_arity(&self, num_args: usize) -> (r: Result<(), String>)
        ensures
            2 <= num_args <= 3 ==> r is Ok,
            !(2 <= num_args <= 3) ==> (r matches Err(m) && m@ == array_to_string_arity_message()),
    {
        if num_args < 2 || num_args > 3 {
            Err("array_to_string() takes exactly two or three arguments".to_owned())
        } else {
            Ok(())
        }
    }

}

#[derive(Debug, Clone, Copy)]
pub struct PgVersion;

impl PgVersion {
    pub fn name(&self) -> (r: &'static str)
        ensures
            r@ == "version"@,
    {
        "version"
    }

    pub fn description(&self) -> (r: &'static str)
        ensures
            r@ == "Returns the spoofed postgres version of the database"@,
    {
        "Returns the spoofed postgres version of the database"
    }

    pub fn example(&self) -> (r: &'static str)
        ensures
            r@ == "pg_catalog.version()"@,
    {
        "pg_catalog.version()"
    }

    pub fn signature(&self) -> (r: Option<Signature>)
        ensures
            r matches Some(s) && s.volatility == Volatility::Stable && (s.type_signature matches TypeSignature::Exact(v) && v@ == Seq::<ArrowType>::empty()),
    {
        Some(Signature { type_signature: TypeSignature::Exact(Vec::<ArrowType>::new()), volatility: Volatility::Stable })
    }

    pub fn namespace(&self) -> (r: FunctionNamespace)
        ensures
            r matches FunctionNamespace::Required(s) && s@ == "pg_catalog"@,
    {
        FunctionNamespace::Required("pg_catalog")
    }

}

#[derive(Debug, Clone, Copy)]
pub struct FormatType;

impl FormatType {
    pub fn name(&self) -> (r: &'static str)
        ensures
            r@ == "format_type"@,
    {
        "format_type"
    }

    pub fn description(&self) -> (r: &'static str)
        ensures
            r@ == "mock for postgres format_type"@,
    {
        "mock for postgres format_type"
    }

    pub fn example(&self) -> (r: &'static str)
        ensures
            r@ == "format_type(oid, int)"@,
    {
        "format_type(oid, int)"
    }

    pub fn signature(&self) -> (r: Option<Signature>)
        ensures
            r matches Some(s) && s.volatility == Volatility::Stable && (s.type_signature matches TypeSignature::Exact(v) && v@ == seq![ArrowType::Int32, ArrowType::Int32]),
    {
        Some(Signature { type_signature: TypeSignature::Exact(vec![ArrowType::Int32, ArrowType::Int32]), volatility: Volatility::Stable })
    }

    pub fn namespace(&self) -> (r: FunctionNamespace)
        ensures
            r matches FunctionNamespace::Optional(s) && s@ == "pg_catalog"@,
    {
        FunctionNamespace::Optional("pg_catalog")
    }

    /// The value returned for every input: a null.
    pub fn value(&self) -> (r: ScalarValue)
        ensures
            r == ScalarValue::Null,
    {
        ScalarValue::Null
    }

}

#[derive(Debug, Clone, Copy)]
pub struct PgGetExpr;

impl PgGetExpr {
    pub fn name(&self) -> (r: &'static str)
        ensures
            r@ == "pg_get_expr"@,
    {
        "pg_get_expr"
    }

    pub fn description(&self) -> (r: &'static str)
        ensures
            r@ == "Postgres `pg_get_expr` — decodes a node-tree column back to source. GlareDB stores plain SQL, so this is identity on the first argument."@,
    {
        "Postgres `pg_get_expr` — decodes a node-tree column back to source. GlareDB stores plain SQL, so this is identity on the first argument."
    }

    pub fn example(&self) -> (r: &'static str)
        ensures
            r@ == "pg_get_expr(adbin, adrelid)"@,
    {
        "pg_get_expr(adbin, adrelid)"
    }

    pub fn signature(&self) -> (r: Option<Signature>)
        ensures
            r matches Some(s) && s.volatility == Volatility::Immutable && (s.type_signature matches TypeSignature::OneOf(v)
                && arg_lists(v) == seq![seq![ArrowType::Utf8, ArrowType::Int64], seq![ArrowType::Utf8, ArrowType::Int64, ArrowType::Boolean]]),
    {
        let a0: Vec<ArrowType> = vec![ArrowType::Utf8, ArrowType::Int64];
        let a1: Vec<ArrowType> = vec![ArrowType::Utf8, ArrowType::Int64, ArrowType::Boolean];
        let v: Vec<Vec<ArrowType>> = vec![a0, a1];
        assert(arg_lists(v)[0] == seq![ArrowType::Utf8, ArrowType::Int64]);
        assert(arg_lists(v)[1] == seq![ArrowType::Utf8, ArrowType::Int64, ArrowType::Boolean]);
        assert(arg_lists(v) =~= seq![seq![ArrowType::Utf8, ArrowType::Int64], seq![ArrowType::Utf8, ArrowType::Int64, ArrowType::Boolean]]);
        Some(Signature { type_signature: TypeSignature::OneOf(v), volatility: Volatility::Immutable })
    }

    pub fn namespace(&self) -> (r: FunctionNamespace)
        ensures
            r matches FunctionNamespace::Optional(s) && s@ == "pg_catalog"@,
    {
        FunctionNamespace::Optional("pg_catalog")
    }

    /// The first argument unchanged (the catalog stores plain SQL); null
    /// when there is none.
    pub fn evaluate(&self, args: Vec<ScalarValue>) -> (r: ScalarValue)
        ensures
            args.len() > 0 ==> r == args@[0],
            args.len() == 0 ==> r == ScalarValue::Null,
    {
        let mut args = args;
        if args.len() > 0 {
            args.swap_remove(0)
        } else {
            ScalarValue::Null
        }
    }

}

#[derive(Debug, Clone, Copy)]
pub struct PgGetPartkeydef;

impl PgGetPartkeydef {
    pub fn name(&self) -> (r: &'static str)
        ensures
            r@ == "pg_get_partkeydef"@,
    {
        "pg_get_partkeydef"
    }

    pub fn description(&self) -> (r: &'static str)
        ensures
            r@ == "Postgres `pg_get_partkeydef` — partitioning key clause. Always NULL (no partitioning)."@,
    {
        "Postgres `pg_get_partkeydef` — partitioning key clause. Always NULL (no partitioning)."
    }

    pub fn example(&self) -> (r: &'static str)
        ensures
            r@ == "pg_get_partkeydef(oid)"@,
    {
        "pg_get_partkeydef(oid)"
    }

    pub fn signature(&self) -> (r: Option<Signature>)
        ensures
            r matches Some(s) && s.volatility == Volatility::Stable && (s.type_signature matches TypeSignature::Exact(v) && v@ == seq![ArrowType::Int64]),
    {
        Some(Signature { type_signature: TypeSignature::Exact(vec![ArrowType::Int64]), volatility: Volatility::Stable })
    }

    pub fn namespace(&self) -> (r: FunctionNamespace)
        ensures
            r matches FunctionNamespace::Optional(s) && s@ == "pg_catalog"@,
    {
        FunctionNamespace::Optional("pg_catalog")
    }

    /// The type of the value the function returns.
    pub fn return_type(&self) -> (t: ArrowType)
        ensures
            t == ArrowType::Utf8,
    {
        ArrowType::Utf8
    }

    /// The value returned for every input: a null text.
    pub fn value(&self) -> (r: ScalarValue)
        ensures
            r == ScalarValue::Utf8(None),
    {
        ScalarValue::Utf8(None)
    }

}

#[derive(Debug, Clone, Copy)]
pub struct HasColumnPrivilege;

impl HasColumnPrivilege {
    pub fn name(&self) -> (r: &'static str)
        ensures
            r@ == "has_column_privilege"@,
    {
        "has_column_privilege"
    }

    pub fn description(&self) -> (r: &'static str)
        ensures
            r@ == "Returns true if user has privilege for column"@,
    {
        "Returns true if user has privilege for column"
    }

    pub fn example(&self) -> (r: &'static str)
        ensures
            r@ == "has_column_privilege('user', 'tab', 'col', 'SELECT')"@,
    {
        "has_column_privilege('user', 'tab', 'col', 'SELECT')"
    }

    pub fn signature(&self) -> (r: Option<Signature>)
        ensures
            r matches Some(s) && s.volatility == Volatility::Stable && (s.type_signature matches TypeSignature::OneOf(v)
                && arg_lists(v) == seq![seq![ArrowType::Utf8, ArrowType::Utf8, ArrowType::Utf8], seq![ArrowType::Utf8, ArrowType::Utf8, ArrowType::Utf8, ArrowType::Utf8]]),
    {
        let a0: Vec<ArrowType> = vec![ArrowType::Utf8, ArrowType::Utf8, ArrowType::Utf8];
        let a1: Vec<ArrowType> = vec![ArrowType::Utf8, ArrowType::Utf8, ArrowType::Utf8, ArrowType::Utf8];
        let v: Vec<Vec<ArrowType>> = vec![a0, a1];
        assert(arg_lists(v)[0] == seq![ArrowType::Utf8, ArrowType::Utf8, ArrowType::Utf8]);
        assert(arg_lists(v)[1] == seq![ArrowType::Utf8, ArrowType::Utf8, ArrowType::Utf8, ArrowType::Utf8]);
        assert(arg_lists(v) =~= seq![seq![ArrowType::Utf8, ArrowType::Utf8, ArrowType::Utf8], seq![ArrowType::Utf8, ArrowType::Utf8, ArrowType::Utf8, ArrowType::Utf8]]);
        Some(Signature { type_signature: TypeSignature::OneOf(v), volatility: Volatility::Stable })
    }

    pub fn namespace(&self) -> (r: FunctionNamespace)
        ensures
            r matches FunctionNamespace::Optional(s) && s@ == "pg_catalog"@,
    {
        FunctionNamespace::Optional("pg_catalog")
    }

    /// The type of the value the function returns.
    pub fn return_type(&self) -> (t: ArrowType)
        ensures
            t == ArrowType::Boolean,
    {
        ArrowType::Boolean
    }

    /// The value returned for every input: the boolean true.
    pub fn value(&self) -> (r: ScalarValue)
        ensures
            r == ScalarValue::Boolean(Some(true)),
    {
        ScalarValue::Boolean(Some(true))
    }

}

#[derive(Debug, Clone, Copy)]
pub struct ObjDescription;

impl ObjDescription {
    pub fn name(&self) -> (r: &'static str)
        ensures
            r@ == "obj_description"@,
    {
        "obj_description"
    }

    pub fn description(&self) -> (r: &'static str)
        ensures
            r@ == "Postgres `obj_description` — fetch a comment by (oid, classname)."@,
    {
        "Postgres `obj_description` — fetch a comment by (oid, classname)."
    }

    pub fn example(&self) -> (r: &'static str)
        ensures
            r@ == "obj_description(oid, 'pg_class')"@,
    {
        "obj_description(oid, 'pg_class')"
    }

    pub fn signature(&self) -> (r: Option<Signature>)
        ensures
            r matches Some(s) && s.volatility == Volatility::Stable && (s.type_signature matches TypeSignature::OneOf(v)
                && arg_lists(v) == seq![seq![ArrowType::Int64], seq![ArrowType::Int32], seq![ArrowType::Int64, ArrowType::Utf8], seq![ArrowType::Int32, ArrowType::Utf8]]),
    {
        let a0: Vec<ArrowType> = vec![ArrowType::Int64];
        let a1: Vec<ArrowType> = vec![ArrowType::Int32];
        let a2: Vec<ArrowType> = vec![ArrowType::Int64, ArrowType::Utf8];
        let a3: Vec<ArrowType> = vec![ArrowType::Int32, ArrowType::Utf8];
        let v: Vec<Vec<ArrowType>> = vec![a0, a1, a2, a3];
        assert(arg_lists(v)[0] == seq![ArrowType::Int64]);
        assert(arg_lists(v)[1] == seq![ArrowType::Int32]);
        assert(arg_lists(v)[2] == seq![ArrowType::Int64, ArrowType::Utf8]);
        assert(arg_lists(v)[3] == seq![ArrowType::Int32, ArrowType::Utf8]);
        assert(arg_lists(v) =~= seq![seq![ArrowType::Int64], seq![ArrowType::Int32], seq![ArrowType::Int64, ArrowType::Utf8], seq![ArrowType::Int32, ArrowType::Utf8]]);
        Some(Signature { type_signature: TypeSignature::OneOf(v), volatility: Volatility::Stable })
    }

    pub fn namespace(&self) -> (r: FunctionNamespace)
        ensures
            r matches FunctionNamespace::Optional(s) && s@ == "pg_catalog"@,
    {
        FunctionNamespace::Optional("pg_catalog")
    }

    /// The type of the value the function returns.
    pub fn return_type(&self) -> (t: ArrowType)
        ensures
            t == ArrowType::Utf8,
    {
        ArrowType::Utf8
    }

    /// The value returned for every input: a null text.
    pub fn value(&self) -> (r: ScalarValue)
        ensures
            r == ScalarValue::Utf8(None),
    {
        ScalarValue::Utf8(None)
    }

}

#[derive(Debug, Clone, Copy)]
pub struct ColDescription;

impl ColDescription {
    pub fn name(&self) -> (r: &'static str)
        ensures
            r@ == "col_description"@,
    {
        "col_description"
    }

    pub fn description(&self) -> (r: &'static str)
        ensures
            r@ == "Postgres `col_description` — fetch a column comment. NULL stub."@,
    {
        "Postgres `col_description` — fetch a column comment. NULL stub."
    }

    pub fn example(&self) -> (r: &'static str)
        ensures
            r@ == "col_description(table_oid, attnum)"@,
    {
        "col_description(table_oid, attnum)"
    }

    pub fn signature(&self) -> (r: Option<Signature>)
        ensures
            r matches Some(s) && s.volatility == Volatility::Stable && (s.type_signature matches TypeSignature::Exact(v) && v@ == seq![ArrowType::Int64, ArrowType::Int32]),
    {
        Some(Signature { type_signature: TypeSignature::Exact(vec![ArrowType::Int64, ArrowType::Int32]), volatility: Volatility::Stable })
    }

    pub fn namespace(&self) -> (r: FunctionNamespace)
        ensures
            r matches FunctionNamespace::Optional(s) && s@ == "pg_catalog"@,
    {
        FunctionNamespace::Optional("pg_catalog")
    }

    /// The type of the value the function returns.
    pub fn return_type(&self) -> (t: ArrowType)
        ensures
            t == ArrowType::Utf8,
    {
        ArrowType::Utf8
    }

    /// The value returned for every input: a null text.
    pub fn value(&self) -> (r: ScalarValue)
        ensures
            r == ScalarValue::Utf8(None),
    {
        ScalarValue::Utf8(None)
    }

}

#[derive(Debug, Clone, Copy)]
pub struct ShobjDescription;

impl ShobjDescription {
    pub fn name(&self) -> (r: &'static str)
        ensures
            r@ == "shobj_description"@,
    {
        "shobj_description"
    }

    pub fn description(&self) -> (r: &'static str)
        ensures
            r@ == "Postgres `shobj_description` — fetch a shared-object comment. NULL stub."@,
    {
        "Postgres `shobj_description` — fetch a shared-object comment. NULL stub."
    }

    pub fn example(&self) -> (r: &'static str)
        ensures
            r@ == "shobj_description(oid, 'pg_database')"@,
    {
        "shobj_description(oid, 'pg_database')"
    }

    pub fn signature(&self) -> (r: Option<Signature>)
        ensures
            r matches Some(s) && s.volatility == Volatility::Stable && (s.type_signature matches TypeSignature::Exact(v) && v@ == seq![ArrowType::Int64, ArrowType::Utf8]),
    {
        Some(Signature { type_signature: TypeSignature::Exact(vec![ArrowType::Int64, ArrowType::Utf8]), volatility: Volatility::Stable })
    }

    pub fn namespace(&self) -> (r: FunctionNamespace)
        ensures
            r matches FunctionNamespace::Optional(s) && s@ == "pg_catalog"@,
    {
        FunctionNamespace::Optional("pg_catalog")
    }

    /// The type of the value the function returns.
    pub fn return_type(&self) -> (t: ArrowType)
        ensures
            t == ArrowType::Utf8,
    {
        ArrowType::Utf8
    }

    /// The value returned for every input: a null text.
    pub fn value(&self) -> (r: ScalarValue)
        ensures
            r == ScalarValue::Utf8(None),
    {
        ScalarValue::Utf8(None)
    }

}

#[derive(Debug, Clone, Copy)]
pub struct PgBackendPid;

impl PgBackendPid {
    pub fn name(&self) -> (r: &'static str)
        ensures
            r@ == "pg_backend_pid"@,
    {
        "pg_backend_pid"
    }

    pub fn description(&self) -> (r: &'static str)
        ensures
            r@ == "Postgres `pg_backend_pid` — process ID for the current backend. Synthetic int4."@,
    {
        "Postgres `pg_backend_pid` — process ID for the current backend. Synthetic int4."
    }

    pub fn example(&self) -> (r: &'static str)
        ensures
            r@ == "pg_backend_pid()"@,
    {
        "pg_backend_pid()"
    }

    pub fn signature(&self) -> (r: Option<Signature>)
        ensures
            r matches Some(s) && s.volatility == Volatility::Stable && (s.type_signature matches TypeSignature::Exact(v) && v@ == Seq::<ArrowType>::empty()),
    {
        Some(Signature { type_signature: TypeSignature::Exact(Vec::<ArrowType>::new()), volatility: Volatility::Stable })
    }

    pub fn namespace(&self) -> (r: FunctionNamespace)
        ensures
            r matches FunctionNamespace::Optional(s) && s@ == "pg_catalog"@,
    {
        FunctionNamespace::Optional("pg_catalog")
    }

    /// The type of the value the function returns.
    pub fn return_type(&self) -> (t: ArrowType)
        ensures
            t == ArrowType::Int32,
    {
        ArrowType::Int32
    }

    /// The value returned for every input: the `int4` 0.
    pub fn value(&self) -> (r: ScalarValue)
        ensures
            r == ScalarValue::Int32(Some(0)),
    {
        ScalarValue::Int32(Some(0))
    }

}

#[derive(Debug, Clone, Copy)]
pub struct PgIsInRecovery;

impl PgIsInRecovery {
    pub fn name(&self) -> (r: &'static str)
        ensures
            r@ == "pg_is_in_recovery"@,
    {
        "pg_is_in_recovery"
    }

    pub fn description(&self) -> (r: &'static str)
        ensures
            r@ == "Postgres `pg_is_in_recovery` — false (GlareDB has no replication recovery)."@,
    {
        "Postgres `pg_is_in_recovery` — false (GlareDB has no replication recovery)."
    }

    pub fn example(&self) -> (r: &'static str)
        ensures
            r@ == "pg_is_in_recovery()"@,
    {
        "pg_is_in_recovery()"
    }

    pub fn signature(&self) -> (r: Option<Signature>)
        ensures
            r matches Some(s) && s.volatility == Volatility::Stable && (s.type_signature matches TypeSignature::Exact(v) && v@ == Seq::<ArrowType>::empty()),
    {
        Some(Signature { type_signature: TypeSignature::Exact(Vec::<ArrowType>::new()), volatility: Volatility::Stable })
    }

    pub fn namespace(&self) -> (r: FunctionNamespace)
        ensures
            r matches FunctionNamespace::Optional(s) && s@ == "pg_catalog"@,
    {
        FunctionNamespace::Optional("pg_catalog")
    }

    /// The type of the value the function returns.
    pub fn return_type(&self) -> (t: ArrowType)
        ensures
            t == ArrowType::Boolean,
    {
        ArrowType::Boolean
    }

    /// The value returned for every input: the boolean false.
    pub fn value(&self) -> (r: ScalarValue)
        ensures
            r == ScalarValue::Boolean(Some(false)),
    {
        ScalarValue::Boolean(Some(false))
    }

}

#[derive(Debug, Clone, Copy)]
pub struct PgTypeOidByName;

impl PgTypeOidByName {
    pub fn name(&self) -> (r: &'static str)
        ensures
            r@ == "pg_type_oid_by_name"@,
    {
        "pg_type_oid_by_name"
    }

    pub fn description(&self) -> (r: &'static str)
        ensures
            r@ == "Map an Arrow datatype name (`Int32`, `Utf8`, `Timestamp(...)`) to its Postgres OID."@,
    {
        "Map an Arrow datatype name (`Int32`, `Utf8`, `Timestamp(...)`) to its Postgres OID."
    }

    pub fn example(&self) -> (r: &'static str)
        ensures
            r@ == "pg_type_oid_by_name('Int32')"@,
    {
        "pg_type_oid_by_name('Int32')"
    }

    pub fn signature(&self) -> (r: Option<Signature>)
        ensures
            r matches Some(s) && s.volatility == Volatility::Immutable && (s.type_signature matches TypeSignature::Exact(v) && v@ == seq![ArrowType::Utf8]),
    {
        Some(Signature { type_signature: TypeSignature::Exact(vec![ArrowType::Utf8]), volatility: Volatility::Immutable })
    }

    pub fn namespace(&self) -> (r: FunctionNamespace)
        ensures
            r matches FunctionNamespace::Optional(s) && s@ == "pg_catalog"@,
    {
        FunctionNamespace::Optional("pg_catalog")
    }

    pub fn return_type(&self) -> (t: ArrowType)
        ensures
            t == ArrowType::Int32,
    {
        ArrowType::Int32
    }

    /// The Postgres OID of an Arrow type name, `text` (25) for anything
    /// that is not a text.
    pub fn evaluate(&self, v: &ScalarValue) -> (r: ScalarValue)
        ensures
            match *v {
                ScalarValue::Utf8(Some(n)) => r == ScalarValue::Int32(Some(arrow_name_oid(n@) as i32)),
                _ => r == ScalarValue::Int32(Some(25)),
            },
    {
        match v {
            ScalarValue::Utf8(Some(n)) => ScalarValue::Int32(Some(arrow_name_to_pg_oid(n.as_str()) as i32)),
            _ => ScalarValue::Int32(Some(25)),
        }
    }

}

#[derive(Debug, Clone, Copy)]
pub struct PgPostmasterStartTime;

impl PgPostmasterStartTime {
    pub fn name(&self) -> (r: &'static str)
        ensures
            r@ == "pg_postmaster_start_time"@,
    {
        "pg_postmaster_start_time"
    }

    pub fn description(&self) -> (r: &'static str)
        ensures
            r@ == "Postgres `pg_postmaster_start_time` — when the server started. Stub returns epoch."@,
    {
        "Postgres `pg_postmaster_start_time` — when the server started. Stub returns epoch."
    }

    pub fn example(&self) -> (r: &'static str)
        ensures
            r@ == "pg_postmaster_start_time()"@,
    {
        "pg_postmaster_start_time()"
    }

    pub fn signature(&self) -> (r: Option<Signature>)
        ensures
            r matches Some(s) && s.volatility == Volatility::Stable && (s.type_signature matches TypeSignature::Exact(v) && v@ == Seq::<ArrowType>::empty()),
    {
        Some(Signature { type_signature: TypeSignature::Exact(Vec::<ArrowType>::new()), volatility: Volatility::Stable })
    }

    pub fn namespace(&self) -> (r: FunctionNamespace)
        ensures
            r matches FunctionNamespace::Optional(s) && s@ == "pg_catalog"@,
    {
        FunctionNamespace::Optional("pg_catalog")
    }

    /// The type of the value the function returns.
    pub fn return_type(&self) -> (t: ArrowType)
        ensures
            t matches ArrowType::Timestamp(TimeUnit::Microsecond, Some(z)) && z@ == "UTC"@,
    {
        ArrowType::Timestamp(TimeUnit::Microsecond, Some("UTC".to_owned()))
    }

    /// The value returned for every input: the Unix epoch in UTC.
    pub fn value(&self) -> (r: ScalarValue)
        ensures
            r matches ScalarValue::TimestampMicrosecond(Some(t), Some(z)) && t == 0 && z@ == "UTC"@,
    {
        ScalarValue::TimestampMicrosecond(Some(0), Some("UTC".to_owned()))
    }

}

#[derive(Debug, Clone, Copy)]
pub struct PgGetViewdef;

impl PgGetViewdef {
    pub fn name(&self) -> (r: &'static str)
        ensures
            r@ == "pg_get_viewdef"@,
    {
        "pg_get_viewdef"
    }

    pub fn description(&self) -> (r: &'static str)
        ensures
            r@ == "Postgres `pg_get_viewdef` — render `CREATE VIEW` text for a view oid. Stub returning empty until view-DDL synthesis lands."@,
    {
        "Postgres `pg_get_viewdef` — render `CREATE VIEW` text for a view oid. Stub returning empty until view-DDL synthesis lands."
    }

    pub fn example(&self) -> (r: &'static str)
        ensures
            r@ == "pg_get_viewdef(oid, true)"@,
    {
        "pg_get_viewdef(oid, true)"
    }

    pub fn signature(&self) -> (r: Option<Signature>)
        ensures
            r matches Some(s) && s.volatility == Volatility::Stable && (s.type_signature matches TypeSignature::OneOf(v)
                && arg_lists(v) == seq![seq![ArrowType::Int64], seq![ArrowType::Int64, ArrowType::Boolean], seq![ArrowType::Int64, ArrowType::Int32], seq![ArrowType::Utf8]]),
    {
        let a0: Vec<ArrowType> = vec![ArrowType::Int64];
        let a1: Vec<ArrowType> = vec![ArrowType::Int64, ArrowType::Boolean];
        let a2: Vec<ArrowType> = vec![ArrowType::Int64, ArrowType::Int32];
        let a3: Vec<ArrowType> = vec![ArrowType::Utf8];
        let v: Vec<Vec<ArrowType>> = vec![a0, a1, a2, a3];
        assert(arg_lists(v)[0] == seq![ArrowType::Int64]);
        assert(arg_lists(v)[1] == seq![ArrowType::Int64, ArrowType::Boolean]);
        assert(arg_lists(v)[2] == seq![ArrowType::Int64, ArrowType::Int32]);
        assert(arg_lists(v)[3] == seq![ArrowType::Utf8]);
        assert(arg_lists(v) =~= seq![seq![ArrowType::Int64], seq![ArrowType::Int64, ArrowType::Boolean], seq![ArrowType::Int64, ArrowType::Int32], seq![ArrowType::Utf8]]);
        Some(Signature { type_signature: TypeSignature::OneOf(v), volatility: Volatility::Stable })
    }

    pub fn namespace(&self) -> (r: FunctionNamespace)
        ensures
            r matches FunctionNamespace::Optional(s) && s@ == "pg_catalog"@,
    {
        FunctionNamespace::Optional("pg_catalog")
    }

    /// The type of the value the function returns.
    pub fn return_type(&self) -> (t: ArrowType)
        ensures
            t == ArrowType::Utf8,
    {
        ArrowType::Utf8
    }

    /// The value returned for every input: the empty text.
    pub fn value(&self) -> (r: ScalarValue)
        ensures
            r matches ScalarValue::Utf8(Some(s)) && s@.len() == 0,
    {
        ScalarValue::Utf8(Some(String::new()))
    }

}

#[derive(Debug, Clone, Copy)]
pub struct PgGetIndexdef;

impl PgGetIndexdef {
    pub fn name(&self) -> (r: &'static str)
        ensures
            r@ == "pg_get_indexdef"@,
    {
        "pg_get_indexdef"
    }

    pub fn description(&self) -> (r: &'static str)
        ensures
            r@ == "Postgres `pg_get_indexdef` — render `CREATE INDEX` text. Stub."@,
    {
        "Postgres `pg_get_indexdef` — render `CREATE INDEX` text. Stub."
    }

    pub fn example(&self) -> (r: &'static str)
        ensures
            r@ == "pg_get_indexdef(oid, 0, true)"@,
    {
        "pg_get_indexdef(oid, 0, true)"
    }

    pub fn signature(&self) -> (r: Option<Signature>)
        ensures
            r matches Some(s) && s.volatility == Volatility::Stable && (s.type_signature matches TypeSignature::OneOf(v)
                && arg_lists(v) == seq![seq![ArrowType::Int64], seq![ArrowType::Int64, ArrowType::Int32, ArrowType::Boolean]]),
    {
        let a0: Vec<ArrowType> = vec![ArrowType::Int64];
        let a1: Vec<ArrowType> = vec![ArrowType::Int64, ArrowType::Int32, ArrowType::Boolean];
        let v: Vec<Vec<ArrowType>> = vec![a0, a1];
        assert(arg_lists(v)[0] == seq![ArrowType::Int64]);
        assert(arg_lists(v)[1] == seq![ArrowType::Int64, ArrowType::Int32, ArrowType::Boolean]);
        assert(arg_lists(v) =~= seq![seq![ArrowType::Int64], seq![ArrowType::Int64, ArrowType::Int32, ArrowType::Boolean]]);
        Some(Signature { type_signature: TypeSignature::OneOf(v), volatility: Volatility::Stable })
    }

    pub fn namespace(&self) -> (r: FunctionNamespace)
        ensures
            r matches FunctionNamespace::Optional(s) && s@ == "pg_catalog"@,
    {
        FunctionNamespace::Optional("pg_catalog")
    }

    /// The type of the value the function returns.
    pub fn return_type(&self) -> (t: ArrowType)
        ensures
            t == ArrowType::Utf8,
    {
        ArrowType::Utf8
    }

    /// The value returned for every input: the empty text.
    pub fn value(&self) -> (r: ScalarValue)
        ensures
            r matches ScalarValue::Utf8(Some(s)) && s@.len() == 0,
    {
        ScalarValue::Utf8(Some(String::new()))
    }

}

#[derive(Debug, Clone, Copy)]
pub struct PgGetConstraintdef;

impl PgGetConstraintdef {
    pub fn name(&self) -> (r: &'static str)
        ensures
            r@ == "pg_get_constraintdef"@,
    {
        "pg_get_constraintdef"
    }

    pub fn description(&self) -> (r: &'static str)
        ensures
            r@ == "Postgres `pg_get_constraintdef` — render constraint clause text. Stub."@,
    {
        "Postgres `pg_get_constraintdef` — render constraint clause text. Stub."
    }

    pub fn example(&self) -> (r: &'static str)
        ensures
            r@ == "pg_get_constraintdef(oid, true)"@,
    {
        "pg_get_constraintdef(oid, true)"
    }

    pub fn signature(&self) -> (r: Option<Signature>)
        ensures
            r matches Some(s) && s.volatility == Volatility::Stable && (s.type_signature matches TypeSignature::OneOf(v)
                && arg_lists(v) == seq![seq![ArrowType::Int64], seq![ArrowType::Int64, ArrowType::Boolean]]),
    {
        let a0: Vec<ArrowType> = vec![ArrowType::Int64];
        let a1: Vec<ArrowType> = vec![ArrowType::Int64, ArrowType::Boolean];
        let v: Vec<Vec<ArrowType>> = vec![a0, a1];
        assert(arg_lists(v)[0] == seq![ArrowType::Int64]);
        assert(arg_lists(v)[1] == seq![ArrowType::Int64, ArrowType::Boolean]);
        assert(arg_lists(v) =~= seq![seq![ArrowType::Int64], seq![ArrowType::Int64, ArrowType::Boolean]]);
        Some(Signature { type_signature: TypeSignature::OneOf(v), volatility: Volatility::Stable })
    }

    pub fn namespace(&self) -> (r: FunctionNamespace)
        ensures
            r matches FunctionNamespace::Optional(s) && s@ == "pg_catalog"@,
    {
        FunctionNamespace::Optional("pg_catalog")
    }

    /// The type of the value the function returns.
    pub fn return_type(&self) -> (t: ArrowType)
        ensures
            t == ArrowType::Utf8,
    {
        ArrowType::Utf8
    }

    /// The value returned for every input: the empty text.
    pub fn value(&self) -> (r: ScalarValue)
        ensures
            r matches ScalarValue::Utf8(Some(s)) && s@.len() == 0,
    {
        ScalarValue::Utf8(Some(String::new()))
    }

}

#[derive(Debug, Clone, Copy)]
pub struct PgGetTriggerdef;

impl PgGetTriggerdef {
    pub fn name(&self) -> (r: &'static str)
        ensures
            r@ == "pg_get_triggerdef"@,
    {
        "pg_get_triggerdef"
    }

    pub fn description(&self) -> (r: &'static str)
        ensures
            r@ == "Postgres `pg_get_triggerdef` — render `CREATE TRIGGER` text. Stub (no triggers)."@,
    {
        "Postgres `pg_get_triggerdef` — render `CREATE TRIGGER` text. Stub (no triggers)."
    }

    pub fn example(&self) -> (r: &'static str)
        ensures
            r@ == "pg_get_triggerdef(oid)"@,
    {
        "pg_get_triggerdef(oid)"
    }

    pub fn signature(&self) -> (r: Option<Signature>)
        ensures
            r matches Some(s) && s.volatility == Volatility::Stable && (s.type_signature matches TypeSignature::OneOf(v)
                && arg_lists(v) == seq![seq![ArrowType::Int64], seq![ArrowType::Int64, ArrowType::Boolean]]),
    {
        let a0: Vec<ArrowType> = vec![ArrowType::Int64];
        let a1: Vec<ArrowType> = vec![ArrowType::Int64, ArrowType::Boolean];
        let v: Vec<Vec<ArrowType>> = vec![a0, a1];
        assert(arg_lists(v)[0] == seq![ArrowType::Int64]);
        assert(arg_lists(v)[1] == seq![ArrowType::Int64, ArrowType::Boolean]);
        assert(arg_lists(v) =~= seq![seq![ArrowType::Int64], seq![ArrowType::Int64, ArrowType::Boolean]]);
        Some(Signature { type_signature: TypeSignature::OneOf(v), volatility: Volatility::Stable })
    }

    pub fn namespace(&self) -> (r: FunctionNamespace)
        ensures
            r matches FunctionNamespace::Optional(s) && s@ == "pg_catalog"@,
    {
        FunctionNamespace::Optional("pg_catalog")
    }

    /// The type of the value the function returns.
    pub fn return_type(&self) -> (t: ArrowType)
        ensures
            t == ArrowType::Utf8,
    {
        ArrowType::Utf8
    }

    /// The value returned for every input: the empty text.
    pub fn value(&self) -> (r: ScalarValue)
        ensures
            r matches ScalarValue::Utf8(Some(s)) && s@.len() == 0,
    {
        ScalarValue::Utf8(Some(String::new()))
    }

}

#[derive(Debug, Clone, Copy)]
pub struct PgGetFunctiondef;

impl PgGetFunctiondef {
    pub fn name(&self) -> (r: &'static str)
        ensures
            r@ == "pg_get_functiondef"@,
    {
        "pg_get_functiondef"
    }

    pub fn description(&self) -> (r: &'static str)
        ensures
            r@ == "Postgres `pg_get_functiondef` — render `CREATE FUNCTION` body. Stub."@,
    {
        "Postgres `pg_get_functiondef` — render `CREATE FUNCTION` body. Stub."
    }

    pub fn example(&self) -> (r: &'static str)
        ensures
            r@ == "pg_get_functiondef(oid)"@,
    {
        "pg_get_functiondef(oid)"
    }

    pub fn signature(&self) -> (r: Option<Signature>)
        ensures
            r matches Some(s) && s.volatility == Volatility::Stable && (s.type_signature matches TypeSignature::Exact(v) && v@ == seq![ArrowType::Int64]),
    {
        Some(Signature { type_signature: TypeSignature::Exact(vec![ArrowType::Int64]), volatility: Volatility::Stable })
    }

    pub fn namespace(&self) -> (r: FunctionNamespace)
        ensures
            r matches FunctionNamespace::Optional(s) && s@ == "pg_catalog"@,
    {
        FunctionNamespace::Optional("pg_catalog")
    }

    /// The type of the value the function returns.
    pub fn return_type(&self) -> (t: ArrowType)
        ensures
            t == ArrowType::Utf8,
    {
        ArrowType::Utf8
    }

    /// The value returned for every input: the empty text.
    pub fn value(&self) -> (r: ScalarValue)
        ensures
            r matches ScalarValue::Utf8(Some(s)) && s@.len() == 0,
    {
        ScalarValue::Utf8(Some(String::new()))
    }

}

#[derive(Debug, Clone, Copy)]
pub struct PgGetFunctionArguments;

impl PgGetFunctionArguments {
    pub fn name(&self) -> (r: &'static str)
        ensures
            r@ == "pg_get_function_arguments"@,
    {
        "pg_get_function_arguments"
    }

    pub fn description(&self) -> (r: &'static str)
        ensures
            r@ == "Postgres `pg_get_function_arguments` — render comma-separated arg list. Stub."@,
    {
        "Postgres `pg_get_function_arguments` — render comma-separated arg list. Stub."
    }

    pub fn example(&self) -> (r: &'static str)
        ensures
            r@ == "pg_get_function_arguments(oid)"@,
    {
        "pg_get_function_arguments(oid)"
    }

    pub fn signature(&self) -> (r: Option<Signature>)
        ensures
            r matches Some(s) && s.volatility == Volatility::Stable && (s.type_signature matches TypeSignature::Exact(v) && v@ == seq![ArrowType::Int64]),
    {
        Some(Signature { type_signature: TypeSignature::Exact(vec![ArrowType::Int64]), volatility: Volatility::Stable })
    }

    pub fn namespace(&self) -> (r: FunctionNamespace)
        ensures
            r matches FunctionNamespace::Optional(s) && s@ == "pg_catalog"@,
    {
        FunctionNamespace::Optional("pg_catalog")
    }

    /// The type of the value the function returns.
    pub fn return_type(&self) -> (t: ArrowType)
        ensures
            t == ArrowType::Utf8,
    {
        ArrowType::Utf8
    }

    /// The value returned for every input: the empty text.
    pub fn value(&self) -> (r: ScalarValue)
        ensures
            r matches ScalarValue::Utf8(Some(s)) && s@.len() == 0,
    {
        ScalarValue::Utf8(Some(String::new()))
    }

}

#[derive(Debug, Clone, Copy)]
pub struct PgGetFunctionResult;

impl PgGetFunctionResult {
    pub fn name(&self) -> (r: &'static str)
        ensures
            r@ == "pg_get_function_result"@,
    {
        "pg_get_function_result"
    }

    pub fn description(&self) -> (r: &'static str)
        ensures
            r@ == "Postgres `pg_get_function_result` — render function return-type clause. Stub."@,
    {
        "Postgres `pg_get_function_result` — render function return-type clause. Stub."
    }

    pub fn example(&self) -> (r: &'static str)
        ensures
            r@ == "pg_get_function_result(oid)"@,
    {
        "pg_get_function_result(oid)"
    }

    pub fn signature(&self) -> (r: Option<Signature>)
        ensures
            r matches Some(s) && s.volatility == Volatility::Stable && (s.type_signature matches TypeSignature::Exact(v) && v@ == seq![ArrowType::Int64]),
    {
        Some(Signature { type_signature: TypeSignature::Exact(vec![ArrowType::Int64]), volatility: Volatility::Stable })
    }

    pub fn namespace(&self) -> (r: FunctionNamespace)
        ensures
            r matches FunctionNamespace::Optional(s) && s@ == "pg_catalog"@,
    {
        FunctionNamespace::Optional("pg_catalog")
    }

    /// The type of the value the function returns.
    pub fn return_type(&self) -> (t: ArrowType)
        ensures
            t == ArrowType::Utf8,
    {
        ArrowType::Utf8
    }

    /// The value returned for every input: the empty text.
    pub fn value(&self) -> (r: ScalarValue)
        ensures
            r matches ScalarValue::Utf8(Some(s)) && s@.len() == 0,
    {
        ScalarValue::Utf8(Some(String::new()))
    }

}

#[derive(Debug, Clone, Copy)]
pub struct PgGetFunctionIdentityArguments;

impl PgGetFunctionIdentityArguments {
    pub fn name(&self) -> (r: &'static str)
        ensures
            r@ == "pg_get_function_identity_arguments"@,
    {
        "pg_get_function_identity_arguments"
    }

    pub fn description(&self) -> (r: &'static str)
        ensures
            r@ == "Postgres `pg_get_function_identity_arguments` — minimal-form arg list used by ALTER FUNCTION. Stub."@,
    {
        "Postgres `pg_get_function_identity_arguments` — minimal-form arg list used by ALTER FUNCTION. Stub."
    }

    pub fn example(&self) -> (r: &'static str)
        ensures
            r@ == "pg_get_function_identity_arguments(oid)"@,
    {
        "pg_get_function_identity_arguments(oid)"
    }

    pub fn signature(&self) -> (r: Option<Signature>)
        ensures
            r matches Some(s) && s.volatility == Volatility::Stable && (s.type_signature matches TypeSignature::Exact(v) && v@ == seq![ArrowType::Int64]),
    {
        Some(Signature { type_signature: TypeSignature::Exact(vec![ArrowType::Int64]), volatility: Volatility::Stable })
    }

    pub fn namespace(&self) -> (r: FunctionNamespace)
        ensures
            r matches FunctionNamespace::Optional(s) && s@ == "pg_catalog"@,
    {
        FunctionNamespace::Optional("pg_catalog")
    }

    /// The type of the value the function returns.
    pub fn return_type(&self) -> (t: ArrowType)
        ensures
            t == ArrowType::Utf8,
    {
        ArrowType::Utf8
    }

    /// The value returned for every input: the empty text.
    pub fn value(&self) -> (r: ScalarValue)
        ensures
            r matches ScalarValue::Utf8(Some(s)) && s@.len() == 0,
    {
        ScalarValue::Utf8(Some(String::new()))
    }

}

#[derive(Debug, Clone, Copy)]
pub struct PgTablespaceLocation;

impl PgTablespaceLocation {
    pub fn name(&self) -> (r: &'static str)
        ensures
            r@ == "pg_tablespace_location"@,
    {
        "pg_tablespace_location"
    }

    pub fn description(&self) -> (r: &'static str)
        ensures
            r@ == "Postgres `pg_tablespace_location` — filesystem location of a tablespace. Empty (we have none)."@,
    {
        "Postgres `pg_tablespace_location` — filesystem location of a tablespace. Empty (we have none)."
    }

    pub fn example(&self) -> (r: &'static str)
        ensures
            r@ == "pg_tablespace_location(oid)"@,
    {
        "pg_tablespace_location(oid)"
    }

    pub fn signature(&self) -> (r: Option<Signature>)
        ensures
            r matches Some(s) && s.volatility == Volatility::Stable && (s.type_signature matches TypeSignature::Exact(v) && v@ == seq![ArrowType::Int64]),
    {
        Some(Signature { type_signature: TypeSignature::Exact(vec![ArrowType::Int64]), volatility: Volatility::Stable })
    }

    pub fn namespace(&self) -> (r: FunctionNamespace)
        ensures
            r matches FunctionNamespace::Optional(s) && s@ == "pg_catalog"@,
    {
        FunctionNamespace::Optional("pg_catalog")
    }

    /// The type of the value the function returns.
    pub fn return_type(&self) -> (t: ArrowType)
        ensures
            t == ArrowType::Utf8,
    {
        ArrowType::Utf8
    }

    /// The value returned for every input: the empty text.
    pub fn value(&self) -> (r: ScalarValue)
        ensures
            r matches ScalarValue::Utf8(Some(s)) && s@.len() == 0,
    {
        ScalarValue::Utf8(Some(String::new()))
    }

}

#[derive(Debug, Clone, Copy)]
pub struct PgRelationSize;

impl PgRelationSize {
    pub fn name(&self) -> (r: &'static str)
        ensures
            r@ == "pg_relation_size"@,
    {
        "pg_relation_size"
    }

    pub fn description(&self) -> (r: &'static str)
        ensures
            r@ == "Postgres `pg_relation_size` — heap size on disk. Returns 0 (Delta tables not measured)."@,
    {
        "Postgres `pg_relation_size` — heap size on disk. Returns 0 (Delta tables not measured)."
    }

    pub fn example(&self) -> (r: &'static str)
        ensures
            r@ == "pg_relation_size(oid)"@,
    {
        "pg_relation_size(oid)"
    }

    pub fn signature(&self) -> (r: Option<Signature>)
        ensures
            r matches Some(s) && s.volatility == Volatility::Stable && (s.type_signature matches TypeSignature::OneOf(v)
                && arg_lists(v) == seq![seq![ArrowType::Int64], seq![ArrowType::Utf8]]),
    {
        let a0: Vec<ArrowType> = vec![ArrowType::Int64];
        let a1: Vec<ArrowType> = vec![ArrowType::Utf8];
        let v: Vec<Vec<ArrowType>> = vec![a0, a1];
        assert(arg_lists(v)[0] == seq![ArrowType::Int64]);
        assert(arg_lists(v)[1] == seq![ArrowType::Utf8]);
        assert(arg_lists(v) =~= seq![seq![ArrowType::Int64], seq![ArrowType::Utf8]]);
        Some(Signature { type_signature: TypeSignature::OneOf(v), volatility: Volatility::Stable })
    }

    pub fn namespace(&self) -> (r: FunctionNamespace)
        ensures
            r matches FunctionNamespace::Optional(s) && s@ == "pg_catalog"@,
    {
        FunctionNamespace::Optional("pg_catalog")
    }

    /// The type of the value the function returns.
    pub fn return_type(&self) -> (t: ArrowType)
        ensures
            t == ArrowType::Int64,
    {
        ArrowType::Int64
    }

    /// The value returned for every input: the `int8` 0.
    pub fn value(&self) -> (r: ScalarValue)
        ensures
            r == ScalarValue::Int64(Some(0)),
    {
        ScalarValue::Int64(Some(0))
    }

}

#[derive(Debug, Clone, Copy)]
pub struct PgTotalRelationSize;

impl PgTotalRelationSize {
    pub fn name(&self) -> (r: &'static str)
        ensures
            r@ == "pg_total_relation_size"@,
    {
        "pg_total_relation_size"
    }

    pub fn description(&self) -> (r: &'static str)
        ensures
            r@ == "Postgres `pg_total_relation_size` — heap + indexes + TOAST size. Returns 0."@,
    {
        "Postgres `pg_total_relation_size` — heap + indexes + TOAST size. Returns 0."
    }

    pub fn example(&self) -> (r: &'static str)
        ensures
            r@ == "pg_total_relation_size(oid)"@,
    {
        "pg_total_relation_size(oid)"
    }

    pub fn signature(&self) -> (r: Option<Signature>)
        ensures
            r matches Some(s) && s.volatility == Volatility::Stable && (s.type_signature matches TypeSignature::OneOf(v)
                && arg_lists(v) == seq![seq![ArrowType::Int64], seq![ArrowType::Utf8]]),
    {
        let a0: Vec<ArrowType> = vec![ArrowType::Int64];
        let a1: Vec<ArrowType> = vec![ArrowType::Utf8];
        let v: Vec<Vec<ArrowType>> = vec![a0, a1];
        assert(arg_lists(v)[0] == seq![ArrowType::Int64]);
        assert(arg_lists(v)[1] == seq![ArrowType::Utf8]);
        assert(arg_lists(v) =~= seq![seq![ArrowType::Int64], seq![ArrowType::Utf8]]);
        Some(Signature { type_signature: TypeSignature::OneOf(v), volatility: Volatility::Stable })
    }

    pub fn namespace(&self) -> (r: FunctionNamespace)
        ensures
            r matches FunctionNamespace::Optional(s) && s@ == "pg_catalog"@,
    {
        FunctionNamespace::Optional("pg_catalog")
    }

    /// The type of the value the function returns.
    pub fn return_type(&self) -> (t: ArrowType)
        ensures
            t == ArrowType::Int64,
    {
        ArrowType::Int64
    }

    /// The value returned for every input: the `int8` 0.
    pub fn value(&self) -> (r: ScalarValue)
        ensures
            r == ScalarValue::Int64(Some(0)),
    {
        ScalarValue::Int64(Some(0))
    }

}

#[derive(Debug, Clone, Copy)]
pub struct PgIndexesSize;

impl PgIndexesSize {
    pub fn name(&self) -> (r: &'static str)
        ensures
            r@ == "pg_indexes_size"@,
    {
        "pg_indexes_size"
    }

    pub fn description(&self) -> (r: &'static str)
        ensures
            r@ == "Postgres `pg_indexes_size` — total index size for a relation. Returns 0."@,
    {
        "Postgres `pg_indexes_size` — total index size for a relation. Returns 0."
    }

    pub fn example(&self) -> (r: &'static str)
        ensures
            r@ == "pg_indexes_size(oid)"@,
    {
        "pg_indexes_size(oid)"
    }

    pub fn signature(&self) -> (r: Option<Signature>)
        ensures
            r matches Some(s) && s.volatility == Volatility::Stable && (s.type_signature matches TypeSignature::OneOf(v)
                && arg_lists(v) == seq![seq![ArrowType::Int64], seq![ArrowType::Utf8]]),
    {
        let a0: Vec<ArrowType> = vec![ArrowType::Int64];
        let a1: Vec<ArrowType> = vec![ArrowType::Utf8];
        let v: Vec<Vec<ArrowType>> = vec![a0, a1];
        assert(arg_lists(v)[0] == seq![ArrowType::Int64]);
        assert(arg_lists(v)[1] == seq![ArrowType::Utf8]);
        assert(arg_lists(v) =~= seq![seq![ArrowType::Int64], seq![ArrowType::Utf8]]);
        Some(Signature { type_signature: TypeSignature::OneOf(v), volatility: Volatility::Stable })
    }

    pub fn namespace(&self) -> (r: FunctionNamespace)
        ensures
            r matches FunctionNamespace::Optional(s) && s@ == "pg_catalog"@,
    {
        FunctionNamespace::Optional("pg_catalog")
    }

    /// The type of the value the function returns.
    pub fn return_type(&self) -> (t: ArrowType)
        ensures
            t == ArrowType::Int64,
    {
        ArrowType::Int64
    }

    /// The value returned for every input: the `int8` 0.
    pub fn value(&self) -> (r: ScalarValue)
        ensures
            r == ScalarValue::Int64(Some(0)),
    {
        ScalarValue::Int64(Some(0))
    }

}

#[derive(Debug, Clone, Copy)]
pub struct PgDatabaseSize;

impl PgDatabaseSize {
    pub fn name(&self) -> (r: &'static str)
        ensures
            r@ == "pg_database_size"@,
    {
        "pg_database_size"
    }

    pub fn description(&self) -> (r: &'static str)
        ensures
            r@ == "Postgres `pg_database_size` — total bytes owned by a database. Returns 0."@,
    {
        "Postgres `pg_database_size` — total bytes owned by a database. Returns 0."
    }

    pub fn example(&self) -> (r: &'static str)
        ensures
            r@ == "pg_database_size(oid)"@,
    {
        "pg_database_size(oid)"
    }

    pub fn signature(&self) -> (r: Option<Signature>)
        ensures
            r matches Some(s) && s.volatility == Volatility::Stable && (s.type_signature matches TypeSignature::OneOf(v)
                && arg_lists(v) == seq![seq![ArrowType::Int64], seq![ArrowType::Utf8]]),
    {
        let a0: Vec<ArrowType> = vec![ArrowType::Int64];
        let a1: Vec<ArrowType> = vec![ArrowType::Utf8];
        let v: Vec<Vec<ArrowType>> = vec![a0, a1];
        assert(arg_lists(v)[0] == seq![ArrowType::Int64]);
        assert(arg_lists(v)[1] == seq![ArrowType::Utf8]);
        assert(arg_lists(v) =~= seq![seq![ArrowType::Int64], seq![ArrowType::Utf8]]);
        Some(Signature { type_signature: TypeSignature::OneOf(v), volatility: Volatility::Stable })
    }

    pub fn namespace(&self) -> (r: FunctionNamespace)
        ensures
            r matches FunctionNamespace::Optional(s) && s@ == "pg_catalog"@,
    {
        FunctionNamespace::Optional("pg_catalog")
    }

    /// The type of the value the function returns.
    pub fn return_type(&self) -> (t: ArrowType)
        ensures
            t == ArrowType::Int64,
    {
        ArrowType::Int64
    }

    /// The value returned for every input: the `int8` 0.
    pub fn value(&self) -> (r: ScalarValue)
        ensures
            r == ScalarValue::Int64(Some(0)),
    {
        ScalarValue::Int64(Some(0))
    }

}

#[derive(Debug, Clone, Copy)]
pub struct PgTableSize;

impl PgTableSize {
    pub fn name(&self) -> (r: &'static str)
        ensures
            r@ == "pg_table_size"@,
    {
        "pg_table_size"
    }

    pub fn description(&self) -> (r: &'static str)
        ensures
            r@ == "Postgres `pg_table_size` — heap size excluding indexes. Returns 0."@,
    {
        "Postgres `pg_table_size` — heap size excluding indexes. Returns 0."
    }

    pub fn example(&self) -> (r: &'static str)
        ensures
            r@ == "pg_table_size(oid)"@,
    {
        "pg_table_size(oid)"
    }

    pub fn signature(&self) -> (r: Option<Signature>)
        ensures
            r matches Some(s) && s.volatility == Volatility::Stable && (s.type_signature matches TypeSignature::OneOf(v)
                && arg_lists(v) == seq![seq![ArrowType::Int64], seq![ArrowType::Utf8]]),
    {
        let a0: Vec<ArrowType> = vec![ArrowType::Int64];
        let a1: Vec<ArrowType> = vec![ArrowType::Utf8];
        let v: Vec<Vec<ArrowType>> = vec![a0, a1];
        assert(arg_lists(v)[0] == seq![ArrowType::Int64]);
        assert(arg_lists(v)[1] == seq![ArrowType::Utf8]);
        assert(arg_lists(v) =~= seq![seq![ArrowType::Int64], seq![ArrowType::Utf8]]);
        Some(Signature { type_signature: TypeSignature::OneOf(v), volatility: Volatility::Stable })
    }

    pub fn namespace(&self) -> (r: FunctionNamespace)
        ensures
            r matches FunctionNamespace::Optional(s) && s@ == "pg_catalog"@,
    {
        FunctionNamespace::Optional("pg_catalog")
    }

    /// The type of the value the function returns.
    pub fn return_type(&self) -> (t: ArrowType)
        ensures
            t == ArrowType::Int64,
    {
        ArrowType::Int64
    }

    /// The value returned for every input: the `int8` 0.
    pub fn value(&self) -> (r: ScalarValue)
        ensures
            r == ScalarValue::Int64(Some(0)),
    {
        ScalarValue::Int64(Some(0))
    }

}

#[derive(Debug, Clone, Copy)]
pub struct PgFunctionIsVisible;

impl PgFunctionIsVisible {
    pub fn name(&self) -> (r: &'static str)
        ensures
            r@ == "pg_function_is_visible"@,
    {
        "pg_function_is_visible"
    }

    pub fn description(&self) -> (r: &'static str)
        ensures
            r@ == "Postgres `pg_function_is_visible` — whether the function is reachable in search_path. Always true."@,
    {
        "Postgres `pg_function_is_visible` — whether the function is reachable in search_path. Always true."
    }

    pub fn example(&self) -> (r: &'static str)
        ensures
            r@ == "pg_function_is_visible(oid)"@,
    {
        "pg_function_is_visible(oid)"
    }

    pub fn signature(&self) -> (r: Option<Signature>)
        ensures
            r matches Some(s) && s.volatility == Volatility::Stable && (s.type_signature matches TypeSignature::Exact(v) && v@ == seq![ArrowType::Int64]),
    {
        Some(Signature { type_signature: TypeSignature::Exact(vec![ArrowType::Int64]), volatility: Volatility::Stable })
    }

    pub fn namespace(&self) -> (r: FunctionNamespace)
        ensures
            r matches FunctionNamespace::Optional(s) && s@ == "pg_catalog"@,
    {
        FunctionNamespace::Optional("pg_catalog")
    }

    /// The type of the value the function returns.
    pub fn return_type(&self) -> (t: ArrowType)
        ensures
            t == ArrowType::Boolean,
    {
        ArrowType::Boolean
    }

    /// The value returned for every input: the boolean true.
    pub fn value(&self) -> (r: ScalarValue)
        ensures
            r == ScalarValue::Boolean(Some(true)),
    {
        ScalarValue::Boolean(Some(true))
    }

}

#[derive(Debug, Clone, Copy)]
pub struct PgTypeIsVisible;

impl PgTypeIsVisible {
    pub fn name(&self) -> (r: &'static str)
        ensures
            r@ == "pg_type_is_visible"@,
    {
        "pg_type_is_visible"
    }

    pub fn description(&self) -> (r: &'static str)
        ensures
            r@ == "Postgres `pg_type_is_visible` — whether a type is reachable in search_path. Always true."@,
    {
        "Postgres `pg_type_is_visible` — whether a type is reachable in search_path. Always true."
    }

    pub fn example(&self) -> (r: &'static str)
        ensures
            r@ == "pg_type_is_visible(oid)"@,
    {
        "pg_type_is_visible(oid)"
    }

    pub fn signature(&self) -> (r: Option<Signature>)
        ensures
            r matches Some(s) && s.volatility == Volatility::Stable && (s.type_signature matches TypeSignature::Exact(v) && v@ == seq![ArrowType::Int64]),
    {
        Some(Signature { type_signature: TypeSignature::Exact(vec![ArrowType::Int64]), volatility: Volatility::Stable })
    }

    pub fn namespace(&self) -> (r: FunctionNamespace)
        ensures
            r matches FunctionNamespace::Optional(s) && s@ == "pg_catalog"@,
    {
        FunctionNamespace::Optional("pg_catalog")
    }

    /// The type of the value the function returns.
    pub fn return_type(&self) -> (t: ArrowType)
        ensures
            t == ArrowType::Boolean,
    {
        ArrowType::Boolean
    }

    /// The value returned for every input: the boolean true.
    pub fn value(&self) -> (r: ScalarValue)
        ensures
            r == ScalarValue::Boolean(Some(true)),
    {
        ScalarValue::Boolean(Some(true))
    }

}

#[derive(Debug, Clone, Copy)]
pub struct PgOpclassIsVisible;

impl PgOpclassIsVisible {
    pub fn name(&self) -> (r: &'static str)
        ensures
            r@ == "pg_opclass_is_visible"@,
    {
        "pg_opclass_is_visible"
    }

    pub fn description(&self) -> (r: &'static str)
        ensures
            r@ == "Postgres `pg_opclass_is_visible`. Always true."@,
    {
        "Postgres `pg_opclass_is_visible`. Always true."
    }

    pub fn example(&self) -> (r: &'static str)
        ensures
            r@ == "pg_opclass_is_visible(oid)"@,
    {
        "pg_opclass_is_visible(oid)"
    }

    pub fn signature(&self) -> (r: Option<Signature>)
        ensures
            r matches Some(s) && s.volatility == Volatility::Stable && (s.type_signature matches TypeSignature::Exact(v) && v@ == seq![ArrowType::Int64]),
    {
        Some(Signature { type_signature: TypeSignature::Exact(vec![ArrowType::Int64]), volatility: Volatility::Stable })
    }

    pub fn namespace(&self) -> (r: FunctionNamespace)
        ensures
            r matches FunctionNamespace::Optional(s) && s@ == "pg_catalog"@,
    {
        FunctionNamespace::Optional("pg_catalog")
    }

    /// The type of the value the function returns.
    pub fn return_type(&self) -> (t: ArrowType)
        ensures
            t == ArrowType::Boolean,
    {
        ArrowType::Boolean
    }

    /// The value returned for every input: the boolean true.
    pub fn value(&self) -> (r: ScalarValue)
        ensures
            r == ScalarValue::Boolean(Some(true)),
    {
        ScalarValue::Boolean(Some(true))
    }

}

#[derive(Debug, Clone, Copy)]
pub struct PgConversionIsVisible;

impl PgConversionIsVisible {
    pub fn name(&self) -> (r: &'static str)
        ensures
            r@ == "pg_conversion_is_visible"@,
    {
        "pg_conversion_is_visible"
    }

    pub fn description(&self) -> (r: &'static str)
        ensures
            r@ == "Postgres `pg_conversion_is_visible`. Always true."@,
    {
        "Postgres `pg_conversion_is_visible`. Always true."
    }

    pub fn example(&self) -> (r: &'static str)
        ensures
            r@ == "pg_conversion_is_visible(oid)"@,
    {
        "pg_conversion_is_visible(oid)"
    }

    pub fn signature(&self) -> (r: Option<Signature>)
        ensures
            r matches Some(s) && s.volatility == Volatility::Stable && (s.type_signature matches TypeSignature::Exact(v) && v@ == seq![ArrowType::Int64]),
    {
        Some(Signature { type_signature: TypeSignature::Exact(vec![ArrowType::Int64]), volatility: Volatility::Stable })
    }

    pub fn namespace(&self) -> (r: FunctionNamespace)
        ensures
            r matches FunctionNamespace::Optional(s) && s@ == "pg_catalog"@,
    {
        FunctionNamespace::Optional("pg_catalog")
    }

    /// The type of the value the function returns.
    pub fn return_type(&self) -> (t: ArrowType)
        ensures
            t == ArrowType::Boolean,
    {
        ArrowType::Boolean
    }

    /// The value returned for every input: the boolean true.
    pub fn value(&self) -> (r: ScalarValue)
        ensures
            r == ScalarValue::Boolean(Some(true)),
    {
        ScalarValue::Boolean(Some(true))
    }

}

#[derive(Debug, Clone, Copy)]
pub struct PgCollationIsVisible;

impl PgCollationIsVisible {
    pub fn name(&self) -> (r: &'static str)
        ensures
            r@ == "pg_collation_is_visible"@,
    {
        "pg_collation_is_visible"
    }

    pub fn description(&self) -> (r: &'static str)
        ensures
            r@ == "Postgres `pg_collation_is_visible`. Always true."@,
    {
        "Postgres `pg_collation_is_visible`. Always true."
    }

    pub fn example(&self) -> (r: &'static str)
        ensures
            r@ == "pg_collation_is_visible(oid)"@,
    {
        "pg_collation_is_visible(oid)"
    }

    pub fn signature(&self) -> (r: Option<Signature>)
        ensures
            r matches Some(s) && s.volatility == Volatility::Stable && (s.type_signature matches TypeSignature::Exact(v) && v@ == seq![ArrowType::Int64]),
    {
        Some(Signature { type_signature: TypeSignature::Exact(vec![ArrowType::Int64]), volatility: Volatility::Stable })
    }

    pub fn namespace(&self) -> (r: FunctionNamespace)
        ensures
            r matches FunctionNamespace::Optional(s) && s@ == "pg_catalog"@,
    {
        FunctionNamespace::Optional("pg_catalog")
    }

    /// The type of the value the function returns.
    pub fn return_type(&self) -> (t: ArrowType)
        ensures
            t == ArrowType::Boolean,
    {
        ArrowType::Boolean
    }

    /// The value returned for every input: the boolean true.
    pub fn value(&self) -> (r: ScalarValue)
        ensures
            r == ScalarValue::Boolean(Some(true)),
    {
        ScalarValue::Boolean(Some(true))
    }

}

} // verus!
