//! SQLSTATE codes, notice severities and notices.
use vstd::prelude::*;

use crate::error::ReprError;
use crate::text::str_eq;
use core::cmp::Ordering;
use vstd::std_specs::cmp::{PartialOrdSpec, PartialOrdSpecImpl};

verus! {

/// 'SQLSTATE' error codes that drivers branch on.
#[derive(Debug, Clone, Copy, PartialEq, Eq, Structural)]
pub enum SqlState {
    Successful,
    Warning,
    FeatureNotSupported,
    InvalidTextRepresentation,
    DatetimeFieldOverflow,
    InvalidParameterValue,
    InFailedTransaction,
    InvalidPassword,
    InvalidAuth,
    DatabaseDoesNotExist,
    SchemaDoesNotExist,
    SyntaxError,
    UndefinedTable,
    UndefinedColumn,
    UndefinedFunction,
    UndefinedObject,
    UndefinedParameter,
    InsufficientPrivilege,
    DuplicateTable,
    TooManyConnections,
    ConfigurationLimitExceeded,
    QueryCanceled,
    AdminShutdown,
    InternalError,
}

impl SqlState {
    /// The five-character SQLSTATE code.
    pub open spec fn code(self) -> Seq<char> {
        match self {
            SqlState::Successful => "00000"@,
            SqlState::Warning => "01000"@,
            SqlState::FeatureNotSupported => "0A000"@,
            SqlState::InvalidTextRepresentation => "22P02"@,
            SqlState::DatetimeFieldOverflow => "22008"@,
            SqlState::InvalidParameterValue => "22023"@,
            SqlState::InFailedTransaction => "25P02"@,
            SqlState::InvalidPassword => "28P01"@,
            SqlState::InvalidAuth => "28000"@,
            SqlState::DatabaseDoesNotExist => "3D000"@,
            SqlState::SchemaDoesNotExist => "3F000"@,
            SqlState::SyntaxError => "42601"@,
            SqlState::UndefinedTable => "42P01"@,
            SqlState::UndefinedColumn => "42703"@,
            SqlState::UndefinedFunction => "42883"@,
            SqlState::UndefinedObject => "42704"@,
            SqlState::UndefinedParameter => "42P02"@,
            SqlState::InsufficientPrivilege => "42501"@,
            SqlState::DuplicateTable => "42P07"@,
            SqlState::TooManyConnections => "53300"@,
            SqlState::ConfigurationLimitExceeded => "53400"@,
            SqlState::QueryCanceled => "57014"@,
            SqlState::AdminShutdown => "57P01"@,
            SqlState::InternalError => "XX000"@,
        }
    }

    pub fn as_code_str(&self) -> (r: &'static str)
        ensures
            r@ == self.code(),
    {
        match self {
            SqlState::Successful => "00000",
            SqlState::Warning => "01000",
            SqlState::FeatureNotSupported => "0A000",
            SqlState::InvalidTextRepresentation => "22P02",
            SqlState::DatetimeFieldOverflow => "22008",
            SqlState::InvalidParameterValue => "22023",
            SqlState::InFailedTransaction => "25P02",
            SqlState::InvalidPassword => "28P01",
            SqlState::InvalidAuth => "28000",
            SqlState::DatabaseDoesNotExist => "3D000",
            SqlState::SchemaDoesNotExist => "3F000",
            SqlState::SyntaxError => "42601",
            SqlState::UndefinedTable => "42P01",
            SqlState::UndefinedColumn => "42703",
            SqlState::UndefinedFunction => "42883",
            SqlState::UndefinedObject => "42704",
            SqlState::UndefinedParameter => "42P02",
            SqlState::InsufficientPrivilege => "42501",
            SqlState::DuplicateTable => "42P07",
            SqlState::TooManyConnections => "53300",
            SqlState::ConfigurationLimitExceeded => "53400",
            SqlState::QueryCanceled => "57014",
            SqlState::AdminShutdown => "57P01",
            SqlState::InternalError => "XX000",
        }
    }
}

/// Whether a character may stand in a SQLSTATE code: an ASCII digit or
/// upper-case letter.
pub open spec fn is_code_char(c: char) -> bool {
    ('0' <= c && c <= '9') || ('A' <= c && c <= 'Z')
}

/// The SQLSTATE whose code is `s`, if any.
pub open spec fn from_code(s: Seq<char>) -> Option<SqlState> {
        if s == "00000"@ {
            Some(SqlState::Successful)
        } else if s == "01000"@ {
            Some(SqlState::Warning)
        } else if s == "0A000"@ {
            Some(SqlState::FeatureNotSupported)
        } else if s == "22P02"@ {
            Some(SqlState::InvalidTextRepresentation)
        } else if s == "22008"@ {
            Some(SqlState::DatetimeFieldOverflow)
        } else if s == "22023"@ {
            Some(SqlState::InvalidParameterValue)
        } else if s == "25P02"@ {
            Some(SqlState::InFailedTransaction)
        } else if s == "28P01"@ {
            Some(SqlState::InvalidPassword)
        } else if s == "28000"@ {
            Some(SqlState::InvalidAuth)
        } else if s == "3D000"@ {
            Some(SqlState::DatabaseDoesNotExist)
        } else if s == "3F000"@ {
            Some(SqlState::SchemaDoesNotExist)
        } else if s == "42601"@ {
            Some(SqlState::SyntaxError)
        } else if s == "42P01"@ {
            Some(SqlState::UndefinedTable)
        } else if s == "42703"@ {
            Some(SqlState::UndefinedColumn)
        } else if s == "42883"@ {
            Some(SqlState::UndefinedFunction)
        } else if s == "42704"@ {
            Some(SqlState::UndefinedObject)
        } else if s == "42P02"@ {
            Some(SqlState::UndefinedParameter)
        } else if s == "42501"@ {
            Some(SqlState::InsufficientPrivilege)
        } else if s == "42P07"@ {
            Some(SqlState::DuplicateTable)
        } else if s == "53300"@ {
            Some(SqlState::TooManyConnections)
        } else if s == "53400"@ {
            Some(SqlState::ConfigurationLimitExceeded)
        } else if s == "57014"@ {
            Some(SqlState::QueryCanceled)
        } else if s == "57P01"@ {
            Some(SqlState::AdminShutdown)
        } else if s == "XX000"@ {
            Some(SqlState::InternalError)
        } else {
            None
        }
}

proof fn lemma_code_names_state(a: SqlState)
    ensures
        from_code(a.code()) == Some(a),
{
    match a {
        SqlState::Successful => {
            reveal_strlit("00000");
        },
        SqlState::Warning => {
            reveal_strlit("00000");
            reveal_strlit("01000");
            assert("01000"@[1] != "00000"@[1]);
        },
        SqlState::FeatureNotSupported => {
            reveal_strlit("00000");
            reveal_strlit("01000");
            reveal_strlit("0A000");
            assert("0A000"@[1] != "00000"@[1]);
            assert("0A000"@[1] != "01000"@[1]);
        },
        SqlState::InvalidTextRepresentation => {
            reveal_strlit("00000");
            reveal_strlit("01000");
            reveal_strlit("0A000");
            reveal_strlit("22P02");
            assert("22P02"@[0] != "00000"@[0]);
            assert("22P02"@[0] != "01000"@[0]);
            assert("22P02"@[0] != "0A000"@[0]);
        },
        SqlState::DatetimeFieldOverflow => {
            reveal_strlit("00000");
            reveal_strlit("01000");
            reveal_strlit("0A000");
            reveal_strlit("22008");
            reveal_strlit("22P02");
            assert("22008"@[0] != "00000"@[0]);
            assert("22008"@[0] != "01000"@[0]);
            assert("22008"@[0] != "0A000"@[0]);
            assert("22008"@[2] != "22P02"@[2]);
        },
        SqlState::InvalidParameterValue => {
            reveal_strlit("00000");
            reveal_strlit("01000");
            reveal_strlit("0A000");
            reveal_strlit("22008");
            reveal_strlit("22023");
            reveal_strlit("22P02");
            assert("22023"@[0] != "00000"@[0]);
            assert("22023"@[0] != "01000"@[0]);
            assert("22023"@[0] != "0A000"@[0]);
            assert("22023"@[2] != "22P02"@[2]);
            assert("22023"@[3] != "22008"@[3]);
        },
        SqlState::InFailedTransaction => {
            reveal_strlit("00000");
            reveal_strlit("01000");
            reveal_strlit("0A000");
            reveal_strlit("22008");
            reveal_strlit("22023");
            reveal_strlit("22P02");
            reveal_strlit("25P02");
            assert("25P02"@[0] != "00000"@[0]);
            assert("25P02"@[0] != "01000"@[0]);
            assert("25P02"@[0] != "0A000"@[0]);
            assert("25P02"@[1] != "22P02"@[1]);
            assert("25P02"@[1] != "22008"@[1]);
            assert("25P02"@[1] != "22023"@[1]);
        },
        SqlState::InvalidPassword => {
            reveal_strlit("00000");
            reveal_strlit("01000");
            reveal_strlit("0A000");
            reveal_strlit("22008");
            reveal_strlit("22023");
            reveal_strlit("22P02");
            reveal_strlit("25P02");
            reveal_strlit("28P01");
            assert("28P01"@[0] != "00000"@[0]);
            assert("28P01"@[0] != "01000"@[0]);
            assert("28P01"@[0] != "0A000"@[0]);
            assert("28P01"@[1] != "22P02"@[1]);
            assert("28P01"@[1] != "22008"@[1]);
            assert("28P01"@[1] != "22023"@[1]);
            assert("28P01"@[1] != "25P02"@[1]);
        },
        SqlState::InvalidAuth => {
            reveal_strlit("00000");
            reveal_strlit("01000");
            reveal_strlit("0A000");
            reveal_strlit("22008");
            reveal_strlit("22023");
            reveal_strlit("22P02");
            reveal_strlit("25P02");
            reveal_strlit("28000");
            reveal_strlit("28P01");
            assert("28000"@[0] != "00000"@[0]);
            assert("28000"@[0] != "01000"@[0]);
            assert("28000"@[0] != "0A000"@[0]);
            assert("28000"@[1] != "22P02"@[1]);
            assert("28000"@[1] != "22008"@[1]);
            assert("28000"@[1] != "22023"@[1]);
            assert("28000"@[1] != "25P02"@[1]);
            assert("28000"@[2] != "28P01"@[2]);
        },
        SqlState::DatabaseDoesNotExist => {
            reveal_strlit("00000");
            reveal_strlit("01000");
            reveal_strlit("0A000");
            reveal_strlit("22008");
            reveal_strlit("22023");
            reveal_strlit("22P02");
            reveal_strlit("25P02");
            reveal_strlit("28000");
            reveal_strlit("28P01");
            reveal_strlit("3D000");
            assert("3D000"@[0] != "00000"@[0]);
            assert("3D000"@[0] != "01000"@[0]);
            assert("3D000"@[0] != "0A000"@[0]);
            assert("3D000"@[0] != "22P02"@[0]);
            assert("3D000"@[0] != "22008"@[0]);
            assert("3D000"@[0] != "22023"@[0]);
            assert("3D000"@[0] != "25P02"@[0]);
            assert("3D000"@[0] != "28P01"@[0]);
            assert("3D000"@[0] != "28000"@[0]);
        },
        SqlState::SchemaDoesNotExist => {
            reveal_strlit("00000");
            reveal_strlit("01000");
            reveal_strlit("0A000");
            reveal_strlit("22008");
            reveal_strlit("22023");
            reveal_strlit("22P02");
            reveal_strlit("25P02");
            reveal_strlit("28000");
            reveal_strlit("28P01");
            reveal_strlit("3D000");
            reveal_strlit("3F000");
            assert("3F000"@[0] != "00000"@[0]);
            assert("3F000"@[0] != "01000"@[0]);
            assert("3F000"@[0] != "0A000"@[0]);
            assert("3F000"@[0] != "22P02"@[0]);
            assert("3F000"@[0] != "22008"@[0]);
            assert("3F000"@[0] != "22023"@[0]);
            assert("3F000"@[0] != "25P02"@[0]);
            assert("3F000"@[0] != "28P01"@[0]);
            assert("3F000"@[0] != "28000"@[0]);
            assert("3F000"@[1] != "3D000"@[1]);
        },
        SqlState::SyntaxError => {
            reveal_strlit("00000");
            reveal_strlit("01000");
            reveal_strlit("0A000");
            reveal_strlit("22008");
            reveal_strlit("22023");
            reveal_strlit("22P02");
            reveal_strlit("25P02");
            reveal_strlit("28000");
            reveal_strlit("28P01");
            reveal_strlit("3D000");
            reveal_strlit("3F000");
            reveal_strlit("42601");
            assert("42601"@[0] != "00000"@[0]);
            assert("42601"@[0] != "01000"@[0]);
            assert("42601"@[0] != "0A000"@[0]);
            assert("42601"@[0] != "22P02"@[0]);
            assert("42601"@[0] != "22008"@[0]);
            assert("42601"@[0] != "22023"@[0]);
            assert("42601"@[0] != "25P02"@[0]);
            assert("42601"@[0] != "28P01"@[0]);
            assert("42601"@[0] != "28000"@[0]);
            assert("42601"@[0] != "3D000"@[0]);
            assert("42601"@[0] != "3F000"@[0]);
        },
        SqlState::UndefinedTable => {
            reveal_strlit("00000");
            reveal_strlit("01000");
            reveal_strlit("0A000");
            reveal_strlit("22008");
            reveal_strlit("22023");
            reveal_strlit("22P02");
            reveal_strlit("25P02");
            reveal_strlit("28000");
            reveal_strlit("28P01");
            reveal_strlit("3D000");
            reveal_strlit("3F000");
            reveal_strlit("42601");
            reveal_strlit("42P01");
            assert("42P01"@[0] != "00000"@[0]);
            assert("42P01"@[0] != "01000"@[0]);
            assert("42P01"@[0] != "0A000"@[0]);
            assert("42P01"@[0] != "22P02"@[0]);
            assert("42P01"@[0] != "22008"@[0]);
            assert("42P01"@[0] != "22023"@[0]);
            assert("42P01"@[0] != "25P02"@[0]);
            assert("42P01"@[0] != "28P01"@[0]);
            assert("42P01"@[0] != "28000"@[0]);
            assert("42P01"@[0] != "3D000"@[0]);
            assert("42P01"@[0] != "3F000"@[0]);
            assert("42P01"@[2] != "42601"@[2]);
        },
        SqlState::UndefinedColumn => {
            reveal_strlit("00000");
            reveal_strlit("01000");
            reveal_strlit("0A000");
            reveal_strlit("22008");
            reveal_strlit("22023");
            reveal_strlit("22P02");
            reveal_strlit("25P02");
            reveal_strlit("28000");
            reveal_strlit("28P01");
            reveal_strlit("3D000");
            reveal_strlit("3F000");
            reveal_strlit("42601");
            reveal_strlit("42703");
            reveal_strlit("42P01");
            assert("42703"@[0] != "00000"@[0]);
            assert("42703"@[0] != "01000"@[0]);
            assert("42703"@[0] != "0A000"@[0]);
            assert("42703"@[0] != "22P02"@[0]);
            assert("42703"@[0] != "22008"@[0]);
            assert("42703"@[0] != "22023"@[0]);
            assert("42703"@[0] != "25P02"@[0]);
            assert("42703"@[0] != "28P01"@[0]);
            assert("42703"@[0] != "28000"@[0]);
            assert("42703"@[0] != "3D000"@[0]);
            assert("42703"@[0] != "3F000"@[0]);
            assert("42703"@[2] != "42601"@[2]);
            assert("42703"@[2] != "42P01"@[2]);
        },
        SqlState::UndefinedFunction => {
            reveal_strlit("00000");
            reveal_strlit("01000");
            reveal_strlit("0A000");
            reveal_strlit("22008");
            reveal_strlit("22023");
            reveal_strlit("22P02");
            reveal_strlit("25P02");
            reveal_strlit("28000");
            reveal_strlit("28P01");
            reveal_strlit("3D000");
            reveal_strlit("3F000");
            reveal_strlit("42601");
            reveal_strlit("42703");
            reveal_strlit("42883");
            reveal_strlit("42P01");
            assert("42883"@[0] != "00000"@[0]);
            assert("42883"@[0] != "01000"@[0]);
            assert("42883"@[0] != "0A000"@[0]);
            assert("42883"@[0] != "22P02"@[0]);
            assert("42883"@[0] != "22008"@[0]);
            assert("42883"@[0] != "22023"@[0]);
            assert("42883"@[0] != "25P02"@[0]);
            assert("42883"@[0] != "28P01"@[0]);
            assert("42883"@[0] != "28000"@[0]);
            assert("42883"@[0] != "3D000"@[0]);
            assert("42883"@[0] != "3F000"@[0]);
            assert("42883"@[2] != "42601"@[2]);
            assert("42883"@[2] != "42P01"@[2]);
            assert("42883"@[2] != "42703"@[2]);
        },
        SqlState::UndefinedObject => {
            reveal_strlit("00000");
            reveal_strlit("01000");
            reveal_strlit("0A000");
            reveal_strlit("22008");
            reveal_strlit("22023");
            reveal_strlit("22P02");
            reveal_strlit("25P02");
            reveal_strlit("28000");
            reveal_strlit("28P01");
            reveal_strlit("3D000");
            reveal_strlit("3F000");
            reveal_strlit("42601");
            reveal_strlit("42703");
            reveal_strlit("42704");
            reveal_strlit("42883");
            reveal_strlit("42P01");
            assert("42704"@[0] != "00000"@[0]);
            assert("42704"@[0] != "01000"@[0]);
            assert("42704"@[0] != "0A000"@[0]);
            assert("42704"@[0] != "22P02"@[0]);
            assert("42704"@[0] != "22008"@[0]);
            assert("42704"@[0] != "22023"@[0]);
            assert("42704"@[0] != "25P02"@[0]);
            assert("42704"@[0] != "28P01"@[0]);
            assert("42704"@[0] != "28000"@[0]);
            assert("42704"@[0] != "3D000"@[0]);
            assert("42704"@[0] != "3F000"@[0]);
            assert("42704"@[2] != "42601"@[2]);
            assert("42704"@[2] != "42P01"@[2]);
            assert("42704"@[4] != "42703"@[4]);
            assert("42704"@[2] != "42883"@[2]);
        },
        SqlState::UndefinedParameter => {
            reveal_strlit("00000");
            reveal_strlit("01000");
            reveal_strlit("0A000");
            reveal_strlit("22008");
            reveal_strlit("22023");
            reveal_strlit("22P02");
            reveal_strlit("25P02");
            reveal_strlit("28000");
            reveal_strlit("28P01");
            reveal_strlit("3D000");
            reveal_strlit("3F000");
            reveal_strlit("42601");
            reveal_strlit("42703");
            reveal_strlit("42704");
            reveal_strlit("42883");
            reveal_strlit("42P01");
            reveal_strlit("42P02");
            assert("42P02"@[0] != "00000"@[0]);
            assert("42P02"@[0] != "01000"@[0]);
            assert("42P02"@[0] != "0A000"@[0]);
            assert("42P02"@[0] != "22P02"@[0]);
            assert("42P02"@[0] != "22008"@[0]);
            assert("42P02"@[0] != "22023"@[0]);
            assert("42P02"@[0] != "25P02"@[0]);
            assert("42P02"@[0] != "28P01"@[0]);
            assert("42P02"@[0] != "28000"@[0]);
            assert("42P02"@[0] != "3D000"@[0]);
            assert("42P02"@[0] != "3F000"@[0]);
            assert("42P02"@[2] != "42601"@[2]);
            assert("42P02"@[4] != "42P01"@[4]);
            assert("42P02"@[2] != "42703"@[2]);
            assert("42P02"@[2] != "42883"@[2]);
            assert("42P02"@[2] != "42704"@[2]);
        },
        SqlState::InsufficientPrivilege => {
            reveal_strlit("00000");
            reveal_strlit("01000");
            reveal_strlit("0A000");
            reveal_strlit("22008");
            reveal_strlit("22023");
            reveal_strlit("22P02");
            reveal_strlit("25P02");
            reveal_strlit("28000");
            reveal_strlit("28P01");
            reveal_strlit("3D000");
            reveal_strlit("3F000");
            reveal_strlit("42501");
            reveal_strlit("42601");
            reveal_strlit("42703");
            reveal_strlit("42704");
            reveal_strlit("42883");
            reveal_strlit("42P01");
            reveal_strlit("42P02");
            assert("42501"@[0] != "00000"@[0]);
            assert("42501"@[0] != "01000"@[0]);
            assert("42501"@[0] != "0A000"@[0]);
            assert("42501"@[0] != "22P02"@[0]);
            assert("42501"@[0] != "22008"@[0]);
            assert("42501"@[0] != "22023"@[0]);
            assert("42501"@[0] != "25P02"@[0]);
            assert("42501"@[0] != "28P01"@[0]);
            assert("42501"@[0] != "28000"@[0]);
            assert("42501"@[0] != "3D000"@[0]);
            assert("42501"@[0] != "3F000"@[0]);
            assert("42501"@[2] != "42601"@[2]);
            assert("42501"@[2] != "42P01"@[2]);
            assert("42501"@[2] != "42703"@[2]);
            assert("42501"@[2] != "42883"@[2]);
            assert("42501"@[2] != "42704"@[2]);
            assert("42501"@[2] != "42P02"@[2]);
        },
        SqlState::DuplicateTable => {
            reveal_strlit("00000");
            reveal_strlit("01000");
            reveal_strlit("0A000");
            reveal_strlit("22008");
            reveal_strlit("22023");
            reveal_strlit("22P02");
            reveal_strlit("25P02");
            reveal_strlit("28000");
            reveal_strlit("28P01");
            reveal_strlit("3D000");
            reveal_strlit("3F000");
            reveal_strlit("42501");
            reveal_strlit("42601");
            reveal_strlit("42703");
            reveal_strlit("42704");
            reveal_strlit("42883");
            reveal_strlit("42P01");
            reveal_strlit("42P02");
            reveal_strlit("42P07");
            assert("42P07"@[0] != "00000"@[0]);
            assert("42P07"@[0] != "01000"@[0]);
            assert("42P07"@[0] != "0A000"@[0]);
            assert("42P07"@[0] != "22P02"@[0]);
            assert("42P07"@[0] != "22008"@[0]);
            assert("42P07"@[0] != "22023"@[0]);
            assert("42P07"@[0] != "25P02"@[0]);
            assert("42P07"@[0] != "28P01"@[0]);
            assert("42P07"@[0] != "28000"@[0]);
            assert("42P07"@[0] != "3D000"@[0]);
            assert("42P07"@[0] != "3F000"@[0]);
            assert("42P07"@[2] != "42601"@[2]);
            assert("42P07"@[4] != "42P01"@[4]);
            assert("42P07"@[2] != "42703"@[2]);
            assert("42P07"@[2] != "42883"@[2]);
            assert("42P07"@[2] != "42704"@[2]);
            assert("42P07"@[4] != "42P02"@[4]);
            assert("42P07"@[2] != "42501"@[2]);
        },
        SqlState::TooManyConnections => {
            reveal_strlit("00000");
            reveal_strlit("01000");
            reveal_strlit("0A000");
            reveal_strlit("22008");
            reveal_strlit("22023");
            reveal_strlit("22P02");
            reveal_strlit("25P02");
            reveal_strlit("28000");
            reveal_strlit("28P01");
            reveal_strlit("3D000");
            reveal_strlit("3F000");
            reveal_strlit("42501");
            reveal_strlit("42601");
            reveal_strlit("42703");
            reveal_strlit("42704");
            reveal_strlit("42883");
            reveal_strlit("42P01");
            reveal_strlit("42P02");
            reveal_strlit("42P07");
            reveal_strlit("53300");
            assert("53300"@[0] != "00000"@[0]);
            assert("53300"@[0] != "01000"@[0]);
            assert("53300"@[0] != "0A000"@[0]);
            assert("53300"@[0] != "22P02"@[0]);
            assert("53300"@[0] != "22008"@[0]);
            assert("53300"@[0] != "22023"@[0]);
            assert("53300"@[0] != "25P02"@[0]);
            assert("53300"@[0] != "28P01"@[0]);
            assert("53300"@[0] != "28000"@[0]);
            assert("53300"@[0] != "3D000"@[0]);
            assert("53300"@[0] != "3F000"@[0]);
            assert("53300"@[0] != "42601"@[0]);
            assert("53300"@[0] != "42P01"@[0]);
            assert("53300"@[0] != "42703"@[0]);
            assert("53300"@[0] != "42883"@[0]);
            assert("53300"@[0] != "42704"@[0]);
            assert("53300"@[0] != "42P02"@[0]);
            assert("53300"@[0] != "42501"@[0]);
            assert("53300"@[0] != "42P07"@[0]);
        },
        SqlState::ConfigurationLimitExceeded => {
            reveal_strlit("00000");
            reveal_strlit("01000");
            reveal_strlit("0A000");
            reveal_strlit("22008");
            reveal_strlit("22023");
            reveal_strlit("22P02");
            reveal_strlit("25P02");
            reveal_strlit("28000");
            reveal_strlit("28P01");
            reveal_strlit("3D000");
            reveal_strlit("3F000");
            reveal_strlit("42501");
            reveal_strlit("42601");
            reveal_strlit("42703");
            reveal_strlit("42704");
            reveal_strlit("42883");
            reveal_strlit("42P01");
            reveal_strlit("42P02");
            reveal_strlit("42P07");
            reveal_strlit("53300");
            reveal_strlit("53400");
            assert("53400"@[0] != "00000"@[0]);
            assert("53400"@[0] != "01000"@[0]);
            assert("53400"@[0] != "0A000"@[0]);
            assert("53400"@[0] != "22P02"@[0]);
            assert("53400"@[0] != "22008"@[0]);
            assert("53400"@[0] != "22023"@[0]);
            assert("53400"@[0] != "25P02"@[0]);
            assert("53400"@[0] != "28P01"@[0]);
            assert("53400"@[0] != "28000"@[0]);
            assert("53400"@[0] != "3D000"@[0]);
            assert("53400"@[0] != "3F000"@[0]);
            assert("53400"@[0] != "42601"@[0]);
            assert("53400"@[0] != "42P01"@[0]);
            assert("53400"@[0] != "42703"@[0]);
            assert("53400"@[0] != "42883"@[0]);
            assert("53400"@[0] != "42704"@[0]);
            assert("53400"@[0] != "42P02"@[0]);
            assert("53400"@[0] != "42501"@[0]);
            assert("53400"@[0] != "42P07"@[0]);
            assert("53400"@[2] != "53300"@[2]);
        },
        SqlState::QueryCanceled => {
            reveal_strlit("00000");
            reveal_strlit("01000");
            reveal_strlit("0A000");
            reveal_strlit("22008");
            reveal_strlit("22023");
            reveal_strlit("22P02");
            reveal_strlit("25P02");
            reveal_strlit("28000");
            reveal_strlit("28P01");
            reveal_strlit("3D000");
            reveal_strlit("3F000");
            reveal_strlit("42501");
            reveal_strlit("42601");
            reveal_strlit("42703");
            reveal_strlit("42704");
            reveal_strlit("42883");
            reveal_strlit("42P01");
            reveal_strlit("42P02");
            reveal_strlit("42P07");
            reveal_strlit("53300");
            reveal_strlit("53400");
            reveal_strlit("57014");
            assert("57014"@[0] != "00000"@[0]);
            assert("57014"@[0] != "01000"@[0]);
            assert("57014"@[0] != "0A000"@[0]);
            assert("57014"@[0] != "22P02"@[0]);
            assert("57014"@[0] != "22008"@[0]);
            assert("57014"@[0] != "22023"@[0]);
            assert("57014"@[0] != "25P02"@[0]);
            assert("57014"@[0] != "28P01"@[0]);
            assert("57014"@[0] != "28000"@[0]);
            assert("57014"@[0] != "3D000"@[0]);
            assert("57014"@[0] != "3F000"@[0]);
            assert("57014"@[0] != "42601"@[0]);
            assert("57014"@[0] != "42P01"@[0]);
            assert("57014"@[0] != "42703"@[0]);
            assert("57014"@[0] != "42883"@[0]);
            assert("57014"@[0] != "42704"@[0]);
            assert("57014"@[0] != "42P02"@[0]);
            assert("57014"@[0] != "42501"@[0]);
            assert("57014"@[0] != "42P07"@[0]);
            assert("57014"@[1] != "53300"@[1]);
            assert("57014"@[1] != "53400"@[1]);
        },
        SqlState::AdminShutdown => {
            reveal_strlit("00000");
            reveal_strlit("01000");
            reveal_strlit("0A000");
            reveal_strlit("22008");
            reveal_strlit("22023");
            reveal_strlit("22P02");
            reveal_strlit("25P02");
            reveal_strlit("28000");
            reveal_strlit("28P01");
            reveal_strlit("3D000");
            reveal_strlit("3F000");
            reveal_strlit("42501");
            reveal_strlit("42601");
            reveal_strlit("42703");
            reveal_strlit("42704");
            reveal_strlit("42883");
            reveal_strlit("42P01");
            reveal_strlit("42P02");
            reveal_strlit("42P07");
            reveal_strlit("53300");
            reveal_strlit("53400");
            reveal_strlit("57014");
            reveal_strlit("57P01");
            assert("57P01"@[0] != "00000"@[0]);
            assert("57P01"@[0] != "01000"@[0]);
            assert("57P01"@[0] != "0A000"@[0]);
            assert("57P01"@[0] != "22P02"@[0]);
            assert("57P01"@[0] != "22008"@[0]);
            assert("57P01"@[0] != "22023"@[0]);
            assert("57P01"@[0] != "25P02"@[0]);
            assert("57P01"@[0] != "28P01"@[0]);
            assert("57P01"@[0] != "28000"@[0]);
            assert("57P01"@[0] != "3D000"@[0]);
            assert("57P01"@[0] != "3F000"@[0]);
            assert("57P01"@[0] != "42601"@[0]);
            assert("57P01"@[0] != "42P01"@[0]);
            assert("57P01"@[0] != "42703"@[0]);
            assert("57P01"@[0] != "42883"@[0]);
            assert("57P01"@[0] != "42704"@[0]);
            assert("57P01"@[0] != "42P02"@[0]);
            assert("57P01"@[0] != "42501"@[0]);
            assert("57P01"@[0] != "42P07"@[0]);
            assert("57P01"@[1] != "53300"@[1]);
            assert("57P01"@[1] != "53400"@[1]);
            assert("57P01"@[2] != "57014"@[2]);
        },
        SqlState::InternalError => {
            reveal_strlit("00000");
            reveal_strlit("01000");
            reveal_strlit("0A000");
            reveal_strlit("22008");
            reveal_strlit("22023");
            reveal_strlit("22P02");
            reveal_strlit("25P02");
            reveal_strlit("28000");
            reveal_strlit("28P01");
            reveal_strlit("3D000");
            reveal_strlit("3F000");
            reveal_strlit("42501");
            reveal_strlit("42601");
            reveal_strlit("42703");
            reveal_strlit("42704");
            reveal_strlit("42883");
            reveal_strlit("42P01");
            reveal_strlit("42P02");
            reveal_strlit("42P07");
            reveal_strlit("53300");
            reveal_strlit("53400");
            reveal_strlit("57014");
            reveal_strlit("57P01");
            reveal_strlit("XX000");
            assert("XX000"@[0] != "00000"@[0]);
            assert("XX000"@[0] != "01000"@[0]);
            assert("XX000"@[0] != "0A000"@[0]);
            assert("XX000"@[0] != "22P02"@[0]);
            assert("XX000"@[0] != "22008"@[0]);
            assert("XX000"@[0] != "22023"@[0]);
            assert("XX000"@[0] != "25P02"@[0]);
            assert("XX000"@[0] != "28P01"@[0]);
            assert("XX000"@[0] != "28000"@[0]);
            assert("XX000"@[0] != "3D000"@[0]);
            assert("XX000"@[0] != "3F000"@[0]);
            assert("XX000"@[0] != "42601"@[0]);
            assert("XX000"@[0] != "42P01"@[0]);
            assert("XX000"@[0] != "42703"@[0]);
            assert("XX000"@[0] != "42883"@[0]);
            assert("XX000"@[0] != "42704"@[0]);
            assert("XX000"@[0] != "42P02"@[0]);
            assert("XX000"@[0] != "42501"@[0]);
            assert("XX000"@[0] != "42P07"@[0]);
            assert("XX000"@[0] != "53300"@[0]);
            assert("XX000"@[0] != "53400"@[0]);
            assert("XX000"@[0] != "57014"@[0]);
            assert("XX000"@[0] != "57P01"@[0]);
        },
    }
}

/// Every SQLSTATE code is five digits or upper-case letters, and names its
/// state alone: distinct states have distinct codes.
pub proof fn lemma_sqlstate_codes(a: SqlState, b: SqlState)
    ensures
        a.code().len() == 5,
        forall|i: int| 0 <= i < 5 ==> is_code_char(#[trigger] a.code()[i]),
        from_code(a.code()) == Some(a),
        a != b ==> a.code() != b.code(),
{
    reveal_strlit("00000");
    reveal_strlit("01000");
    reveal_strlit("0A000");
    reveal_strlit("22P02");
    reveal_strlit("22008");
    reveal_strlit("22023");
    reveal_strlit("25P02");
    reveal_strlit("28P01");
    reveal_strlit("28000");
    reveal_strlit("3D000");
    reveal_strlit("3F000");
    reveal_strlit("42601");
    reveal_strlit("42P01");
    reveal_strlit("42703");
    reveal_strlit("42883");
    reveal_strlit("42704");
    reveal_strlit("42P02");
    reveal_strlit("42501");
    reveal_strlit("42P07");
    reveal_strlit("53300");
    reveal_strlit("53400");
    reveal_strlit("57014");
    reveal_strlit("57P01");
    reveal_strlit("XX000");
    lemma_code_names_state(a);
    lemma_code_names_state(b);
}

/// Severity of a notice, from least to most severe (declaration order).
#[derive(Debug, Clone, Copy, PartialEq, Eq, Structural, Ord)]
pub enum NoticeSeverity {
    Debug5,
    Debug4,
    Debug3,
    Debug2,
    Debug1,
    Log,
    Notice,
    Warning,
    Error,
    Info,
}

impl NoticeSeverity {
    /// Position in declaration order; the derived ordering compares by it.
    pub open spec fn rank(self) -> int {
        match self {
            NoticeSeverity::Debug5 => 0,
            NoticeSeverity::Debug4 => 1,
            NoticeSeverity::Debug3 => 2,
            NoticeSeverity::Debug2 => 3,
            NoticeSeverity::Debug1 => 4,
            NoticeSeverity::Log => 5,
            NoticeSeverity::Notice => 6,
            NoticeSeverity::Warning => 7,
            NoticeSeverity::Error => 8,
            NoticeSeverity::Info => 9,
        }
    }

    /// The upper-case name sent on the wire.
    pub open spec fn name(self) -> Seq<char> {
        match self {
            NoticeSeverity::Debug5 => "DEBUG5"@,
            NoticeSeverity::Debug4 => "DEBUG4"@,
            NoticeSeverity::Debug3 => "DEBUG3"@,
            NoticeSeverity::Debug2 => "DEBUG2"@,
            NoticeSeverity::Debug1 => "DEBUG1"@,
            NoticeSeverity::Log => "LOG"@,
            NoticeSeverity::Notice => "NOTICE"@,
            NoticeSeverity::Warning => "WARNING"@,
            NoticeSeverity::Error => "ERROR"@,
            NoticeSeverity::Info => "INFO"@,
        }
    }

    /// The severity whose name is exactly `s`, if any.
    pub open spec fn from_name(s: Seq<char>) -> Option<NoticeSeverity> {
        if s == "DEBUG5"@ {
            Some(NoticeSeverity::Debug5)
        } else if s == "DEBUG4"@ {
            Some(NoticeSeverity::Debug4)
        } else if s == "DEBUG3"@ {
            Some(NoticeSeverity::Debug3)
        } else if s == "DEBUG2"@ {
            Some(NoticeSeverity::Debug2)
        } else if s == "DEBUG1"@ {
            Some(NoticeSeverity::Debug1)
        } else if s == "LOG"@ {
            Some(NoticeSeverity::Log)
        } else if s == "NOTICE"@ {
            Some(NoticeSeverity::Notice)
        } else if s == "WARNING"@ {
            Some(NoticeSeverity::Warning)
        } else if s == "ERROR"@ {
            Some(NoticeSeverity::Error)
        } else if s == "INFO"@ {
            Some(NoticeSeverity::Info)
        } else {
            None
        }
    }

    pub fn as_str(&self) -> (r: &'static str)
        ensures
            r@ == self.name(),
    {
        match self {
            NoticeSeverity::Debug5 => "DEBUG5",
            NoticeSeverity::Debug4 => "DEBUG4",
            NoticeSeverity::Debug3 => "DEBUG3",
            NoticeSeverity::Debug2 => "DEBUG2",
            NoticeSeverity::Debug1 => "DEBUG1",
            NoticeSeverity::Log => "LOG",
            NoticeSeverity::Notice => "NOTICE",
            NoticeSeverity::Warning => "WARNING",
            NoticeSeverity::Error => "ERROR",
            NoticeSeverity::Info => "INFO",
        }
    }

    /// Parses an exact, upper-case severity name.
    pub fn from_str(s: &str) -> (r: Result<NoticeSeverity, ReprError>)
        ensures
            NoticeSeverity::from_name(s@) matches Some(sev) ==> r == Ok::<NoticeSeverity, ReprError>(sev),
            NoticeSeverity::from_name(s@) is None ==> (r matches Err(ReprError::String(m))
                && m@ == "unknown notice severity: "@ + s@),
    {
        if str_eq(s, "DEBUG5") {
            Ok(NoticeSeverity::Debug5)
        } else if str_eq(s, "DEBUG4") {
            Ok(NoticeSeverity::Debug4)
        } else if str_eq(s, "DEBUG3") {
            Ok(NoticeSeverity::Debug3)
        } else if str_eq(s, "DEBUG2") {
            Ok(NoticeSeverity::Debug2)
        } else if str_eq(s, "DEBUG1") {
            Ok(NoticeSeverity::Debug1)
        } else if str_eq(s, "LOG") {
            Ok(NoticeSeverity::Log)
        } else if str_eq(s, "NOTICE") {
            Ok(NoticeSeverity::Notice)
        } else if str_eq(s, "WARNING") {
            Ok(NoticeSeverity::Warning)
        } else if str_eq(s, "ERROR") {
            Ok(NoticeSeverity::Error)
        } else if str_eq(s, "INFO") {
            Ok(NoticeSeverity::Info)
        } else {
            let msg = String::from_str("unknown notice severity: ").concat(s);
            Err(ReprError::String(msg))
        }
    }
}

/// The order of two ranks.
pub open spec fn rank_order(a: int, b: int) -> Ordering {
    if a < b {
        Ordering::Less
    } else if a == b {
        Ordering::Equal
    } else {
        Ordering::Greater
    }
}

/// Severities compare by rank, so that a notice can be tested against a
/// configured minimum with `>=`.
impl PartialOrd for NoticeSeverity {
    fn partial_cmp(&self, other: &NoticeSeverity) -> (r: Option<Ordering>) {
        let a = self.rank_exec();
        let b = other.rank_exec();
        if a < b {
            Some(Ordering::Less)
        } else if a == b {
            Some(Ordering::Equal)
        } else {
            Some(Ordering::Greater)
        }
    }
}

impl PartialOrdSpecImpl for NoticeSeverity {
    open spec fn obeys_partial_cmp_spec() -> bool {
        true
    }

    open spec fn partial_cmp_spec(&self, other: &NoticeSeverity) -> Option<Ordering> {
        Some(rank_order(self.rank(), other.rank()))
    }
}

impl NoticeSeverity {
    /// Position in declaration order.
    fn rank_exec(&self) -> (r: u8)
        ensures
            r == self.rank(),
    {
        match self {
            NoticeSeverity::Debug5 => 0,
            NoticeSeverity::Debug4 => 1,
            NoticeSeverity::Debug3 => 2,
            NoticeSeverity::Debug2 => 3,
            NoticeSeverity::Debug1 => 4,
            NoticeSeverity::Log => 5,
            NoticeSeverity::Notice => 6,
            NoticeSeverity::Warning => 7,
            NoticeSeverity::Error => 8,
            NoticeSeverity::Info => 9,
        }
    }
}

/// Severities are ordered as declared, from `DEBUG5` up to `INFO`: a
/// severity is at least `WARNING` exactly when it is `WARNING`, `ERROR` or
/// `INFO`.
pub proof fn lemma_severity_order(a: NoticeSeverity, b: NoticeSeverity)
    ensures
        PartialOrdSpec::partial_cmp_spec(&a, &b) == Some(rank_order(a.rank(), b.rank())),
        (PartialOrdSpec::partial_cmp_spec(&a, &NoticeSeverity::Warning) != Some(Ordering::Less))
            <==> (a == NoticeSeverity::Warning || a == NoticeSeverity::Error || a
            == NoticeSeverity::Info),
        PartialOrdSpec::partial_cmp_spec(&a, &b) == Some(Ordering::Equal) <==> a == b,
{
}

/// Parsing the name of a severity gives the severity back, and distinct
/// severities have distinct names.
pub proof fn lemma_notice_severity_name_round_trip(sev: NoticeSeverity)
    ensures
        NoticeSeverity::from_name(sev.name()) == Some(sev),
        forall|other: NoticeSeverity| other.name() == sev.name() ==> other == sev,
{
    reveal_strlit("DEBUG5");
    reveal_strlit("DEBUG4");
    reveal_strlit("DEBUG3");
    reveal_strlit("DEBUG2");
    reveal_strlit("DEBUG1");
    reveal_strlit("LOG");
    reveal_strlit("NOTICE");
    reveal_strlit("WARNING");
    reveal_strlit("ERROR");
    reveal_strlit("INFO");
    assert("DEBUG5"@.len() == 6 && "DEBUG5"@[0] == 'D' && "DEBUG5"@[5] == '5');
    assert("DEBUG4"@.len() == 6 && "DEBUG4"@[0] == 'D' && "DEBUG4"@[5] == '4');
    assert("DEBUG3"@.len() == 6 && "DEBUG3"@[0] == 'D' && "DEBUG3"@[5] == '3');
    assert("DEBUG2"@.len() == 6 && "DEBUG2"@[0] == 'D' && "DEBUG2"@[5] == '2');
    assert("DEBUG1"@.len() == 6 && "DEBUG1"@[0] == 'D' && "DEBUG1"@[5] == '1');
    assert("LOG"@.len() == 3 && "LOG"@[0] == 'L');
    assert("NOTICE"@.len() == 6 && "NOTICE"@[0] == 'N' && "NOTICE"@[5] == 'E');
    assert("WARNING"@.len() == 7 && "WARNING"@[0] == 'W' && "WARNING"@[5] == 'N');
    assert("ERROR"@.len() == 5 && "ERROR"@[0] == 'E');
    assert("INFO"@.len() == 4 && "INFO"@[0] == 'I');
}

/// A notice that should be displayed to the user.
#[derive(Debug, Clone)]
pub struct Notice {
    pub severity: NoticeSeverity,
    pub code: SqlState,
    pub message: String,
}

impl Notice {
    pub fn info(msg: String) -> (n: Notice)
        ensures
            n.severity == NoticeSeverity::Info,
            n.code == SqlState::Successful,
            n.message@ == msg@,
    {
        Notice { severity: NoticeSeverity::Info, code: SqlState::Successful, message: msg }
    }

    pub fn warning(msg: String) -> (n: Notice)
        ensures
            n.severity == NoticeSeverity::Warning,
            n.code == SqlState::Warning,
            n.message@ == msg@,
    {
        Notice { severity: NoticeSeverity::Warning, code: SqlState::Warning, message: msg }
    }
}

impl std::str::FromStr for NoticeSeverity {
    type Err = ReprError;

    fn from_str(s: &str) -> (r: Result<Self, Self::Err>)
        ensures
            NoticeSeverity::from_name(s@) matches Some(sev) ==> r == Ok::<NoticeSeverity, ReprError>(sev),
            NoticeSeverity::from_name(s@) is None ==> (r matches Err(ReprError::String(m))
                && m@ == "unknown notice severity: "@ + s@),
    {
        NoticeSeverity::from_str(s)
    }
}

} // verus!
