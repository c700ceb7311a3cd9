//! Wire formats of values.
use vstd::prelude::*;

verus! {

/// Format of a value on the wire.
#[derive(Debug, Clone, Copy, PartialEq, Eq, Structural)]
pub enum Format {
    Text,
    Binary,
}

impl Format {
    /// The format code sent in `RowDescription` and read from `Bind`.
    pub open spec fn spec_code(self) -> i16 {
        match self {
            Format::Text => 0,
            Format::Binary => 1,
        }
    }

    pub fn code(self) -> (r: i16)
        ensures
            r == self.spec_code(),
    {
        match self {
            Format::Text => 0,
            Format::Binary => 1,
        }
    }

    /// The format for a wire code; codes other than 0 and 1 are rejected.
    pub fn from_code(code: i16) -> (r: Option<Format>)
        ensures
            r matches Some(f) ==> f.spec_code() == code,
            r is None <==> (code != 0 && code != 1),
    {
        if code == 0 {
            Some(Format::Text)
        } else if code == 1 {
            Some(Format::Binary)
        } else {
            None
        }
    }
}

} // verus!
