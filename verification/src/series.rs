use vstd::prelude::*;

verus! {

/// The championship categories the ingester follows, in the fixed
/// order a cycle processes them.
#[derive(Clone, Copy, PartialEq, Eq, Structural, Debug, Hash)]
pub enum Series {
    F1,
    F2,
    F3,
}

impl Series {
    /// The fixed lowercase token a series serializes to.
    pub open spec fn token_spec(self) -> Seq<char> {
        match self {
            Series::F1 => "f1"@,
            Series::F2 => "f2"@,
            Series::F3 => "f3"@,
        }
    }

    /// The series a stored token decodes to.  An unknown token falls
    /// back to `F1`; that fallback is deliberate, not an error.
    pub open spec fn decode_spec(s: Seq<char>) -> Series {
        if s == "f1"@ || s == "F1"@ {
            Series::F1
        } else if s == "f2"@ || s == "F2"@ {
            Series::F2
        } else if s == "f3"@ || s == "F3"@ {
            Series::F3
        } else {
            Series::F1
        }
    }

    /// Writes the series as its lowercase token.
    pub fn fmt(&self) -> (r: String)
        ensures
            r@ == self.token_spec(),
    {
        match self {
            Series::F1 => String::from_str("f1"),
            Series::F2 => String::from_str("f2"),
            Series::F3 => String::from_str("f3"),
        }
    }

    /// A series column value is never null.
    pub fn is_null(&self) -> (r: bool)
        ensures
            !r,
    {
        false
    }

    /// The store column type that holds a series token.
    pub fn name(&self) -> (r: &'static str)
        ensures
            r@ == "varchar(3)"@,
    {
        "varchar(3)"
    }
}

impl From<String> for Series {
    fn from(value: String) -> (r: Series) {
        if value == String::from_str("f1") || value == String::from_str("F1") {
            Series::F1
        } else if value == String::from_str("f2") || value == String::from_str("F2") {
            Series::F2
        } else if value == String::from_str("f3") || value == String::from_str("F3") {
            Series::F3
        } else {
            Series::F1
        }
    }
}

impl vstd::std_specs::convert::FromSpecImpl<String> for Series {
    open spec fn obeys_from_spec() -> bool {
        true
    }

    open spec fn from_spec(v: String) -> Series {
        Series::decode_spec(v@)
    }
}

impl From<Series> for String {
    fn from(value: Series) -> (r: String)
        ensures
            r@ == value.token_spec(),
    {
        value.fmt()
    }
}

impl vstd::std_specs::convert::FromSpecImpl<Series> for String {
    open spec fn obeys_from_spec() -> bool {
        false
    }

    open spec fn from_spec(v: Series) -> String {
        arbitrary()
    }
}

} // verus!
