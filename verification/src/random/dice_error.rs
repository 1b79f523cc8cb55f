//! What can go wrong when dice notation is read.
use vstd::prelude::*;

verus! {

/// Why a text is no dice notation.
#[derive(Debug, Clone, Copy, PartialEq, Eq, Structural)]
pub enum DiceError {
    /// Invalid dice string
    Unparseable,
    /// Error parsing dice count
    ParseCount,
    /// Error missing dice sides
    MissingSides,
    /// Error parsing dice sides
    ParseSides,
    /// Error parsing dice modifier
    ParseModifier,
}

impl DiceError {
    /// The message of the error.
    pub open spec fn spec_message(self) -> Seq<char> {
        match self {
            DiceError::Unparseable => "Invalid dice string"@,
            DiceError::ParseCount => "Error parsing dice count"@,
            DiceError::MissingSides => "Error missing dice sides"@,
            DiceError::ParseSides => "Error parsing dice sides"@,
            DiceError::ParseModifier => "Error parsing dice modifier"@,
        }
    }

    /// The message of the error.
    pub fn message(&self) -> (message: &'static str)
        ensures
            message@ == self.spec_message(),
    {
        match self {
            DiceError::Unparseable => "Invalid dice string",
            DiceError::ParseCount => "Error parsing dice count",
            DiceError::MissingSides => "Error missing dice sides",
            DiceError::ParseSides => "Error parsing dice sides",
            DiceError::ParseModifier => "Error parsing dice modifier",
        }
    }

    /// The message of the error.
    pub fn to_string(&self) -> (message: String)
        ensures
            message@ == self.spec_message(),
    {
        String::from_str(self.message())
    }
}

} // verus!
