//! The formats in which a value can be saved.
use vstd::prelude::*;

verus! {

/// Serialization type
#[derive(Debug, Clone, Copy, PartialEq, Eq, Structural)]
pub enum SaveLoadDataType {
    /// Normally used for objects
    Ron,
    /// Normally used for configurations
    Toml,
}

impl SaveLoadDataType {
    const RON_EXTENSION: &'static str = "ron";

    const TOML_EXTENSION: &'static str = "toml";

    /// The extension of the files of this format.
    pub open spec fn spec_extension(&self) -> Seq<char> {
        match self {
            SaveLoadDataType::Ron => "ron"@,
            SaveLoadDataType::Toml => "toml"@,
        }
    }

    /// The extension of the files of this format.
    pub fn extension(&self) -> (extension: &'static str)
        ensures
            extension@ == self.spec_extension(),
    {
        match self {
            SaveLoadDataType::Ron => Self::RON_EXTENSION,
            SaveLoadDataType::Toml => Self::TOML_EXTENSION,
        }
    }
}

} // verus!
