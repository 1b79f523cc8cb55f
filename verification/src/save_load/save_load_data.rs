//! The directory, the extension and the format under which a value is saved.
use vstd::prelude::*;
use crate::save_load::save_load_data_type::SaveLoadDataType;

verus! {

/// Where and how the values of a type are saved.
pub struct SaveLoadData {
    pub directory: &'static str,
    pub extension: &'static str,
    pub data_type: SaveLoadDataType,
    pub pretty: bool,
}

impl SaveLoadData {
    /// Data saved in `directory` in the format `data_type`, under the
    /// extension of that format.
    pub fn new(directory: &'static str, data_type: SaveLoadDataType, pretty: bool) -> (data: Self)
        ensures
            data.directory@ == directory@,
            data.extension@ == data_type.spec_extension(),
            data.data_type == data_type,
            data.pretty == pretty,
    {
        Self { directory, data_type, extension: data_type.extension(), pretty }
    }

    /// The same data under another extension.
    pub fn with_extension(self, extension: &'static str) -> (data: Self)
        ensures
            data.directory@ == self.directory@,
            data.extension@ == extension@,
            data.data_type == self.data_type,
            data.pretty == self.pretty,
    {
        let mut data = self;
        data.extension = extension;
        data
    }
}

} // verus!
