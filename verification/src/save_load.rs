//! Where and in which format a value is saved.

pub mod save_load_data;
pub mod save_load_data_type;

pub use self::save_load_data::SaveLoadData;
pub use self::save_load_data_type::SaveLoadDataType;
