use brt::save_load::{SaveLoadData, SaveLoadDataType};

#[test]
fn data_type_extensions() {
    assert_eq!(SaveLoadDataType::Ron.extension(), "ron");
    assert_eq!(SaveLoadDataType::Toml.extension(), "toml");
}

#[test]
fn data_takes_the_extension_of_its_type() {
    let data = SaveLoadData::new("saves", SaveLoadDataType::Ron, true);
    assert_eq!(data.directory, "saves");
    assert_eq!(data.extension, "ron");
    assert_eq!(data.data_type, SaveLoadDataType::Ron);
    assert!(data.pretty);
    let config = SaveLoadData::new("config", SaveLoadDataType::Toml, false);
    assert_eq!(config.extension, "toml");
    assert!(!config.pretty);
}

#[test]
fn data_with_another_extension() {
    let data = SaveLoadData::new("saves", SaveLoadDataType::Ron, false).with_extension("sav");
    assert_eq!(data.directory, "saves");
    assert_eq!(data.extension, "sav");
    assert_eq!(data.data_type, SaveLoadDataType::Ron);
    assert!(!data.pretty);
}
