use relm4_icons::config::Config;
use relm4_icons::error::BuildError;
use relm4_icons::table::{assemble_icons, DirListing, FileEntry};

fn config_with_folder() -> Config {
    Config {
        app_id: None,
        base_resource_path: None,
        icons_folder: Some("icons".to_owned()),
        icons: None,
    }
}

fn entry(file_name: &str, path: &str) -> FileEntry {
    FileEntry { file_name: file_name.to_owned(), path: path.to_owned() }
}

fn listing(dir: &str, files: &[&str]) -> DirListing {
    DirListing {
        dir: dir.to_owned(),
        file_names: files.iter().map(|f| (*f).to_owned()).collect(),
    }
}

#[test]
fn custom_and_requested_icons_are_assembled() {
    let mut config = config_with_folder();
    config.icons = Some(vec!["zoom-in".to_owned()]);
    let custom = vec![entry("go-next-symbolic.svg", "icons/go-next-symbolic.svg")];
    let shipped = vec![listing("shipped/actions", &["other-symbolic.svg", "zoom-in-symbolic.svg"])];
    let table = assemble_icons(&config, &custom, &shipped).unwrap();
    assert_eq!(table.len(), 2);
    assert_eq!(table.entries.len(), 2);
    assert_eq!(table.entries[0].name, "go-next");
    assert_eq!(table.entries[0].path, "icons/go-next-symbolic.svg");
    assert_eq!(table.entries[1].name, "zoom-in");
    assert_eq!(table.entries[1].path, "shipped/actions/zoom-in-symbolic.svg");
}

#[test]
fn first_matching_directory_wins() {
    let mut config = config_with_folder();
    config.icons = Some(vec!["zoom-in".to_owned()]);
    let custom = Vec::new();
    let shipped = vec![
        listing("first", &["zoom-in-symbolic.svg"]),
        listing("second", &["zoom-in-symbolic.svg"]),
    ];
    let table = assemble_icons(&config, &custom, &shipped).unwrap();
    assert_eq!(table.entries.len(), 1);
    assert_eq!(table.entries[0].path, "first/zoom-in-symbolic.svg");
}

#[test]
fn duplicate_custom_names_fail() {
    let config = config_with_folder();
    let custom = vec![
        entry("a-symbolic.svg", "icons/a-symbolic.svg"),
        entry("a.svg", "icons/a.svg"),
    ];
    let e = assemble_icons(&config, &custom, &Vec::new()).unwrap_err();
    match e {
        BuildError::DuplicateIcon { name } => assert_eq!(name, "a"),
        _ => panic!("expected a duplicate icon error"),
    }
}

#[test]
fn duplicate_across_custom_and_requested_fails() {
    let mut config = config_with_folder();
    config.icons = Some(vec!["zoom-in".to_owned()]);
    let custom = vec![entry("zoom-in-symbolic.svg", "icons/zoom-in-symbolic.svg")];
    let shipped = vec![listing("shipped", &["zoom-in-symbolic.svg"])];
    let e = assemble_icons(&config, &custom, &shipped).unwrap_err();
    match &e {
        BuildError::DuplicateIcon { name } => {
            assert_eq!(name, "zoom-in");
            assert_eq!(e.message(), "Icon with name `zoom-in` exists twice");
        },
        _ => panic!("expected a duplicate icon error"),
    }
}

#[test]
fn requested_icon_missing_everywhere_fails() {
    let mut config = config_with_folder();
    config.icons = Some(vec!["missing".to_owned()]);
    let shipped = vec![listing("shipped", &["zoom-in-symbolic.svg"])];
    let e = assemble_icons(&config, &Vec::new(), &shipped).unwrap_err();
    match &e {
        BuildError::IconNotFound { name } => {
            assert_eq!(name, "missing");
            assert_eq!(e.message(), "Icon missing not found in shipped icons");
        },
        _ => panic!("expected an icon-not-found error"),
    }
}

#[test]
fn missing_icons_folder_fails() {
    let config = Config { app_id: None, base_resource_path: None, icons_folder: None, icons: None };
    let e = assemble_icons(&config, &Vec::new(), &Vec::new()).unwrap_err();
    match e {
        BuildError::MissingIconsFolder => {
            assert_eq!(e.message(), "Could not find icons folder specified in config");
        },
        _ => panic!("expected a missing icons folder error"),
    }
}

#[test]
fn non_icon_file_in_folder_fails() {
    let config = config_with_folder();
    let custom = vec![entry("notes.txt", "icons/notes.txt")];
    let e = assemble_icons(&config, &custom, &Vec::new()).unwrap_err();
    match e {
        BuildError::NonIconFile { file_name } => assert_eq!(file_name, "notes.txt"),
        _ => panic!("expected a non-icon file error"),
    }
}
