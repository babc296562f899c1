use relm4_icons::codegen::{const_name, generate_constants};
use relm4_icons::config::{compute_prefix, Config};
use relm4_icons::table::{IconEntry, IconTable};

fn table_of(rows: &[(&str, &str)]) -> IconTable {
    IconTable {
        entries: rows
            .iter()
            .map(|(n, p)| IconEntry { name: (*n).to_owned(), path: (*p).to_owned() })
            .collect(),
    }
}

#[test]
fn constant_name_is_uppercased_with_underscores() {
    assert_eq!(const_name(&"go-next".to_owned()), "GO_NEXT");
    assert_eq!(const_name(&"zoom".to_owned()), "ZOOM");
}

#[test]
fn one_constant_per_icon() {
    let table = table_of(&[("go-next", "p"), ("zoom-in", "q")]);
    let config = Config {
        app_id: None,
        base_resource_path: None,
        icons_folder: Some("icons".to_owned()),
        icons: None,
    };
    let source = generate_constants(&table, &config);
    assert_eq!(source.matches("pub const ").count(), 2);
    assert!(source.contains("pub const GO_NEXT: &str = \"go-next\";"));
    assert!(source.contains("pub const ZOOM_IN: &str = \"zoom-in\";"));
}

#[test]
fn generated_source_text_is_exact() {
    let table = table_of(&[("go-next", "p")]);
    let config = Config {
        app_id: Some("x".to_owned()),
        base_resource_path: None,
        icons_folder: Some("icons".to_owned()),
        icons: None,
    };
    let source = generate_constants(&table, &config);
    let mut expected = String::new();
    expected.push_str("\n            /// Icon name of the icon `go-next`, found at `\"p\"`.");
    expected.push_str("\n            pub const GO_NEXT: &str = \"go-next\";");
    expected.push_str("\n            ");
    expected.push_str("pub(crate) const APP_ID: &str = \"x\";");
    expected.push_str("pub(crate) const BASE_RESOURCE_PATH: &str = \"\";");
    assert_eq!(source, expected);
}

#[test]
fn prefix_from_base_resource_path() {
    let config = Config {
        app_id: None,
        base_resource_path: Some("/com/example/app/".to_owned()),
        icons_folder: None,
        icons: None,
    };
    assert_eq!(compute_prefix(&config), "/com/example/app/icons/scalable/actions/");
}

#[test]
fn prefix_from_app_id() {
    let config = Config {
        app_id: Some("com.example.app".to_owned()),
        base_resource_path: None,
        icons_folder: None,
        icons: None,
    };
    assert_eq!(compute_prefix(&config), "/com/example/app/icons/scalable/actions/");
}

#[test]
fn base_resource_path_beats_app_id() {
    let config = Config {
        app_id: Some("com.example.app".to_owned()),
        base_resource_path: Some("/base/".to_owned()),
        icons_folder: None,
        icons: None,
    };
    assert_eq!(compute_prefix(&config), "/base/icons/scalable/actions/");
}

#[test]
fn prefix_defaults_to_general() {
    let config = Config { app_id: None, base_resource_path: None, icons_folder: None, icons: None };
    assert_eq!(compute_prefix(&config), "/org/gtkrs/icons/scalable/actions/");
}

#[test]
fn default_config_is_empty() {
    let config = Config::default();
    assert!(config.app_id.is_none());
    assert!(config.base_resource_path.is_none());
    assert!(config.icons_folder.is_none());
    assert!(config.icons.is_none());
}

#[test]
fn missing_folder_takes_fallback() {
    let config = Config::default().or_default_folder(Some("shipped".to_owned()));
    assert_eq!(config.icons_folder.as_deref(), Some("shipped"));
}

#[test]
fn explicit_folder_keeps_priority() {
    let config = Config {
        app_id: None,
        base_resource_path: None,
        icons_folder: Some("mine".to_owned()),
        icons: None,
    };
    let config = config.or_default_folder(Some("shipped".to_owned()));
    assert_eq!(config.icons_folder.as_deref(), Some("mine"));
}
