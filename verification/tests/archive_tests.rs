use relm4_icons::archive::{build_archive, build_icons_archive, resource_key, ResourceFile};
use relm4_icons::config::Config;
use relm4_icons::error::BuildError;
use relm4_icons::icon::LazyIcon;
use relm4_icons::pipeline::build_icons;
use relm4_icons::table::{DirListing, FileEntry};

const SVG: &[u8] = b"<svg xmlns=\"http://www.w3.org/2000/svg\"><path d=\"M0 0\"/></svg>";

fn file(key: &str, data: &[u8]) -> ResourceFile {
    ResourceFile { key: key.to_owned(), data: data.to_vec() }
}

#[test]
fn archive_has_gvdb_signature() {
    let files = vec![file("/org/test/a-symbolic.svg", SVG)];
    let bytes = build_archive(&files).unwrap();
    assert!(bytes.len() > 8);
    assert_eq!(&bytes[0..8], b"GVariant");
    assert_ne!(bytes, SVG.to_vec());
}

#[test]
fn archive_contains_stored_key() {
    let files = vec![file("/org/test/a-symbolic.svg", SVG)];
    let bytes = build_archive(&files).unwrap();
    let read = gvdb::read::File::from_bytes(std::borrow::Cow::Owned(bytes)).unwrap();
    let table = read.hash_table().unwrap();
    assert!(table.get_value("/org/test/a-symbolic.svg").is_ok());
    assert!(table.get_value("/org/test/missing.svg").is_err());
}

#[test]
fn invalid_xml_fails_the_file_data() {
    let files = vec![file("/org/test/a-symbolic.svg", b"<svg")];
    let e = build_archive(&files).unwrap_err();
    match e {
        BuildError::FileDataFailed => {
            assert_eq!(e.message(), "Failed to create file data");
        },
        _ => panic!("expected a file data failure"),
    }
}

#[test]
fn resource_key_joins_prefix_name_and_suffix() {
    let key = resource_key(&"/base/".to_owned(), &"go-next".to_owned());
    assert_eq!(key, "/base/go-next-symbolic.svg");
}

#[test]
fn table_archive_stores_icons_under_prefix() {
    let mut config = Config {
        app_id: None,
        base_resource_path: None,
        icons_folder: Some("icons".to_owned()),
        icons: None,
    };
    config.icons = Some(vec!["zoom-in".to_owned()]);
    let custom = vec![FileEntry {
        file_name: "go-next-symbolic.svg".to_owned(),
        path: "icons/go-next-symbolic.svg".to_owned(),
    }];
    let shipped = vec![DirListing {
        dir: "shipped".to_owned(),
        file_names: vec!["zoom-in-symbolic.svg".to_owned()],
    }];
    let plan = build_icons(&config, &custom, &shipped).unwrap();
    let contents = vec![SVG.to_vec(), SVG.to_vec()];
    assert_eq!(plan.table.entries.len(), contents.len());
    let bytes = build_icons_archive(&plan.table, &plan.prefix, &contents).unwrap();
    let read = gvdb::read::File::from_bytes(std::borrow::Cow::Owned(bytes)).unwrap();
    let table = read.hash_table().unwrap();
    assert!(
        table.get_value("/org/gtkrs/icons/scalable/actions/go-next-symbolic.svg").is_ok()
    );
    assert!(
        table.get_value("/org/gtkrs/icons/scalable/actions/zoom-in-symbolic.svg").is_ok()
    );
}

#[test]
fn plan_holds_prefix_and_constants() {
    let config = Config {
        app_id: Some("com.example.app".to_owned()),
        base_resource_path: None,
        icons_folder: Some("icons".to_owned()),
        icons: None,
    };
    let custom = vec![FileEntry {
        file_name: "go-next-symbolic.svg".to_owned(),
        path: "icons/go-next-symbolic.svg".to_owned(),
    }];
    let plan = build_icons(&config, &custom, &Vec::new()).unwrap();
    assert_eq!(plan.prefix, "/com/example/app/icons/scalable/actions/");
    assert!(plan.constants.contains("pub const GO_NEXT: &str = \"go-next\";"));
    assert!(plan.constants.contains("pub(crate) const APP_ID: &str = \"com.example.app\";"));
}

#[test]
fn lazy_icon_keeps_name_and_builds_bundle() {
    let icon = LazyIcon::new("go-next", SVG);
    assert_eq!(icon.name(), "go-next");
    let bytes = icon.resource_bundle().unwrap();
    assert_eq!(&bytes[0..8], b"GVariant");
    let read = gvdb::read::File::from_bytes(std::borrow::Cow::Owned(bytes)).unwrap();
    let table = read.hash_table().unwrap();
    assert!(table.get_value("/org/gtkrs/icons/scalable/actions/go-next.svg").is_ok());
}
