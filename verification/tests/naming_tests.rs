use relm4_icons::error::BuildError;
use relm4_icons::naming::path_to_icon_name;

#[test]
fn symbolic_suffix_is_stripped() {
    let r = path_to_icon_name("go-next-symbolic.svg").unwrap();
    assert_eq!(r, "go-next");
}

#[test]
fn plain_svg_suffix_is_stripped() {
    let r = path_to_icon_name("plain.svg").unwrap();
    assert_eq!(r, "plain");
}

#[test]
fn only_one_symbolic_suffix_is_stripped() {
    let r = path_to_icon_name("a-symbolic.svg-symbolic.svg").unwrap();
    assert_eq!(r, "a-symbolic.svg");
}

#[test]
fn only_one_svg_suffix_is_stripped() {
    let r = path_to_icon_name("a.svg.svg").unwrap();
    assert_eq!(r, "a.svg");
}

#[test]
fn non_icon_file_is_rejected() {
    let r = path_to_icon_name("readme.txt");
    match r {
        Err(BuildError::NonIconFile { file_name }) => {
            assert_eq!(file_name, "readme.txt");
        },
        _ => panic!("expected a non-icon file error"),
    }
}

#[test]
fn non_icon_file_message() {
    let e = path_to_icon_name("readme.txt").unwrap_err();
    assert_eq!(e.message(), "Found non-icon file `readme.txt`");
}
