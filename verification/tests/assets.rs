use std::path::PathBuf;

use sprity_aseprite::assets::AsepriteFile;

#[test]
fn load_upper_camel_cases_the_name() {
    let path = PathBuf::from("assets/hello_world.aseprite");
    let file = AsepriteFile::load("hello_world", &path);
    assert_eq!(file.name, "HelloWorld");
    assert_eq!(file.path, path);
    assert!(file.tags.is_empty());
    assert!(file.layers.is_empty());
}

#[test]
fn load_handles_spaces_and_case() {
    let path = PathBuf::from("assets/some file.aseprite");
    let file = AsepriteFile::load("some file", &path);
    assert_eq!(file.name, "SomeFile");
}

#[test]
fn records_order_by_name_first() {
    let a = AsepriteFile::load("alpha", &PathBuf::from("z.aseprite"));
    let b = AsepriteFile::load("beta", &PathBuf::from("a.aseprite"));
    assert!(a < b);
}
