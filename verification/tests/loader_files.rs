use skiboot::loader::{StaticFile, StaticLoader};

#[test]
fn known_files() {
    let l = StaticLoader::new();
    assert_eq!(l.get_file("boot_lala.mtl").unwrap(), StaticFile::BootLalaMtl);
    assert_eq!(l.get_file("boot_lala.obj").unwrap(), StaticFile::BootLalaObj);
}

#[test]
fn unknown_file_error_holds_path() {
    let l = StaticLoader::default();
    let e = l.get_file("boot_lala.png").unwrap_err();
    assert_eq!(e.0, "boot_lala.png");
    let e = l.get_file("").unwrap_err();
    assert_eq!(e.0, "");
    assert!(l.get_file("boot_lala.ob").is_err());
}
