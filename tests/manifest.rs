use cellbook::host_error::Error;
use cellbook::manifest::{extract_package_name, library_file_name};

#[test]
fn test_extract_package_name() {
    let toml = r#"
[package]
name = "my-project"
version = "0.1.0"
"#;
    assert_eq!(extract_package_name(toml).unwrap(), "my-project");
}

#[test]
fn package_name_only_from_package_table() {
    let toml = "[dependencies]\nname = \"dep\"\n[package]\n  name='single'  \n";
    assert_eq!(extract_package_name(toml).unwrap(), "single");
    assert!(matches!(extract_package_name("[lib]\nname = \"x\"\n"), Err(Error::LibLoad(_))));
    assert!(matches!(extract_package_name(""), Err(Error::LibLoad(_))));
    assert_eq!(extract_package_name("[package]\r\nname = \"a\" # c\r\n").unwrap(), "a\" # c");
}

#[test]
fn library_file_name_replaces_dashes() {
    assert_eq!(library_file_name("my-project", "lib", "so"), "libmy_project.so");
    assert_eq!(library_file_name("nb", "", "dll"), "nb.dll");
}
