use xcframework::modulemap::{parse_module_name, path_has_extension, select_modulemap, ModuleMapError};

#[test]
fn parses_plain_module_declaration() {
    let r = parse_module_name("module Foo {\n  header \"foo.h\"\n}\n");
    assert_eq!(r, Ok("Foo".to_string()));
}

#[test]
fn parses_framework_module_declaration() {
    let r = parse_module_name("framework module Bar {\n  umbrella header \"Bar.h\"\n}\n");
    assert_eq!(r, Ok("Bar".to_string()));
}

#[test]
fn missing_declaration_is_an_error() {
    let r = parse_module_name("// nothing here\nheader \"x.h\"\n");
    assert_eq!(r, Err(ModuleMapError::NoDeclaration));
}

#[test]
fn empty_module_map_has_no_declaration() {
    assert_eq!(parse_module_name(""), Err(ModuleMapError::NoDeclaration));
}

#[test]
fn declaration_without_brace_is_an_error() {
    let r = parse_module_name("module Foo\n{\n}\n");
    assert_eq!(r, Err(ModuleMapError::MissingBrace("Foo".to_string())));
}

#[test]
fn first_declaration_wins_and_spaces_are_trimmed() {
    let r = parse_module_name("// map\r\nmodule   MyMath   {  \r\n}\r\nmodule Other {\n");
    assert_eq!(r, Ok("  MyMath".to_string()));
}

#[test]
fn crlf_line_endings_are_handled() {
    let r = parse_module_name("module MyMath {\r\n  export *\r\n}\r\n");
    assert_eq!(r, Ok("MyMath".to_string()));
}

#[test]
fn indented_declaration_is_not_recognised() {
    let r = parse_module_name("  module Foo {\n}\n");
    assert_eq!(r, Err(ModuleMapError::NoDeclaration));
}

#[test]
fn one_module_map_is_selected() {
    let files = vec![
        "include/mymath.h".to_string(),
        "include/module.modulemap".to_string(),
    ];
    assert_eq!(select_modulemap(&files), Ok("include/module.modulemap".to_string()));
}

#[test]
fn two_module_maps_are_ambiguous() {
    let files = vec![
        "include/a.modulemap".to_string(),
        "include/b.h".to_string(),
        "include/sub/c.modulemap".to_string(),
    ];
    assert_eq!(select_modulemap(&files), Err(ModuleMapError::Ambiguous(2)));
}

#[test]
fn no_module_map_is_not_found() {
    let files = vec!["include/a.h".to_string()];
    assert_eq!(select_modulemap(&files), Err(ModuleMapError::NotFound));
    assert_eq!(select_modulemap(&vec![]), Err(ModuleMapError::NotFound));
}

#[test]
fn extension_follows_the_last_dot_of_the_file_name() {
    assert!(path_has_extension("include/module.modulemap", "modulemap"));
    assert!(path_has_extension("a.b.h", "h"));
    assert!(!path_has_extension("include/.h", "h"));
    assert!(!path_has_extension("include/a.hh", "h"));
    assert!(!path_has_extension("include.h/a", "h"));
    assert!(path_has_extension("..h", "h"));
}
