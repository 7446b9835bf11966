use vplugin::VPluginError;
use vplugin::manifest::PluginMetadata;
use vplugin::manifest::ident_ok;

const FULL: &str = "# an example plugin\n\n[metadata]\ndescription = \"Example plugin\"\nversion = \"0.1.0\"\nname = \"alpha\"\nobjfile = \"mod.so\"\n";

#[test]
fn full_manifest_parses_exactly() {
    let m: PluginMetadata = PluginMetadata::read_from_str(FULL).unwrap();
    assert_eq!(m.description.as_deref(), Some("Example plugin"));
    assert_eq!(m.version, "0.1.0");
    assert_eq!(m.name, "alpha");
    assert_eq!(m.objfile, "mod.so");
    assert_eq!(m.filename, "metadata.toml");
}

#[test]
fn description_is_optional() {
    let text = "[metadata]\nversion = \"1\"\nname = \"p\"\nobjfile = \"p.so\"\n";
    let m = PluginMetadata::read_from_str(text).unwrap();
    assert!(m.description.is_none());
    assert_eq!(m.name, "p");
}

#[test]
fn crlf_lines_and_trailing_comments_are_accepted() {
    let text =
        "[metadata]\r\nversion = \"2.0\" # the second one\r\nname = \"beta\"\r\nobjfile = \"b.so\"\r\n";
    let m = PluginMetadata::read_from_str(text).unwrap();
    assert_eq!(m.version, "2.0");
    assert_eq!(m.name, "beta");
    assert_eq!(m.objfile, "b.so");
}

#[test]
fn blanks_around_keys_and_values_are_ignored() {
    let text = "  [ metadata ]  \n  version   =   \"1\"  \n name=\"n\"\nobjfile=\"o\"";
    let m = PluginMetadata::read_from_str(text).unwrap();
    assert_eq!(m.version, "1");
    assert_eq!(m.name, "n");
    assert_eq!(m.objfile, "o");
}

#[test]
fn missing_required_key_is_parameters_error() {
    let text = "[metadata]\nversion = \"1\"\nname = \"p\"\n";
    assert_eq!(
        PluginMetadata::read_from_str(text).unwrap_err(),
        VPluginError::ParametersError
    );
}

#[test]
fn empty_text_is_parameters_error() {
    assert_eq!(
        PluginMetadata::read_from_str("").unwrap_err(),
        VPluginError::ParametersError
    );
}

#[test]
fn unquoted_value_is_parameters_error() {
    let text = "[metadata]\nversion = 1\nname = \"p\"\nobjfile = \"o\"\n";
    assert_eq!(
        PluginMetadata::read_from_str(text).unwrap_err(),
        VPluginError::ParametersError
    );
}

#[test]
fn repeated_key_is_parameters_error() {
    let text = "[metadata]\nversion = \"1\"\nversion = \"2\"\nname = \"p\"\nobjfile = \"o\"\n";
    assert_eq!(
        PluginMetadata::read_from_str(text).unwrap_err(),
        VPluginError::ParametersError
    );
}

#[test]
fn unknown_keys_and_other_sections_are_ignored() {
    let text = "top = \"ignored\"\n[metadata]\nversion = \"1\"\nname = \"p\"\nobjfile = \"o\"\nextra = \"fine\"\n[other]\nname = \"not me\"\n";
    let m = PluginMetadata::read_from_str(text).unwrap();
    assert_eq!(m.name, "p");
}

#[test]
fn unknown_escape_in_value_is_parameters_error() {
    let text = "[metadata]\nversion = \"1\"\nname = \"p\\q\"\nobjfile = \"o\"\n";
    assert_eq!(
        PluginMetadata::read_from_str(text).unwrap_err(),
        VPluginError::ParametersError
    );
}

#[test]
fn known_escapes_are_decoded() {
    let text = "[metadata]\nversion = \"1\"\nname = \"a\\\\b\"\nobjfile = \"o\\tz \\\"q\\\"\"\n";
    let m = PluginMetadata::read_from_str(text).unwrap();
    assert_eq!(m.name, "a\\b");
    assert_eq!(m.objfile, "o\tz \"q\"");
}

#[test]
fn single_quoted_literal_values_are_accepted() {
    let text = "[metadata]\nversion = '1.0'\nname = 'p'\nobjfile = 'm.so'\n";
    let m = PluginMetadata::read_from_str(text).unwrap();
    assert_eq!(m.version, "1.0");
    assert_eq!(m.name, "p");
    assert_eq!(m.objfile, "m.so");
    assert!(m.description.is_none());
}

#[test]
fn literal_values_keep_backslashes_verbatim() {
    let text = "[metadata]\nversion = '1'\nname = 'p'\nobjfile = 'dir\\file.so'\n";
    let m = PluginMetadata::read_from_str(text).unwrap();
    assert_eq!(m.objfile, "dir\\file.so");
}

#[test]
fn repeated_unknown_key_is_parameters_error() {
    let text = "[metadata]\nfoo = \"a\"\nfoo = \"b\"\nversion = \"1\"\nname = \"p\"\nobjfile = \"o\"\n";
    assert_eq!(
        PluginMetadata::read_from_str(text).unwrap_err(),
        VPluginError::ParametersError
    );
}

#[test]
fn reopened_section_is_parameters_error() {
    let text = "[metadata]\nversion = \"1\"\n[other]\nx = \"1\"\n[metadata]\nname = \"p\"\nobjfile = \"o\"\n";
    assert_eq!(
        PluginMetadata::read_from_str(text).unwrap_err(),
        VPluginError::ParametersError
    );
}

#[test]
fn same_key_in_different_sections_is_accepted() {
    let text = "[other]\nname = \"zzz\"\n[metadata]\nversion = \"1\"\nname = \"p\"\nobjfile = \"o\"\n";
    let m = PluginMetadata::read_from_str(text).unwrap();
    assert_eq!(m.name, "p");
}

#[test]
fn read_from_str_does_not_validate_identity() {
    let text = "[metadata]\nversion = \"1\"\nname = \"has space\"\nobjfile = \"o\"\n";
    let m = PluginMetadata::read_from_str(text).unwrap();
    assert_eq!(m.name, "has space");
}

#[test]
fn ident_ok_rejects_empty_and_spaced_names() {
    assert!(!ident_ok(""));
    assert!(!ident_ok("has space"));
    assert!(!ident_ok(" "));
    assert!(ident_ok("good-name_1"));
}
