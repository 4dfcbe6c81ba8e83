use debforge::args::{Architecture, Args};
use debforge::forge::manifest::{trim, trim_start, try_parse_field, CharClass};
use debforge::forge::ForgeError;

fn cs(s: &str) -> Vec<char> {
    s.chars().collect()
}

fn bare() -> Args {
    Args {
        binary_name: None,
        version: None,
        project_dir: "/proj".to_string(),
        architecture: Architecture::Amd64,
        dry_run: false,
    }
}

fn lines(text: &[&str]) -> Vec<String> {
    text.iter().map(|l| l.to_string()).collect()
}

#[test]
fn kinds_of_character() {
    for c in [' ', '\t', '\n', '\u{b}', '\u{c}', '\r', '\u{85}', '\u{a0}', '\u{1680}', '\u{2000}',
        '\u{2005}', '\u{200a}', '\u{2028}', '\u{2029}', '\u{202f}', '\u{205f}', '\u{3000}'] {
        assert!(CharClass::Whitespace.has(c));
        assert!(c.is_whitespace());
    }
    for c in ['a', '=', '"', '\u{8}', '\u{e}', '\u{200b}', '\u{180e}', '\u{feff}', '\u{2060}'] {
        assert!(!CharClass::Whitespace.has(c));
        assert!(!c.is_whitespace());
    }
    for c in [' ', '\'', '"', '='] {
        assert!(CharClass::Padding.has(c));
    }
    for c in ['\t', 'a', '-', ':', '`'] {
        assert!(!CharClass::Padding.has(c));
    }
}

#[test]
fn white_space_as_std_has_it() {
    for code in 0u32..0x3100 {
        if let Some(c) = char::from_u32(code) {
            assert_eq!(CharClass::Whitespace.has(c), c.is_whitespace());
        }
    }
}

#[test]
fn trimming() {
    assert_eq!(trim(&cs(" = \"my_app\" "), CharClass::Padding), cs("my_app"));
    assert_eq!(trim(&cs("='a = b'"), CharClass::Padding), cs("a = b"));
    assert_eq!(trim(&cs(" =\"' "), CharClass::Padding), cs(""));
    assert_eq!(trim(&cs(""), CharClass::Padding), cs(""));
    assert_eq!(trim(&cs("abc"), CharClass::Padding), cs("abc"));
    assert_eq!(trim(&cs("\t x \n"), CharClass::Whitespace), cs("x"));
    assert_eq!(trim_start(&cs("  \tname = x  "), CharClass::Whitespace), cs("name = x  "));
    assert_eq!(trim_start(&cs("   "), CharClass::Whitespace), cs(""));
    assert_eq!(trim_start(&cs("x "), CharClass::Whitespace), cs("x "));
}

#[test]
fn a_field_at_the_start_of_a_line() {
    assert_eq!(try_parse_field("name = \"my_app\"", "name"), Some("my_app".to_string()));
    assert_eq!(try_parse_field("version = \"0.1.0\"", "version"), Some("0.1.0".to_string()));
    assert_eq!(try_parse_field("name='my_app'", "name"), Some("my_app".to_string()));
    assert_eq!(try_parse_field("name", "name"), Some(String::new()));
    assert_eq!(try_parse_field("name = ", "name"), Some(String::new()));
    assert_eq!(try_parse_field("name = \"a b\" # c", "name"), Some("a b\" # c".to_string()));
    assert_eq!(try_parse_field("namespace = \"x\"", "name"), Some("space = \"x".to_string()));
}

#[test]
fn a_line_that_does_not_start_with_the_field() {
    assert_eq!(try_parse_field(" name = \"my_app\"", "name"), None);
    assert_eq!(try_parse_field("Name = \"my_app\"", "name"), None);
    assert_eq!(try_parse_field("nam", "name"), None);
    assert_eq!(try_parse_field("", "name"), None);
    assert_eq!(try_parse_field("version = \"1\"", "name"), None);
    assert_eq!(try_parse_field("edition = \"2021\"", "version"), None);
}

#[test]
fn known_fields() {
    let mut args = bare();
    assert!(!args.has_toml_fields());
    args.binary_name = Some("app".to_string());
    assert!(!args.has_toml_fields());
    args.version = Some("1".to_string());
    assert!(args.has_toml_fields());
    args.binary_name = None;
    assert!(!args.has_toml_fields());
}

#[test]
fn one_line_at_a_time() {
    let mut args = bare();
    args.parse_toml_line("[package]");
    assert_eq!(args, bare());
    args.parse_toml_line("  name = \"my_app\"");
    assert_eq!(args.binary_name, Some("my_app".to_string()));
    assert_eq!(args.version, None);
    args.parse_toml_line("name = \"other\"");
    assert_eq!(args.binary_name, Some("my_app".to_string()));
    args.parse_toml_line("\tversion = \"0.2.0\"");
    assert_eq!(args.version, Some("0.2.0".to_string()));
    args.parse_toml_line("version = \"9\"");
    assert_eq!(args.version, Some("0.2.0".to_string()));
    assert!(args.has_toml_fields());
}

#[test]
fn the_command_line_comes_first() {
    let mut args = bare();
    args.binary_name = Some("given".to_string());
    args.parse_toml_line("name = \"my_app\"");
    assert_eq!(args.binary_name, Some("given".to_string()));
    args.parse_toml_line("version = \"1.0\"");
    assert_eq!(args.version, Some("1.0".to_string()));
    let mut args = bare();
    args.version = Some("5".to_string());
    assert_eq!(
        args.conditionally_parse_toml(&lines(&["version = \"1\"", "name = \"app\""])),
        Ok(())
    );
    assert_eq!(args.binary_name, Some("app".to_string()));
    assert_eq!(args.version, Some("5".to_string()));
}

#[test]
fn a_whole_manifest() {
    let manifest = lines(&[
        "[package]",
        "name = \"my_app\"",
        "version = \"0.4.2\"",
        "edition = \"2021\"",
        "",
        "[dependencies]",
        "name = \"late\"",
        "version = \"late\"",
    ]);
    let mut args = bare();
    assert_eq!(args.conditionally_parse_toml(&manifest), Ok(()));
    assert_eq!(args.binary_name, Some("my_app".to_string()));
    assert_eq!(args.version, Some("0.4.2".to_string()));
    assert_eq!(args.project_dir, "/proj");
}

#[test]
fn the_version_before_the_name() {
    let mut args = bare();
    assert_eq!(
        args.conditionally_parse_toml(&lines(&["version = \"2\"", "name = \"app\""])),
        Ok(())
    );
    assert_eq!(args.binary_name, Some("app".to_string()));
    assert_eq!(args.version, Some("2".to_string()));
}

#[test]
fn a_manifest_that_leaves_a_field_open() {
    let mut args = bare();
    assert_eq!(
        args.conditionally_parse_toml(&lines(&["[package]", "name = \"app\""])),
        Err(ForgeError::ManifestIncomplete)
    );
    assert_eq!(args.binary_name, Some("app".to_string()));
    assert_eq!(args.version, None);
    let mut args = bare();
    assert_eq!(args.conditionally_parse_toml(&lines(&[])), Err(ForgeError::ManifestIncomplete));
    assert_eq!(args, bare());
}

#[test]
fn nothing_is_read_when_all_is_known() {
    let mut args = bare();
    args.binary_name = Some("given".to_string());
    args.version = Some("1".to_string());
    let before = args.clone();
    assert_eq!(
        args.conditionally_parse_toml(&lines(&["name = \"app\"", "version = \"2\""])),
        Ok(())
    );
    assert_eq!(args, before);
    assert_eq!(args.conditionally_parse_toml(&lines(&[])), Ok(()));
}
