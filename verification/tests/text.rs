use debforge::text::{
    chars_of, contains, decimal_chars, matches_at, replace_all, replace_char, rfind_char,
    same_chars, spells, string_of, to_lower, to_lowercase,
};

fn cs(s: &str) -> Vec<char> {
    s.chars().collect()
}

#[test]
fn strings_to_characters_and_back() {
    assert_eq!(chars_of("a-ß→z"), vec!['a', '-', 'ß', '→', 'z']);
    assert_eq!(chars_of(""), Vec::<char>::new());
    assert_eq!(string_of(&['d', 'e', 'b']), "deb");
    assert_eq!(string_of(&[]), "");
    assert_eq!(string_of(&chars_of("čaj 茶")), "čaj 茶");
}

#[test]
fn equal_and_unequal_texts() {
    assert!(same_chars(&cs("abc"), &cs("abc")));
    assert!(!same_chars(&cs("abc"), &cs("abd")));
    assert!(!same_chars(&cs("abc"), &cs("ab")));
    assert!(same_chars(&[], &[]));
    assert!(spells(&cs("control"), "control"));
    assert!(!spells(&cs("control"), "Control"));
    assert!(spells(&cs("tmp"), "tmp"));
    assert!(!spells(&cs("tmp"), "tmpx"));
}

#[test]
fn occurrences() {
    assert!(matches_at(&cs("icon-128.png"), &cs("128"), 5));
    assert!(!matches_at(&cs("icon-128.png"), &cs("128"), 4));
    assert!(!matches_at(&cs("icon-128.png"), &cs("png"), 10));
    assert!(matches_at(&cs("abc"), &[], 3));
    assert!(!matches_at(&cs("abc"), &[], 4));
    assert!(!matches_at(&cs("ab"), &cs("abc"), usize::MAX));
    assert!(contains(&cs("icon-128.png"), &cs("128")));
    assert!(contains(&cs("icon-128.png"), &cs("png")));
    assert!(contains(&cs("icon-128.png"), &cs("i")));
    assert!(!contains(&cs("icon-128.png"), &cs("64")));
    assert!(!contains(&cs("12"), &cs("128")));
    assert!(contains(&cs(""), &[]));
    assert!(contains(&cs("abc"), &[]));
}

#[test]
fn replacing_texts() {
    assert_eq!(replace_all(&cs("a$Xb$X"), &cs("$X"), &cs("12")), cs("a12b12"));
    assert_eq!(replace_all(&cs("aaa"), &cs("aa"), &cs("b")), cs("ba"));
    assert_eq!(replace_all(&cs("abab"), &cs("ab"), &cs("abab")), cs("abababab"));
    assert_eq!(replace_all(&cs("abc"), &cs("x"), &cs("y")), cs("abc"));
    assert_eq!(replace_all(&cs("abc"), &cs("abc"), &[]), cs(""));
    assert_eq!(replace_all(&cs("ab"), &cs("abc"), &cs("x")), cs("ab"));
    assert_eq!(replace_all(&[], &cs("a"), &cs("x")), cs(""));
}

#[test]
fn replacing_the_empty_text() {
    assert_eq!(replace_all(&cs("abc"), &[], &cs("-")), cs("-a-b-c-"));
    assert_eq!(replace_all(&[], &[], &cs("-")), cs("-"));
    assert_eq!("abc".replace("", "-"), "-a-b-c-");
}

#[test]
fn replacing_as_std_does() {
    for (s, from, to) in [
        ("$Version and $Version", "$Version", "1.0"),
        ("aaaa", "aa", "a"),
        ("$$BinaryName", "$BinaryName", "x"),
        ("mississippi", "ssi", "SSI"),
        ("mississippi", "issi", ""),
        ("", "", ""),
    ] {
        assert_eq!(string_of(&replace_all(&cs(s), &cs(from), &cs(to))), s.replace(from, to));
    }
}

#[test]
fn replacing_characters() {
    assert_eq!(replace_char(&cs("my_cool_app"), '_', '-'), cs("my-cool-app"));
    assert_eq!(replace_char(&cs("__"), '_', '-'), cs("--"));
    assert_eq!(replace_char(&cs("app"), '_', '-'), cs("app"));
    assert_eq!(replace_char(&[], '_', '-'), cs(""));
}

#[test]
fn ascii_lower_case() {
    assert_eq!(to_lower('A'), 'a');
    assert_eq!(to_lower('Z'), 'z');
    assert_eq!(to_lower('m'), 'm');
    assert_eq!(to_lower('@'), '@');
    assert_eq!(to_lower('['), '[');
    assert_eq!(to_lower('É'), 'É');
    assert_eq!(to_lowercase(&cs("X86_64-Unknown")), cs("x86_64-unknown"));
    assert_eq!(to_lowercase(&cs("ÀRM")), cs("Àrm"));
}

#[test]
fn the_last_occurrence_of_a_character() {
    assert_eq!(rfind_char(&cs("a.b.c"), '.'), Some(3));
    assert_eq!(rfind_char(&cs(".abc"), '.'), Some(0));
    assert_eq!(rfind_char(&cs("abc."), '.'), Some(3));
    assert_eq!(rfind_char(&cs("abc"), '.'), None);
    assert_eq!(rfind_char(&[], '.'), None);
}

#[test]
fn decimal_numerals() {
    assert_eq!(decimal_chars(0), cs("0"));
    assert_eq!(decimal_chars(3), cs("3"));
    assert_eq!(decimal_chars(9), cs("9"));
    assert_eq!(decimal_chars(10), cs("10"));
    assert_eq!(decimal_chars(20), cs("20"));
    assert_eq!(decimal_chars(1905), cs("1905"));
    assert_eq!(string_of(&decimal_chars(usize::MAX)), usize::MAX.to_string());
}
