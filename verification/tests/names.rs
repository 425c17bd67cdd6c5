use wacky_db::WackyDB;
use wacky_db::names::{name_char_allowed, sanitize_db_name, NameError};

#[test]
fn accepts_plain_file_name() {
    assert_eq!(sanitize_db_name("wacky_db.sqlite"), Ok("wacky_db.sqlite"));
}

#[test]
fn accepts_letters_digits_underscore_and_dot() {
    assert_eq!(sanitize_db_name("A_z.09"), Ok("A_z.09"));
    assert_eq!(sanitize_db_name("."), Ok("."));
    assert_eq!(sanitize_db_name("_"), Ok("_"));
}

#[test]
fn rejects_empty_name() {
    assert_eq!(sanitize_db_name(""), Err(NameError::Empty));
}

#[test]
fn rejects_path_separator() {
    assert_eq!(sanitize_db_name("dir/db.sqlite"), Err(NameError::InvalidCharacter));
    assert_eq!(sanitize_db_name("dir\\db.sqlite"), Err(NameError::InvalidCharacter));
    assert_eq!(sanitize_db_name("/"), Err(NameError::InvalidCharacter));
}

#[test]
fn rejects_space() {
    assert_eq!(sanitize_db_name("my db"), Err(NameError::InvalidCharacter));
    assert_eq!(sanitize_db_name(" "), Err(NameError::InvalidCharacter));
    assert_eq!(sanitize_db_name("db "), Err(NameError::InvalidCharacter));
}

#[test]
fn rejects_letters_outside_ascii() {
    assert_eq!(sanitize_db_name("données"), Err(NameError::InvalidCharacter));
    assert_eq!(sanitize_db_name("ごめん"), Err(NameError::InvalidCharacter));
}

#[test]
fn rejects_punctuation() {
    for name in ["a-b", "a;b", "a'b", "a:b", "a\nb", "a\0b"] {
        assert_eq!(sanitize_db_name(name), Err(NameError::InvalidCharacter));
    }
}

#[test]
fn name_characters_are_the_listed_ones() {
    for c in ['a', 'z', 'A', 'Z', '0', '9', '_', '.'] {
        assert!(name_char_allowed(c));
    }
    for c in ['/', '\\', ' ', '-', '`', '{', '@', '[', ':', 'é'] {
        assert!(!name_char_allowed(c));
    }
}

#[test]
fn name_error_messages() {
    assert_eq!(
        NameError::Empty.message(),
        "Database name cannot be empty, even for a wacky database!"
    );
    assert_eq!(
        NameError::InvalidCharacter.message(),
        "Database name can only contain alphanumeric characters, underscores and dots, ごめん!"
    );
}

#[test]
fn database_keeps_its_name() {
    let db = WackyDB::new("wacky_db.sqlite").unwrap();
    assert_eq!(db.name(), "wacky_db.sqlite");
}

#[test]
fn database_refuses_bad_names() {
    assert_eq!(WackyDB::new("").err(), Some(NameError::Empty));
    assert_eq!(WackyDB::new("../escape").err(), Some(NameError::InvalidCharacter));
    assert_eq!(WackyDB::new("two words").err(), Some(NameError::InvalidCharacter));
}
