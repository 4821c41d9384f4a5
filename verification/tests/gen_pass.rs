use rcli::process::gen_pass::{password_bytes, LOWER, NUMBER, SYMBOL, UPPER};
use rcli::{process_gen_pass, GenPassError};

fn in_table(table: &[u8], c: char) -> bool {
    table.iter().any(|b| *b as char == c)
}

#[test]
fn tables_hold_the_classes() {
    assert_eq!(&UPPER[..], b"ABCDEFGHIJKLMNPQRSTUVWXYZ");
    assert_eq!(&LOWER[..], b"abcdefghijkmnpqrstuvwxyz");
    assert_eq!(&NUMBER[..], b"123456789");
    assert_eq!(&SYMBOL[..], b"!@#$%^&*_");
}

#[test]
fn length_below_four_is_refused() {
    for length in 0u8..4 {
        assert_eq!(
            process_gen_pass(length, true, true, true, true),
            Err(GenPassError::LengthTooShort)
        );
    }
    assert!(process_gen_pass(4, true, true, true, true).is_ok());
    assert_eq!(
        GenPassError::LengthTooShort.message(),
        "Length must be greater than 4"
    );
}

#[test]
fn password_has_the_length_asked_for() {
    for length in [4u8, 5, 16, 32, 255] {
        let password = process_gen_pass(length, true, true, true, true).unwrap();
        assert_eq!(password.len(), length as usize);
        assert_eq!(password.chars().count(), length as usize);
    }
}

#[test]
fn password_holds_one_of_each_enabled_class() {
    for _ in 0..50 {
        let password = process_gen_pass(4, true, true, true, true).unwrap();
        assert!(password.chars().any(|c| in_table(&UPPER, c)));
        assert!(password.chars().any(|c| in_table(&LOWER, c)));
        assert!(password.chars().any(|c| in_table(&NUMBER, c)));
        assert!(password.chars().any(|c| in_table(&SYMBOL, c)));
    }
}

#[test]
fn password_draws_from_enabled_classes_only() {
    for _ in 0..20 {
        let password = process_gen_pass(40, false, true, false, false).unwrap();
        assert!(password.chars().all(|c| in_table(&LOWER, c)));
        let password = process_gen_pass(40, true, false, true, false).unwrap();
        assert!(password
            .chars()
            .all(|c| in_table(&UPPER, c) || in_table(&NUMBER, c)));
        assert!(password.chars().any(|c| in_table(&UPPER, c)));
        assert!(password.chars().any(|c| in_table(&NUMBER, c)));
        let password = process_gen_pass(40, false, false, false, true).unwrap();
        assert!(password.chars().all(|c| in_table(&SYMBOL, c)));
    }
}

#[test]
fn password_bytes_are_the_codes_of_the_text() {
    let bytes = password_bytes(32, true, true, true, true);
    assert_eq!(bytes.len(), 32);
    assert!(bytes.iter().all(|b| *b < 128));
    for table in [&UPPER[..], &LOWER[..], &NUMBER[..], &SYMBOL[..]] {
        assert!(bytes.iter().any(|b| table.contains(b)));
    }
}

#[test]
fn passwords_differ_from_call_to_call() {
    let first = process_gen_pass(32, true, true, true, true).unwrap();
    let second = process_gen_pass(32, true, true, true, true).unwrap();
    assert_ne!(first, second);
}
