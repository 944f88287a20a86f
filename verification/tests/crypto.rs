use map_auth::db::crypto::{
    same_bytes, DbCrypto, SALT_LENGTH, SECRET_LENGTH, TOTP_DIGITS, TOTP_STEP,
};
use std::time::{SystemTime, UNIX_EPOCH};

const RFC_SECRET: &str = "12345678901234567890";

fn now() -> u64 {
    SystemTime::now().duration_since(UNIX_EPOCH).unwrap().as_secs()
}

#[test]
fn hash_is_upper_hex_sha256_of_password_then_salt() {
    assert_eq!(
        DbCrypto::password_to_hash("a", "bc"),
        "BA7816BF8F01CFEA414140DE5DAE2223B00361A396177A9CB410FF61F20015AD"
    );
    assert_eq!(
        DbCrypto::password_to_hash("ab", "c"),
        "BA7816BF8F01CFEA414140DE5DAE2223B00361A396177A9CB410FF61F20015AD"
    );
}

#[test]
fn sha256_of_the_empty_string() {
    assert_eq!(
        DbCrypto::get_sha256_hash(""),
        "E3B0C44298FC1C149AFBF4C8996FB92427AE41E4649B934CA495991B7852B855"
    );
    assert_eq!(DbCrypto::password_to_hash("", ""), DbCrypto::get_sha256_hash(""));
}

#[test]
fn sha256_hashes_the_utf8_bytes() {
    // SHA-256 of the two bytes C3 A9
    assert_eq!(
        DbCrypto::get_sha256_hash("\u{e9}"),
        "4A99557E4033C3539DE2EB65472017CAD5F9557F7A0625A09F1C3F6E2BA69C4C"
    );
}

#[test]
fn hash_is_deterministic() {
    let first = DbCrypto::password_to_hash("secret123", "NaCl");
    let second = DbCrypto::password_to_hash("secret123", "NaCl");
    assert_eq!(first, second);
    assert_eq!(first.len(), 64);
    assert!(first.chars().all(|c| c.is_ascii_digit() || ('A'..='F').contains(&c)));
}

#[test]
fn hash_differs_under_different_salts() {
    assert_ne!(
        DbCrypto::password_to_hash("secret123", "saltA"),
        DbCrypto::password_to_hash("secret123", "saltB")
    );
    assert_ne!(
        DbCrypto::password_to_hash("secret123", "salt"),
        DbCrypto::password_to_hash("secret124", "salt")
    );
}

#[test]
fn salt_is_32_letters() {
    let salt = DbCrypto::gen_rand_salt();
    assert_eq!(SALT_LENGTH, 32);
    assert_eq!(salt.chars().count(), 32);
    assert!(salt.chars().all(|c| c.is_ascii_alphabetic()));
}

#[test]
fn secret_is_16_letters() {
    let secret = DbCrypto::gen_rand_secret();
    assert_eq!(SECRET_LENGTH, 16);
    assert_eq!(secret.chars().count(), 16);
    assert!(secret.chars().all(|c| c.is_ascii_alphabetic()));
}

#[test]
fn random_strings_have_the_length_asked_for() {
    assert_eq!(DbCrypto::gen_rand_string(0), "");
    assert_eq!(DbCrypto::gen_rand_string(1).len(), 1);
    let long = DbCrypto::gen_rand_string(500);
    assert_eq!(long.len(), 500);
    assert!(long.chars().all(|c| c.is_ascii_alphabetic()));
}

#[test]
fn two_salts_differ() {
    assert_ne!(DbCrypto::gen_rand_salt(), DbCrypto::gen_rand_salt());
}

#[test]
fn letters_stand_for_bytes_modulo_52() {
    assert_eq!(DbCrypto::letter_for(0), 'A');
    assert_eq!(DbCrypto::letter_for(25), 'Z');
    assert_eq!(DbCrypto::letter_for(26), 'a');
    assert_eq!(DbCrypto::letter_for(51), 'z');
    assert_eq!(DbCrypto::letter_for(52), 'A');
    assert_eq!(DbCrypto::letter_for(103), 'z');
    assert_eq!(DbCrypto::letter_for(255), 'v');
    for byte in 0..=255u8 {
        assert!(DbCrypto::letter_for(byte).is_ascii_alphabetic());
    }
}

#[test]
fn totp_matches_the_published_vectors() {
    assert_eq!(TOTP_DIGITS, 6);
    assert_eq!(TOTP_STEP, 30);
    assert_eq!(DbCrypto::generate_totp(RFC_SECRET, 59), "287082");
    assert_eq!(DbCrypto::generate_totp(RFC_SECRET, 1111111109), "081804");
    assert_eq!(DbCrypto::generate_totp(RFC_SECRET, 1111111111), "050471");
    assert_eq!(DbCrypto::generate_totp(RFC_SECRET, 1234567890), "005924");
    assert_eq!(DbCrypto::generate_totp(RFC_SECRET, 2000000000), "279037");
    assert_eq!(DbCrypto::generate_totp(RFC_SECRET, 0), "755224");
}

#[test]
fn totp_is_constant_within_a_window() {
    let at_start = DbCrypto::generate_totp(RFC_SECRET, 30);
    for time in 30..60u64 {
        assert_eq!(DbCrypto::generate_totp(RFC_SECRET, time), at_start);
    }
    assert_eq!(at_start, "287082");
}

#[test]
fn totp_changes_across_a_window_boundary() {
    assert_eq!(DbCrypto::generate_totp(RFC_SECRET, 29), "755224");
    assert_eq!(DbCrypto::generate_totp(RFC_SECRET, 30), "287082");
    assert_eq!(DbCrypto::generate_totp(RFC_SECRET, 59), "287082");
    assert_eq!(DbCrypto::generate_totp(RFC_SECRET, 60), "359152");
}

#[test]
fn totp_depends_on_the_secret() {
    assert_ne!(
        DbCrypto::generate_totp("ABCDEFGHIJKLMNOP", 59),
        DbCrypto::generate_totp("ABCDEFGHIJKLMNOQ", 59)
    );
}

#[test]
fn generated_code_is_valid_at_its_time() {
    for time in [0u64, 59, 60, 1234567890, u64::MAX] {
        let code = DbCrypto::generate_totp(RFC_SECRET, time);
        assert_eq!(code.len(), 6);
        assert!(code.chars().all(|c| c.is_ascii_digit()));
        assert!(DbCrypto::is_valid_totp_at(RFC_SECRET, &code, time));
    }
}

#[test]
fn code_of_another_window_is_refused() {
    let code = DbCrypto::generate_totp(RFC_SECRET, 59);
    assert!(DbCrypto::is_valid_totp_at(RFC_SECRET, &code, 30));
    assert!(!DbCrypto::is_valid_totp_at(RFC_SECRET, &code, 60));
    assert!(!DbCrypto::is_valid_totp_at(RFC_SECRET, &code, 29));
}

#[test]
fn zeros_are_refused_unless_they_are_the_code() {
    assert_ne!(DbCrypto::generate_totp(RFC_SECRET, 59), "000000");
    assert!(!DbCrypto::is_valid_totp_at(RFC_SECRET, "000000", 59));
    assert!(!DbCrypto::is_valid_totp_at(RFC_SECRET, "", 59));
    assert!(!DbCrypto::is_valid_totp_at(RFC_SECRET, "28708", 59));
    assert!(!DbCrypto::is_valid_totp_at(RFC_SECRET, "2870820", 59));
    assert!(!DbCrypto::is_valid_totp_at(RFC_SECRET, " 287082", 59));
}

#[test]
fn empty_secret_is_never_valid() {
    let code = DbCrypto::generate_totp("", 59);
    assert_eq!(code.len(), 6);
    assert!(!DbCrypto::is_valid_totp_at("", &code, 59));
    assert!(!DbCrypto::is_valid_totp("", &code));
    assert!(!DbCrypto::is_valid_totp("", "000000"));
    assert!(!DbCrypto::is_valid_totp("", ""));
}

#[test]
fn current_code_is_valid_now() {
    let mut checked = false;
    for _ in 0..5 {
        let before = now();
        let code = DbCrypto::generate_totp(RFC_SECRET, before);
        let valid = DbCrypto::is_valid_totp(RFC_SECRET, &code);
        let after = now();
        if before / 30 == after / 30 {
            assert!(valid);
            checked = true;
            break;
        }
    }
    assert!(checked);
}

#[test]
fn stale_code_is_not_valid_now() {
    let stale = DbCrypto::generate_totp(RFC_SECRET, 59);
    let current = DbCrypto::generate_totp(RFC_SECRET, now());
    if stale != current {
        assert!(!DbCrypto::is_valid_totp(RFC_SECRET, &stale));
    }
}

#[test]
fn qr_payload_is_a_base64_png() {
    let qr = DbCrypto::gen_totp_qr("alice", "ABCDEFGHIJKLMNOP").unwrap();
    assert!(qr.starts_with("iVBORw0KGgo"));
    assert!(qr.len() > 100);
    assert!(qr
        .chars()
        .all(|c| c.is_ascii_alphanumeric() || c == '+' || c == '/' || c == '='));
}

#[test]
fn qr_payload_is_a_function_of_its_arguments() {
    let first = DbCrypto::gen_totp_qr("alice", "ABCDEFGHIJKLMNOP");
    let second = DbCrypto::gen_totp_qr("alice", "ABCDEFGHIJKLMNOP");
    assert_eq!(first, second);
    assert_ne!(first, DbCrypto::gen_totp_qr("bob", "ABCDEFGHIJKLMNOP"));
    assert_ne!(first, DbCrypto::gen_totp_qr("alice", "ABCDEFGHIJKLMNOQ"));
}

#[test]
fn qr_payload_fails_for_an_overlong_label() {
    let long_name = "x".repeat(4000);
    assert_eq!(DbCrypto::gen_totp_qr(&long_name, "ABCDEFGHIJKLMNOP"), None);
}

#[test]
fn qr_payload_takes_a_colon_in_the_name() {
    assert!(DbCrypto::gen_totp_qr("a:b", "ABCDEFGHIJKLMNOP").is_some());
}

#[test]
fn bytes_are_compared_whole() {
    assert!(same_bytes(b"", b""));
    assert!(same_bytes(b"287082", b"287082"));
    assert!(!same_bytes(b"287082", b"287083"));
    assert!(!same_bytes(b"187082", b"287082"));
    assert!(!same_bytes(b"287082", b"28708"));
    assert!(!same_bytes(b"", b"0"));
    assert!(!same_bytes(&[0x0f], &[0xf0]));
}
