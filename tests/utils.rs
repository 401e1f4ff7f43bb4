use app_back::model::AuthToken;
use app_back::utils::{code_from_draw, decimal_string, format_code, left_pad, pow10_u32, random_code, random_token};

#[test]
fn left_pad_fills_to_the_length() {
    assert_eq!(left_pad("42", '0', 4), "0042");
    assert_eq!(left_pad("1234", '0', 4), "1234");
    assert_eq!(left_pad("", '*', 3), "***");
}

#[test]
fn codes_are_four_digits() {
    assert_eq!(format_code(0), "0000");
    assert_eq!(format_code(7), "0007");
    assert_eq!(format_code(42), "0042");
    assert_eq!(format_code(9999), "9999");
    assert_eq!(decimal_string(0), "0");
    assert_eq!(decimal_string(4294967295), "4294967295");
}

#[test]
fn random_values_have_their_size() {
    assert_eq!(random_token(16).len(), 16);
    assert_eq!(random_token(32).len(), 32);
    assert_eq!(random_token(0).len(), 0);
    let a = random_token(32);
    let b = random_token(32);
    assert_ne!(a, b);
    for _ in 0..200 {
        assert!(random_code(4) < 10000);
        assert!(random_code(1) < 10);
    }
    assert_eq!(random_code(0), 0);
    assert_eq!(pow10_u32(4), 10000);
    assert_eq!(pow10_u32(9), 1_000_000_000);
}

#[test]
fn token_headers_decode_hex() {
    assert_eq!(AuthToken::get_auth_token_from_headers(Some("0aFF10")), Some(vec![0x0a, 0xff, 0x10]));
    assert_eq!(AuthToken::get_auth_token_from_headers(Some("0aF")), None);
    assert_eq!(AuthToken::get_auth_token_from_headers(Some("zz")), None);
    assert_eq!(AuthToken::get_auth_token_from_headers(Some("")), Some(vec![]));
    assert_eq!(AuthToken::get_auth_token_from_headers(None), None);
}

#[test]
fn codes_are_the_last_digits_of_the_draw() {
    assert_eq!(code_from_draw(4294967295, 4), 7295);
    assert_eq!(code_from_draw(123456, 4), 3456);
    assert_eq!(code_from_draw(42, 4), 42);
    assert_eq!(code_from_draw(987, 0), 0);
    assert_eq!(code_from_draw(4294967295, 9), 294967295);
}
