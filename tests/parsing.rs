use app_back::device::{device_str, strip_port, DeviceInfo, DeviceParts, EngineParts, OsParts};
use app_back::user::parse_user_id;
use app_back::api::SignupData;
use app_back::validation::{validate_email, validate_input, validate_password, validate_user_name};

fn s(v: &str) -> Option<String> {
    Some(v.to_string())
}

#[test]
fn user_ids_parse_as_decimal() {
    assert_eq!(parse_user_id("42"), Some(42));
    assert_eq!(parse_user_id("+7"), Some(7));
    assert_eq!(parse_user_id("0"), Some(0));
    assert_eq!(parse_user_id("4294967295"), Some(4294967295));
    assert_eq!(parse_user_id("4294967296"), None);
    assert_eq!(parse_user_id(""), None);
    assert_eq!(parse_user_id("+"), None);
    assert_eq!(parse_user_id("-1"), None);
    assert_eq!(parse_user_id("12a"), None);
}

#[test]
fn names_are_checked() {
    assert!(validate_user_name("Alice").is_ok());
    assert_eq!(validate_user_name("Bob").unwrap_err().code, "name_length");
    assert_eq!(validate_user_name(" Alice").unwrap_err().code, "name_whitespace");
    assert_eq!(validate_user_name("Alice\u{3000}").unwrap_err().code, "name_whitespace");
    assert_eq!(validate_user_name(&"a".repeat(101)).unwrap_err().code, "name_length");
    assert!(validate_user_name(&"a".repeat(100)).is_ok());
    // Lengths count bytes.
    assert!(validate_user_name("ééé").is_ok());
}

#[test]
fn passwords_are_checked() {
    assert!(validate_password("Password1").is_ok());
    let e = validate_password("Pass1").unwrap_err();
    assert_eq!(e.code, "password_length");
    assert_eq!(e.message, "Password must be between 8 and 100 characters");
    assert_eq!(validate_password("password1").unwrap_err().code, "password_requirements");
    assert_eq!(validate_password("PASSWORD1").unwrap_err().code, "password_requirements");
    assert_eq!(validate_password("Passwords").unwrap_err().code, "password_requirements");
}

#[test]
fn emails_are_checked() {
    assert!(validate_email("alice@x.com").is_ok());
    assert_eq!(validate_email("alice").unwrap_err().code, "email_invalid");
    assert_eq!(validate_email("").unwrap_err().message, "Invalid email");
    let ok = SignupData { name: "Alice".to_string(), email: "alice@x.com".to_string(), password: "Password1".to_string() };
    assert!(validate_input(&ok).is_ok());
    let bad = SignupData { email: "alice@".to_string(), ..ok };
    let e = validate_input(&bad).unwrap_err();
    assert_eq!(e.response().message, "email: Invalid email");
}

#[test]
fn devices_are_described() {
    let device = DeviceParts { brand: s("Google"), name: s("Pixel 7"), model: s("GVU6C") };
    let os = OsParts { name: s("Android"), major: s("14"), minor: None, patch: s("9"), patch_minor: None };
    let engine = EngineParts { name: s("Blink"), major: s("120"), minor: s("0"), patch: s("1") };
    assert_eq!(device_str(&device, &os, &engine), "Google Pixel 7 (Android 14) Blink 120.0.1");
    let device = DeviceParts { brand: None, name: None, model: s("iPhone") };
    let os = OsParts { name: s("iOS"), major: s("17"), minor: s("2"), patch: s("1"), patch_minor: s("3") };
    let engine = EngineParts { name: None, major: s("1"), minor: None, patch: None };
    assert_eq!(device_str(&device, &os, &engine), "iPhone (iOS 17.2.1.3) ");
    let none_d = DeviceParts { brand: None, name: None, model: None };
    let none_o = OsParts { name: None, major: s("1"), minor: None, patch: None, patch_minor: None };
    let none_e = EngineParts { name: None, major: None, minor: None, patch: None };
    assert_eq!(device_str(&none_d, &none_o, &none_e), "Unknown");
}

#[test]
fn ports_are_stripped() {
    assert_eq!(strip_port("192.0.2.1:8000"), "192.0.2.1");
    assert_eq!(strip_port("192.0.2.1"), "192.0.2.1");
    assert_eq!(strip_port("[2001:db8::1]:443"), "2001:db8::1");
    assert_eq!(strip_port("2001:db8::1"), "2001:db8::1");
    let d = DeviceParts { brand: None, name: None, model: None };
    let o = OsParts { name: None, major: None, minor: None, patch: None, patch_minor: None };
    let e = EngineParts { name: None, major: None, minor: None, patch: None };
    let info = DeviceInfo::from_request(s("[::1]:9000"), s("203.0.113.5"), &d, &o, &e);
    assert_eq!(info.ip_address.as_deref(), Some("::1"));
    assert_eq!(info.device_string, "Unknown");
    let info = DeviceInfo::from_request(None, s("203.0.113.5:1"), &d, &o, &e);
    assert_eq!(info.ip_address.as_deref(), Some("203.0.113.5"));
    let info = DeviceInfo::from_request(None, None, &d, &o, &e);
    assert_eq!(info.ip_address, None);
}
