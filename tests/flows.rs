use app_back::api::{
    auth_confirm_code, auth_signin, auth_signin_email, auth_signup, auth_status, confirm_code_at, confirm_execute,
    confirm_token_at, signin_at, signin_email_at, signup_at, AuthConfig, ConfirmCodeData, ConfirmResponse,
    ConfirmTokenData, SigninData, SignupData,
};
use app_back::device::{DeviceInfo, UserAuthInfo};
use app_back::errors::ErrorTypeKind;
use app_back::model::{ConfirmationAction, TOTPSecret, User, UserStatus};
use app_back::store::Store;
use app_back::user::check_user_password_and_status;

fn config() -> AuthConfig {
    AuthConfig { frontend_host: "https://app.example".to_string() }
}

fn device() -> DeviceInfo {
    DeviceInfo { device_string: "Pixel (Android 14) Blink".to_string(), ip_address: None }
}

fn signup_data(name: &str, email: &str, password: &str) -> SignupData {
    SignupData { name: name.to_string(), email: email.to_string(), password: password.to_string() }
}

fn caller(id: u32) -> UserAuthInfo {
    UserAuthInfo { user_id: Some(id), auth_token: None }
}

fn no_totp(_secret: &Vec<u8>, _code: &str) -> bool {
    false
}

/// Signs up and confirms an account, returning its id.
fn confirmed_account(s: &mut Store, name: &str, email: &str, password: &str) -> u32 {
    let (resp, _) = signup_at(s, &config(), &signup_data(name, email, password), &device(), 1000).unwrap();
    let code = s.confirmations.iter().find(|c| c.user_id == resp.id).unwrap().code;
    let data = ConfirmCodeData { action: ConfirmationAction::Signup, code_token: resp.code_token.clone(), code };
    confirm_code_at(s, &config(), &data, &caller(resp.id), &device(), 1100).unwrap();
    resp.id
}

#[test]
fn signup_then_confirm_twice() {
    let mut s = Store::new();
    let (resp, mail) = signup_at(&mut s, &config(), &signup_data("Alice", "alice@x.com", "Password1"), &device(), 1000)
        .unwrap();
    assert_eq!(resp.id, 1);
    assert_eq!(s.users.len(), 1);
    assert_eq!(s.confirmations.len(), 1);
    let c = &s.confirmations[0];
    assert_eq!(c.action, ConfirmationAction::Signup);
    assert!(!c.used);
    assert_eq!(hex::encode(&c.code_token), resp.code_token);
    assert_eq!(resp.code_token.len(), 32);
    assert_eq!(mail.code, format!("{:04}", c.code));
    assert_eq!(mail.url, format!("https://app.example/signup/confirm?id=1&token={}", hex::encode(&c.token)));
    assert_eq!(mail.recipient_email, "alice@x.com");
    assert_eq!(mail.template, "confirm_signup");
    assert_eq!(s.users[0].status, UserStatus::Unconfirmed);

    let data = ConfirmCodeData { action: ConfirmationAction::Signup, code_token: resp.code_token.clone(), code: c.code };
    let r = confirm_code_at(&mut s, &config(), &data, &caller(1), &device(), 1010).unwrap();
    let body = match r {
        ConfirmResponse::SignUp(b) => b,
        ConfirmResponse::SignIn(_) => panic!("a sign-up confirmation answers as a sign-up"),
    };
    assert_eq!(body.user_id, 1);
    assert_eq!(body.status, UserStatus::Normal);
    assert_eq!(body.email, "alice@x.com");
    assert_eq!(body.redirect_url, "https://app.example");
    assert_eq!(body.auth_token, hex::encode(&s.auth_tokens[0].token));
    assert_eq!(s.users[0].status, UserStatus::Normal);
    assert_eq!(s.auth_tokens.len(), 1);

    let e = confirm_code_at(&mut s, &config(), &data, &caller(1), &device(), 1020).unwrap_err();
    assert_eq!(e.response().error_type, ErrorTypeKind::ConfirmationAlreadyUsed);
    assert_eq!(s.auth_tokens.len(), 1);
}

#[test]
fn signup_at_the_current_time() {
    let mut s = Store::new();
    let (resp, _) = auth_signup(&mut s, &config(), &signup_data("Alice", "alice@x.com", "Password1"), &device()).unwrap();
    let c = &s.confirmations[0];
    let data = ConfirmCodeData { action: ConfirmationAction::Signup, code_token: resp.code_token.clone(), code: c.code };
    assert!(auth_confirm_code(&mut s, &config(), &data, &caller(resp.id), &device()).is_ok());
}

#[test]
fn signup_again_while_unconfirmed_takes_the_account_over() {
    let mut s = Store::new();
    let (first, _) = signup_at(&mut s, &config(), &signup_data("Alice", "alice@x.com", "Password1"), &device(), 1000)
        .unwrap();
    let (second, _) = signup_at(&mut s, &config(), &signup_data("Alicia", "alice@x.com", "Password2"), &device(), 2000)
        .unwrap();
    assert_eq!(first.id, second.id);
    assert_eq!(s.users.len(), 1);
    assert_eq!(s.users[0].name, "Alicia");
    assert_eq!(s.users[0].creation_date, 2000);
    assert_eq!(s.confirmations.len(), 1);
    assert_eq!(hex::encode(&s.confirmations[0].code_token), second.code_token);
    assert_ne!(first.code_token, second.code_token);
    assert_eq!(s.next_user_id, 2);
}

#[test]
fn signup_with_a_confirmed_email_is_refused() {
    let mut s = Store::new();
    confirmed_account(&mut s, "Alice", "alice@x.com", "Password1");
    let users = s.users.len();
    let confirmations = s.confirmations.len();
    let tokens = s.auth_tokens.len();
    let e = signup_at(&mut s, &config(), &signup_data("Mallory", "alice@x.com", "Password9"), &device(), 3000)
        .unwrap_err();
    assert_eq!(e.response().error_type, ErrorTypeKind::EmailAlreadyExists);
    assert!(e.do_rollback());
    assert_eq!((s.users.len(), s.confirmations.len(), s.auth_tokens.len()), (users, confirmations, tokens));
    assert_eq!(s.users[0].name, "Alice");
}

#[test]
fn signup_reports_every_invalid_field() {
    let mut s = Store::new();
    let e = signup_at(&mut s, &config(), &signup_data(" Bob", "nope", "short"), &device(), 0).unwrap_err();
    assert_eq!(e.status_code(), 422);
    assert_eq!(e.response().error_type, ErrorTypeKind::InvalidInput);
    assert_eq!(
        e.response().message,
        "name: Name cannot start or end with whitespace, email: Invalid email, password: Password must be between 8 and 100 characters"
    );
    let e = signup_at(&mut s, &config(), &signup_data("Robert", "bob@x.com", "password1"), &device(), 0).unwrap_err();
    assert_eq!(
        e.response().message,
        "password: Password must contain at least one lowercase letter, one uppercase letter and one digit"
    );
    assert_eq!(s.users.len(), 0);
}

#[test]
fn wrong_password_and_unknown_email_look_alike() {
    let mut s = Store::new();
    confirmed_account(&mut s, "Alice", "alice@x.com", "Password1");
    let a = check_user_password_and_status(&s, "nobody@x.com", "Password1").unwrap_err();
    let b = check_user_password_and_status(&s, "alice@x.com", "Password2").unwrap_err();
    assert_eq!(a.status_code(), b.status_code());
    assert_eq!(a.response().error_type, ErrorTypeKind::InvalidEmailOrPassword);
    assert_eq!(a.response().error_type, b.response().error_type);
    assert_eq!(a.response().message, b.response().message);
    assert_eq!(a.response().rollback, b.response().rollback);
    assert_eq!(format!("{:?}", a), format!("{:?}", b));
    assert_eq!(check_user_password_and_status(&s, "alice@x.com", "Password1").unwrap().id, 1);
}

#[test]
fn unconfirmed_and_banned_accounts_cannot_sign_in() {
    let mut s = Store::new();
    signup_at(&mut s, &config(), &signup_data("Alice", "alice@x.com", "Password1"), &device(), 0).unwrap();
    let e = check_user_password_and_status(&s, "alice@x.com", "Password1").unwrap_err();
    assert_eq!(e.response().error_type, ErrorTypeKind::UserUnconfirmed);
    s.users[0].status = UserStatus::Banned;
    let e = check_user_password_and_status(&s, "alice@x.com", "Password1").unwrap_err();
    assert_eq!(e.response().error_type, ErrorTypeKind::UserBanned);
}

#[test]
fn signin_issues_a_session_token() {
    let mut s = Store::new();
    let id = confirmed_account(&mut s, "Alice", "alice@x.com", "Password1");
    let before = s.auth_tokens.len();
    let data = SigninData { email: "alice@x.com".to_string(), password: "Password1".to_string(), totp_code: None };
    let r = signin_at(&mut s, &data, &device(), 5000, no_totp).unwrap();
    assert_eq!(r.user_id, id);
    assert_eq!(r.name, "Alice");
    assert_eq!(r.status, UserStatus::Normal);
    assert_eq!(s.auth_tokens.len(), before + 1);
    assert_eq!(r.auth_token, hex::encode(&s.auth_tokens[before].token));
    assert_eq!(s.auth_tokens[before].creation_date, 5000);
    assert!(auth_signin(&mut s, &data, &device(), no_totp).is_ok());
}

#[test]
fn second_factor_is_asked_for() {
    let mut s = Store::new();
    let id = confirmed_account(&mut s, "Alice", "alice@x.com", "Password1");
    s.users[0].tfa_login = true;
    let tokens = s.auth_tokens.len();
    let data = SigninData { email: "alice@x.com".to_string(), password: "Password1".to_string(), totp_code: None };
    let e = signin_at(&mut s, &data, &device(), 5000, no_totp).unwrap_err();
    assert_eq!(e.response().error_type, ErrorTypeKind::TFARequiredOverEmail);
    assert_eq!(s.auth_tokens.len(), tokens);
    s.totp_secrets.push(TOTPSecret { user_id: id, creation_date: 0, secret: vec![1, 2, 3] });
    let e = signin_at(&mut s, &data, &device(), 5000, no_totp).unwrap_err();
    assert_eq!(e.response().error_type, ErrorTypeKind::TFARequired);
    assert_eq!(e.response().message, "2FA required");
    assert_eq!(s.auth_tokens.len(), tokens);
}

#[test]
fn a_totp_code_is_checked_against_the_secret() {
    let mut s = Store::new();
    let id = confirmed_account(&mut s, "Alice", "alice@x.com", "Password1");
    s.users[0].tfa_login = true;
    s.totp_secrets.push(TOTPSecret { user_id: id, creation_date: 0, secret: vec![1, 2, 3] });
    let accept = |secret: &Vec<u8>, code: &str| *secret == vec![1u8, 2, 3] && code == "123456";
    let good = SigninData {
        email: "alice@x.com".to_string(),
        password: "Password1".to_string(),
        totp_code: Some("123456".to_string()),
    };
    assert!(signin_at(&mut s, &good, &device(), 5000, accept).is_ok());
    let bad = SigninData { totp_code: Some("000000".to_string()), ..good };
    let e = signin_at(&mut s, &bad, &device(), 5000, accept).unwrap_err();
    assert_eq!(e.response().error_type, ErrorTypeKind::InvalidTOTPCode);
}

#[test]
fn signin_by_email_sends_a_challenge() {
    let mut s = Store::new();
    let id = confirmed_account(&mut s, "Alice", "alice@x.com", "Password1");
    let data = SigninData { email: "alice@x.com".to_string(), password: "Password1".to_string(), totp_code: None };
    let dev = DeviceInfo { device_string: "Laptop".to_string(), ip_address: Some("192.0.2.7".to_string()) };
    let (first, _) = signin_email_at(&mut s, &config(), &data, &dev, 6000).unwrap();
    let (second, mail) = signin_email_at(&mut s, &config(), &data, &dev, 6001).unwrap();
    let open: Vec<_> = s
        .confirmations
        .iter()
        .filter(|c| c.user_id == id && c.action == ConfirmationAction::Signin && !c.used)
        .collect();
    assert_eq!(open.len(), 1);
    assert_eq!(hex::encode(&open[0].code_token), second.code_token);
    assert_ne!(first.code_token, second.code_token);
    assert_eq!(mail.template, "confirm_signin");
    assert_eq!(mail.ip_address.as_deref(), Some("192.0.2.7"));
    assert_eq!(mail.device.as_deref(), Some("Laptop"));
    assert_eq!(mail.code, format!("{:04}", open[0].code));
    assert_eq!(mail.url, format!("https://app.example/signin/confirm?id={}&token={}", id, hex::encode(&open[0].token)));
    let (_, mail) = auth_signin_email(&mut s, &config(), &data, &device()).unwrap();
    assert_eq!(mail.ip_address.as_deref(), Some("Unknown"));

    // The link of the newest challenge signs in.
    let token = hex::encode(&s.confirmations.last().unwrap().token);
    let link = ConfirmTokenData { action: ConfirmationAction::Signin, token };
    match confirm_token_at(&mut s, &config(), &link, &caller(id), &device(), 6100).unwrap() {
        ConfirmResponse::SignIn(b) => assert_eq!((b.user_id, b.status), (id, UserStatus::Normal)),
        ConfirmResponse::SignUp(_) => panic!("a sign-in confirmation answers as a sign-in"),
    }
    let e = confirm_token_at(&mut s, &config(), &link, &caller(id), &device(), 6200).unwrap_err();
    assert_eq!(e.response().error_type, ErrorTypeKind::ConfirmationAlreadyUsed);
}

#[test]
fn confirm_rejects_bad_requests() {
    let mut s = Store::new();
    let (resp, _) = signup_at(&mut s, &config(), &signup_data("Alice", "alice@x.com", "Password1"), &device(), 0).unwrap();
    let code = s.confirmations[0].code;
    let data = ConfirmCodeData { action: ConfirmationAction::Signup, code_token: resp.code_token.clone(), code };
    let e = confirm_code_at(&mut s, &config(), &data, &UserAuthInfo { user_id: None, auth_token: None }, &device(), 1)
        .unwrap_err();
    assert_eq!(e.response().error_type, ErrorTypeKind::UserNotFound);
    let e = confirm_code_at(&mut s, &config(), &data, &caller(9), &device(), 1).unwrap_err();
    assert_eq!(e.response().error_type, ErrorTypeKind::UserNotFound);
    let bad_hex = ConfirmCodeData { action: ConfirmationAction::Signup, code_token: "xyz".to_string(), code };
    let e = confirm_code_at(&mut s, &config(), &bad_hex, &caller(1), &device(), 1).unwrap_err();
    assert_eq!(e.response().error_type, ErrorTypeKind::UnprocessableEntity);
    let big = ConfirmCodeData { action: ConfirmationAction::Signup, code_token: resp.code_token.clone(), code: 10000 };
    let e = confirm_code_at(&mut s, &config(), &big, &caller(1), &device(), 1).unwrap_err();
    assert_eq!(e.response().message, "code: Code must be a 4 digit number");
    let wrong = ConfirmCodeData { action: ConfirmationAction::Signup, code_token: resp.code_token.clone(), code: (code + 1) % 10000 };
    let e = confirm_code_at(&mut s, &config(), &wrong, &caller(1), &device(), 1).unwrap_err();
    assert_eq!(e.response().error_type, ErrorTypeKind::ConfirmationNotFound);
    assert_eq!(s.confirmations[0].code_trials, 1);
    assert_eq!(s.users[0].status, UserStatus::Unconfirmed);
}

#[test]
fn other_actions_are_bad_requests_and_roll_back() {
    let mut s = Store::new();
    let id = confirmed_account(&mut s, "Alice", "alice@x.com", "Password1");
    let user = User::from_id(&s, id).unwrap();
    let e = confirm_execute(&mut s, ConfirmationAction::PasswordReset, user, "r".to_string(), &device(), 0).unwrap_err();
    assert_eq!(e.status_code(), 400);
    assert!(e.do_rollback());
}

#[test]
fn status_shows_the_profile() {
    let mut s = Store::new();
    let id = confirmed_account(&mut s, "Alice", "alice@x.com", "Password1");
    let r = auth_status(User::from_id(&s, id)).unwrap();
    assert_eq!((r.name.as_str(), r.email.as_str(), r.status), ("Alice", "alice@x.com", UserStatus::Normal));
    let e = auth_status(User::from_id(&s, 42)).unwrap_err();
    assert_eq!(e.response().error_type, ErrorTypeKind::UserNotFound);
}

#[test]
fn requests_resolve_to_their_account() {
    let mut s = Store::new();
    let id = confirmed_account(&mut s, "Alice", "alice@x.com", "Password1");
    let token_hex = hex::encode(&s.auth_tokens[0].token);
    let id_text = format!("{}", id);
    let info = UserAuthInfo::from_request(Some(id_text.as_str()), Some(token_hex.as_str()));
    assert_eq!(info.user_id, Some(id));
    let u = User::from_request(&mut s, &info, 1200).unwrap();
    assert_eq!(u.email, "alice@x.com");
    assert_eq!(s.auth_tokens[0].last_use_date, 1100);
    User::from_request(&mut s, &info, 1701).unwrap();
    assert_eq!(s.auth_tokens[0].last_use_date, 1701);
    let missing = UserAuthInfo::from_request(Some(id_text.as_str()), None);
    let e = User::from_request(&mut s, &missing, 0).unwrap_err();
    assert_eq!(e.response().error_type, ErrorTypeKind::UserNotFound);
    let other = UserAuthInfo { user_id: Some(id), auth_token: Some(vec![0u8; 32]) };
    let e = User::from_request(&mut s, &other, 0).unwrap_err();
    assert_eq!(e.response().error_type, ErrorTypeKind::UserNotFound);
    s.users[0].status = UserStatus::Banned;
    let e = User::from_request(&mut s, &info, 0).unwrap_err();
    assert_eq!(e.response().error_type, ErrorTypeKind::UserBanned);
}

#[test]
fn registration_fails_when_no_id_is_left() {
    let mut s = Store::new();
    s.next_user_id = u32::MAX;
    let e = User::create_user(&mut s, "Alice", "alice@x.com", "Password1", 0).unwrap_err();
    assert_eq!(e.response().error_type, ErrorTypeKind::DatabaseError);
    assert!(e.do_rollback());
    assert_eq!(s.users.len(), 0);
    s.next_user_id = u32::MAX - 1;
    assert_eq!(User::create_user(&mut s, "Alice", "alice@x.com", "Password1", 0).unwrap(), u32::MAX - 1);
    assert_eq!(s.next_user_id, u32::MAX);
}

#[test]
fn status_switches_in_store_and_value() {
    let mut s = Store::new();
    let id = User::create_user(&mut s, "Alice", "alice@x.com", "Password1", 5).unwrap();
    let mut u = User::find_by_email_opt(&s, "alice@x.com").unwrap();
    assert_eq!((u.id, u.status, u.creation_date), (id, UserStatus::Unconfirmed, 5));
    assert!(u.switch_status(&mut s, UserStatus::Banned).is_ok());
    assert_eq!(u.status, UserStatus::Banned);
    assert_eq!(s.users[0].status, UserStatus::Banned);
    assert!(User::find_by_email_opt(&s, "bob@x.com").is_none());
}

#[test]
fn a_malformed_stored_hash_is_a_mismatch() {
    let mut s = Store::new();
    confirmed_account(&mut s, "Alice", "alice@x.com", "Password1");
    s.users[0].password_hash = "$2b$08$\u{1}bcdefghijklmnopqrstuvwxyz0123456789ABCDEFGHIJK".to_string();
    let e = check_user_password_and_status(&s, "alice@x.com", "Password1").unwrap_err();
    assert_eq!(e.response().error_type, ErrorTypeKind::InvalidEmailOrPassword);
    let mut salt = "\u{80}".to_string();
    salt.push_str(&".".repeat(20));
    s.users[0].password_hash = format!("$2b$10${}", salt);
    let e = check_user_password_and_status(&s, "alice@x.com", "Password1").unwrap_err();
    assert_eq!(e.response().error_type, ErrorTypeKind::InvalidEmailOrPassword);
}

#[test]
fn a_stored_hash_verifies_the_password() {
    let mut s = Store::new();
    let id = User::create_user(&mut s, "Alice", "alice@x.com", "Password1", 0).unwrap();
    assert!(pwhash::bcrypt::verify("Password1", &s.users[0].password_hash));
    assert!(!pwhash::bcrypt::verify("Password2", &s.users[0].password_hash));
    assert_eq!(User::create_user(&mut s, "Alicia", "alice@x.com", "Secret123", 1).unwrap(), id);
    assert!(pwhash::bcrypt::verify("Secret123", &s.users[0].password_hash));
}
