use app_back::confirmation::{ConfirmationKeys, CONFIRMATION_VALIDITY_SECONDS, MAX_CODE_TRIALS};
use app_back::device::DeviceInfo;
use app_back::errors::ErrorTypeKind;
use app_back::model::{AuthToken, Confirmation, ConfirmationAction};
use app_back::store::Store;

fn device() -> DeviceInfo {
    DeviceInfo { device_string: "Test (Linux) Blink".to_string(), ip_address: Some("10.0.0.1".to_string()) }
}

fn store_with_accounts(n: u32) -> Store {
    let mut s = Store::new();
    s.next_user_id = n + 1;
    s
}

fn keys(t: u8, c: u8, code: u16) -> ConfirmationKeys {
    (vec![t; 16], vec![c; 16], code)
}

#[test]
fn insertion_retries_after_a_collision() {
    let mut s = store_with_accounts(1);
    let first = Confirmation::insert_confirmation_with(&mut s, 1, ConfirmationAction::Signup, &device(), 100, &vec![keys(1, 2, 1234)])
        .unwrap();
    assert_eq!(first, keys(1, 2, 1234));
    // The first candidate takes the stored token again, the second is fresh.
    let cands = vec![keys(1, 9, 5555), keys(3, 4, 42)];
    let second = Confirmation::insert_confirmation_with(&mut s, 1, ConfirmationAction::Signup, &device(), 200, &cands).unwrap();
    assert_eq!(second, keys(3, 4, 42));
    assert_ne!(second.0, first.0);
    assert_eq!(s.confirmations.len(), 2);
    let c = &s.confirmations[1];
    assert_eq!((c.user_id, c.used, c.code, c.code_trials, c.date), (1, false, 42, 0, 200));
    assert_eq!(c.device_string.as_deref(), Some("Test (Linux) Blink"));
    assert_eq!(c.ip_address.as_deref(), Some("10.0.0.1"));
}

#[test]
fn insertion_gives_up_after_four_collisions() {
    let mut s = store_with_accounts(1);
    Confirmation::insert_confirmation_with(&mut s, 1, ConfirmationAction::Signin, &device(), 0, &vec![keys(1, 2, 1)]).unwrap();
    // A colliding code token is a collision too.
    let cands = vec![keys(5, 2, 1), keys(6, 2, 1), keys(7, 2, 1), keys(8, 2, 1), keys(9, 9, 1)];
    let r = Confirmation::insert_confirmation_with(&mut s, 1, ConfirmationAction::Signin, &device(), 0, &cands);
    let e = r.unwrap_err();
    assert_eq!(e.response().error_type, ErrorTypeKind::DatabaseError);
    assert!(e.do_rollback());
    assert_eq!(s.confirmations.len(), 1);
    // Another action of the same account does not collide.
    Confirmation::insert_confirmation_with(&mut s, 1, ConfirmationAction::Signup, &device(), 0, &vec![keys(1, 2, 1)]).unwrap();
}

#[test]
fn random_insertion_gives_sized_keys() {
    let mut s = store_with_accounts(1);
    let (t, ct, code) = Confirmation::insert_confirmation(&mut s, 1, ConfirmationAction::Signup, &device(), 0).unwrap();
    assert_eq!(t.len(), 16);
    assert_eq!(ct.len(), 16);
    assert!(code <= 9999);
    assert_eq!(s.confirmations[0].code_token, ct);
}

#[test]
fn a_code_confirms_once() {
    let mut s = store_with_accounts(1);
    Confirmation::insert_confirmation_with(&mut s, 1, ConfirmationAction::Signup, &device(), 1000, &vec![keys(1, 2, 4321)]).unwrap();
    let ct = vec![2u8; 16];
    assert!(Confirmation::check_code_and_mark_as_used(&mut s, 1, ConfirmationAction::Signup, &ct, 4321, 1010).is_ok());
    assert!(s.confirmations[0].used);
    let e = Confirmation::check_code_and_mark_as_used(&mut s, 1, ConfirmationAction::Signup, &ct, 4321, 1020).unwrap_err();
    assert_eq!(e.response().error_type, ErrorTypeKind::ConfirmationAlreadyUsed);
    assert!(e.do_rollback());
    // A used confirmation does not tell a wrong code that it was used.
    let e = Confirmation::check_code_and_mark_as_used(&mut s, 1, ConfirmationAction::Signup, &ct, 1234, 1030).unwrap_err();
    assert_eq!(e.response().error_type, ErrorTypeKind::ConfirmationNotFound);
    assert!(e.do_rollback());
    assert_eq!(s.confirmations[0].code_trials, 0);
}

#[test]
fn lookups_match_every_key() {
    let mut s = store_with_accounts(1);
    Confirmation::insert_confirmation_with(&mut s, 1, ConfirmationAction::Signup, &device(), 0, &vec![keys(1, 2, 77)]).unwrap();
    Confirmation::insert_confirmation_with(&mut s, 1, ConfirmationAction::Signin, &device(), 0, &vec![keys(1, 2, 78)]).unwrap();
    assert_eq!(Confirmation::find_by_code(&s, 1, ConfirmationAction::Signin, &vec![2u8; 16], 78), Some(1));
    assert_eq!(Confirmation::find_by_code(&s, 1, ConfirmationAction::Signin, &vec![2u8; 16], 77), None);
    assert_eq!(Confirmation::find_by_code_token(&s, 1, ConfirmationAction::Signup, &vec![2u8; 16]), Some(0));
    assert_eq!(Confirmation::find_by_token(&s, 1, ConfirmationAction::Signin, &vec![1u8; 16]), Some(1));
    assert_eq!(Confirmation::find_by_token(&s, 1, ConfirmationAction::Signin, &vec![2u8; 16]), None);
    assert_eq!(s.confirmations[1].code_trials, 0);
}

#[test]
fn unknown_code_token_is_not_found() {
    let mut s = store_with_accounts(2);
    Confirmation::insert_confirmation_with(&mut s, 1, ConfirmationAction::Signup, &device(), 0, &vec![keys(1, 2, 1)]).unwrap();
    let e = Confirmation::check_code_and_mark_as_used(&mut s, 2, ConfirmationAction::Signup, &vec![2u8; 16], 1, 0).unwrap_err();
    assert_eq!(e.response().error_type, ErrorTypeKind::ConfirmationNotFound);
    assert!(e.do_rollback());
    let e = Confirmation::check_code_and_mark_as_used(&mut s, 1, ConfirmationAction::Signin, &vec![2u8; 16], 1, 0).unwrap_err();
    assert_eq!(e.response().error_type, ErrorTypeKind::ConfirmationNotFound);
    assert!(!s.confirmations[0].used);
}

#[test]
fn wrong_codes_are_counted_until_the_limit() {
    let mut s = store_with_accounts(1);
    Confirmation::insert_confirmation_with(&mut s, 1, ConfirmationAction::Signup, &device(), 0, &vec![keys(1, 2, 1111)]).unwrap();
    let ct = vec![2u8; 16];
    for trial in 1..MAX_CODE_TRIALS {
        let e = Confirmation::check_code_and_mark_as_used(&mut s, 1, ConfirmationAction::Signup, &ct, 2222, 10).unwrap_err();
        assert_eq!(e.response().error_type, ErrorTypeKind::ConfirmationNotFound);
        assert!(!e.do_rollback());
        assert_eq!(s.confirmations[0].code_trials, trial);
    }
    let e = Confirmation::check_code_and_mark_as_used(&mut s, 1, ConfirmationAction::Signup, &ct, 2222, 10).unwrap_err();
    assert_eq!(e.response().error_type, ErrorTypeKind::ConfirmationTooManyAttempts);
    assert!(!e.do_rollback());
    assert_eq!(s.confirmations[0].code_trials, MAX_CODE_TRIALS);
    // Even the right code is refused now.
    let e = Confirmation::check_code_and_mark_as_used(&mut s, 1, ConfirmationAction::Signup, &ct, 1111, 10).unwrap_err();
    assert_eq!(e.response().error_type, ErrorTypeKind::ConfirmationTooManyAttempts);
    assert!(!s.confirmations[0].used);
}

#[test]
fn old_confirmations_expire() {
    let mut s = store_with_accounts(1);
    Confirmation::insert_confirmation_with(&mut s, 1, ConfirmationAction::Signup, &device(), 0, &vec![keys(1, 2, 7)]).unwrap();
    let ct = vec![2u8; 16];
    let late = CONFIRMATION_VALIDITY_SECONDS + 1;
    let e = Confirmation::check_code_and_mark_as_used(&mut s, 1, ConfirmationAction::Signup, &ct, 7, late).unwrap_err();
    assert_eq!(e.response().error_type, ErrorTypeKind::ConfirmationExpired);
    assert!(!e.do_rollback());
    assert!(s.confirmations[0].used);
    // At the limit itself it is still valid.
    Confirmation::insert_confirmation_with(&mut s, 1, ConfirmationAction::Signin, &device(), 0, &vec![keys(1, 2, 7)]).unwrap();
    assert!(Confirmation::check_code_and_mark_as_used(&mut s, 1, ConfirmationAction::Signin, &ct, 7, CONFIRMATION_VALIDITY_SECONDS).is_ok());
}

#[test]
fn a_link_token_confirms_once() {
    let mut s = store_with_accounts(1);
    Confirmation::insert_confirmation_with(&mut s, 1, ConfirmationAction::Signin, &device(), 0, &vec![keys(1, 2, 7)]).unwrap();
    let t = vec![1u8; 16];
    assert!(Confirmation::check_token_and_mark_as_used(&mut s, 1, ConfirmationAction::Signin, &t, 5).is_ok());
    let e = Confirmation::check_token_and_mark_as_used(&mut s, 1, ConfirmationAction::Signin, &t, 5).unwrap_err();
    assert_eq!(e.response().error_type, ErrorTypeKind::ConfirmationAlreadyUsed);
    let e = Confirmation::check_token_and_mark_as_used(&mut s, 1, ConfirmationAction::Signin, &vec![2u8; 16], 5).unwrap_err();
    assert_eq!(e.response().error_type, ErrorTypeKind::ConfirmationNotFound);
    Confirmation::insert_confirmation_with(&mut s, 1, ConfirmationAction::Signup, &device(), 0, &vec![keys(1, 2, 7)]).unwrap();
    let e = Confirmation::check_token_and_mark_as_used(&mut s, 1, ConfirmationAction::Signup, &t, 2000).unwrap_err();
    assert_eq!(e.response().error_type, ErrorTypeKind::ConfirmationExpired);
    assert!(s.confirmations[1].used);
}

#[test]
fn invalidation_marks_every_confirmation_of_the_pair() {
    let mut s = store_with_accounts(2);
    Confirmation::insert_confirmation_with(&mut s, 1, ConfirmationAction::Signin, &device(), 0, &vec![keys(1, 1, 1)]).unwrap();
    Confirmation::insert_confirmation_with(&mut s, 1, ConfirmationAction::Signin, &device(), 0, &vec![keys(2, 2, 2)]).unwrap();
    Confirmation::insert_confirmation_with(&mut s, 1, ConfirmationAction::Signup, &device(), 0, &vec![keys(3, 3, 3)]).unwrap();
    Confirmation::insert_confirmation_with(&mut s, 2, ConfirmationAction::Signin, &device(), 0, &vec![keys(4, 4, 4)]).unwrap();
    assert!(Confirmation::mark_all_as_used(&mut s, 1, ConfirmationAction::Signin).is_ok());
    let used: Vec<bool> = s.confirmations.iter().map(|c| c.used).collect();
    assert_eq!(used, vec![true, true, false, false]);
    let copy = s.confirmations[2].duplicate();
    assert!(copy.mark_as_used(&mut s).is_ok());
    assert!(s.confirmations[2].used);
    assert!(!s.confirmations[3].used);
}

#[test]
fn session_token_insertion_retries_after_a_collision() {
    let mut s = store_with_accounts(2);
    let first = AuthToken::insert_token_with(&mut s, 1, &device(), 50, &vec![vec![7u8; 32]]).unwrap();
    assert_eq!(first, vec![7u8; 32]);
    // Token bytes are unique across accounts.
    let second = AuthToken::insert_token_with(&mut s, 2, &device(), 60, &vec![vec![7u8; 32], vec![8u8; 32]]).unwrap();
    assert_eq!(second, vec![8u8; 32]);
    assert_ne!(first, second);
    let all_taken = vec![vec![7u8; 32], vec![8u8; 32], vec![7u8; 32], vec![8u8; 32], vec![7u8; 32], vec![9u8; 32]];
    let e = AuthToken::insert_token_with(&mut s, 2, &device(), 60, &all_taken).unwrap_err();
    assert_eq!(e.response().error_type, ErrorTypeKind::DatabaseError);
    assert_eq!(s.auth_tokens.len(), 2);
    let t = &s.auth_tokens[1];
    assert_eq!((t.user_id, t.creation_date, t.last_use_date), (2, 60, 60));
    let r = AuthToken::insert_token_for_user(&mut s, 1, &device(), 70).unwrap();
    assert_eq!(r.len(), 32);
    assert_eq!(s.auth_tokens.len(), 3);
}

#[test]
fn last_use_is_recorded_after_ten_minutes_only() {
    let mut s = store_with_accounts(1);
    AuthToken::insert_token_with(&mut s, 1, &device(), 1000, &vec![vec![1u8; 32]]).unwrap();
    let tok = s.auth_tokens[0].duplicate();
    assert!(tok.update_last_use_date(&mut s, 1600).is_ok());
    assert_eq!(s.auth_tokens[0].last_use_date, 1000);
    assert!(tok.update_last_use_date(&mut s, 1601).is_ok());
    assert_eq!(s.auth_tokens[0].last_use_date, 1601);
    assert_eq!(AuthToken::find_session(&s, 1, &vec![1u8; 32]), Some(0));
    assert_eq!(AuthToken::find_session(&s, 2, &vec![1u8; 32]), None);
}

#[test]
fn clearing_removes_the_tokens_of_one_account() {
    let mut s = store_with_accounts(2);
    AuthToken::insert_token_with(&mut s, 1, &device(), 0, &vec![vec![1u8; 32]]).unwrap();
    AuthToken::insert_token_with(&mut s, 2, &device(), 0, &vec![vec![2u8; 32]]).unwrap();
    AuthToken::insert_token_with(&mut s, 1, &device(), 0, &vec![vec![3u8; 32]]).unwrap();
    assert!(AuthToken::clear_auth_tokens(&mut s, 1).is_ok());
    assert_eq!(s.auth_tokens.len(), 1);
    assert_eq!(s.auth_tokens[0].user_id, 2);
}
