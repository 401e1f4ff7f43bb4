use app_back::errors::{
    bad_request, internal_error, not_found, unauthorized, unprocessable_entity, ErrorResponder, ErrorType,
    ErrorTypeKind,
};
use app_back::store::Store;
use app_back::transaction::{err_transaction, finish_transaction};

fn parts(r: &ErrorResponder) -> (u16, ErrorTypeKind, String, bool) {
    let b = r.response();
    (r.status_code(), b.error_type, b.message.clone(), b.rollback)
}

#[test]
fn catchers_give_fixed_responses() {
    assert_eq!(parts(&bad_request()), (400, ErrorTypeKind::BadRequest, "Bad request".to_string(), false));
    assert_eq!(parts(&unauthorized()), (401, ErrorTypeKind::Unauthorized, "Unauthorized".to_string(), false));
    assert_eq!(
        parts(&not_found("/nowhere")),
        (404, ErrorTypeKind::NotFound, "Not found: /nowhere".to_string(), false)
    );
    assert_eq!(
        parts(&unprocessable_entity()),
        (422, ErrorTypeKind::UnprocessableEntity, "Unprocessable entity".to_string(), false)
    );
    assert_eq!(
        parts(&internal_error()),
        (500, ErrorTypeKind::InternalError, "Internal error: Internal Error".to_string(), false)
    );
}

#[test]
fn each_kind_has_its_status_and_message() {
    let cases = vec![
        (ErrorType::InvalidInput("name: too short".to_string()), 422, "name: too short"),
        (ErrorType::UserNotFound, 401, "User not found"),
        (ErrorType::UserBanned, 401, "User is banned"),
        (ErrorType::UserUnconfirmed, 401, "User is not confirmed"),
        (ErrorType::InvalidEmailOrPassword, 401, "Invalid email or password"),
        (ErrorType::TFARequiredOverEmail, 401, "2FA required over email"),
        (ErrorType::TFARequired, 401, "2FA required"),
        (ErrorType::InvalidTOTPCode, 401, "Invalid TOTP code"),
        (ErrorType::EmailAlreadyExists, 401, "Email already exists"),
        (ErrorType::ConfirmationAlreadyUsed, 401, "Confirmation code/token already used"),
        (ErrorType::ConfirmationExpired, 401, "Confirmation code/token expired"),
        (ErrorType::ConfirmationTooManyAttempts, 401, "Too many attempts"),
        (ErrorType::ConfirmationNotFound, 401, "Invalid code/token"),
        (ErrorType::UserNotAdmin, 401, "User is not an admin"),
        (ErrorType::DatabaseError("Failed".to_string(), "boom".to_string()), 500, "Database error: Failed - boom"),
    ];
    for (e, status, msg) in cases {
        let r = e.res();
        assert_eq!(r.status_code(), status);
        assert_eq!(r.response().message, msg);
        assert!(!r.do_rollback());
    }
}

#[test]
fn rollback_disposition_follows_the_kind() {
    assert!(ErrorType::ConfirmationNotFound.to_responder().do_rollback());
    assert!(ErrorType::DatabaseError("a".to_string(), "b".to_string()).to_responder().do_rollback());
    assert!(ErrorType::InvalidInput("x".to_string()).to_responder().do_rollback());
    assert!(!ErrorType::ConfirmationExpired.to_responder().do_rollback());
    assert!(!ErrorType::ConfirmationTooManyAttempts.to_responder().do_rollback());
    assert!(ErrorType::UserBanned.res_rollback().do_rollback());
    assert!(!ErrorType::UserBanned.res().do_rollback());
    let r: Result<(), ErrorResponder> = ErrorType::BadRequest.res_err_rollback();
    assert!(r.unwrap_err().do_rollback());
    let r: Result<(), ErrorResponder> = ErrorType::BadRequest.res_err();
    assert!(!r.unwrap_err().do_rollback());
    let r: Result<(), ErrorResponder> = ErrorType::ConfirmationExpired.to_err();
    assert!(!r.unwrap_err().do_rollback());
}

#[test]
fn kinds_report_status_and_disposition() {
    assert_eq!(ErrorTypeKind::InvalidInput.status(), 422);
    assert_eq!(ErrorTypeKind::DatabaseError.status(), 500);
    assert_eq!(ErrorTypeKind::TFARequired.status(), 401);
    assert!(!ErrorTypeKind::ConfirmationExpired.rolls_back());
    assert!(ErrorTypeKind::EmailAlreadyExists.rolls_back());
    let e = ErrorType::NotFound("/x".to_string());
    assert_eq!(e.get_kind(), ErrorTypeKind::NotFound);
    assert_eq!(e.get_message(), "Not found: /x");
}

fn store_with_one_step() -> Store {
    let mut s = Store::new();
    s.next_user_id = 2;
    s
}

#[test]
fn transaction_rolls_back_on_rolling_errors() {
    let mut s = Store::new();
    let r: Result<u32, ErrorResponder> = err_transaction(&mut s, |c: &mut Store| {
        c.next_user_id = 7;
        ErrorType::ConfirmationNotFound.to_err()
    });
    assert!(r.is_err());
    assert_eq!(s.next_user_id, 1);
}

#[test]
fn transaction_commits_on_success_and_on_committing_errors() {
    let mut s = Store::new();
    let r: Result<u32, ErrorResponder> = err_transaction(&mut s, |c: &mut Store| {
        c.next_user_id = 7;
        Ok(3)
    });
    assert_eq!(r.ok(), Some(3));
    assert_eq!(s.next_user_id, 7);
    let r: Result<u32, ErrorResponder> = err_transaction(&mut s, |c: &mut Store| {
        c.next_user_id = 9;
        ErrorType::ConfirmationTooManyAttempts.to_err()
    });
    assert_eq!(r.unwrap_err().response().error_type, ErrorTypeKind::ConfirmationTooManyAttempts);
    assert_eq!(s.next_user_id, 9);
}

#[test]
fn finishing_a_transaction_restores_the_snapshot() {
    let mut s = store_with_one_step();
    let snapshot = s.snapshot();
    s.next_user_id = 5;
    let r: Result<(), ErrorResponder> = finish_transaction(&mut s, snapshot, ErrorType::UserBanned.to_err());
    assert!(r.is_err());
    assert_eq!(s.next_user_id, 2);
    let snapshot = s.snapshot();
    s.next_user_id = 6;
    let r: Result<(), ErrorResponder> = finish_transaction(&mut s, snapshot, ErrorType::UserBanned.res_err());
    assert!(r.is_err());
    assert_eq!(s.next_user_id, 6);
}

#[test]
fn store_errors_are_redacted_for_clients() {
    let r = ErrorType::DatabaseError("Failed to insert user".to_string(), "raw detail".to_string()).to_responder();
    assert_eq!(r.response().message, "Database error: Failed to insert user - raw detail");
    let p = r.public_response();
    assert_eq!(p.message, "Internal error");
    assert_eq!(p.error_type, ErrorTypeKind::DatabaseError);
    assert!(p.rollback);
    let p = ErrorType::UserBanned.to_responder().public_response();
    assert_eq!(p.message, "User is banned");
}
