//! The user-facing flows: sign-up, sign-in (direct and by email), confirm
//! (by code or by token) and status, each one unit of work on the store.

use vstd::prelude::*;
use vstd::string::*;
use crate::auth_token::{new_auth_token, with_token};
use crate::confirmation::{keys_view, new_confirmation, with_confirmation};
use crate::device::{DeviceInfo, UserAuthInfo};
use crate::encoding::{encode_hex, hex_of};
use crate::errors::{ErrorResponder, ErrorType, ErrorTypeKind};
use crate::model::{
    AuthToken, Confirmation, ConfirmationAction, ConfirmationView, User, UserStatus, UserView,
};
use crate::store::{Store, StoreView};
use crate::transaction::finish_transaction;
use crate::user::{bcrypt_verifies, email_at, re_registered, user_record, with_new_user};
use crate::utils::{code_text, decimal, decimal_string, format_code, now_timestamp};
use crate::validation::{join_parts, signup_parts, validate_input};

verus! {

/// Settings of the flows.
#[derive(Debug)]
pub struct AuthConfig {
    /// Where the frontend is served; confirmation links point there.
    pub frontend_host: String,
}

/// An email asking the user to confirm, for the mailer to render and send.
#[derive(Debug)]
pub struct ConfirmationMail {
    pub recipient_name: String,
    pub recipient_email: String,
    pub subject: String,
    /// The name of the template to render.
    pub template: String,
    /// The confirmation link.
    pub url: String,
    /// The confirmation code, as the user types it.
    pub code: String,
    /// Where the request came from, for a sign-in challenge.
    pub ip_address: Option<String>,
    pub device: Option<String>,
}

/// A sign-up request.
#[derive(Debug)]
pub struct SignupData {
    pub name: String,
    pub email: String,
    pub password: String,
}

/// The answer to a sign-up: the account and the code token of its confirmation.
#[derive(Debug)]
pub struct SignupResponse {
    pub id: u32,
    pub code_token: String,
}

/// A link to the frontend for a confirmation: `host + path + "?id=" + id + "&token=" + hex(token)`.
pub open spec fn confirm_url(host: Seq<char>, path: Seq<char>, id: u32, token: Seq<u8>) -> Seq<char> {
    host + path + "?id="@ + decimal(id as nat) + "&token="@ + hex_of(token)
}

/// The store after a registration of `name`/`email`/`password` at time
/// `now` that gave the account `id`: a new account, or an unconfirmed one
/// taken over, with a hash that the password verifies against.
pub open spec fn registered(
    s: StoreView,
    u: StoreView,
    name: Seq<char>,
    email: Seq<char>,
    password: Seq<char>,
    now: i64,
    id: u32,
) -> bool {
    ||| !s.has_email(email) && id == s.next_user_id && exists|h: Seq<char>|
        bcrypt_verifies(password, h) && u == with_new_user(s, user_record(id, name, email, h, now))
    ||| exists|i: int| #[trigger] email_at(s, i, email) && s.users[i].status == UserStatus::Unconfirmed
        && id == s.users[i].id && exists|h: Seq<char>| bcrypt_verifies(password, h) && u == re_registered(
        s,
        i,
        name,
        h,
        now,
    )
}

/// A sign-up of this email can register: the email is free and an id is
/// left, or it belongs to an `Unconfirmed` account.
pub open spec fn can_register(s: StoreView, email: Seq<char>) -> bool {
    !email_taken(s, email) && (s.has_email(email) || s.next_user_id < u32::MAX)
}

/// A successful sign-up at time `now`, from store `s` to store `t`: the
/// account is registered and a fresh, unused sign-up confirmation is issued
/// for it, whose code token the response carries and whose link and code
/// the email carries.
pub open spec fn signup_ok(
    s: StoreView,
    t: StoreView,
    config: AuthConfig,
    data: SignupData,
    device: DeviceInfo,
    now: i64,
    resp: SignupResponse,
    mail: ConfirmationMail,
) -> bool {
    &&& exists|u: StoreView, keys: (Seq<u8>, Seq<u8>, u16)|
        registered(s, u, data.name@, data.email@, data.password@, now, resp.id) && u.wf() && !u.confirmation_collides(
            resp.id,
            ConfirmationAction::Signup,
            keys.0,
            keys.1,
        ) && t == with_confirmation(u, new_confirmation(resp.id, ConfirmationAction::Signup, keys, now, device))
            && resp.code_token@ == hex_of(keys.1) && keys.2 <= 9999 && keys.0.len() == crate::confirmation::CONFIRMATION_TOKEN_BYTES
            && keys.1.len() == crate::confirmation::CONFIRMATION_TOKEN_BYTES && mail.url@ == confirm_url(
            config.frontend_host@,
            "/signup/confirm"@,
            resp.id,
            keys.0,
        ) && mail.code@ == code_text(keys.2 as nat)
    &&& mail.recipient_name@ == data.name@
    &&& mail.recipient_email@ == data.email@
    &&& mail.subject@ == "Confirm your email address"@
    &&& mail.template@ == "confirm_signup"@
}

/// The email of the sign-up is taken by an account that is not `Unconfirmed`.
pub open spec fn email_taken(s: StoreView, email: Seq<char>) -> bool {
    exists|i: int| #[trigger] email_at(s, i, email) && s.users[i].status != UserStatus::Unconfirmed
}

/// The outcome of a sign-up at time `now`, from store `s` to store `t`.
pub open spec fn signup_outcome(
    s: StoreView,
    t: StoreView,
    config: AuthConfig,
    data: SignupData,
    device: DeviceInfo,
    now: i64,
    r: Result<(SignupResponse, ConfirmationMail), ErrorResponder>,
) -> bool {
    let parts = signup_parts(data.name@, data.email@, data.password@);
    &&& r is Err ==> t == s && r->Err_0.body().rollback
    &&& parts.len() > 0 ==> r is Err && r->Err_0.describes(ErrorTypeKind::InvalidInput, join_parts(parts), true)
    &&& (parts.len() == 0 && email_taken(s, data.email@)) ==> r is Err && r->Err_0.kind()
        == ErrorTypeKind::EmailAlreadyExists
    &&& (parts.len() == 0 && !s.has_email(data.email@) && s.next_user_id == u32::MAX) ==> r is Err
        && r->Err_0.kind() == ErrorTypeKind::DatabaseError
    &&& (parts.len() == 0 && can_register(s, data.email@)) ==> r is Ok
    &&& r is Ok ==> parts.len() == 0 && signup_ok(s, t, config, data, device, now, r->Ok_0.0, r->Ok_0.1)
}

/// The confirmation link for account `id` and `token`.
fn build_url(host: &String, path: &str, id: u32, token: &Vec<u8>) -> (r: String)
    ensures
        r@ == confirm_url(host@, path@, id, token@),
{
    let url = host.clone().concat(path).concat("?id=");
    let idt = decimal_string(id);
    let url = url.concat(idt.as_str()).concat("&token=");
    let tok = encode_hex(token);
    url.concat(tok.as_str())
}

/// The sign-up unit of work, without its transaction.
fn signup_unit(
    conn: &mut Store,
    config: &AuthConfig,
    data: &SignupData,
    device_info: &DeviceInfo,
    now: i64,
) -> (r: Result<(SignupResponse, ConfirmationMail), ErrorResponder>)
    requires
        old(conn).wf(),
    ensures
        final(conn).wf(),
        r is Err ==> r->Err_0.body().rollback,
        email_taken(old(conn)@, data.email@) ==> r is Err && r->Err_0.kind() == ErrorTypeKind::EmailAlreadyExists,
        (!old(conn)@.has_email(data.email@) && old(conn)@.next_user_id == u32::MAX) ==> r is Err
            && r->Err_0.kind() == ErrorTypeKind::DatabaseError,
        can_register(old(conn)@, data.email@) ==> r is Ok,
        r is Ok ==> signup_ok(old(conn)@, final(conn)@, *config, *data, *device_info, now, r->Ok_0.0, r->Ok_0.1),
{
    let ghost s0 = conn@;
    proof {
        if s0.has_email(data.email@) {
            let i = choose|i: int| 0 <= i < s0.users.len() && #[trigger] s0.users[i].email == data.email@;
            assert(email_at(s0, i, data.email@));
        }
    }
    let uid = User::create_user(conn, data.name.as_str(), data.email.as_str(), data.password.as_str(), now)?;
    let ghost u = conn@;
    assert(!crate::confirmation::has_confirmation_of(u, uid, ConfirmationAction::Signup));
    let keys = Confirmation::insert_confirmation(conn, uid, ConfirmationAction::Signup, device_info, now)?;
    let code = format_code(keys.2);
    let url = build_url(&config.frontend_host, "/signup/confirm", uid, &keys.0);
    let mail = ConfirmationMail {
        recipient_name: data.name.clone(),
        recipient_email: data.email.clone(),
        subject: String::from_str("Confirm your email address"),
        template: String::from_str("confirm_signup"),
        url,
        code,
        ip_address: None,
        device: None,
    };
    let resp = SignupResponse { id: uid, code_token: encode_hex(&keys.1) };
    proof {
        let s0 = old(conn)@;
        if s0.has_email(data.email@) {
            let i = choose|i: int| 0 <= i < s0.users.len() && #[trigger] s0.users[i].email == data.email@;
            assert(email_at(s0, i, data.email@));
        }
    }
    assert(registered(old(conn)@, u, data.name@, data.email@, data.password@, now, uid));
    assert(signup_ok(old(conn)@, conn@, *config, *data, *device_info, now, resp, mail)) by {
        let kv = keys_view(keys);
        assert(conn@ == with_confirmation(u, new_confirmation(uid, ConfirmationAction::Signup, kv, now, *device_info)));
    }
    Ok((resp, mail))
}

/// Signs up at time `now`: validates the fields, registers the account
/// (taking over an unconfirmed one with the same email), and issues its
/// sign-up confirmation, as one transaction. Returns the account id and the
/// code token, with the confirmation email to send. It succeeds whenever the
/// fields are valid and the email is free (with an id left) or held by an
/// `Unconfirmed` account.
pub fn signup_at(
    conn: &mut Store,
    config: &AuthConfig,
    data: &SignupData,
    device_info: &DeviceInfo,
    now: i64,
) -> (r: Result<(SignupResponse, ConfirmationMail), ErrorResponder>)
    requires
        old(conn).wf(),
    ensures
        final(conn).wf(),
        signup_outcome(old(conn)@, final(conn)@, *config, *data, *device_info, now, r),
{
    validate_input(data)?;
    let snapshot = conn.snapshot();
    let res = signup_unit(conn, config, data, device_info, now);
    finish_transaction(conn, snapshot, res)
}

/// Signs up at the current time; see `signup_at`.
pub fn auth_signup(
    conn: &mut Store,
    config: &AuthConfig,
    data: &SignupData,
    device_info: &DeviceInfo,
) -> (r: Result<(SignupResponse, ConfirmationMail), ErrorResponder>)
    requires
        old(conn).wf(),
    ensures
        final(conn).wf(),
        exists|now: i64| signup_outcome(old(conn)@, final(conn)@, *config, *data, *device_info, now, r),
{
    let now = now_timestamp();
    signup_at(conn, config, data, device_info, now)
}

/// A sign-in request; the TOTP code is given when the account asks for a
/// second factor.
#[derive(Debug)]
pub struct SigninData {
    pub email: String,
    pub password: String,
    pub totp_code: Option<String>,
}

/// The answer to a direct sign-in.
#[derive(Debug)]
pub struct SigninResponse {
    pub user_id: u32,
    pub auth_token: String,
    pub name: String,
    pub status: UserStatus,
}

/// The answer to a sign-in by email: the code token of the challenge.
#[derive(Debug)]
pub struct SigninEmailResponse {
    pub code_token: String,
}

/// A new session token was issued for account `uid` at time `now`, from
/// store `s` to store `t`, and `text` is its hexadecimal form.
pub open spec fn token_issued(s: StoreView, t: StoreView, uid: u32, device: DeviceInfo, now: i64, text: Seq<char>) -> bool {
    exists|tok: Seq<u8>|
        tok.len() == crate::auth_token::AUTH_TOKEN_BYTES && !s.has_token(tok) && t == with_token(
            s,
            new_auth_token(uid, tok, now, device),
        ) && text == hex_of(tok)
}

/// The account has a TOTP secret.
pub open spec fn has_totp(s: StoreView, uid: u32) -> bool {
    exists|i: int| 0 <= i < s.totp_secrets.len() && #[trigger] s.totp_secrets[i].user_id == uid
}

/// The position of the TOTP secret of the account.
fn find_totp(conn: &Store, uid: u32) -> (r: Option<usize>)
    ensures
        match r {
            Some(i) => i < conn@.totp_secrets.len() && conn@.totp_secrets[i as int].user_id == uid,
            None => !has_totp(conn@, uid),
        },
{
    let mut i: usize = 0;
    while i < conn.totp_secrets.len()
        invariant
            i <= conn.totp_secrets.len(),
            forall|k: int| 0 <= k < i ==> #[trigger] conn@.totp_secrets[k].user_id != uid,
        decreases conn.totp_secrets.len() - i,
    {
        if conn.totp_secrets[i].user_id == uid {
            return Some(i);
        }
        i = i + 1;
    }
    None
}

/// `f` accepted the TOTP `code` for `secret`.
pub open spec fn totp_accepted<F: Fn(&Vec<u8>, &str) -> bool>(f: F, secret: Seq<u8>, code: Seq<char>) -> bool {
    exists|sv: &Vec<u8>, cv: &str| sv@ == secret && cv@ == code && #[trigger] f.ensures((sv, cv), true)
}

/// `f` refused the TOTP `code` for `secret`.
pub open spec fn totp_refused<F: Fn(&Vec<u8>, &str) -> bool>(f: F, secret: Seq<u8>, code: Seq<char>) -> bool {
    exists|sv: &Vec<u8>, cv: &str| sv@ == secret && cv@ == code && #[trigger] f.ensures((sv, cv), false)
}

/// A session token is issued for `u`, or issuing it failed in the store.
pub open spec fn issue_outcome(
    s: StoreView,
    t: StoreView,
    u: UserView,
    device: DeviceInfo,
    now: i64,
    r: Result<SigninResponse, ErrorResponder>,
) -> bool {
    &&& r is Ok ==> r->Ok_0.user_id == u.id && r->Ok_0.name@ == u.name && r->Ok_0.status == u.status
        && token_issued(s, t, u.id, device, now, r->Ok_0.auth_token@)
    &&& r is Err ==> r->Err_0.kind() == ErrorTypeKind::DatabaseError && s.auth_tokens.len() > 0
}

/// The second factor is asked for and no code was given.
pub open spec fn challenge_outcome(s: StoreView, u: UserView, r: Result<SigninResponse, ErrorResponder>) -> bool {
    if has_totp(s, u.id) {
        crate::user::fails_as(r, ErrorType::TFARequired)
    } else {
        crate::user::fails_as(r, ErrorType::TFARequiredOverEmail)
    }
}

/// A TOTP code was given: it must be accepted for the account's secret.
pub open spec fn totp_outcome<F: Fn(&Vec<u8>, &str) -> bool>(
    s: StoreView,
    t: StoreView,
    u: UserView,
    code: Seq<char>,
    device: DeviceInfo,
    now: i64,
    f: F,
    r: Result<SigninResponse, ErrorResponder>,
) -> bool {
    &&& !has_totp(s, u.id) ==> crate::user::fails_as(r, ErrorType::InvalidTOTPCode)
    &&& r is Ok ==> exists|k: int|
        0 <= k < s.totp_secrets.len() && #[trigger] s.totp_secrets[k].user_id == u.id && totp_accepted(
            f,
            s.totp_secrets[k].secret,
            code,
        )
    &&& r is Err && r->Err_0.kind() == ErrorTypeKind::InvalidTOTPCode ==> crate::user::fails_as(
        r,
        ErrorType::InvalidTOTPCode,
    ) && (!has_totp(s, u.id) || exists|k: int|
        0 <= k < s.totp_secrets.len() && #[trigger] s.totp_secrets[k].user_id == u.id && totp_refused(
            f,
            s.totp_secrets[k].secret,
            code,
        ))
    &&& r is Err ==> r->Err_0.kind() == ErrorTypeKind::InvalidTOTPCode || r->Err_0.kind()
        == ErrorTypeKind::DatabaseError
    &&& r is Err && r->Err_0.kind() == ErrorTypeKind::DatabaseError ==> s.auth_tokens.len() > 0 && exists|k: int|
        0 <= k < s.totp_secrets.len() && #[trigger] s.totp_secrets[k].user_id == u.id && totp_accepted(
            f,
            s.totp_secrets[k].secret,
            code,
        )
    &&& r is Ok ==> issue_outcome(s, t, u, device, now, r)
}

/// How a direct sign-in of the account `u`, whose credentials were given, ends.
pub open spec fn account_signin_outcome<F: Fn(&Vec<u8>, &str) -> bool>(
    s: StoreView,
    t: StoreView,
    u: UserView,
    data: SigninData,
    device: DeviceInfo,
    now: i64,
    f: F,
    r: Result<SigninResponse, ErrorResponder>,
) -> bool {
    match crate::user::credential_verdict(u, data.password@) {
        Some(e) => crate::user::fails_as(r, e),
        None => if !u.tfa_login {
            issue_outcome(s, t, u, device, now, r)
        } else if data.totp_code is None {
            challenge_outcome(s, u, r)
        } else {
            totp_outcome(s, t, u, data.totp_code->0@, device, now, f, r)
        },
    }
}

/// How a direct sign-in at time `now` ends, from store `s` to store `t`.
pub open spec fn signin_outcome<F: Fn(&Vec<u8>, &str) -> bool>(
    s: StoreView,
    t: StoreView,
    data: SigninData,
    device: DeviceInfo,
    now: i64,
    f: F,
    r: Result<SigninResponse, ErrorResponder>,
) -> bool {
    &&& r is Err ==> t == s
    &&& !s.has_email(data.email@) ==> crate::user::fails_as(r, ErrorType::InvalidEmailOrPassword)
    &&& forall|i: int| #[trigger]
        email_at(s, i, data.email@) ==> account_signin_outcome(s, t, s.users[i], data, device, now, f, r)
}

/// Signs in with email and password at time `now`. An account that asks
/// for a second factor needs a TOTP code, checked by `totp_check` against
/// the account's secret; without one the sign-in fails with `TFARequired`
/// when the account has a TOTP secret and with `TFARequiredOverEmail`
/// otherwise, and no session token is issued. On success a new session
/// token is issued and returned in hexadecimal with the account's profile;
/// issuing it fails only when stored tokens took every candidate.
pub fn signin_at<F: Fn(&Vec<u8>, &str) -> bool>(
    conn: &mut Store,
    data: &SigninData,
    device_info: &DeviceInfo,
    now: i64,
    totp_check: F,
) -> (r: Result<SigninResponse, ErrorResponder>)
    requires
        old(conn).wf(),
        forall|secret: &Vec<u8>, code: &str| #[trigger] totp_check.requires((secret, code)),
    ensures
        final(conn).wf(),
        signin_outcome(old(conn)@, final(conn)@, *data, *device_info, now, totp_check, r),
{
    let user = crate::user::check_user_password_and_status(conn, data.email.as_str(), data.password.as_str())?;
    let ghost s = conn@;
    proof {
        if s.has_email(data.email@) {
            let i = choose|i: int| 0 <= i < s.users.len() && #[trigger] s.users[i].email == data.email@;
            assert(email_at(s, i, data.email@));
        }
    }
    if user.tfa_login {
        let found = find_totp(conn, user.id);
        match &data.totp_code {
            Some(code) => {
                let accepted = match found {
                    Some(k) => totp_check(&conn.totp_secrets[k].secret, code.as_str()),
                    None => false,
                };
                if !accepted {
                    return ErrorType::InvalidTOTPCode.to_err();
                }
            },
            None => {
                if found.is_some() {
                    return ErrorType::TFARequired.to_err();
                }
                return ErrorType::TFARequiredOverEmail.to_err();
            },
        }
    }
    let token = AuthToken::insert_token_for_user(conn, user.id, device_info, now)?;
    Ok(SigninResponse { user_id: user.id, auth_token: encode_hex(&token), name: user.name, status: user.status })
}

/// Signs in at the current time; see `signin_at`.
pub fn auth_signin<F: Fn(&Vec<u8>, &str) -> bool>(
    conn: &mut Store,
    data: &SigninData,
    device_info: &DeviceInfo,
    totp_check: F,
) -> (r: Result<SigninResponse, ErrorResponder>)
    requires
        old(conn).wf(),
        forall|secret: &Vec<u8>, code: &str| #[trigger] totp_check.requires((secret, code)),
    ensures
        final(conn).wf(),
        exists|now: i64| signin_outcome(old(conn)@, final(conn)@, *data, *device_info, now, totp_check, r),
{
    let now = now_timestamp();
    signin_at(conn, data, device_info, now, totp_check)
}

/// The store with every confirmation of this account and action marked used.
pub open spec fn invalidated(s: StoreView, uid: u32, action: ConfirmationAction) -> StoreView {
    StoreView { confirmations: crate::confirmation::all_marked_used(s.confirmations, uid, action), ..s }
}

/// A successful sign-in challenge by email for account `u`: its earlier
/// sign-in confirmations are invalidated and a new one is issued, whose code
/// token the response carries and whose link and code the email carries.
pub open spec fn signin_email_ok(
    s: StoreView,
    t: StoreView,
    config: AuthConfig,
    u: UserView,
    data: SigninData,
    device: DeviceInfo,
    now: i64,
    resp: SigninEmailResponse,
    mail: ConfirmationMail,
) -> bool {
    &&& exists|keys: (Seq<u8>, Seq<u8>, u16)|
        !invalidated(s, u.id, ConfirmationAction::Signin).confirmation_collides(
            u.id,
            ConfirmationAction::Signin,
            keys.0,
            keys.1,
        ) && t == with_confirmation(
            invalidated(s, u.id, ConfirmationAction::Signin),
            new_confirmation(u.id, ConfirmationAction::Signin, keys, now, device),
        ) && resp.code_token@ == hex_of(keys.1) && keys.2 <= 9999 && keys.0.len() == crate::confirmation::CONFIRMATION_TOKEN_BYTES
            && keys.1.len() == crate::confirmation::CONFIRMATION_TOKEN_BYTES && mail.url@ == confirm_url(
            config.frontend_host@,
            "/signin/confirm"@,
            u.id,
            keys.0,
        ) && mail.code@ == code_text(keys.2 as nat)
    &&& mail.recipient_name@ == u.name
    &&& mail.recipient_email@ == data.email@
    &&& mail.subject@ == "Confirm your email address"@
    &&& mail.template@ == "confirm_signin"@
    &&& mail.ip_address is Some && mail.ip_address->0@ == match device.ip_address {
        Some(ip) => ip@,
        None => "Unknown"@,
    }
    &&& mail.device is Some && mail.device->0@ == device.device_string@
}

/// How a sign-in by email at time `now` ends, from store `s` to store `t`.
pub open spec fn signin_email_outcome(
    s: StoreView,
    t: StoreView,
    config: AuthConfig,
    data: SigninData,
    device: DeviceInfo,
    now: i64,
    r: Result<(SigninEmailResponse, ConfirmationMail), ErrorResponder>,
) -> bool {
    &&& r is Err ==> t == s
    &&& !s.has_email(data.email@) ==> crate::user::fails_as(r, ErrorType::InvalidEmailOrPassword)
    &&& forall|i: int| #[trigger]
        email_at(s, i, data.email@) ==> match crate::user::credential_verdict(s.users[i], data.password@) {
            Some(e) => crate::user::fails_as(r, e),
            None => (r is Ok ==> signin_email_ok(s, t, config, s.users[i], data, device, now, r->Ok_0.0, r->Ok_0.1))
                && (r is Err ==> r->Err_0.kind() == ErrorTypeKind::DatabaseError
                && crate::confirmation::has_confirmation_of(s, s.users[i].id, ConfirmationAction::Signin)),
        }
}

/// The sign-in by email unit of work, without its transaction.
fn signin_email_unit(
    conn: &mut Store,
    config: &AuthConfig,
    user: &User,
    data: &SigninData,
    device_info: &DeviceInfo,
    now: i64,
) -> (r: Result<(SigninEmailResponse, ConfirmationMail), ErrorResponder>)
    requires
        old(conn).wf(),
        user.id < old(conn)@.next_user_id,
    ensures
        final(conn).wf(),
        r is Ok ==> signin_email_ok(old(conn)@, final(conn)@, *config, user@, *data, *device_info, now, r->Ok_0.0, r->Ok_0.1),
        r is Err ==> r->Err_0.kind() == ErrorTypeKind::DatabaseError && r->Err_0.body().rollback
            && crate::confirmation::has_confirmation_of(old(conn)@, user.id, ConfirmationAction::Signin),
{
    let _ = Confirmation::mark_all_as_used(conn, user.id, ConfirmationAction::Signin);
    let ghost u = conn@;
    let keys = match Confirmation::insert_confirmation(conn, user.id, ConfirmationAction::Signin, device_info, now) {
        Ok(k) => k,
        Err(e) => {
            proof {
                let i = choose|i: int|
                    0 <= i < u.confirmations.len() && #[trigger] u.confirmations[i].user_id == user.id
                        && u.confirmations[i].action == ConfirmationAction::Signin;
                assert(old(conn)@.confirmations[i].user_id == user.id);
            }
            return Err(e);
        },
    };
    let code = format_code(keys.2);
    let url = build_url(&config.frontend_host, "/signin/confirm", user.id, &keys.0);
    let ip = match &device_info.ip_address {
        Some(ip) => ip.clone(),
        None => String::from_str("Unknown"),
    };
    let mail = ConfirmationMail {
        recipient_name: user.name.clone(),
        recipient_email: data.email.clone(),
        subject: String::from_str("Confirm your email address"),
        template: String::from_str("confirm_signin"),
        url,
        code,
        ip_address: Some(ip),
        device: Some(device_info.device_string.clone()),
    };
    let resp = SigninEmailResponse { code_token: encode_hex(&keys.1) };
    assert(u == invalidated(old(conn)@, user.id, ConfirmationAction::Signin));
    assert(signin_email_ok(old(conn)@, conn@, *config, user@, *data, *device_info, now, resp, mail)) by {
        let kv = keys_view(keys);
        assert(conn@ == with_confirmation(u, new_confirmation(user.id, ConfirmationAction::Signin, kv, now, *device_info)));
    }
    Ok((resp, mail))
}

/// Signs in by email at time `now`: checks the credentials, invalidates the
/// account's earlier sign-in challenges and issues a new one, as one
/// transaction. Returns its code token, with the email that carries its link
/// and code. With good credentials it fails only when the account has earlier
/// sign-in challenges whose keys took every candidate.
pub fn signin_email_at(
    conn: &mut Store,
    config: &AuthConfig,
    data: &SigninData,
    device_info: &DeviceInfo,
    now: i64,
) -> (r: Result<(SigninEmailResponse, ConfirmationMail), ErrorResponder>)
    requires
        old(conn).wf(),
    ensures
        final(conn).wf(),
        signin_email_outcome(old(conn)@, final(conn)@, *config, *data, *device_info, now, r),
{
    let user = crate::user::check_user_password_and_status(conn, data.email.as_str(), data.password.as_str())?;
    let ghost s = conn@;
    proof {
        if s.has_email(data.email@) {
            let i = choose|i: int| 0 <= i < s.users.len() && #[trigger] s.users[i].email == data.email@;
            assert(email_at(s, i, data.email@));
        }
        let i = choose|i: int| #[trigger] email_at(s, i, data.email@) && user@ == s.users[i];
        assert(user.id < s.next_user_id);
    }
    let snapshot = conn.snapshot();
    let res = signin_email_unit(conn, config, &user, data, device_info, now);
    let r = finish_transaction(conn, snapshot, res);
    proof {
        assert forall|i: int| #[trigger] email_at(s, i, data.email@) implies s.users[i] == user@ by {
            if s.users[i] != user@ {
                let j = choose|j: int| #[trigger] email_at(s, j, data.email@) && user@ == s.users[j];
                crate::user::lemma_unique_email(s, i, j, data.email@);
            }
        }
    }
    r
}

/// Signs in by email at the current time; see `signin_email_at`.
pub fn auth_signin_email(
    conn: &mut Store,
    config: &AuthConfig,
    data: &SigninData,
    device_info: &DeviceInfo,
) -> (r: Result<(SigninEmailResponse, ConfirmationMail), ErrorResponder>)
    requires
        old(conn).wf(),
    ensures
        final(conn).wf(),
        exists|now: i64| signin_email_outcome(old(conn)@, final(conn)@, *config, *data, *device_info, now, r),
{
    let now = now_timestamp();
    signin_email_at(conn, config, data, device_info, now)
}

/// A confirmation by code: the action, the code token in hexadecimal and the
/// code the user typed.
#[derive(Debug)]
pub struct ConfirmCodeData {
    pub action: ConfirmationAction,
    pub code_token: String,
    pub code: u16,
}

/// A confirmation by link: the action and the token in hexadecimal.
#[derive(Debug)]
pub struct ConfirmTokenData {
    pub action: ConfirmationAction,
    pub token: String,
}

/// The profile and new session of a confirmed account.
#[derive(Debug)]
pub struct ConfirmSignInUpResponse {
    pub status: UserStatus,
    pub user_id: u32,
    pub auth_token: String,
    pub name: String,
    pub email: String,
    pub redirect_url: String,
}

/// The answer to a confirmation, by the action it completed.
#[derive(Debug)]
pub enum ConfirmResponse {
    SignUp(ConfirmSignInUpResponse),
    SignIn(ConfirmSignInUpResponse),
}

impl ConfirmResponse {
    /// The body of the answer, whichever the action.
    pub open spec fn body(&self) -> ConfirmSignInUpResponse {
        match self {
            ConfirmResponse::SignUp(b) => *b,
            ConfirmResponse::SignIn(b) => *b,
        }
    }
}

/// The body names account `u`, with the status `status`, a new session
/// token issued from `s` to `t`, and the redirect.
pub open spec fn confirmed_body(
    b: ConfirmSignInUpResponse,
    s: StoreView,
    t: StoreView,
    u: UserView,
    status: UserStatus,
    redirect: Seq<char>,
    device: DeviceInfo,
    now: i64,
) -> bool {
    &&& b.status == status
    &&& b.user_id == u.id
    &&& b.name@ == u.name
    &&& b.email@ == u.email
    &&& b.redirect_url@ == redirect
    &&& token_issued(s, t, u.id, device, now, b.auth_token@)
}

/// How completing a used confirmation of `action` for account `u` (at `i`)
/// ends, from store `s` to store `t`: a sign-up makes the account `Normal`,
/// both invalidate the other confirmations of the action and issue a session
/// token; any other action is a bad request.
pub open spec fn execute_outcome(
    s: StoreView,
    t: StoreView,
    action: ConfirmationAction,
    i: int,
    redirect: Seq<char>,
    device: DeviceInfo,
    now: i64,
    r: Result<ConfirmResponse, ErrorResponder>,
) -> bool {
    let u = s.users[i];
    match action {
        ConfirmationAction::Signup => {
            let s1 = invalidated(crate::user::with_status(s, i, UserStatus::Normal), u.id, action);
            &&& r is Ok ==> r->Ok_0 is SignUp && confirmed_body(
                r->Ok_0.body(),
                s1,
                t,
                u,
                UserStatus::Normal,
                redirect,
                device,
                now,
            )
            &&& r is Err ==> r->Err_0.kind() == ErrorTypeKind::DatabaseError && r->Err_0.body().rollback
                && s.auth_tokens.len() > 0
        },
        ConfirmationAction::Signin => {
            let s1 = invalidated(s, u.id, action);
            &&& r is Ok ==> r->Ok_0 is SignIn && confirmed_body(r->Ok_0.body(), s1, t, u, u.status, redirect, device, now)
            &&& r is Err ==> r->Err_0.kind() == ErrorTypeKind::DatabaseError && r->Err_0.body().rollback
                && s.auth_tokens.len() > 0
        },
        _ => r is Err && ErrorType::BadRequest.gives(r->Err_0, true),
    }
}

/// Completes a confirmation of `action` that was just used, for `user`: a
/// sign-up makes the account `Normal`; sign-up and sign-in invalidate the
/// account's other confirmations of that action and issue a session token,
/// which fails only when stored tokens took every candidate. Any other
/// action is a bad request.
pub fn confirm_execute(
    conn: &mut Store,
    action: ConfirmationAction,
    user: User,
    redirect_url: String,
    device_info: &DeviceInfo,
    now: i64,
) -> (r: Result<ConfirmResponse, ErrorResponder>)
    requires
        old(conn).wf(),
        exists|i: int| #[trigger] crate::user::id_at(old(conn)@, i, user.id) && old(conn)@.users[i] == user@,
    ensures
        final(conn).wf(),
        forall|i: int| #[trigger]
            crate::user::id_at(old(conn)@, i, user.id) ==> execute_outcome(
                old(conn)@,
                final(conn)@,
                action,
                i,
                redirect_url@,
                *device_info,
                now,
                r,
            ),
{
    let ghost s = conn@;
    let ghost i0 = choose|i: int| #[trigger] crate::user::id_at(s, i, user.id) && s.users[i] == user@;
    proof {
        assert forall|j: int| #[trigger] crate::user::id_at(s, j, user.id) implies j == i0 by {
            crate::user::lemma_unique_id(s, i0, j, user.id);
        }
    }
    let mut user = user;
    match action {
        ConfirmationAction::Signup => {
            let _ = user.switch_status(conn, UserStatus::Normal);
            let _ = Confirmation::mark_all_as_used(conn, user.id, action);
            let token = AuthToken::insert_token_for_user(conn, user.id, device_info, now)?;
            let body = ConfirmSignInUpResponse {
                status: user.status,
                user_id: user.id,
                auth_token: encode_hex(&token),
                name: user.name,
                email: user.email,
                redirect_url,
            };
            Ok(ConfirmResponse::SignUp(body))
        },
        ConfirmationAction::Signin => {
            let _ = Confirmation::mark_all_as_used(conn, user.id, action);
            let token = AuthToken::insert_token_for_user(conn, user.id, device_info, now)?;
            let body = ConfirmSignInUpResponse {
                status: user.status,
                user_id: user.id,
                auth_token: encode_hex(&token),
                name: user.name,
                email: user.email,
                redirect_url,
            };
            Ok(ConfirmResponse::SignIn(body))
        },
        _ => ErrorType::BadRequest.to_err(),
    }
}

/// How the part of a confirmation after the lookup ends: the check's
/// verdict `v` on the record at `k` and, when it passes, completing the
/// action for the account at `i`. Failures that roll back leave `s`;
/// those that commit leave the checked record `checked`.
pub open spec fn after_check_outcome(
    s: StoreView,
    t: StoreView,
    action: ConfirmationAction,
    i: int,
    k: int,
    checked: ConfirmationView,
    v: Option<(ErrorTypeKind, bool)>,
    redirect: Seq<char>,
    device: DeviceInfo,
    now: i64,
    r: Result<ConfirmResponse, ErrorResponder>,
) -> bool {
    let s1 = crate::confirmation::with_confirmation_at(s, k, checked);
    match v {
        Some(kr) => r is Err && r->Err_0.kind() == kr.0 && r->Err_0.body().rollback == kr.1 && t == (if kr.1 {
            s
        } else {
            s1
        }),
        None => (r is Err ==> t == s) && exists|t1: StoreView|
            execute_outcome(s1, t1, action, i, redirect, device, now, r) && (r is Ok ==> t == t1),
    }
}

/// The request claims an account, and that account exists.
pub open spec fn caller_known(s: StoreView, auth: UserAuthInfo) -> bool {
    auth.user_id is Some && s.has_user(auth.user_id->0)
}

/// How a confirmation by code at time `now` ends, from store `s` to store `t`.
pub open spec fn confirm_code_outcome(
    s: StoreView,
    t: StoreView,
    config: AuthConfig,
    data: ConfirmCodeData,
    auth: UserAuthInfo,
    device: DeviceInfo,
    now: i64,
    r: Result<ConfirmResponse, ErrorResponder>,
) -> bool {
    let ct = crate::encoding::hex_bytes(data.code_token@);
    &&& r is Err && r->Err_0.body().rollback ==> t == s
    &&& data.code > 9999 ==> r is Err && r->Err_0.describes(
        ErrorTypeKind::InvalidInput,
        "code: Code must be a 4 digit number"@,
        true,
    )
    &&& data.code <= 9999 && !caller_known(s, auth) ==> crate::user::fails_as(r, ErrorType::UserNotFound)
    &&& data.code <= 9999 && caller_known(s, auth) && !crate::encoding::is_hex(data.code_token@)
        ==> crate::user::fails_as(r, ErrorType::UnprocessableEntity)
    &&& data.code <= 9999 && caller_known(s, auth) && crate::encoding::is_hex(data.code_token@) ==> {
        let uid = auth.user_id->0;
        &&& (forall|k: int| !#[trigger] crate::confirmation::code_key_at(s, k, uid, data.action, ct))
            ==> crate::user::fails_with(r, ErrorTypeKind::ConfirmationNotFound) && t == s
        &&& forall|i: int, k: int|
            #[trigger] crate::user::id_at(s, i, uid) && #[trigger] crate::confirmation::code_key_at(
                s,
                k,
                uid,
                data.action,
                ct,
            ) ==> after_check_outcome(
                s,
                t,
                data.action,
                i,
                k,
                crate::confirmation::code_checked(s.confirmations[k], data.code, now),
                crate::confirmation::code_verdict(s.confirmations[k], data.code, now),
                config.frontend_host@,
                device,
                now,
                r,
            )
    }
}

/// Confirms by code at time `now`, for the account the request claims: the
/// confirmation of that account and action with the code token is used with
/// the typed code (see `Confirmation::check_code_and_mark_as_used`) and the
/// action completed (see `confirm_execute`), as one transaction.
pub fn confirm_code_at(
    conn: &mut Store,
    config: &AuthConfig,
    data: &ConfirmCodeData,
    user_auth_info: &UserAuthInfo,
    device_info: &DeviceInfo,
    now: i64,
) -> (r: Result<ConfirmResponse, ErrorResponder>)
    requires
        old(conn).wf(),
    ensures
        final(conn).wf(),
        confirm_code_outcome(old(conn)@, final(conn)@, *config, *data, *user_auth_info, *device_info, now, r),
{
    if data.code > 9999 {
        return ErrorType::InvalidInput(String::from_str("code: Code must be a 4 digit number")).res_err_rollback();
    }
    let user_id = match user_auth_info.user_id {
        Some(id) => id,
        None => {
            return ErrorType::UserNotFound.to_err();
        },
    };
    let user = match User::from_id(conn, user_id) {
        Ok(u) => u,
        Err(_) => {
            return ErrorType::UserNotFound.to_err();
        },
    };
    let code_token = match crate::encoding::decode_hex(data.code_token.as_str()) {
        Some(b) => b,
        None => {
            return ErrorType::UnprocessableEntity.to_err();
        },
    };
    let ghost s = conn@;
    proof {
        crate::encoding::lemma_hex_bytes(data.code_token@, code_token@);
    }
    let snapshot = conn.snapshot();
    let checked = Confirmation::check_code_and_mark_as_used(conn, user_id, data.action, &code_token, data.code, now);
    if let Err(e) = checked {
        return finish_transaction(conn, snapshot, Err(e));
    }
    let ghost s1 = conn@;
    proof {
        let k = choose|k: int| #[trigger] crate::confirmation::code_key_at(s, k, user_id, data.action, code_token@);
        assert(s1.users == s.users);
        let i = choose|i: int| #[trigger] crate::user::id_at(s, i, user_id) && user@ == s.users[i];
        assert(crate::user::id_at(s1, i, user.id));
    }
    let res = confirm_execute(conn, data.action, user, config.frontend_host.clone(), device_info, now);
    let r = finish_transaction(conn, snapshot, res);
    proof {
        assert forall|i: int, k: int|
            #[trigger] crate::user::id_at(s, i, user_id) && #[trigger] crate::confirmation::code_key_at(
                s,
                k,
                user_id,
                data.action,
                code_token@,
            ) implies after_check_outcome(
            s,
            conn@,
            data.action,
            i,
            k,
            crate::confirmation::code_checked(s.confirmations[k], data.code, now),
            crate::confirmation::code_verdict(s.confirmations[k], data.code, now),
            config.frontend_host@,
            *device_info,
            now,
            r,
        ) by {
            assert(crate::user::id_at(s1, i, user_id));
        }
    }
    r
}

/// How a confirmation by link at time `now` ends, from store `s` to store `t`.
pub open spec fn confirm_token_outcome(
    s: StoreView,
    t: StoreView,
    config: AuthConfig,
    data: ConfirmTokenData,
    auth: UserAuthInfo,
    device: DeviceInfo,
    now: i64,
    r: Result<ConfirmResponse, ErrorResponder>,
) -> bool {
    let tok = crate::encoding::hex_bytes(data.token@);
    &&& r is Err && r->Err_0.body().rollback ==> t == s
    &&& !caller_known(s, auth) ==> crate::user::fails_as(r, ErrorType::UserNotFound)
    &&& caller_known(s, auth) && !crate::encoding::is_hex(data.token@) ==> crate::user::fails_as(
        r,
        ErrorType::UnprocessableEntity,
    )
    &&& caller_known(s, auth) && crate::encoding::is_hex(data.token@) ==> {
        let uid = auth.user_id->0;
        &&& (forall|k: int| !#[trigger] crate::confirmation::token_key_at(s, k, uid, data.action, tok))
            ==> crate::user::fails_with(r, ErrorTypeKind::ConfirmationNotFound) && t == s
        &&& forall|i: int, k: int|
            #[trigger] crate::user::id_at(s, i, uid) && #[trigger] crate::confirmation::token_key_at(
                s,
                k,
                uid,
                data.action,
                tok,
            ) ==> after_check_outcome(
                s,
                t,
                data.action,
                i,
                k,
                crate::confirmation::token_checked(s.confirmations[k], now),
                crate::confirmation::token_verdict(s.confirmations[k], now),
                config.frontend_host@,
                device,
                now,
                r,
            )
    }
}

/// Confirms by link at time `now`, for the account the request claims: the
/// confirmation of that account and action with the token is used (see
/// `Confirmation::check_token_and_mark_as_used`) and the action completed
/// (see `confirm_execute`), as one transaction.
pub fn confirm_token_at(
    conn: &mut Store,
    config: &AuthConfig,
    data: &ConfirmTokenData,
    user_auth_info: &UserAuthInfo,
    device_info: &DeviceInfo,
    now: i64,
) -> (r: Result<ConfirmResponse, ErrorResponder>)
    requires
        old(conn).wf(),
    ensures
        final(conn).wf(),
        confirm_token_outcome(old(conn)@, final(conn)@, *config, *data, *user_auth_info, *device_info, now, r),
{
    let user_id = match user_auth_info.user_id {
        Some(id) => id,
        None => {
            return ErrorType::UserNotFound.to_err();
        },
    };
    let user = match User::from_id(conn, user_id) {
        Ok(u) => u,
        Err(_) => {
            return ErrorType::UserNotFound.to_err();
        },
    };
    let token = match crate::encoding::decode_hex(data.token.as_str()) {
        Some(b) => b,
        None => {
            return ErrorType::UnprocessableEntity.to_err();
        },
    };
    let ghost s = conn@;
    proof {
        crate::encoding::lemma_hex_bytes(data.token@, token@);
    }
    let snapshot = conn.snapshot();
    let checked = Confirmation::check_token_and_mark_as_used(conn, user_id, data.action, &token, now);
    if let Err(e) = checked {
        return finish_transaction(conn, snapshot, Err(e));
    }
    let ghost s1 = conn@;
    proof {
        let k = choose|k: int| #[trigger] crate::confirmation::token_key_at(s, k, user_id, data.action, token@);
        assert(s1.users == s.users);
        let i = choose|i: int| #[trigger] crate::user::id_at(s, i, user_id) && user@ == s.users[i];
        assert(crate::user::id_at(s1, i, user.id));
    }
    let res = confirm_execute(conn, data.action, user, config.frontend_host.clone(), device_info, now);
    let r = finish_transaction(conn, snapshot, res);
    proof {
        assert forall|i: int, k: int|
            #[trigger] crate::user::id_at(s, i, user_id) && #[trigger] crate::confirmation::token_key_at(
                s,
                k,
                user_id,
                data.action,
                token@,
            ) implies after_check_outcome(
            s,
            conn@,
            data.action,
            i,
            k,
            crate::confirmation::token_checked(s.confirmations[k], now),
            crate::confirmation::token_verdict(s.confirmations[k], now),
            config.frontend_host@,
            *device_info,
            now,
            r,
        ) by {
            assert(crate::user::id_at(s1, i, user_id));
        }
    }
    r
}

/// Confirms by code at the current time; see `confirm_code_at`.
pub fn auth_confirm_code(
    conn: &mut Store,
    config: &AuthConfig,
    data: &ConfirmCodeData,
    user_auth_info: &UserAuthInfo,
    device_info: &DeviceInfo,
) -> (r: Result<ConfirmResponse, ErrorResponder>)
    requires
        old(conn).wf(),
    ensures
        final(conn).wf(),
        exists|now: i64|
            confirm_code_outcome(old(conn)@, final(conn)@, *config, *data, *user_auth_info, *device_info, now, r),
{
    let now = now_timestamp();
    confirm_code_at(conn, config, data, user_auth_info, device_info, now)
}

/// Confirms by link at the current time; see `confirm_token_at`.
pub fn auth_confirm_token(
    conn: &mut Store,
    config: &AuthConfig,
    data: &ConfirmTokenData,
    user_auth_info: &UserAuthInfo,
    device_info: &DeviceInfo,
) -> (r: Result<ConfirmResponse, ErrorResponder>)
    requires
        old(conn).wf(),
    ensures
        final(conn).wf(),
        exists|now: i64|
            confirm_token_outcome(old(conn)@, final(conn)@, *config, *data, *user_auth_info, *device_info, now, r),
{
    let now = now_timestamp();
    confirm_token_at(conn, config, data, user_auth_info, device_info, now)
}

/// The profile of the signed-in account.
#[derive(Debug)]
pub struct StatusResponse {
    pub name: String,
    pub email: String,
    pub status: UserStatus,
}

/// The profile of the account a request resolved to, or its failure.
pub fn auth_status(user: Result<User, ErrorResponder>) -> (r: Result<StatusResponse, ErrorResponder>)
    ensures
        match user {
            Ok(u) => r is Ok && r->Ok_0.name@ == u.name@ && r->Ok_0.email@ == u.email@ && r->Ok_0.status
                == u.status,
            Err(e) => r == Err::<StatusResponse, ErrorResponder>(e),
        },
{
    let user = user?;
    Ok(StatusResponse { name: user.name, email: user.email, status: user.status })
}

}
