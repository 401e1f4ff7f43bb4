//! What the library guarantees across calls, proved from the contracts of
//! its operations.

use vstd::prelude::*;
use crate::api::{AuthConfig, SignupData, SignupResponse, ConfirmationMail, email_taken, registered, signup_outcome};
use crate::auth_token::token_insert_outcome;
use crate::confirmation::{
    ConfirmationKeys, candidate_collides, code_checked, code_key_at, code_verdict, insert_outcome, keys_view,
    matches_verdict, with_confirmation_at,
};
use crate::device::DeviceInfo;
use crate::encoding::hex_of;
use crate::errors::{ErrorResponder, ErrorTypeKind};
use crate::model::{AuthTokenView, ConfirmationAction, ConfirmationView, User, UserStatus};
use crate::store::StoreView;
use crate::user::{bcrypt_verifies, credential_outcome, email_at};

verus! {

/// A sign-up confirmation of account `id` that has not been used.
pub open spec fn open_signup_confirmation(c: ConfirmationView, id: u32) -> bool {
    c.user_id == id && c.action == ConfirmationAction::Signup && !c.used
}

/// A sign-up with valid fields, whose email is free (with an id left) or
/// held by an `Unconfirmed` account, succeeds; afterwards exactly one account
/// has the email, the returned id is its id, and exactly one sign-up
/// confirmation of it exists: unused, and with the code token the response
/// carries.
pub proof fn signup_leaves_one_account_and_one_confirmation(
    s: StoreView,
    t: StoreView,
    config: AuthConfig,
    data: SignupData,
    device: DeviceInfo,
    now: i64,
    r: Result<(SignupResponse, ConfirmationMail), ErrorResponder>,
)
    requires
        s.wf(),
        signup_outcome(s, t, config, data, device, now, r),
        crate::validation::signup_parts(data.name@, data.email@, data.password@).len() == 0,
        crate::api::can_register(s, data.email@),
    ensures
        r is Ok,
        ({
            let id = r->Ok_0.0.id;
            &&& r->Ok_0.0.code_token@.len() == 32
            &&& exists|i: int| #[trigger] email_at(t, i, data.email@) && t.users[i].id == id
            &&& forall|i: int, j: int|
                #[trigger] email_at(t, i, data.email@) && #[trigger] email_at(t, j, data.email@) ==> i == j
            &&& exists|k: int|
                0 <= k < t.confirmations.len() && #[trigger] open_signup_confirmation(t.confirmations[k], id)
                    && hex_of(t.confirmations[k].code_token) == r->Ok_0.0.code_token@
            &&& forall|k: int, l: int|
                0 <= k < t.confirmations.len() && 0 <= l < t.confirmations.len() && t.confirmations[k].user_id == id
                    && #[trigger] t.confirmations[k].action == ConfirmationAction::Signup
                    && t.confirmations[l].user_id == id && #[trigger] t.confirmations[l].action
                    == ConfirmationAction::Signup ==> k == l
        }),
{
    let resp = r->Ok_0.0;
    let id = resp.id;
    let (u, keys) = choose|u: StoreView, keys: (Seq<u8>, Seq<u8>, u16)|
        registered(s, u, data.name@, data.email@, data.password@, now, resp.id) && u.wf() && !u.confirmation_collides(
            resp.id,
            ConfirmationAction::Signup,
            keys.0,
            keys.1,
        ) && t == crate::confirmation::with_confirmation(
            u,
            crate::confirmation::new_confirmation(resp.id, ConfirmationAction::Signup, keys, now, device),
        ) && resp.code_token@ == hex_of(keys.1) && keys.2 <= 9999 && keys.0.len() == crate::confirmation::CONFIRMATION_TOKEN_BYTES
            && keys.1.len() == crate::confirmation::CONFIRMATION_TOKEN_BYTES && r->Ok_0.1.url@ == crate::api::confirm_url(
            config.frontend_host@,
            "/signup/confirm"@,
            resp.id,
            keys.0,
        ) && r->Ok_0.1.code@ == crate::utils::code_text(keys.2 as nat);
    // The registered account holds the email and id, and no confirmation of it is left.
    let n = u.confirmations.len() as int;
    assert(t.users == u.users);
    if !s.has_email(data.email@) && id == s.next_user_id && exists|h: Seq<char>|
        bcrypt_verifies(data.password@, h) && u == crate::user::with_new_user(s, crate::user::user_record(id, data.name@, data.email@, h, now)) {
        let h = choose|h: Seq<char>|
            bcrypt_verifies(data.password@, h) && u == crate::user::with_new_user(s, crate::user::user_record(id, data.name@, data.email@, h, now));
        assert(email_at(t, s.users.len() as int, data.email@));
        assert forall|k: int| 0 <= k < n implies #[trigger] u.confirmations[k].user_id != id by {
            assert(u.confirmations[k] == s.confirmations[k]);
        }
    } else {
        let i = choose|i: int| #[trigger] email_at(s, i, data.email@) && s.users[i].status == UserStatus::Unconfirmed
            && id == s.users[i].id && exists|h: Seq<char>| bcrypt_verifies(data.password@, h) && u == crate::user::re_registered(s, i, data.name@, h, now);
        let h = choose|h: Seq<char>| bcrypt_verifies(data.password@, h) && u == crate::user::re_registered(s, i, data.name@, h, now);
        assert(email_at(t, i, data.email@));
        let p = |c: ConfirmationView| c.user_id != id;
        assert forall|k: int| 0 <= k < n implies #[trigger] u.confirmations[k].user_id != id by {
            s.confirmations.lemma_filter_pred(p, k);
        }
    }
    assert(t.confirmations[n].user_id == id);
    assert(open_signup_confirmation(t.confirmations[n], id));
    assert forall|i: int, j: int|
        #[trigger] email_at(t, i, data.email@) && #[trigger] email_at(t, j, data.email@) implies i == j by {
        crate::user::lemma_unique_email(u, i, j, data.email@);
    }
    assert forall|k: int, l: int|
        0 <= k < t.confirmations.len() && 0 <= l < t.confirmations.len() && t.confirmations[k].user_id == id
            && #[trigger] t.confirmations[k].action == ConfirmationAction::Signup && t.confirmations[l].user_id
            == id && #[trigger] t.confirmations[l].action == ConfirmationAction::Signup implies k == l by {
        if k < n {
            assert(t.confirmations[k] == u.confirmations[k]);
        }
        if l < n {
            assert(t.confirmations[l] == u.confirmations[l]);
        }
    }
}

/// Signing up again, with valid fields, with the email of an account that is
/// still `Unconfirmed` succeeds and reuses its id; afterwards the account has
/// no session token and its only confirmation is the new one.
pub proof fn signup_again_reuses_unconfirmed_account(
    s: StoreView,
    t: StoreView,
    config: AuthConfig,
    data: SignupData,
    device: DeviceInfo,
    now: i64,
    r: Result<(SignupResponse, ConfirmationMail), ErrorResponder>,
    i: int,
)
    requires
        s.wf(),
        signup_outcome(s, t, config, data, device, now, r),
        email_at(s, i, data.email@),
        s.users[i].status == UserStatus::Unconfirmed,
        crate::validation::signup_parts(data.name@, data.email@, data.password@).len() == 0,
    ensures
        r is Ok,
        r->Ok_0.0.id == s.users[i].id,
        forall|k: int| 0 <= k < t.auth_tokens.len() ==> #[trigger] t.auth_tokens[k].user_id != s.users[i].id,
        forall|k: int|
            0 <= k < t.confirmations.len() && #[trigger] t.confirmations[k].user_id == s.users[i].id ==> k
                == t.confirmations.len() - 1,
{
    assert(!email_taken(s, data.email@)) by {
        if email_taken(s, data.email@) {
            let j = choose|j: int| #[trigger] email_at(s, j, data.email@) && s.users[j].status != UserStatus::Unconfirmed;
            crate::user::lemma_unique_email(s, i, j, data.email@);
        }
    }
    assert(s.has_email(data.email@));
    let resp = r->Ok_0.0;
    let id = s.users[i].id;
    let (u, keys) = choose|u: StoreView, keys: (Seq<u8>, Seq<u8>, u16)|
        registered(s, u, data.name@, data.email@, data.password@, now, resp.id) && u.wf() && !u.confirmation_collides(
            resp.id,
            ConfirmationAction::Signup,
            keys.0,
            keys.1,
        ) && t == crate::confirmation::with_confirmation(
            u,
            crate::confirmation::new_confirmation(resp.id, ConfirmationAction::Signup, keys, now, device),
        ) && resp.code_token@ == hex_of(keys.1) && keys.2 <= 9999 && keys.0.len() == crate::confirmation::CONFIRMATION_TOKEN_BYTES
            && keys.1.len() == crate::confirmation::CONFIRMATION_TOKEN_BYTES && r->Ok_0.1.url@ == crate::api::confirm_url(
            config.frontend_host@,
            "/signup/confirm"@,
            resp.id,
            keys.0,
        ) && r->Ok_0.1.code@ == crate::utils::code_text(keys.2 as nat);
    assert(s.has_email(data.email@));
    let j = choose|j: int| #[trigger] email_at(s, j, data.email@) && s.users[j].status == UserStatus::Unconfirmed
        && resp.id == s.users[j].id && exists|h: Seq<char>| bcrypt_verifies(data.password@, h) && u == crate::user::re_registered(s, j, data.name@, h, now);
    crate::user::lemma_unique_email(s, i, j, data.email@);
    let h = choose|h: Seq<char>| bcrypt_verifies(data.password@, h) && u == crate::user::re_registered(s, j, data.name@, h, now);
    let pc = |c: ConfirmationView| c.user_id != id;
    let pt = |x: AuthTokenView| x.user_id != id;
    assert forall|k: int| 0 <= k < t.auth_tokens.len() implies #[trigger] t.auth_tokens[k].user_id != id by {
        s.auth_tokens.lemma_filter_pred(pt, k);
    }
    let n = u.confirmations.len() as int;
    assert forall|k: int| 0 <= k < t.confirmations.len() && #[trigger] t.confirmations[k].user_id == id implies k == n by {
        if k < n {
            assert(t.confirmations[k] == u.confirmations[k]);
            s.confirmations.lemma_filter_pred(pc, k);
        }
    }
}

/// Signing up with the email of an account that is neither `Unconfirmed`
/// nor malformed fails with `EmailAlreadyExists` and changes nothing.
pub proof fn signup_with_taken_email_changes_nothing(
    s: StoreView,
    t: StoreView,
    config: AuthConfig,
    data: SignupData,
    device: DeviceInfo,
    now: i64,
    r: Result<(SignupResponse, ConfirmationMail), ErrorResponder>,
    i: int,
)
    requires
        signup_outcome(s, t, config, data, device, now, r),
        crate::validation::signup_parts(data.name@, data.email@, data.password@).len() == 0,
        email_at(s, i, data.email@),
        s.users[i].status != UserStatus::Unconfirmed,
    ensures
        r is Err,
        r->Err_0.kind() == ErrorTypeKind::EmailAlreadyExists,
        t == s,
{
    assert(email_taken(s, data.email@));
}

/// A code check that succeeds marks its confirmation used: the same code
/// token and code checked again fail with `ConfirmationAlreadyUsed`, which
/// rolls back.
pub proof fn code_check_succeeds_once(
    s: StoreView,
    k: int,
    user_id: u32,
    action: ConfirmationAction,
    code_token: Seq<u8>,
    code: u16,
    now: i64,
    r1: Result<(), ErrorResponder>,
    now2: i64,
    r2: Result<(), ErrorResponder>,
)
    requires
        s.wf(),
        code_key_at(s, k, user_id, action, code_token),
        code_verdict(s.confirmations[k], code, now) is None,
        matches_verdict(r1, code_verdict(s.confirmations[k], code, now)),
        forall|i: int|
            #[trigger] code_key_at(
                with_confirmation_at(s, k, code_checked(s.confirmations[k], code, now)),
                i,
                user_id,
                action,
                code_token,
            ) ==> matches_verdict(
                r2,
                code_verdict(
                    with_confirmation_at(s, k, code_checked(s.confirmations[k], code, now)).confirmations[i],
                    code,
                    now2,
                ),
            ),
    ensures
        r1 is Ok,
        r2 is Err,
        r2->Err_0.kind() == ErrorTypeKind::ConfirmationAlreadyUsed,
        r2->Err_0.body().rollback,
{
    let t = with_confirmation_at(s, k, code_checked(s.confirmations[k], code, now));
    assert(code_key_at(t, k, user_id, action, code_token));
}

/// Issuing a confirmation whose first candidate keys collide and whose
/// second do not succeeds with the second, which differ from the first.
pub proof fn confirmation_retry_gives_fresh_keys(
    s: StoreView,
    t: StoreView,
    user_id: u32,
    action: ConfirmationAction,
    device: DeviceInfo,
    now: i64,
    cands: Seq<ConfirmationKeys>,
    r: Result<ConfirmationKeys, ErrorResponder>,
)
    requires
        insert_outcome(s, t, user_id, action, device, now, cands, r),
        cands.len() >= 2,
        candidate_collides(s, user_id, action, cands, 0),
        !candidate_collides(s, user_id, action, cands, 1),
    ensures
        r is Ok,
        keys_view(r->Ok_0) == keys_view(cands[1]),
        keys_view(r->Ok_0) != keys_view(cands[0]),
{
    if r is Ok {
        let k = choose|k: int|
            0 <= k < crate::confirmation::attempts(cands.len() as int) && (forall|j: int|
                0 <= j < k ==> #[trigger] candidate_collides(s, user_id, action, cands, j)) && !candidate_collides(
                s,
                user_id,
                action,
                cands,
                k,
            ) && keys_view(r->Ok_0) == keys_view(cands[k]) && t == crate::confirmation::with_confirmation(
                s,
                crate::confirmation::new_confirmation(user_id, action, keys_view(r->Ok_0), now, device),
            );
        if k >= 2 {
            assert(candidate_collides(s, user_id, action, cands, 1));
        }
        assert(k == 1);
    } else {
        assert(candidate_collides(s, user_id, action, cands, 1));
    }
}

/// Issuing a session token whose first candidate is taken and whose second
/// is not succeeds with the second, which differs from the first.
pub proof fn token_retry_gives_fresh_token(
    s: StoreView,
    t: StoreView,
    user_id: u32,
    device: DeviceInfo,
    now: i64,
    cands: Seq<Vec<u8>>,
    r: Result<Vec<u8>, ErrorResponder>,
)
    requires
        token_insert_outcome(s, t, user_id, device, now, cands, r),
        cands.len() >= 2,
        s.has_token(cands[0]@),
        !s.has_token(cands[1]@),
    ensures
        r is Ok,
        r->Ok_0@ == cands[1]@,
        r->Ok_0@ != cands[0]@,
{
    if r is Ok {
        let k = choose|k: int|
            0 <= k < crate::auth_token::token_attempts(cands.len() as int) && (forall|j: int|
                0 <= j < k ==> s.has_token(#[trigger] cands[j]@)) && !s.has_token(cands[k]@) && r->Ok_0@ == cands[k]@
                && t == crate::auth_token::with_token(s, crate::auth_token::new_auth_token(user_id, r->Ok_0@, now, device));
        if k >= 2 {
            assert(s.has_token(cands[1]@));
        }
        assert(k == 1);
    } else {
        assert(s.has_token(cands[1]@));
    }
}

/// A sign-in with an unknown email and one with a wrong password fail with
/// the same response: same status, kind, message and disposition.
pub proof fn unknown_email_and_wrong_password_look_alike(
    s: StoreView,
    email1: Seq<char>,
    password1: Seq<char>,
    r1: Result<User, ErrorResponder>,
    email2: Seq<char>,
    password2: Seq<char>,
    r2: Result<User, ErrorResponder>,
    i: int,
)
    requires
        credential_outcome(s, email1, password1, r1),
        !s.has_email(email1),
        credential_outcome(s, email2, password2, r2),
        email_at(s, i, email2),
        !bcrypt_verifies(password2, s.users[i].password_hash),
    ensures
        r1 is Err && r2 is Err,
        r1->Err_0.status() == r2->Err_0.status(),
        r1->Err_0.body().error_type == r2->Err_0.body().error_type,
        r1->Err_0.body().message@ == r2->Err_0.body().message@,
        r1->Err_0.body().rollback == r2->Err_0.body().rollback,
{
}

/// Confirming by code again, once the confirmation was used, fails with
/// `ConfirmationAlreadyUsed` and changes nothing: no second session token.
pub proof fn confirming_a_used_code_changes_nothing(
    s: StoreView,
    t: StoreView,
    config: crate::api::AuthConfig,
    data: crate::api::ConfirmCodeData,
    auth: crate::device::UserAuthInfo,
    device: DeviceInfo,
    now: i64,
    r: Result<crate::api::ConfirmResponse, ErrorResponder>,
    k: int,
)
    requires
        crate::api::confirm_code_outcome(s, t, config, data, auth, device, now, r),
        data.code <= 9999,
        crate::api::caller_known(s, auth),
        crate::encoding::is_hex(data.code_token@),
        code_key_at(s, k, auth.user_id->0, data.action, crate::encoding::hex_bytes(data.code_token@)),
        s.confirmations[k].used,
        s.confirmations[k].code == data.code,
    ensures
        r is Err,
        r->Err_0.kind() == ErrorTypeKind::ConfirmationAlreadyUsed,
        t == s,
{
    let uid = auth.user_id->0;
    let i = choose|i: int| 0 <= i < s.users.len() && #[trigger] s.users[i].id == uid;
    assert(crate::user::id_at(s, i, uid));
}

}
