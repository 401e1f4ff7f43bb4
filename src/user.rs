//! Accounts: registration (absorbing an abandoned unconfirmed one), status
//! transitions, credential checks and session resolution.

use vstd::prelude::*;
use crate::auth_token::{session_at, touched, use_is_stale};
use crate::model::AuthToken;
use crate::device::UserAuthInfo;
use crate::errors::{ErrorResponder, ErrorType, ErrorTypeKind};
use crate::model::{AuthTokenView, ConfirmationView, User, UserStatus, UserView};
use crate::store::{Store, StoreView};

verus! {

/// Whether `password` matches the bcrypt `hash`.
pub uninterp spec fn bcrypt_verifies(password: Seq<char>, hash: Seq<char>) -> bool;

/// Every character of `s` lies in U+0020..=U+007F, the range whose
/// characters pwhash's salt decoding can look up without going out of its
/// table.
pub open spec fn hash_text_safe(s: Seq<char>) -> bool {
    forall|i: int| 0 <= i < s.len() ==> ' ' <= #[trigger] s[i] <= '\u{7f}'
}

/// Relies on `pwhash::bcrypt::verify`: whether the password matches the hash,
/// which depends on the two alone. Its decoding of the salt subtracts 0x20
/// from each character and looks the result up in a 96-entry table, so a
/// hash with a character outside U+0020..=U+007F is left out.
#[verifier::external_body]
fn verify_password(password: &str, hash: &str) -> (r: bool)
    requires
        hash_text_safe(hash@),
    ensures
        r == bcrypt_verifies(password@, hash@),
{
    pwhash::bcrypt::verify(password, hash)
}

/// Relies on `pwhash::bcrypt::hash`: a hash of the password with a random
/// salt and the default cost. The crate never reports an error here; the
/// hash is `$2b$`, two cost digits, `$` and bcrypt's base-64 alphabet, and
/// `bcrypt::verify` accepts the password against it, as it rehashes with the
/// salt and cost read back from it.
#[verifier::external_body]
fn hash_password(password: &str) -> (r: Option<String>)
    ensures
        r is Some,
        bcrypt_verifies(password@, r->0@),
        hash_text_safe(r->0@),
{
    pwhash::bcrypt::hash(password).ok()
}

/// Whether every character of `s` lies in U+0020..=U+007F.
fn is_hash_text_safe(s: &str) -> (r: bool)
    ensures
        r == hash_text_safe(s@),
{
    let n = s.unicode_len();
    let mut i: usize = 0;
    while i < n
        invariant
            n == s@.len(),
            i <= n,
            forall|k: int| 0 <= k < i ==> ' ' <= #[trigger] s@[k] <= '\u{7f}',
        decreases n - i,
    {
        let c = s.get_char(i);
        if ' ' > c || c > '\u{7f}' {
            return false;
        }
        i = i + 1;
    }
    true
}

/// A newly registered account.
pub open spec fn user_record(id: u32, name: Seq<char>, email: Seq<char>, hash: Seq<char>, now: i64) -> UserView {
    UserView {
        id,
        name,
        email,
        password_hash: hash,
        creation_date: now,
        status: UserStatus::Unconfirmed,
        storage_count_ko: 0,
        storage_limit_mo: 0,
        tfa_login: false,
    }
}

/// The store with a new account, which takes the next id.
pub open spec fn with_new_user(s: StoreView, u: UserView) -> StoreView {
    StoreView { users: s.users.push(u), next_user_id: (s.next_user_id + 1) as u32, ..s }
}

/// The store after the unconfirmed account at `i` is registered anew: new
/// name, password and creation date, and none of its confirmations and
/// session tokens left.
pub open spec fn re_registered(s: StoreView, i: int, name: Seq<char>, hash: Seq<char>, now: i64) -> StoreView {
    let id = s.users[i].id;
    StoreView {
        users: s.users.update(i, UserView { name, password_hash: hash, creation_date: now, ..s.users[i] }),
        auth_tokens: s.auth_tokens.filter(|t: AuthTokenView| t.user_id != id),
        confirmations: s.confirmations.filter(|c: ConfirmationView| c.user_id != id),
        ..s
    }
}

/// The store with the status of the account at `i` changed.
pub open spec fn with_status(s: StoreView, i: int, status: UserStatus) -> StoreView {
    StoreView { users: s.users.update(i, UserView { status, ..s.users[i] }), ..s }
}

/// The account at `i` has this email.
pub open spec fn email_at(s: StoreView, i: int, email: Seq<char>) -> bool {
    0 <= i < s.users.len() && s.users[i].email == email
}

/// The account at `i` has this id.
pub open spec fn id_at(s: StoreView, i: int, id: u32) -> bool {
    0 <= i < s.users.len() && s.users[i].id == id
}

/// `r` is the error of kind `k`, rolling back, with the store unchanged.
pub open spec fn fails_with<T>(r: Result<T, ErrorResponder>, k: ErrorTypeKind) -> bool {
    r is Err && r->Err_0.kind() == k && r->Err_0.body().rollback
}

/// How a credential check of account `u` ends: `None` when it may sign in.
pub open spec fn credential_verdict(u: UserView, password: Seq<char>) -> Option<ErrorType> {
    if !hash_text_safe(u.password_hash) || !bcrypt_verifies(password, u.password_hash) {
        Some(ErrorType::InvalidEmailOrPassword)
    } else if u.status == UserStatus::Banned {
        Some(ErrorType::UserBanned)
    } else if u.status == UserStatus::Unconfirmed {
        Some(ErrorType::UserUnconfirmed)
    } else {
        None
    }
}

/// `r` is the failure `e`, with the disposition of its kind.
pub open spec fn fails_as<T>(r: Result<T, ErrorResponder>, e: ErrorType) -> bool {
    r is Err && e.gives(r->Err_0, crate::errors::kind_rolls_back(e.kind()))
}

/// How a sign-in with `email` and `password` ends: the account that may
/// sign in, or the failure. An unknown email and a wrong password fail alike.
pub open spec fn credential_outcome(s: StoreView, email: Seq<char>, password: Seq<char>, r: Result<User, ErrorResponder>) -> bool {
    &&& !s.has_email(email) ==> fails_as(r, ErrorType::InvalidEmailOrPassword)
    &&& forall|i: int| #[trigger] email_at(s, i, email) ==> match credential_verdict(s.users[i], password) {
        Some(e) => fails_as(r, e),
        None => r is Ok && r->Ok_0@ == s.users[i],
    }
}

/// How a session resolution for account `u` ends: `None` when it is allowed.
pub open spec fn session_verdict(u: UserView) -> Option<ErrorType> {
    if u.status == UserStatus::Unconfirmed {
        Some(ErrorType::UserUnconfirmed)
    } else if u.status == UserStatus::Banned {
        Some(ErrorType::UserBanned)
    } else {
        None
    }
}

/// Replacing an account by one with the same id and email keeps the
/// constraints of the store.
pub proof fn lemma_user_update_keeps_wf(s: StoreView, i: int, u: UserView)
    requires
        s.wf(),
        0 <= i < s.users.len(),
        u.id == s.users[i].id,
        u.email == s.users[i].email,
    ensures
        (StoreView { users: s.users.update(i, u), ..s }).wf(),
{
    let t = StoreView { users: s.users.update(i, u), ..s };
    assert forall|a: int, b: int|
        0 <= a < t.users.len() && 0 <= b < t.users.len() && a != b implies #[trigger] t.users[a].id
        != #[trigger] t.users[b].id && t.users[a].email != t.users[b].email by {
        assert(t.users[a].id == s.users[a].id && t.users[a].email == s.users[a].email);
        assert(t.users[b].id == s.users[b].id && t.users[b].email == s.users[b].email);
    }
    assert forall|a: int| 0 <= a < t.users.len() implies 1 <= #[trigger] t.users[a].id < t.next_user_id by {
        assert(t.users[a].id == s.users[a].id);
    }
}

/// A new account with the next id and an email no account has keeps the
/// constraints of the store.
pub proof fn lemma_new_user_keeps_wf(s: StoreView, u: UserView)
    requires
        s.wf(),
        u.id == s.next_user_id,
        s.next_user_id < u32::MAX,
        !s.has_email(u.email),
    ensures
        with_new_user(s, u).wf(),
{
    let t = with_new_user(s, u);
    let n = s.users.len() as int;
    assert(t.users[n] == u);
    assert forall|a: int, b: int|
        0 <= a < t.users.len() && 0 <= b < t.users.len() && a != b implies #[trigger] t.users[a].id
        != #[trigger] t.users[b].id && t.users[a].email != t.users[b].email by {
        if a != n {
            assert(t.users[a] == s.users[a]);
        }
        if b != n {
            assert(t.users[b] == s.users[b]);
        }
    }
    assert forall|a: int| 0 <= a < t.users.len() implies 1 <= #[trigger] t.users[a].id < t.next_user_id by {
        if a != n {
            assert(t.users[a] == s.users[a]);
        }
    }
}

/// Two accounts with the same email are the same account.
pub proof fn lemma_unique_email(s: StoreView, i: int, j: int, email: Seq<char>)
    requires
        s.wf(),
        email_at(s, i, email),
        email_at(s, j, email),
    ensures
        i == j,
{
    if i != j {
        assert(s.users[i].email != s.users[j].email);
    }
}

/// Two accounts with the same id are the same account.
pub proof fn lemma_unique_id(s: StoreView, i: int, j: int, id: u32)
    requires
        s.wf(),
        id_at(s, i, id),
        id_at(s, j, id),
    ensures
        i == j,
{
    if i != j {
        assert(s.users[i].id != s.users[j].id);
    }
}

impl User {
    /// Registers an account. A new email gets a new `Unconfirmed` account
    /// with the next id. An email whose account is still `Unconfirmed` is
    /// taken over: its name, password and creation date are replaced, its
    /// confirmations and session tokens deleted, and its id returned. An
    /// email of any other account fails with `EmailAlreadyExists`. Failures
    /// leave the store as it was.
    pub fn create_user(conn: &mut Store, name: &str, email: &str, password: &str, now: i64) -> (r: Result<
        u32,
        ErrorResponder,
    >)
        requires
            old(conn).wf(),
        ensures
            final(conn).wf(),
            r is Err ==> r->Err_0.body().rollback && final(conn)@ == old(conn)@,
            forall|i: int| #[trigger]
                email_at(old(conn)@, i, email@) ==> if old(conn)@.users[i].status != UserStatus::Unconfirmed {
                    r is Err && r->Err_0.kind() == ErrorTypeKind::EmailAlreadyExists
                } else {
                    r is Ok && r->Ok_0 == old(conn)@.users[i].id && exists|h: Seq<char>|
                        bcrypt_verifies(password@, h) && hash_text_safe(h) && final(conn)@ == re_registered(
                            old(conn)@,
                            i,
                            name@,
                            h,
                            now,
                        )
                },
            !old(conn)@.has_email(email@) ==> if old(conn)@.next_user_id == u32::MAX {
                r is Err && r->Err_0.kind() == ErrorTypeKind::DatabaseError
            } else {
                r is Ok && r->Ok_0 == old(conn)@.next_user_id && exists|h: Seq<char>|
                    bcrypt_verifies(password@, h) && hash_text_safe(h) && final(conn)@ == with_new_user(
                        old(conn)@,
                        user_record(old(conn)@.next_user_id, name@, email@, h, now),
                    )
            },
            r is Ok ==> r->Ok_0 < final(conn)@.next_user_id,
            r is Ok ==> forall|k: int|
                0 <= k < final(conn)@.confirmations.len() ==> #[trigger] final(conn)@.confirmations[k].user_id
                    != r->Ok_0,
            r is Err && r->Err_0.kind() == ErrorTypeKind::EmailAlreadyExists ==> exists|i: int|
                #[trigger] email_at(old(conn)@, i, email@) && old(conn)@.users[i].status != UserStatus::Unconfirmed,
            r is Err && r->Err_0.kind() == ErrorTypeKind::DatabaseError ==> !old(conn)@.has_email(email@)
                && old(conn)@.next_user_id == u32::MAX,
    {
        let email_s = String::from_str(email);
        let found = conn.find_user_by_email(&email_s);
        match found {
            Some(i) => {
                let ghost s = conn@;
                proof {
                    assert forall|j: int| #[trigger] email_at(s, j, email@) implies j == i by {
                        lemma_unique_email(s, i as int, j, email@);
                    }
                }
                if conn.users[i].status != UserStatus::Unconfirmed {
                    assert(email_at(s, i as int, email@));
                    return ErrorType::EmailAlreadyExists.to_err();
                }
                let hash = hash_password(password).unwrap();
                let id = conn.users[i].id;
                let mut upd = conn.users[i].duplicate();
                upd.name = String::from_str(name);
                upd.password_hash = hash;
                upd.creation_date = now;
                let ghost uv = upd@;
                conn.users.set(i, upd);
                assert(conn@.users =~= s.users.update(i as int, uv));
                assert(conn@.totp_secrets == s.totp_secrets);
                proof {
                    lemma_user_update_keeps_wf(s, i as int, uv);
                }
                conn.delete_confirmations_of(id);
                conn.delete_tokens_of(id);
                assert(conn@ == re_registered(s, i as int, name@, hash@, now));
                proof {
                    let p = |c: ConfirmationView| c.user_id != id;
                    assert forall|k: int| 0 <= k < conn@.confirmations.len() implies #[trigger] conn@.confirmations[k].user_id
                        != id by {
                        s.confirmations.lemma_filter_pred(p, k);
                    }
                }
                Ok(id)
            },
            None => {
                if conn.next_user_id == u32::MAX {
                    return ErrorType::DatabaseError(
                        String::from_str("Failed to insert user"),
                        String::from_str("no account id left"),
                    ).to_err();
                }
                let hash = hash_password(password).unwrap();
                let ghost s = conn@;
                let id = conn.next_user_id;
                let u = User {
                    id,
                    name: String::from_str(name),
                    email: email_s,
                    password_hash: hash,
                    creation_date: now,
                    status: UserStatus::Unconfirmed,
                    storage_count_ko: 0,
                    storage_limit_mo: 0,
                    tfa_login: false,
                };
                let ghost uv = u@;
                conn.users.push(u);
                conn.next_user_id = id + 1;
                assert(conn@.users =~= s.users.push(uv));
                proof {
                    lemma_new_user_keeps_wf(s, uv);
                }
                assert(conn@ == with_new_user(s, user_record(id, name@, email@, hash@, now)));
                Ok(id)
            },
        }
    }

    /// Changes the status of this account, in the store and in this value.
    pub fn switch_status(&mut self, conn: &mut Store, status: UserStatus) -> (r: Result<(), ErrorResponder>)
        requires
            old(conn).wf(),
        ensures
            r is Ok,
            final(conn).wf(),
            final(self)@ == (UserView { status, ..old(self)@ }),
            forall|i: int| #[trigger]
                id_at(old(conn)@, i, old(self).id) ==> final(conn)@ == with_status(old(conn)@, i, status),
            !old(conn)@.has_user(old(self).id) ==> final(conn)@ == old(conn)@,
    {
        self.status = status;
        let found = conn.find_user_by_id(self.id);
        if let Some(i) = found {
            let ghost s = conn@;
            proof {
                assert forall|j: int| #[trigger] id_at(s, j, self.id) implies j == i by {
                    lemma_unique_id(s, i as int, j, self.id);
                }
            }
            let mut upd = conn.users[i].duplicate();
            upd.status = status;
            let ghost uv = upd@;
            conn.users.set(i, upd);
            assert(conn@.users =~= s.users.update(i as int, uv));
            assert(conn@.totp_secrets == s.totp_secrets);
            proof {
                lemma_user_update_keeps_wf(s, i as int, uv);
            }
        }
        Ok(())
    }

    /// The account with this email, if any.
    pub fn find_by_email_opt(conn: &Store, email: &str) -> (r: Option<User>)
        ensures
            match r {
                Some(u) => exists|i: int| #[trigger] email_at(conn@, i, email@) && u@ == conn@.users[i],
                None => !conn@.has_email(email@),
            },
    {
        let email_s = String::from_str(email);
        match conn.find_user_by_email(&email_s) {
            Some(i) => {
                assert(email_at(conn@, i as int, email@));
                Some(conn.users[i].duplicate())
            },
            None => None,
        }
    }

    /// The account with this id; `UserNotFound` when there is none.
    pub fn from_id(conn: &Store, id: u32) -> (r: Result<User, ErrorResponder>)
        ensures
            match r {
                Ok(u) => exists|i: int| #[trigger] id_at(conn@, i, id) && u@ == conn@.users[i],
                Err(e) => !conn@.has_user(id) && ErrorType::UserNotFound.gives(e, true),
            },
    {
        match conn.find_user_by_id(id) {
            Some(i) => {
                assert(id_at(conn@, i as int, id));
                Ok(conn.users[i].duplicate())
            },
            None => ErrorType::UserNotFound.res_err_rollback(),
        }
    }

    /// Resolves the identity of an authenticated request: the account with
    /// the claimed id that owns the claimed session token. Missing or
    /// unknown credentials fail with `UserNotFound`; an unconfirmed or banned
    /// account fails too. On success the use of the token is recorded (at
    /// most once every ten minutes).
    pub fn from_request(conn: &mut Store, auth: &UserAuthInfo, now: i64) -> (r: Result<User, ErrorResponder>)
        requires
            old(conn).wf(),
        ensures
            final(conn).wf(),
            r is Err ==> final(conn)@ == old(conn)@ && r->Err_0.body().rollback,
            (auth.user_id is None || auth.auth_token is None) ==> fails_as(r, ErrorType::UserNotFound),
            auth.user_id is Some && auth.auth_token is Some ==> {
                let id = auth.user_id->0;
                let token = auth.auth_token->0@;
                &&& (!old(conn)@.has_user(id) || forall|k: int| !#[trigger] session_at(old(conn)@, k, id, token))
                    ==> fails_as(r, ErrorType::UserNotFound)
                &&& forall|i: int, k: int|
                    #[trigger] id_at(old(conn)@, i, id) && #[trigger] session_at(old(conn)@, k, id, token) ==> match session_verdict(
                        old(conn)@.users[i],
                    ) {
                        Some(e) => fails_as(r, e),
                        None => r is Ok && r->Ok_0@ == old(conn)@.users[i] && (!use_is_stale(
                            old(conn)@.auth_tokens[k].last_use_date,
                            now,
                        ) ==> final(conn)@ == old(conn)@) && (use_is_stale(
                            old(conn)@.auth_tokens[k].last_use_date,
                            now,
                        ) ==> final(conn)@ == touched(old(conn)@, id, token, now)),
                    }
            },
    {
        let (id, token) = match (auth.user_id, &auth.auth_token) {
            (Some(id), Some(token)) => (id, token),
            _ => {
                return ErrorType::UserNotFound.res_err_rollback();
            },
        };
        let i = match conn.find_user_by_id(id) {
            Some(i) => i,
            None => {
                return ErrorType::UserNotFound.res_err_rollback();
            },
        };
        let k = match AuthToken::find_session(conn, id, token) {
            Some(k) => k,
            None => {
                return ErrorType::UserNotFound.res_err_rollback();
            },
        };
        let ghost s = conn@;
        proof {
            assert forall|j: int| #[trigger] id_at(s, j, id) implies j == i by {
                lemma_unique_id(s, i as int, j, id);
            }
            assert forall|j: int| #[trigger] session_at(s, j, id, token@) implies s.auth_tokens[j]
                == s.auth_tokens[k as int] by {
                if j != k {
                    assert(s.auth_tokens[j].token != s.auth_tokens[k as int].token);
                }
            }
        }
        let user = conn.users[i].duplicate();
        if user.status == UserStatus::Unconfirmed {
            return ErrorType::UserUnconfirmed.res_err_rollback();
        }
        if user.status == UserStatus::Banned {
            return ErrorType::UserBanned.res_err_rollback();
        }
        let session = conn.auth_tokens[k].duplicate();
        let _ = session.update_last_use_date(conn, now);
        Ok(user)
    }
}

/// The value of a string of decimal digits.
pub open spec fn digits_value(s: Seq<char>) -> int
    decreases s.len(),
{
    if s.len() == 0 {
        0
    } else {
        digits_value(s.drop_last()) * 10 + (s.last() as int - '0' as int)
    }
}

/// Every character is a decimal digit.
pub open spec fn all_digits(s: Seq<char>) -> bool {
    forall|i: int| 0 <= i < s.len() ==> '0' <= #[trigger] s[i] <= '9'
}

/// The digits of an account id header: what follows an optional `+`.
pub open spec fn id_digits(s: Seq<char>) -> Seq<char> {
    if s.len() > 0 && s[0] == '+' {
        s.subrange(1, s.len() as int)
    } else {
        s
    }
}

/// The account id a header holds: decimal digits, optionally after `+`,
/// of a value that fits in 32 bits.
pub open spec fn id_text_value(s: Seq<char>) -> Option<u32> {
    let d = id_digits(s);
    if d.len() > 0 && all_digits(d) && digits_value(d) <= u32::MAX {
        Some(digits_value(d) as u32)
    } else {
        None
    }
}

proof fn lemma_digits_value_nonneg(s: Seq<char>)
    requires
        all_digits(s),
    ensures
        digits_value(s) >= 0,
    decreases s.len(),
{
    if s.len() > 0 {
        assert(all_digits(s.drop_last()) && s.drop_last() =~= s.subrange(0, s.len() - 1)) by {
            assert forall|i: int| 0 <= i < s.drop_last().len() implies '0' <= #[trigger] s.drop_last()[i] <= '9' by {
                assert(s.drop_last()[i] == s[i]);
            }
        }
        lemma_digits_value_nonneg(s.drop_last());
    }
}

/// The account id of a header, as `id_text_value` reads it.
pub fn parse_user_id(s: &str) -> (r: Option<u32>)
    ensures
        r == id_text_value(s@),
{
    let n = s.unicode_len();
    let mut start: usize = 0;
    if n > 0 && s.get_char(0) == '+' {
        start = 1;
    }
    let ghost d = id_digits(s@);
    assert(d =~= s@.subrange(start as int, n as int));
    if start == n {
        return None;
    }
    let mut value: u64 = 0;
    let mut i: usize = start;
    while i < n
        invariant
            n == s@.len(),
            start <= i <= n,
            d =~= s@.subrange(start as int, n as int),
            d == id_digits(s@),
            all_digits(s@.subrange(start as int, i as int)),
            value == digits_value(s@.subrange(start as int, i as int)),
            value <= u32::MAX,
        decreases n - i,
    {
        let c = s.get_char(i);
        let ghost prev = s@.subrange(start as int, i as int);
        let ghost next = s@.subrange(start as int, i as int + 1);
        assert(next.drop_last() =~= prev);
        if c < '0' || c > '9' {
            proof {
                assert(d[i - start] == c);
                assert(!('0' <= d[i - start] <= '9'));
                assert(!all_digits(d));
            }
            return None;
        }
        let digit = (c as u32 - '0' as u32) as u64;
        value = value * 10 + digit;
        assert(all_digits(next)) by {
            assert forall|k: int| 0 <= k < next.len() implies '0' <= #[trigger] next[k] <= '9' by {
                if k < prev.len() {
                    assert(next[k] == prev[k]);
                }
            }
        }
        if value > u32::MAX as u64 {
            proof {
                if all_digits(d) {
                    lemma_digits_value_prefix(d, (i + 1 - start) as int);
                    assert(d.subrange(0, (i + 1 - start) as int) =~= next);
                }
            }
            return None;
        }
        i = i + 1;
    }
    assert(s@.subrange(start as int, n as int) =~= d);
    Some(value as u32)
}

/// The value of digits is at least that of any prefix.
proof fn lemma_digits_value_prefix(s: Seq<char>, k: int)
    requires
        all_digits(s),
        0 <= k <= s.len(),
    ensures
        digits_value(s) >= digits_value(s.subrange(0, k)),
    decreases s.len(),
{
    if k < s.len() {
        assert(all_digits(s.drop_last())) by {
            assert forall|i: int| 0 <= i < s.drop_last().len() implies '0' <= #[trigger] s.drop_last()[i] <= '9' by {
                assert(s.drop_last()[i] == s[i]);
            }
        }
        lemma_digits_value_prefix(s.drop_last(), k);
        assert(s.drop_last().subrange(0, k) =~= s.subrange(0, k));
        lemma_digits_value_nonneg(s.drop_last());
        assert(s.last() >= '0');
    } else {
        assert(s.subrange(0, k) =~= s);
    }
}

impl UserAuthInfo {
    /// The identity a request claims: its account id header as a decimal
    /// number and its session token header as hexadecimal bytes, each
    /// absent when missing or malformed.
    pub fn from_request(user_id_header: Option<&str>, auth_token_header: Option<&str>) -> (r: UserAuthInfo)
        ensures
            r.user_id == match user_id_header {
                Some(h) => id_text_value(h@),
                None => None,
            },
            crate::auth_token::header_token(
                match auth_token_header {
                    Some(h) => Some(h@),
                    None => None,
                },
                match r.auth_token {
                    Some(v) => Some(v@),
                    None => None,
                },
            ),
    {
        let user_id = match user_id_header {
            Some(h) => parse_user_id(h),
            None => None,
        };
        let auth_token = AuthToken::get_auth_token_from_headers(auth_token_header);
        UserAuthInfo { user_id, auth_token }
    }
}


/// Checks the credentials of a sign-in: the account with this email, when
/// the password matches and the account is confirmed and not banned. An
/// unknown email and a wrong password give the same error.
pub fn check_user_password_and_status(conn: &Store, email: &str, password: &str) -> (r: Result<User, ErrorResponder>)
    requires
        conn.wf(),
    ensures
        credential_outcome(conn@, email@, password@, r),
{
    let email_s = String::from_str(email);
    let found = conn.find_user_by_email(&email_s);
    let i = match found {
        Some(i) => i,
        None => {
            return ErrorType::InvalidEmailOrPassword.to_err();
        },
    };
    proof {
        assert forall|j: int| #[trigger] email_at(conn@, j, email@) implies j == i by {
            lemma_unique_email(conn@, i as int, j, email@);
        }
    }
    let user = conn.users[i].duplicate();
    if !is_hash_text_safe(user.password_hash.as_str()) || !verify_password(password, user.password_hash.as_str()) {
        return ErrorType::InvalidEmailOrPassword.to_err();
    }
    if user.status == UserStatus::Banned {
        return ErrorType::UserBanned.to_err();
    }
    if user.status == UserStatus::Unconfirmed {
        return ErrorType::UserUnconfirmed.to_err();
    }
    Ok(user)
}

}
