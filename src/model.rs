//! The records of the store: accounts, session tokens, confirmations.

use vstd::prelude::*;
use vstd::string::*;

verus! {

/// Lifecycle status of an account.
#[derive(PartialEq, Eq, Structural, Clone, Copy, Debug)]
pub enum UserStatus {
    Unconfirmed,
    Normal,
    Banned,
}

/// The purpose of a confirmation: which state transition a successful
/// confirm may perform.
#[derive(PartialEq, Eq, Structural, Clone, Copy, Debug)]
pub enum ConfirmationAction {
    Signup,
    Signin,
    PasswordReset,
    TfaEnrollment,
}

/// An account.
#[derive(Debug)]
pub struct User {
    pub id: u32,
    pub name: String,
    pub email: String,
    pub password_hash: String,
    /// Seconds since the Unix epoch.
    pub creation_date: i64,
    pub status: UserStatus,
    pub storage_count_ko: u64,
    pub storage_limit_mo: u32,
    /// Whether signing in asks for a second factor.
    pub tfa_login: bool,
}

/// A session token of an account.
#[derive(Debug)]
pub struct AuthToken {
    pub user_id: u32,
    pub token: Vec<u8>,
    pub creation_date: i64,
    pub last_use_date: i64,
    pub device_string: Option<String>,
    pub ip_address: Option<String>,
}

/// A one-time confirmation record, reachable by its token (links) or by its
/// code token paired with a short numeric code.
#[derive(Debug)]
pub struct Confirmation {
    pub user_id: u32,
    pub action: ConfirmationAction,
    pub used: bool,
    pub date: i64,
    pub token: Vec<u8>,
    pub code_token: Vec<u8>,
    pub code: u16,
    pub code_trials: u8,
    pub device_string: Option<String>,
    pub ip_address: Option<String>,
}

/// The shared secret of an account's time-based one-time codes.
#[derive(Debug)]
pub struct TOTPSecret {
    pub user_id: u32,
    pub creation_date: i64,
    pub secret: Vec<u8>,
}

/// One account accepting the shares of another without asking.
#[derive(PartialEq, Eq, Structural, Clone, Copy, Debug)]
pub struct ShareAutoAccept {
    pub user_id_acceptor: u32,
    pub user_id_sharer: u32,
}

/// A rating of a picture by an account.
#[derive(PartialEq, Eq, Structural, Clone, Copy, Debug)]
pub struct Rating {
    pub user_id: u32,
    pub picture_id: u64,
    pub rating: i8,
}

/// The abstract value of an account.
pub struct UserView {
    pub id: u32,
    pub name: Seq<char>,
    pub email: Seq<char>,
    pub password_hash: Seq<char>,
    pub creation_date: i64,
    pub status: UserStatus,
    pub storage_count_ko: u64,
    pub storage_limit_mo: u32,
    pub tfa_login: bool,
}

/// The abstract value of a session token.
pub struct AuthTokenView {
    pub user_id: u32,
    pub token: Seq<u8>,
    pub creation_date: i64,
    pub last_use_date: i64,
    pub device_string: Option<Seq<char>>,
    pub ip_address: Option<Seq<char>>,
}

/// The abstract value of a confirmation.
pub struct ConfirmationView {
    pub user_id: u32,
    pub action: ConfirmationAction,
    pub used: bool,
    pub date: i64,
    pub token: Seq<u8>,
    pub code_token: Seq<u8>,
    pub code: u16,
    pub code_trials: u8,
    pub device_string: Option<Seq<char>>,
    pub ip_address: Option<Seq<char>>,
}

/// The abstract value of a TOTP secret.
pub struct TOTPSecretView {
    pub user_id: u32,
    pub creation_date: i64,
    pub secret: Seq<u8>,
}

/// The abstract value of an optional string.
pub open spec fn opt_view(s: Option<String>) -> Option<Seq<char>> {
    match s {
        Some(v) => Some(v@),
        None => None,
    }
}

impl View for User {
    type V = UserView;

    open spec fn view(&self) -> UserView {
        UserView {
            id: self.id,
            name: self.name@,
            email: self.email@,
            password_hash: self.password_hash@,
            creation_date: self.creation_date,
            status: self.status,
            storage_count_ko: self.storage_count_ko,
            storage_limit_mo: self.storage_limit_mo,
            tfa_login: self.tfa_login,
        }
    }
}

impl View for AuthToken {
    type V = AuthTokenView;

    open spec fn view(&self) -> AuthTokenView {
        AuthTokenView {
            user_id: self.user_id,
            token: self.token@,
            creation_date: self.creation_date,
            last_use_date: self.last_use_date,
            device_string: opt_view(self.device_string),
            ip_address: opt_view(self.ip_address),
        }
    }
}

impl View for Confirmation {
    type V = ConfirmationView;

    open spec fn view(&self) -> ConfirmationView {
        ConfirmationView {
            user_id: self.user_id,
            action: self.action,
            used: self.used,
            date: self.date,
            token: self.token@,
            code_token: self.code_token@,
            code: self.code,
            code_trials: self.code_trials,
            device_string: opt_view(self.device_string),
            ip_address: opt_view(self.ip_address),
        }
    }
}

impl View for TOTPSecret {
    type V = TOTPSecretView;

    open spec fn view(&self) -> TOTPSecretView {
        TOTPSecretView { user_id: self.user_id, creation_date: self.creation_date, secret: self.secret@ }
    }
}

/// A copy of a byte string.
pub fn copy_bytes(b: &Vec<u8>) -> (r: Vec<u8>)
    ensures
        r@ == b@,
{
    let r = b.clone();
    assert(r@ =~= b@);
    r
}

/// A copy of an optional string.
pub fn copy_opt_string(s: &Option<String>) -> (r: Option<String>)
    ensures
        opt_view(r) == opt_view(*s),
{
    match s {
        Some(v) => Some(v.clone()),
        None => None,
    }
}

impl User {
    /// A copy of this account.
    pub fn duplicate(&self) -> (r: User)
        ensures
            r@ == self@,
    {
        User {
            id: self.id,
            name: self.name.clone(),
            email: self.email.clone(),
            password_hash: self.password_hash.clone(),
            creation_date: self.creation_date,
            status: self.status,
            storage_count_ko: self.storage_count_ko,
            storage_limit_mo: self.storage_limit_mo,
            tfa_login: self.tfa_login,
        }
    }
}

impl AuthToken {
    /// A copy of this session token.
    pub fn duplicate(&self) -> (r: AuthToken)
        ensures
            r@ == self@,
    {
        AuthToken {
            user_id: self.user_id,
            token: copy_bytes(&self.token),
            creation_date: self.creation_date,
            last_use_date: self.last_use_date,
            device_string: copy_opt_string(&self.device_string),
            ip_address: copy_opt_string(&self.ip_address),
        }
    }
}

impl Confirmation {
    /// A copy of this confirmation.
    pub fn duplicate(&self) -> (r: Confirmation)
        ensures
            r@ == self@,
    {
        Confirmation {
            user_id: self.user_id,
            action: self.action,
            used: self.used,
            date: self.date,
            token: copy_bytes(&self.token),
            code_token: copy_bytes(&self.code_token),
            code: self.code,
            code_trials: self.code_trials,
            device_string: copy_opt_string(&self.device_string),
            ip_address: copy_opt_string(&self.ip_address),
        }
    }
}

impl TOTPSecret {
    /// A copy of this secret.
    pub fn duplicate(&self) -> (r: TOTPSecret)
        ensures
            r@ == self@,
    {
        TOTPSecret {
            user_id: self.user_id,
            creation_date: self.creation_date,
            secret: copy_bytes(&self.secret),
        }
    }
}

}
