//! Session tokens: issuing with collision retry, lazy last-use refresh,
//! revocation, and lookup for authenticated requests.

use vstd::prelude::*;
use crate::device::DeviceInfo;
use crate::encoding::{decode_hex, hex_decodes_to, is_hex};
use crate::errors::{ErrorResponder, ErrorType, ErrorTypeKind};
use crate::model::{AuthToken, AuthTokenView, copy_bytes, opt_view};
use crate::store::{Store, StoreView, bytes_eq};
use crate::utils::random_token;

verus! {

/// Retries after a collision of a new session token.
pub const AUTH_TOKEN_RETRIES: usize = 4;

/// Bytes of a session token.
pub const AUTH_TOKEN_BYTES: usize = 32;

/// Seconds within which a use of a session token is not recorded again.
pub const LAST_USE_DEBOUNCE_SECONDS: i64 = 600;

/// The record a new session token gets.
pub open spec fn new_auth_token(user_id: u32, token: Seq<u8>, now: i64, device: DeviceInfo) -> AuthTokenView {
    AuthTokenView {
        user_id,
        token,
        creation_date: now,
        last_use_date: now,
        device_string: Some(device.device_string@),
        ip_address: opt_view(device.ip_address),
    }
}

/// The number of candidates an insertion tries.
pub open spec fn token_attempts(n: int) -> int {
    if n < AUTH_TOKEN_RETRIES + 1 {
        n
    } else {
        AUTH_TOKEN_RETRIES + 1
    }
}

/// How issuing a session token from the candidate bytes ends, from store `s`
/// to store `t`: the first candidate among the tried ones that no stored
/// token has is issued; when all are taken, a store error, and `t == s`.
pub open spec fn token_insert_outcome(
    s: StoreView,
    t: StoreView,
    user_id: u32,
    device: DeviceInfo,
    now: i64,
    cands: Seq<Vec<u8>>,
    r: Result<Vec<u8>, ErrorResponder>,
) -> bool {
    match r {
        Ok(token) => exists|k: int|
            0 <= k < token_attempts(cands.len() as int) && (forall|j: int|
                0 <= j < k ==> s.has_token(#[trigger] cands[j]@)) && !s.has_token(cands[k]@) && token@
                == cands[k]@ && t == with_token(s, new_auth_token(user_id, token@, now, device)),
        Err(e) => (forall|k: int| 0 <= k < token_attempts(cands.len() as int) ==> s.has_token(#[trigger] cands[k]@))
            && e.kind() == ErrorTypeKind::DatabaseError && e.body().rollback && t == s,
    }
}

/// The store with one more session token.
pub open spec fn with_token(s: StoreView, t: AuthTokenView) -> StoreView {
    StoreView { auth_tokens: s.auth_tokens.push(t), ..s }
}

/// The session token at `i` belongs to this account and has these bytes.
pub open spec fn session_at(s: StoreView, i: int, user_id: u32, token: Seq<u8>) -> bool {
    0 <= i < s.auth_tokens.len() && s.auth_tokens[i].user_id == user_id && s.auth_tokens[i].token == token
}

/// Whether a use at time `now` of a token last used at `last_use` is recorded.
pub open spec fn use_is_stale(last_use: i64, now: i64) -> bool {
    now as int - last_use as int > LAST_USE_DEBOUNCE_SECONDS
}

/// The store with the last use of the session token of this account and
/// bytes set to `now`.
pub open spec fn touched(s: StoreView, user_id: u32, token: Seq<u8>, now: i64) -> StoreView {
    StoreView {
        auth_tokens: s.auth_tokens.map_values(
            |t: AuthTokenView|
                if t.user_id == user_id && t.token == token {
                    AuthTokenView { last_use_date: now, ..t }
                } else {
                    t
                },
        ),
        ..s
    }
}

/// What the header of a session token yields: its bytes when it is hexadecimal text.
pub open spec fn header_token(header: Option<Seq<char>>, r: Option<Seq<u8>>) -> bool {
    match header {
        None => r is None,
        Some(h) => if is_hex(h) {
            r is Some && hex_decodes_to(h, r->0)
        } else {
            r is None
        },
    }
}

impl AuthToken {
    /// Issues a session token for the account with the first of the candidate
    /// bytes (at most five are tried) that no stored session token has. When
    /// every tried candidate is taken, the store is left as it was and the
    /// failure is a store error.
    pub fn insert_token_with(
        conn: &mut Store,
        user_id: u32,
        device_info: &DeviceInfo,
        now: i64,
        candidates: &Vec<Vec<u8>>,
    ) -> (r: Result<Vec<u8>, ErrorResponder>)
        requires
            old(conn).wf(),
            user_id < old(conn)@.next_user_id,
        ensures
            final(conn).wf(),
            token_insert_outcome(old(conn)@, final(conn)@, user_id, *device_info, now, candidates@, r),
    {
        let n = if candidates.len() < AUTH_TOKEN_RETRIES + 1 {
            candidates.len()
        } else {
            AUTH_TOKEN_RETRIES + 1
        };
        let mut k: usize = 0;
        while k < n
            invariant
                n == token_attempts(candidates@.len() as int),
                n <= candidates@.len(),
                k <= n,
                conn@ == old(conn)@,
                conn.wf(),
                user_id < old(conn)@.next_user_id,
                forall|j: int| 0 <= j < k ==> old(conn)@.has_token(#[trigger] candidates@[j]@),
            decreases n - k,
        {
            let cand = &candidates[k];
            if !conn.token_taken(cand) {
                let rec = AuthToken {
                    user_id,
                    token: copy_bytes(cand),
                    creation_date: now,
                    last_use_date: now,
                    device_string: Some(device_info.device_string.clone()),
                    ip_address: match &device_info.ip_address {
                        Some(ip) => Some(ip.clone()),
                        None => None,
                    },
                };
                let ghost before = conn@;
                let ghost rv = rec@;
                conn.auth_tokens.push(rec);
                assert(conn@.auth_tokens =~= before.auth_tokens.push(rec@));
                proof {
                    let t = conn@;
                    assert forall|a: int, b: int|
                        0 <= a < t.auth_tokens.len() && 0 <= b < t.auth_tokens.len() && a != b implies #[trigger] t.auth_tokens[a].token
                        != #[trigger] t.auth_tokens[b].token by {
                        let last = before.auth_tokens.len() as int;
                        if a == last {
                            assert(t.auth_tokens[a] == rv);
                            assert(t.auth_tokens[b] == before.auth_tokens[b]);
                        } else if b == last {
                            assert(t.auth_tokens[b] == rv);
                            assert(t.auth_tokens[a] == before.auth_tokens[a]);
                        } else {
                            assert(t.auth_tokens[a] == before.auth_tokens[a]);
                            assert(t.auth_tokens[b] == before.auth_tokens[b]);
                        }
                    }
                }
                assert(conn@.users == before.users);
                assert(conn@.confirmations == before.confirmations);
                assert(conn@.totp_secrets == before.totp_secrets);
                assert(conn@.tokens_wf());
                assert(conn@.auth_tokens[before.auth_tokens.len() as int] == rv);
                return Ok(copy_bytes(cand));
            }
            k = k + 1;
        }
        Err(
            ErrorType::DatabaseError(
                String::from_str("Failed to insert auth token"),
                String::from_str("duplicate auth token"),
            ).to_responder(),
        )
    }

    /// Issues a 32-byte session token of the secure random source for the
    /// account. A collision with a stored token is retried with new bytes, up
    /// to four times; beyond that the failure is a store error and the store
    /// is left as it was. With no stored token nothing can collide, and it
    /// succeeds.
    pub fn insert_token_for_user(
        conn: &mut Store,
        user_id: u32,
        device_info: &DeviceInfo,
        now: i64,
    ) -> (r: Result<Vec<u8>, ErrorResponder>)
        requires
            old(conn).wf(),
            user_id < old(conn)@.next_user_id,
        ensures
            final(conn).wf(),
            match r {
                Ok(token) => token@.len() == AUTH_TOKEN_BYTES && !old(conn)@.has_token(token@) && final(conn)@
                    == with_token(old(conn)@, new_auth_token(user_id, token@, now, *device_info)),
                Err(e) => e.kind() == ErrorTypeKind::DatabaseError && e.body().rollback && final(conn)@
                    == old(conn)@ && old(conn)@.auth_tokens.len() > 0,
            },
    {
        let mut candidates: Vec<Vec<u8>> = Vec::new();
        let mut k: usize = 0;
        while k < AUTH_TOKEN_RETRIES + 1
            invariant
                k <= AUTH_TOKEN_RETRIES + 1,
                candidates@.len() == k,
                forall|j: int| 0 <= j < k ==> (#[trigger] candidates@[j])@.len() == AUTH_TOKEN_BYTES,
            decreases AUTH_TOKEN_RETRIES + 1 - k,
        {
            candidates.push(random_token(AUTH_TOKEN_BYTES));
            k = k + 1;
        }
        let ghost s = conn@;
        let r = AuthToken::insert_token_with(conn, user_id, device_info, now, &candidates);
        proof {
            if r is Err {
                assert(s.has_token(candidates@[0]@));
            }
        }
        r
    }

    /// Records a use of this session token at time `now`, only when its last
    /// recorded use is more than ten minutes older.
    pub fn update_last_use_date(&self, conn: &mut Store, now: i64) -> (r: Result<(), ErrorResponder>)
        requires
            old(conn).wf(),
        ensures
            r is Ok,
            final(conn).wf(),
            !use_is_stale(self.last_use_date, now) ==> final(conn)@ == old(conn)@,
            use_is_stale(self.last_use_date, now) ==> final(conn)@ == touched(
                old(conn)@,
                self.user_id,
                self.token@,
                now,
            ),
    {
        let stale = (now as i128) - (self.last_use_date as i128) > LAST_USE_DEBOUNCE_SECONDS as i128;
        if !stale {
            return Ok(());
        }
        let ghost s = conn@;
        let ghost target = s.auth_tokens.map_values(
            |t: AuthTokenView|
                if t.user_id == self.user_id && t.token == self.token@ {
                    AuthTokenView { last_use_date: now, ..t }
                } else {
                    t
                },
        );
        let mut i: usize = 0;
        while i < conn.auth_tokens.len()
            invariant
                s == old(conn)@,
                target == s.auth_tokens.map_values(
                    |t: AuthTokenView|
                        if t.user_id == self.user_id && t.token == self.token@ {
                            AuthTokenView { last_use_date: now, ..t }
                        } else {
                            t
                        },
                ),
                conn.auth_tokens.len() == s.auth_tokens.len(),
                i <= conn.auth_tokens.len(),
                conn@ == (StoreView { auth_tokens: conn@.auth_tokens, ..s }),
                forall|k: int| 0 <= k < i ==> #[trigger] conn@.auth_tokens[k] == target[k],
                forall|k: int|
                    i <= k < conn.auth_tokens.len() ==> #[trigger] conn@.auth_tokens[k] == s.auth_tokens[k],
            decreases conn.auth_tokens.len() - i,
        {
            if conn.auth_tokens[i].user_id == self.user_id && bytes_eq(&conn.auth_tokens[i].token, &self.token) {
                let ghost before = conn@;
                assert(before.auth_tokens[i as int] == s.auth_tokens[i as int]);
                let mut upd = conn.auth_tokens[i].duplicate();
                upd.last_use_date = now;
                assert(upd@ == AuthTokenView { last_use_date: now, ..s.auth_tokens[i as int] });
                conn.auth_tokens.set(i, upd);
                assert(conn@.auth_tokens =~= before.auth_tokens.update(i as int, upd@));
                assert(conn@.auth_tokens[i as int] == target[i as int]);
            } else {
                assert(conn@.auth_tokens[i as int] == target[i as int]);
            }
            i = i + 1;
        }
        assert(conn@.auth_tokens =~= target);
        proof {
            let t = conn@;
            assert forall|a: int, b: int|
                0 <= a < t.auth_tokens.len() && 0 <= b < t.auth_tokens.len() && a != b implies #[trigger] t.auth_tokens[a].token
                != #[trigger] t.auth_tokens[b].token by {
                assert(t.auth_tokens[a].token == s.auth_tokens[a].token);
                assert(t.auth_tokens[b].token == s.auth_tokens[b].token);
            }
        }
        Ok(())
    }

    /// The bytes of the session token a request's header carries, when it is
    /// hexadecimal text.
    pub fn get_auth_token_from_headers(header: Option<&str>) -> (r: Option<Vec<u8>>)
        ensures
            header_token(
                match header {
                    Some(h) => Some(h@),
                    None => None,
                },
                match r {
                    Some(v) => Some(v@),
                    None => None,
                },
            ),
    {
        match header {
            Some(h) => decode_hex(h),
            None => None,
        }
    }

    /// Deletes every session token of the account.
    pub fn clear_auth_tokens(conn: &mut Store, user_id: u32) -> (r: Result<(), ErrorResponder>)
        requires
            old(conn).wf(),
        ensures
            r is Ok,
            final(conn).wf(),
            final(conn)@ == (StoreView {
                auth_tokens: old(conn)@.auth_tokens.filter(|t: AuthTokenView| t.user_id != user_id),
                ..old(conn)@
            }),
    {
        conn.delete_tokens_of(user_id);
        Ok(())
    }

    /// The position of the session token of this account with these bytes.
    pub fn find_session(conn: &Store, user_id: u32, token: &Vec<u8>) -> (r: Option<usize>)
        ensures
            match r {
                Some(i) => session_at(conn@, i as int, user_id, token@),
                None => forall|i: int| !#[trigger] session_at(conn@, i, user_id, token@),
            },
    {
        let mut i: usize = 0;
        while i < conn.auth_tokens.len()
            invariant
                i <= conn.auth_tokens.len(),
                forall|k: int| 0 <= k < i ==> !#[trigger] session_at(conn@, k, user_id, token@),
            decreases conn.auth_tokens.len() - i,
        {
            if conn.auth_tokens[i].user_id == user_id && bytes_eq(&conn.auth_tokens[i].token, token) {
                return Some(i);
            }
            i = i + 1;
        }
        None
    }
}

}
