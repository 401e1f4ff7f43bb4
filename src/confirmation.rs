//! The confirmation lifecycle: issuing with collision retry, one-time use by
//! code or by token, expiry and attempt limiting, bulk invalidation.

use vstd::prelude::*;
use crate::device::DeviceInfo;
use crate::errors::{ErrorResponder, ErrorType, ErrorTypeKind};
use crate::model::{Confirmation, ConfirmationAction, ConfirmationView, copy_bytes, opt_view};
use crate::store::{Store, StoreView, bytes_eq, same_code_key, same_token_key};
use crate::utils::{CODE_DIGITS, pow10, random_code, random_token};

verus! {

/// Retries after a collision of a new confirmation's keys.
pub const CONFIRMATION_RETRIES: usize = 3;

/// Bytes of a confirmation's token and of its code token.
pub const CONFIRMATION_TOKEN_BYTES: usize = 16;

/// Seconds during which a confirmation can be used.
pub const CONFIRMATION_VALIDITY_SECONDS: i64 = 900;

/// Wrong codes after which a confirmation no longer accepts any.
pub const MAX_CODE_TRIALS: u8 = 5;

/// The keys and code of a confirmation to issue: token, code token, code.
pub type ConfirmationKeys = (Vec<u8>, Vec<u8>, u16);

/// The abstract value of confirmation keys.
pub open spec fn keys_view(k: ConfirmationKeys) -> (Seq<u8>, Seq<u8>, u16) {
    (k.0@, k.1@, k.2)
}

/// The record a new confirmation gets.
pub open spec fn new_confirmation(
    user_id: u32,
    action: ConfirmationAction,
    keys: (Seq<u8>, Seq<u8>, u16),
    now: i64,
    device: DeviceInfo,
) -> ConfirmationView {
    ConfirmationView {
        user_id,
        action,
        used: false,
        date: now,
        token: keys.0,
        code_token: keys.1,
        code: keys.2,
        code_trials: 0,
        device_string: Some(device.device_string@),
        ip_address: opt_view(device.ip_address),
    }
}

/// The number of candidates an insertion tries.
pub open spec fn attempts(n: int) -> int {
    if n < CONFIRMATION_RETRIES + 1 {
        n
    } else {
        CONFIRMATION_RETRIES + 1
    }
}

/// Candidate `k` collides with a stored confirmation.
pub open spec fn candidate_collides(
    s: StoreView,
    user_id: u32,
    action: ConfirmationAction,
    cands: Seq<ConfirmationKeys>,
    k: int,
) -> bool {
    s.confirmation_collides(user_id, action, cands[k].0@, cands[k].1@)
}

/// The store with one more confirmation.
pub open spec fn with_confirmation(s: StoreView, c: ConfirmationView) -> StoreView {
    StoreView { confirmations: s.confirmations.push(c), ..s }
}

/// How issuing a confirmation from the candidate keys ends, from store `s`
/// to store `t`: the first candidate among the tried ones that collides with
/// no stored key is issued; when all collide, a store error, and `t == s`.
pub open spec fn insert_outcome(
    s: StoreView,
    t: StoreView,
    user_id: u32,
    action: ConfirmationAction,
    device: DeviceInfo,
    now: i64,
    cands: Seq<ConfirmationKeys>,
    r: Result<ConfirmationKeys, ErrorResponder>,
) -> bool {
    match r {
        Ok(keys) => exists|k: int|
            0 <= k < attempts(cands.len() as int) && (forall|j: int|
                0 <= j < k ==> #[trigger] candidate_collides(s, user_id, action, cands, j)) && !candidate_collides(
                s,
                user_id,
                action,
                cands,
                k,
            ) && keys_view(keys) == keys_view(cands[k]) && t == with_confirmation(
                s,
                new_confirmation(user_id, action, keys_view(keys), now, device),
            ),
        Err(e) => (forall|k: int|
            0 <= k < attempts(cands.len() as int) ==> #[trigger] candidate_collides(s, user_id, action, cands, k))
            && e.kind() == ErrorTypeKind::DatabaseError && e.body().rollback && t == s,
    }
}

/// Some confirmation of this account and action is stored.
pub open spec fn has_confirmation_of(s: StoreView, user_id: u32, action: ConfirmationAction) -> bool {
    exists|i: int|
        0 <= i < s.confirmations.len() && #[trigger] s.confirmations[i].user_id == user_id
            && s.confirmations[i].action == action
}

/// The store with the confirmation at `i` replaced.
pub open spec fn with_confirmation_at(s: StoreView, i: int, c: ConfirmationView) -> StoreView {
    StoreView { confirmations: s.confirmations.update(i, c), ..s }
}

/// The confirmation, marked used.
pub open spec fn marked_used(c: ConfirmationView) -> ConfirmationView {
    ConfirmationView { used: true, ..c }
}

/// The confirmation is past its validity at time `now`.
pub open spec fn expired(c: ConfirmationView, now: i64) -> bool {
    now as int - c.date as int > CONFIRMATION_VALIDITY_SECONDS
}

/// The confirmation at `i` has this account, action and code token.
pub open spec fn code_key_at(
    s: StoreView,
    i: int,
    user_id: u32,
    action: ConfirmationAction,
    code_token: Seq<u8>,
) -> bool {
    0 <= i < s.confirmations.len() && s.confirmations[i].user_id == user_id
        && s.confirmations[i].action == action && s.confirmations[i].code_token == code_token
}

/// The confirmation at `i` has this account, action and token.
pub open spec fn token_key_at(
    s: StoreView,
    i: int,
    user_id: u32,
    action: ConfirmationAction,
    token: Seq<u8>,
) -> bool {
    0 <= i < s.confirmations.len() && s.confirmations[i].user_id == user_id
        && s.confirmations[i].action == action && s.confirmations[i].token == token
}

/// How a code check of confirmation `c` ends: `None` on success, else the
/// kind of the error and whether it rolls back. A used confirmation answers
/// `ConfirmationAlreadyUsed` only to its right code: to a wrong one it is not
/// found, so that its use tells nothing to whoever lacks the code.
pub open spec fn code_verdict(c: ConfirmationView, code: u16, now: i64) -> Option<(ErrorTypeKind, bool)> {
    if c.used {
        if c.code != code {
            Some((ErrorTypeKind::ConfirmationNotFound, true))
        } else {
            Some((ErrorTypeKind::ConfirmationAlreadyUsed, true))
        }
    } else if expired(c, now) {
        Some((ErrorTypeKind::ConfirmationExpired, false))
    } else if c.code_trials >= MAX_CODE_TRIALS {
        Some((ErrorTypeKind::ConfirmationTooManyAttempts, false))
    } else if c.code != code {
        if c.code_trials + 1 >= MAX_CODE_TRIALS {
            Some((ErrorTypeKind::ConfirmationTooManyAttempts, false))
        } else {
            Some((ErrorTypeKind::ConfirmationNotFound, false))
        }
    } else {
        None
    }
}

/// Confirmation `c` after a code check: marked used on success or expiry,
/// its wrong codes counted.
pub open spec fn code_checked(c: ConfirmationView, code: u16, now: i64) -> ConfirmationView {
    if c.used {
        c
    } else if expired(c, now) {
        marked_used(c)
    } else if c.code_trials >= MAX_CODE_TRIALS {
        c
    } else if c.code != code {
        ConfirmationView { code_trials: (c.code_trials + 1) as u8, ..c }
    } else {
        marked_used(c)
    }
}

/// How a token check of confirmation `c` ends: `None` on success, else the
/// kind of the error and whether it rolls back.
pub open spec fn token_verdict(c: ConfirmationView, now: i64) -> Option<(ErrorTypeKind, bool)> {
    if c.used {
        Some((ErrorTypeKind::ConfirmationAlreadyUsed, true))
    } else if expired(c, now) {
        Some((ErrorTypeKind::ConfirmationExpired, false))
    } else {
        None
    }
}

/// Confirmation `c` after a token check.
pub open spec fn token_checked(c: ConfirmationView, now: i64) -> ConfirmationView {
    if c.used {
        c
    } else {
        marked_used(c)
    }
}

/// `r` is the failure `v` names, or success where `v` is `None`.
pub open spec fn matches_verdict(r: Result<(), ErrorResponder>, v: Option<(ErrorTypeKind, bool)>) -> bool {
    match v {
        None => r is Ok,
        Some(kr) => r is Err && r->Err_0.kind() == kr.0 && r->Err_0.body().rollback == kr.1,
    }
}

/// The confirmations with every one of this account and action marked used.
pub open spec fn all_marked_used(
    cs: Seq<ConfirmationView>,
    user_id: u32,
    action: ConfirmationAction,
) -> Seq<ConfirmationView> {
    cs.map_values(
        |c: ConfirmationView|
            if c.user_id == user_id && c.action == action {
                marked_used(c)
            } else {
                c
            },
    )
}

/// A fresh record keeps the key constraints when no stored key collides with it.
proof fn lemma_push_keeps_wf(s: StoreView, c: ConfirmationView)
    requires
        s.wf(),
        c.user_id < s.next_user_id,
        !s.confirmation_collides(c.user_id, c.action, c.token, c.code_token),
    ensures
        with_confirmation(s, c).wf(),
{
    let t = with_confirmation(s, c);
    assert forall|i: int, j: int|
        0 <= i < t.confirmations.len() && 0 <= j < t.confirmations.len() && i != j implies !same_token_key(
        #[trigger] t.confirmations[i],
        #[trigger] t.confirmations[j],
    ) && !same_code_key(t.confirmations[i], t.confirmations[j]) by {
        let n = s.confirmations.len() as int;
        if i == n {
            assert(t.confirmations[j] == s.confirmations[j]);
        } else if j == n {
            assert(t.confirmations[i] == s.confirmations[i]);
        } else {
            assert(t.confirmations[i] == s.confirmations[i]);
            assert(t.confirmations[j] == s.confirmations[j]);
        }
    }
}

/// Replacing a record by one with the same keys keeps the key constraints.
proof fn lemma_update_keeps_wf(s: StoreView, i: int, c: ConfirmationView)
    requires
        s.wf(),
        0 <= i < s.confirmations.len(),
        c.user_id == s.confirmations[i].user_id,
        c.action == s.confirmations[i].action,
        c.token == s.confirmations[i].token,
        c.code_token == s.confirmations[i].code_token,
    ensures
        with_confirmation_at(s, i, c).wf(),
{
    let t = with_confirmation_at(s, i, c);
    assert forall|a: int, b: int|
        0 <= a < t.confirmations.len() && 0 <= b < t.confirmations.len() && a != b implies !same_token_key(
        #[trigger] t.confirmations[a],
        #[trigger] t.confirmations[b],
    ) && !same_code_key(t.confirmations[a], t.confirmations[b]) by {
        assert(s.confirmations[a].user_id == t.confirmations[a].user_id);
        assert(s.confirmations[b].user_id == t.confirmations[b].user_id);
    }
}

impl Confirmation {
    /// Issues a confirmation of `action` for the account, with the first of
    /// the candidate keys (at most four are tried) that collides with no
    /// stored confirmation of that account and action. When every tried
    /// candidate collides, the store is left as it was and the failure is a
    /// store error.
    pub fn insert_confirmation_with(
        conn: &mut Store,
        user_id: u32,
        action: ConfirmationAction,
        device_info: &DeviceInfo,
        now: i64,
        candidates: &Vec<ConfirmationKeys>,
    ) -> (r: Result<ConfirmationKeys, ErrorResponder>)
        requires
            old(conn).wf(),
            user_id < old(conn)@.next_user_id,
        ensures
            final(conn).wf(),
            insert_outcome(old(conn)@, final(conn)@, user_id, action, *device_info, now, candidates@, r),
    {
        let n = if candidates.len() < CONFIRMATION_RETRIES + 1 {
            candidates.len()
        } else {
            CONFIRMATION_RETRIES + 1
        };
        let mut k: usize = 0;
        while k < n
            invariant
                n == attempts(candidates@.len() as int),
                n <= candidates@.len(),
                k <= n,
                conn@ == old(conn)@,
                conn.wf(),
                user_id < old(conn)@.next_user_id,
                forall|j: int|
                    0 <= j < k ==> #[trigger] candidate_collides(old(conn)@, user_id, action, candidates@, j),
            decreases n - k,
        {
            let cand = &candidates[k];
            if !conn.confirmation_taken(user_id, action, &cand.0, &cand.1) {
                let rec = Confirmation {
                    user_id,
                    action,
                    used: false,
                    date: now,
                    token: copy_bytes(&cand.0),
                    code_token: copy_bytes(&cand.1),
                    code: cand.2,
                    code_trials: 0,
                    device_string: Some(device_info.device_string.clone()),
                    ip_address: match &device_info.ip_address {
                        Some(ip) => Some(ip.clone()),
                        None => None,
                    },
                };
                let ghost before = conn@;
                proof {
                    lemma_push_keeps_wf(before, rec@);
                }
                conn.confirmations.push(rec);
                assert(conn@.confirmations =~= before.confirmations.push(rec@));
                let keys = (copy_bytes(&cand.0), copy_bytes(&cand.1), cand.2);
                assert(!candidate_collides(old(conn)@, user_id, action, candidates@, k as int));
                assert(keys_view(keys) == keys_view(candidates@[k as int]));
                assert(conn@ == with_confirmation(
                    old(conn)@,
                    new_confirmation(user_id, action, keys_view(keys), now, *device_info),
                ));
                return Ok(keys);
            }
            k = k + 1;
        }
        Err(
            ErrorType::DatabaseError(
                String::from_str("Failed to insert confirmation"),
                String::from_str("duplicate confirmation keys"),
            ).to_responder(),
        )
    }

    /// Issues a confirmation of `action` for the account with fresh random
    /// keys: a 16-byte token, a 16-byte code token and a 4-digit code. A
    /// collision with a stored confirmation is retried with new values, up to
    /// three times; beyond that the failure is a store error and the store is
    /// left as it was. Without a stored confirmation of that account and
    /// action nothing can collide, and it succeeds.
    pub fn insert_confirmation(
        conn: &mut Store,
        user_id: u32,
        action: ConfirmationAction,
        device_info: &DeviceInfo,
        now: i64,
    ) -> (r: Result<ConfirmationKeys, ErrorResponder>)
        requires
            old(conn).wf(),
            user_id < old(conn)@.next_user_id,
        ensures
            final(conn).wf(),
            match r {
                Ok(keys) => keys.0@.len() == CONFIRMATION_TOKEN_BYTES && keys.1@.len()
                    == CONFIRMATION_TOKEN_BYTES && keys.2 <= 9999 && !old(conn)@.confirmation_collides(
                    user_id,
                    action,
                    keys.0@,
                    keys.1@,
                ) && final(conn)@ == with_confirmation(
                    old(conn)@,
                    new_confirmation(user_id, action, keys_view(keys), now, *device_info),
                ),
                Err(e) => e.kind() == ErrorTypeKind::DatabaseError && e.body().rollback && final(conn)@
                    == old(conn)@ && has_confirmation_of(old(conn)@, user_id, action),
            },
    {
        let mut candidates: Vec<ConfirmationKeys> = Vec::new();
        let mut k: usize = 0;
        while k < CONFIRMATION_RETRIES + 1
            invariant
                k <= CONFIRMATION_RETRIES + 1,
                candidates@.len() == k,
                forall|j: int|
                    0 <= j < k ==> (#[trigger] candidates@[j]).0@.len() == CONFIRMATION_TOKEN_BYTES
                        && candidates@[j].1@.len() == CONFIRMATION_TOKEN_BYTES && candidates@[j].2 <= 9999,
            decreases CONFIRMATION_RETRIES + 1 - k,
        {
            let token = random_token(CONFIRMATION_TOKEN_BYTES);
            let code_token = random_token(CONFIRMATION_TOKEN_BYTES);
            let code = random_code(CODE_DIGITS);
            assert(pow10(4) == 10000) by {
                reveal_with_fuel(pow10, 5);
            }
            candidates.push((token, code_token, code as u16));
            k = k + 1;
        }
        let ghost s = conn@;
        let r = Confirmation::insert_confirmation_with(conn, user_id, action, device_info, now, &candidates);
        proof {
            if r is Err {
                assert(candidate_collides(s, user_id, action, candidates@, 0));
            }
        }
        r
    }

    /// The position of the confirmation of this account and action with this
    /// code token.
    pub fn find_by_code_token(
        conn: &Store,
        user_id: u32,
        action: ConfirmationAction,
        code_token: &Vec<u8>,
    ) -> (r: Option<usize>)
        ensures
            match r {
                Some(i) => code_key_at(conn@, i as int, user_id, action, code_token@),
                None => forall|i: int| !#[trigger] code_key_at(conn@, i, user_id, action, code_token@),
            },
    {
        let mut i: usize = 0;
        while i < conn.confirmations.len()
            invariant
                i <= conn.confirmations.len(),
                forall|k: int| 0 <= k < i ==> !#[trigger] code_key_at(conn@, k, user_id, action, code_token@),
            decreases conn.confirmations.len() - i,
        {
            let c = &conn.confirmations[i];
            if c.user_id == user_id && c.action == action && bytes_eq(&c.code_token, code_token) {
                return Some(i);
            }
            i = i + 1;
        }
        None
    }

    /// The position of the confirmation of this account and action with this
    /// code token and this code. Attempts are not counted here.
    pub fn find_by_code(
        conn: &Store,
        user_id: u32,
        action: ConfirmationAction,
        code_token: &Vec<u8>,
        code: u16,
    ) -> (r: Option<usize>)
        requires
            conn.wf(),
        ensures
            match r {
                Some(i) => code_key_at(conn@, i as int, user_id, action, code_token@)
                    && conn@.confirmations[i as int].code == code,
                None => forall|i: int|
                    #[trigger] code_key_at(conn@, i, user_id, action, code_token@) ==> conn@.confirmations[i].code
                        != code,
            },
    {
        match Confirmation::find_by_code_token(conn, user_id, action, code_token) {
            Some(i) => {
                proof {
                    assert forall|j: int| #[trigger] code_key_at(conn@, j, user_id, action, code_token@) implies j
                        == i by {
                        if j != i {
                            assert(same_code_key(conn@.confirmations[j], conn@.confirmations[i as int]));
                        }
                    }
                }
                if conn.confirmations[i].code == code {
                    Some(i)
                } else {
                    None
                }
            },
            None => None,
        }
    }

    /// The position of the confirmation of this account and action with this
    /// token.
    pub fn find_by_token(
        conn: &Store,
        user_id: u32,
        action: ConfirmationAction,
        token: &Vec<u8>,
    ) -> (r: Option<usize>)
        ensures
            match r {
                Some(i) => token_key_at(conn@, i as int, user_id, action, token@),
                None => forall|i: int| !#[trigger] token_key_at(conn@, i, user_id, action, token@),
            },
    {
        let mut i: usize = 0;
        while i < conn.confirmations.len()
            invariant
                i <= conn.confirmations.len(),
                forall|k: int| 0 <= k < i ==> !#[trigger] token_key_at(conn@, k, user_id, action, token@),
            decreases conn.confirmations.len() - i,
        {
            let c = &conn.confirmations[i];
            if c.user_id == user_id && c.action == action && bytes_eq(&c.token, token) {
                return Some(i);
            }
            i = i + 1;
        }
        None
    }

    /// Uses the confirmation of this account and action that has this code
    /// token, with the code the user typed. It fails when there is none
    /// (rolled back), when it was used already (rolled back; to a wrong code
    /// a used one is not found, with nothing counted), when it is older than
    /// its validity (it is then marked used, and that stays), when
    /// it has taken too many wrong codes, or when the code is wrong: the wrong
    /// code is counted, and that stays, so that the attempt limit holds. On
    /// success it is marked used.
    pub fn check_code_and_mark_as_used(
        conn: &mut Store,
        user_id: u32,
        action: ConfirmationAction,
        code_token: &Vec<u8>,
        code: u16,
        now: i64,
    ) -> (r: Result<(), ErrorResponder>)
        requires
            old(conn).wf(),
        ensures
            final(conn).wf(),
            (forall|i: int| !#[trigger] code_key_at(old(conn)@, i, user_id, action, code_token@)) ==> r is Err
                && r->Err_0.kind() == ErrorTypeKind::ConfirmationNotFound && r->Err_0.body().rollback
                && final(conn)@ == old(conn)@,
            forall|i: int|
                #[trigger] code_key_at(old(conn)@, i, user_id, action, code_token@) ==> matches_verdict(
                    r,
                    code_verdict(old(conn)@.confirmations[i], code, now),
                ) && final(conn)@ == with_confirmation_at(
                    old(conn)@,
                    i,
                    code_checked(old(conn)@.confirmations[i], code, now),
                ),
    {
        let found = Confirmation::find_by_code_token(conn, user_id, action, code_token);
        match found {
            None => ErrorType::ConfirmationNotFound.to_err(),
            Some(i) => {
                let ghost s = conn@;
                proof {
                    assert forall|j: int| #[trigger] code_key_at(s, j, user_id, action, code_token@) implies j
                        == i by {
                        if j != i {
                            assert(same_code_key(s.confirmations[j], s.confirmations[i as int]));
                        }
                    }
                }
                let c = &conn.confirmations[i];
                let expired = (now as i128) - (c.date as i128) > CONFIRMATION_VALIDITY_SECONDS as i128;
                if c.used {
                    assert(s.confirmations.update(i as int, s.confirmations[i as int]) =~= s.confirmations);
                    if c.code != code {
                        ErrorType::ConfirmationNotFound.to_err()
                    } else {
                        ErrorType::ConfirmationAlreadyUsed.to_err()
                    }
                } else if expired {
                    let mut upd = c.duplicate();
                    upd.used = true;
                    proof {
                        lemma_update_keeps_wf(s, i as int, upd@);
                    }
                    conn.confirmations.set(i, upd);
                    assert(conn@.confirmations =~= s.confirmations.update(i as int, upd@));
                    ErrorType::ConfirmationExpired.to_err()
                } else if c.code_trials >= MAX_CODE_TRIALS {
                    assert(s.confirmations.update(i as int, s.confirmations[i as int]) =~= s.confirmations);
                    ErrorType::ConfirmationTooManyAttempts.to_err()
                } else if c.code != code {
                    let mut upd = c.duplicate();
                    upd.code_trials = c.code_trials + 1;
                    let exhausted = upd.code_trials >= MAX_CODE_TRIALS;
                    proof {
                        lemma_update_keeps_wf(s, i as int, upd@);
                    }
                    conn.confirmations.set(i, upd);
                    assert(conn@.confirmations =~= s.confirmations.update(i as int, upd@));
                    if exhausted {
                        ErrorType::ConfirmationTooManyAttempts.to_err()
                    } else {
                        ErrorType::ConfirmationNotFound.res_err()
                    }
                } else {
                    let mut upd = c.duplicate();
                    upd.used = true;
                    proof {
                        lemma_update_keeps_wf(s, i as int, upd@);
                    }
                    conn.confirmations.set(i, upd);
                    assert(conn@.confirmations =~= s.confirmations.update(i as int, upd@));
                    Ok(())
                }
            },
        }
    }

    /// Uses the confirmation of this account and action that has this token
    /// (the link form, without a code). It fails when there is none (rolled
    /// back), when it was used already (rolled back), or when it is older than
    /// its validity (it is then marked used, and that stays). On success it is
    /// marked used.
    pub fn check_token_and_mark_as_used(
        conn: &mut Store,
        user_id: u32,
        action: ConfirmationAction,
        token: &Vec<u8>,
        now: i64,
    ) -> (r: Result<(), ErrorResponder>)
        requires
            old(conn).wf(),
        ensures
            final(conn).wf(),
            (forall|i: int| !#[trigger] token_key_at(old(conn)@, i, user_id, action, token@)) ==> r is Err
                && r->Err_0.kind() == ErrorTypeKind::ConfirmationNotFound && r->Err_0.body().rollback
                && final(conn)@ == old(conn)@,
            forall|i: int|
                #[trigger] token_key_at(old(conn)@, i, user_id, action, token@) ==> matches_verdict(
                    r,
                    token_verdict(old(conn)@.confirmations[i], now),
                ) && final(conn)@ == with_confirmation_at(
                    old(conn)@,
                    i,
                    token_checked(old(conn)@.confirmations[i], now),
                ),
    {
        let found = Confirmation::find_by_token(conn, user_id, action, token);
        match found {
            None => ErrorType::ConfirmationNotFound.to_err(),
            Some(i) => {
                let ghost s = conn@;
                proof {
                    assert forall|j: int| #[trigger] token_key_at(s, j, user_id, action, token@) implies j == i by {
                        if j != i {
                            assert(same_token_key(s.confirmations[j], s.confirmations[i as int]));
                        }
                    }
                }
                let c = &conn.confirmations[i];
                if c.used {
                    assert(s.confirmations.update(i as int, s.confirmations[i as int]) =~= s.confirmations);
                    return ErrorType::ConfirmationAlreadyUsed.to_err();
                }
                let expired = (now as i128) - (c.date as i128) > CONFIRMATION_VALIDITY_SECONDS as i128;
                let mut upd = c.duplicate();
                upd.used = true;
                proof {
                    lemma_update_keeps_wf(s, i as int, upd@);
                }
                conn.confirmations.set(i, upd);
                assert(conn@.confirmations =~= s.confirmations.update(i as int, upd@));
                if expired {
                    ErrorType::ConfirmationExpired.to_err()
                } else {
                    Ok(())
                }
            },
        }
    }

    /// Marks this confirmation used in the store.
    pub fn mark_as_used(&self, conn: &mut Store) -> (r: Result<(), ErrorResponder>)
        requires
            old(conn).wf(),
        ensures
            r is Ok,
            final(conn).wf(),
            (forall|i: int| !#[trigger] token_key_at(old(conn)@, i, self.user_id, self.action, self.token@))
                ==> final(conn)@ == old(conn)@,
            forall|i: int|
                #[trigger] token_key_at(old(conn)@, i, self.user_id, self.action, self.token@) ==> final(conn)@
                    == with_confirmation_at(old(conn)@, i, marked_used(old(conn)@.confirmations[i])),
    {
        let found = Confirmation::find_by_token(conn, self.user_id, self.action, &self.token);
        if let Some(i) = found {
            let ghost s = conn@;
            let mut upd = conn.confirmations[i].duplicate();
            upd.used = true;
            proof {
                lemma_update_keeps_wf(s, i as int, upd@);
                assert forall|j: int| #[trigger]
                    token_key_at(s, j, self.user_id, self.action, self.token@) implies j == i by {
                    if j != i {
                        assert(same_token_key(s.confirmations[j], s.confirmations[i as int]));
                    }
                }
            }
            conn.confirmations.set(i, upd);
            assert(conn@.confirmations =~= s.confirmations.update(i as int, upd@));
        }
        Ok(())
    }

    /// Marks used every confirmation of this account and action, so that
    /// none of their codes or tokens stays valid.
    pub fn mark_all_as_used(conn: &mut Store, user_id: u32, action: ConfirmationAction) -> (r: Result<
        (),
        ErrorResponder,
    >)
        requires
            old(conn).wf(),
        ensures
            r is Ok,
            final(conn).wf(),
            final(conn)@ == (StoreView {
                confirmations: all_marked_used(old(conn)@.confirmations, user_id, action),
                ..old(conn)@
            }),
    {
        let ghost s = conn@;
        let ghost target = all_marked_used(s.confirmations, user_id, action);
        let mut i: usize = 0;
        while i < conn.confirmations.len()
            invariant
                s == old(conn)@,
                target == all_marked_used(s.confirmations, user_id, action),
                conn.confirmations.len() == s.confirmations.len(),
                i <= conn.confirmations.len(),
                conn@ == (StoreView { confirmations: conn@.confirmations, ..s }),
                forall|k: int| 0 <= k < i ==> #[trigger] conn@.confirmations[k] == target[k],
                forall|k: int|
                    i <= k < conn.confirmations.len() ==> #[trigger] conn@.confirmations[k] == s.confirmations[k],
                conn.wf(),
            decreases conn.confirmations.len() - i,
        {
            let c = &conn.confirmations[i];
            if c.user_id == user_id && c.action == action {
                let ghost before = conn@;
                let mut upd = c.duplicate();
                upd.used = true;
                proof {
                    lemma_update_keeps_wf(before, i as int, upd@);
                }
                conn.confirmations.set(i, upd);
                assert(conn@.confirmations =~= before.confirmations.update(i as int, upd@));
            }
            i = i + 1;
        }
        assert(conn@.confirmations =~= target);
        Ok(())
    }
}

}
