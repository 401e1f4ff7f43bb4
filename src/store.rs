//! The transactional store: the tables of accounts, session tokens,
//! confirmations and TOTP secrets, with their uniqueness constraints.

use vstd::prelude::*;
use crate::model::{
    AuthToken, AuthTokenView, Confirmation, ConfirmationAction, ConfirmationView, TOTPSecret,
    TOTPSecretView, User, UserView,
};

verus! {

/// The tables of the store.
pub struct Store {
    pub users: Vec<User>,
    pub auth_tokens: Vec<AuthToken>,
    pub confirmations: Vec<Confirmation>,
    pub totp_secrets: Vec<TOTPSecret>,
    /// The id the next inserted account gets.
    pub next_user_id: u32,
}

/// The abstract value of the store.
pub struct StoreView {
    pub users: Seq<UserView>,
    pub auth_tokens: Seq<AuthTokenView>,
    pub confirmations: Seq<ConfirmationView>,
    pub totp_secrets: Seq<TOTPSecretView>,
    pub next_user_id: u32,
}

pub open spec fn users_view(v: Seq<User>) -> Seq<UserView> {
    v.map_values(|u: User| u@)
}

pub open spec fn tokens_view(v: Seq<AuthToken>) -> Seq<AuthTokenView> {
    v.map_values(|t: AuthToken| t@)
}

pub open spec fn confirmations_view(v: Seq<Confirmation>) -> Seq<ConfirmationView> {
    v.map_values(|c: Confirmation| c@)
}

pub open spec fn secrets_view(v: Seq<TOTPSecret>) -> Seq<TOTPSecretView> {
    v.map_values(|t: TOTPSecret| t@)
}

impl View for Store {
    type V = StoreView;

    open spec fn view(&self) -> StoreView {
        StoreView {
            users: users_view(self.users@),
            auth_tokens: tokens_view(self.auth_tokens@),
            confirmations: confirmations_view(self.confirmations@),
            totp_secrets: secrets_view(self.totp_secrets@),
            next_user_id: self.next_user_id,
        }
    }
}

/// Two confirmations share the key (account, action, token).
pub open spec fn same_token_key(a: ConfirmationView, b: ConfirmationView) -> bool {
    a.user_id == b.user_id && a.action == b.action && a.token == b.token
}

/// Two confirmations share the key (account, action, code token).
pub open spec fn same_code_key(a: ConfirmationView, b: ConfirmationView) -> bool {
    a.user_id == b.user_id && a.action == b.action && a.code_token == b.code_token
}

impl StoreView {
    /// Account ids and emails are unique and below the next id.
    pub open spec fn users_wf(self) -> bool {
        &&& 1 <= self.next_user_id
        &&& forall|i: int| #![trigger self.users[i]]
            0 <= i < self.users.len() ==> 1 <= self.users[i].id < self.next_user_id
        &&& forall|i: int, j: int|
            0 <= i < self.users.len() && 0 <= j < self.users.len() && i != j
                ==> #[trigger] self.users[i].id != #[trigger] self.users[j].id
        &&& forall|i: int, j: int|
            0 <= i < self.users.len() && 0 <= j < self.users.len() && i != j
                ==> #[trigger] self.users[i].email != #[trigger] self.users[j].email
    }

    /// Session token bytes are unique across all accounts.
    pub open spec fn tokens_wf(self) -> bool {
        forall|i: int, j: int|
            0 <= i < self.auth_tokens.len() && 0 <= j < self.auth_tokens.len() && i != j
                ==> #[trigger] self.auth_tokens[i].token != #[trigger] self.auth_tokens[j].token
    }

    /// Both keys of the confirmations are unique.
    pub open spec fn confirmations_wf(self) -> bool {
        forall|i: int, j: int|
            0 <= i < self.confirmations.len() && 0 <= j < self.confirmations.len() && i != j
                ==> !same_token_key(#[trigger] self.confirmations[i], #[trigger] self.confirmations[j])
                && !same_code_key(self.confirmations[i], self.confirmations[j])
    }

    /// Session tokens and confirmations belong to accounts that were created.
    pub open spec fn owners_wf(self) -> bool {
        &&& forall|i: int|
            0 <= i < self.auth_tokens.len() ==> #[trigger] self.auth_tokens[i].user_id < self.next_user_id
        &&& forall|i: int|
            0 <= i < self.confirmations.len() ==> #[trigger] self.confirmations[i].user_id
                < self.next_user_id
    }

    /// An account has at most one TOTP secret.
    pub open spec fn secrets_wf(self) -> bool {
        forall|i: int, j: int|
            0 <= i < self.totp_secrets.len() && 0 <= j < self.totp_secrets.len() && i != j
                ==> #[trigger] self.totp_secrets[i].user_id != #[trigger] self.totp_secrets[j].user_id
    }

    /// The constraints of the store.
    pub open spec fn wf(self) -> bool {
        &&& self.secrets_wf()
        &&& self.users_wf()
        &&& self.tokens_wf()
        &&& self.confirmations_wf()
        &&& self.owners_wf()
    }

    /// Some account has this email.
    pub open spec fn has_email(self, email: Seq<char>) -> bool {
        exists|i: int| 0 <= i < self.users.len() && #[trigger] self.users[i].email == email
    }

    /// Some account has this id.
    pub open spec fn has_user(self, id: u32) -> bool {
        exists|i: int| 0 <= i < self.users.len() && #[trigger] self.users[i].id == id
    }

    /// Some session token has these bytes.
    pub open spec fn has_token(self, token: Seq<u8>) -> bool {
        exists|i: int| 0 <= i < self.auth_tokens.len() && #[trigger] self.auth_tokens[i].token == token
    }

    /// A confirmation of this account and action has this token or this code token.
    pub open spec fn confirmation_collides(
        self,
        user_id: u32,
        action: ConfirmationAction,
        token: Seq<u8>,
        code_token: Seq<u8>,
    ) -> bool {
        exists|i: int|
            0 <= i < self.confirmations.len() && #[trigger] self.confirmations[i].user_id == user_id
                && self.confirmations[i].action == action && (self.confirmations[i].token == token
                || self.confirmations[i].code_token == code_token)
    }
}

/// Whether two byte strings are equal.
pub fn bytes_eq(a: &Vec<u8>, b: &Vec<u8>) -> (r: bool)
    ensures
        r == (a@ == b@),
{
    if a.len() != b.len() {
        return false;
    }
    let mut i: usize = 0;
    while i < a.len()
        invariant
            a.len() == b.len(),
            i <= a.len(),
            forall|k: int| 0 <= k < i ==> a@[k] == b@[k],
        decreases a.len() - i,
    {
        if a[i] != b[i] {
            return false;
        }
        i = i + 1;
    }
    assert(a@ =~= b@);
    true
}

impl Store {
    /// The constraints of the store hold.
    pub open spec fn wf(&self) -> bool {
        self@.wf()
    }

    /// An empty store whose first account gets id 1.
    pub fn new() -> (r: Store)
        ensures
            r.wf(),
            r@.users.len() == 0,
            r@.auth_tokens.len() == 0,
            r@.confirmations.len() == 0,
            r@.totp_secrets.len() == 0,
            r@.next_user_id == 1,
    {
        Store {
            users: Vec::new(),
            auth_tokens: Vec::new(),
            confirmations: Vec::new(),
            totp_secrets: Vec::new(),
            next_user_id: 1,
        }
    }

    /// A copy of the store, taken before a unit of work.
    pub fn snapshot(&self) -> (r: Store)
        ensures
            r@ == self@,
    {
        let mut users: Vec<User> = Vec::new();
        let mut i: usize = 0;
        while i < self.users.len()
            invariant
                i <= self.users.len(),
                users@.len() == i,
                forall|k: int| 0 <= k < i ==> #[trigger] users@[k]@ == self.users@[k]@,
            decreases self.users.len() - i,
        {
            users.push(self.users[i].duplicate());
            i = i + 1;
        }
        let mut tokens: Vec<AuthToken> = Vec::new();
        let mut i: usize = 0;
        while i < self.auth_tokens.len()
            invariant
                i <= self.auth_tokens.len(),
                tokens@.len() == i,
                forall|k: int| 0 <= k < i ==> #[trigger] tokens@[k]@ == self.auth_tokens@[k]@,
            decreases self.auth_tokens.len() - i,
        {
            tokens.push(self.auth_tokens[i].duplicate());
            i = i + 1;
        }
        let mut confirmations: Vec<Confirmation> = Vec::new();
        let mut i: usize = 0;
        while i < self.confirmations.len()
            invariant
                i <= self.confirmations.len(),
                confirmations@.len() == i,
                forall|k: int| 0 <= k < i ==> #[trigger] confirmations@[k]@ == self.confirmations@[k]@,
            decreases self.confirmations.len() - i,
        {
            confirmations.push(self.confirmations[i].duplicate());
            i = i + 1;
        }
        let mut secrets: Vec<TOTPSecret> = Vec::new();
        let mut i: usize = 0;
        while i < self.totp_secrets.len()
            invariant
                i <= self.totp_secrets.len(),
                secrets@.len() == i,
                forall|k: int| 0 <= k < i ==> #[trigger] secrets@[k]@ == self.totp_secrets@[k]@,
            decreases self.totp_secrets.len() - i,
        {
            secrets.push(self.totp_secrets[i].duplicate());
            i = i + 1;
        }
        let r = Store {
            users,
            auth_tokens: tokens,
            confirmations,
            totp_secrets: secrets,
            next_user_id: self.next_user_id,
        };
        assert(r@.users =~= self@.users);
        assert(r@.auth_tokens =~= self@.auth_tokens);
        assert(r@.confirmations =~= self@.confirmations);
        assert(r@.totp_secrets =~= self@.totp_secrets);
        r
    }

    /// The position of the account with this email.
    pub fn find_user_by_email(&self, email: &String) -> (r: Option<usize>)
        ensures
            match r {
                Some(i) => i < self@.users.len() && self@.users[i as int].email == email@,
                None => !self@.has_email(email@),
            },
    {
        let mut i: usize = 0;
        while i < self.users.len()
            invariant
                i <= self.users.len(),
                forall|k: int| 0 <= k < i ==> #[trigger] self@.users[k].email != email@,
            decreases self.users.len() - i,
        {
            if self.users[i].email == *email {
                return Some(i);
            }
            i = i + 1;
        }
        None
    }

    /// The position of the account with this id.
    pub fn find_user_by_id(&self, id: u32) -> (r: Option<usize>)
        ensures
            match r {
                Some(i) => i < self@.users.len() && self@.users[i as int].id == id,
                None => !self@.has_user(id),
            },
    {
        let mut i: usize = 0;
        while i < self.users.len()
            invariant
                i <= self.users.len(),
                forall|k: int| 0 <= k < i ==> #[trigger] self@.users[k].id != id,
            decreases self.users.len() - i,
        {
            if self.users[i].id == id {
                return Some(i);
            }
            i = i + 1;
        }
        None
    }

    /// Whether a session token has these bytes.
    pub fn token_taken(&self, token: &Vec<u8>) -> (r: bool)
        ensures
            r == self@.has_token(token@),
    {
        let mut i: usize = 0;
        while i < self.auth_tokens.len()
            invariant
                i <= self.auth_tokens.len(),
                forall|k: int| 0 <= k < i ==> #[trigger] self@.auth_tokens[k].token != token@,
            decreases self.auth_tokens.len() - i,
        {
            if bytes_eq(&self.auth_tokens[i].token, token) {
                assert(self@.auth_tokens[i as int].token == token@);
                return true;
            }
            i = i + 1;
        }
        false
    }

    /// Whether a confirmation of this account and action has this token or code token.
    pub fn confirmation_taken(
        &self,
        user_id: u32,
        action: ConfirmationAction,
        token: &Vec<u8>,
        code_token: &Vec<u8>,
    ) -> (r: bool)
        ensures
            r == self@.confirmation_collides(user_id, action, token@, code_token@),
    {
        let mut i: usize = 0;
        while i < self.confirmations.len()
            invariant
                i <= self.confirmations.len(),
                forall|k: int|
                    0 <= k < i ==> !(#[trigger] self@.confirmations[k].user_id == user_id
                        && self@.confirmations[k].action == action && (self@.confirmations[k].token
                        == token@ || self@.confirmations[k].code_token == code_token@)),
            decreases self.confirmations.len() - i,
        {
            let c = &self.confirmations[i];
            if c.user_id == user_id && c.action == action && (bytes_eq(&c.token, token) || bytes_eq(
                &c.code_token,
                code_token,
            )) {
                assert(self@.confirmations[i as int].user_id == user_id);
                return true;
            }
            i = i + 1;
        }
        false
    }

    /// Deletes every session token of the account.
    pub fn delete_tokens_of(&mut self, user_id: u32)
        requires
            old(self).wf(),
        ensures
            final(self).wf(),
            final(self)@ == (StoreView {
                auth_tokens: old(self)@.auth_tokens.filter(|t: AuthTokenView| t.user_id != user_id),
                ..old(self)@
            }),
    {
        let ghost s = self@;
        let ghost p = |t: AuthTokenView| t.user_id != user_id;
        let mut kept: Vec<AuthToken> = Vec::new();
        let mut i: usize = 0;
        while i < self.auth_tokens.len()
            invariant
                s == old(self)@,
                self@ == s,
                self.wf(),
                p == (|t: AuthTokenView| t.user_id != user_id),
                i <= self.auth_tokens.len(),
                tokens_view(kept@) == s.auth_tokens.subrange(0, i as int).filter(p),
                forall|k: int|
                    0 <= k < kept@.len() ==> exists|j: int|
                        0 <= j < i && #[trigger] tokens_view(kept@)[k] == #[trigger] s.auth_tokens[j],
                forall|a: int, b: int|
                    0 <= a < kept@.len() && 0 <= b < kept@.len() && a != b ==> #[trigger] tokens_view(
                        kept@,
                    )[a].token != #[trigger] tokens_view(kept@)[b].token,
            decreases self.auth_tokens.len() - i,
        {
            let ghost old_kept = tokens_view(kept@);
            proof {
                assert(s.auth_tokens.subrange(0, i as int).push(s.auth_tokens[i as int]) =~= s.auth_tokens.subrange(
                    0,
                    i as int + 1,
                ));
                s.auth_tokens.subrange(0, i as int).lemma_filter_push(s.auth_tokens[i as int], p);
            }
            if self.auth_tokens[i].user_id != user_id {
                kept.push(self.auth_tokens[i].duplicate());
                assert(tokens_view(kept@) =~= old_kept.push(s.auth_tokens[i as int]));
                assert forall|k: int| 0 <= k < kept@.len() implies exists|j: int|
                    0 <= j < i + 1 && #[trigger] tokens_view(kept@)[k] == #[trigger] s.auth_tokens[j] by {
                    if k == kept@.len() - 1 {
                        assert(tokens_view(kept@)[k] == s.auth_tokens[i as int]);
                    } else {
                        assert(tokens_view(kept@)[k] == old_kept[k]);
                    }
                }
                assert forall|a: int, b: int|
                    0 <= a < kept@.len() && 0 <= b < kept@.len() && a != b implies #[trigger] tokens_view(
                        kept@,
                    )[a].token != #[trigger] tokens_view(kept@)[b].token by {
                    let last = kept@.len() - 1;
                    if a == last {
                        let j = choose|j: int| 0 <= j < i && #[trigger] old_kept[b] == #[trigger] s.auth_tokens[j];
                        assert(tokens_view(kept@)[b] == old_kept[b]);
                    } else if b == last {
                        let j = choose|j: int| 0 <= j < i && #[trigger] old_kept[a] == #[trigger] s.auth_tokens[j];
                        assert(tokens_view(kept@)[a] == old_kept[a]);
                    } else {
                        assert(tokens_view(kept@)[a] == old_kept[a]);
                        assert(tokens_view(kept@)[b] == old_kept[b]);
                    }
                }
            }
            i = i + 1;
        }
        assert(s.auth_tokens.subrange(0, s.auth_tokens.len() as int) =~= s.auth_tokens);
        self.auth_tokens = kept;
    }

    /// Deletes every confirmation of the account.
    pub fn delete_confirmations_of(&mut self, user_id: u32)
        requires
            old(self).wf(),
        ensures
            final(self).wf(),
            final(self)@ == (StoreView {
                confirmations: old(self)@.confirmations.filter(|c: ConfirmationView| c.user_id != user_id),
                ..old(self)@
            }),
    {
        let ghost s = self@;
        let ghost p = |c: ConfirmationView| c.user_id != user_id;
        let mut kept: Vec<Confirmation> = Vec::new();
        let mut i: usize = 0;
        while i < self.confirmations.len()
            invariant
                s == old(self)@,
                self@ == s,
                self.wf(),
                p == (|c: ConfirmationView| c.user_id != user_id),
                i <= self.confirmations.len(),
                confirmations_view(kept@) == s.confirmations.subrange(0, i as int).filter(p),
                forall|k: int|
                    0 <= k < kept@.len() ==> exists|j: int|
                        0 <= j < i && #[trigger] confirmations_view(kept@)[k] == #[trigger] s.confirmations[j],
                forall|a: int, b: int|
                    0 <= a < kept@.len() && 0 <= b < kept@.len() && a != b ==> !same_token_key(
                        #[trigger] confirmations_view(kept@)[a],
                        #[trigger] confirmations_view(kept@)[b],
                    ) && !same_code_key(confirmations_view(kept@)[a], confirmations_view(kept@)[b]),
            decreases self.confirmations.len() - i,
        {
            let ghost old_kept = confirmations_view(kept@);
            proof {
                assert(s.confirmations.subrange(0, i as int).push(s.confirmations[i as int])
                    =~= s.confirmations.subrange(0, i as int + 1));
                s.confirmations.subrange(0, i as int).lemma_filter_push(s.confirmations[i as int], p);
            }
            if self.confirmations[i].user_id != user_id {
                kept.push(self.confirmations[i].duplicate());
                assert(confirmations_view(kept@) =~= old_kept.push(s.confirmations[i as int]));
                assert forall|k: int| 0 <= k < kept@.len() implies exists|j: int|
                    0 <= j < i + 1 && #[trigger] confirmations_view(kept@)[k] == #[trigger] s.confirmations[j] by {
                    if k == kept@.len() - 1 {
                        assert(confirmations_view(kept@)[k] == s.confirmations[i as int]);
                    } else {
                        assert(confirmations_view(kept@)[k] == old_kept[k]);
                    }
                }
                assert forall|a: int, b: int|
                    0 <= a < kept@.len() && 0 <= b < kept@.len() && a != b implies !same_token_key(
                        #[trigger] confirmations_view(kept@)[a],
                        #[trigger] confirmations_view(kept@)[b],
                    ) && !same_code_key(confirmations_view(kept@)[a], confirmations_view(kept@)[b]) by {
                    let last = kept@.len() - 1;
                    if a == last {
                        let j = choose|j: int|
                            0 <= j < i && #[trigger] old_kept[b] == #[trigger] s.confirmations[j];
                        assert(confirmations_view(kept@)[b] == old_kept[b]);
                    } else if b == last {
                        let j = choose|j: int|
                            0 <= j < i && #[trigger] old_kept[a] == #[trigger] s.confirmations[j];
                        assert(confirmations_view(kept@)[a] == old_kept[a]);
                    } else {
                        assert(confirmations_view(kept@)[a] == old_kept[a]);
                        assert(confirmations_view(kept@)[b] == old_kept[b]);
                    }
                }
            }
            i = i + 1;
        }
        assert(s.confirmations.subrange(0, s.confirmations.len() as int) =~= s.confirmations);
        self.confirmations = kept;
    }
}

}
