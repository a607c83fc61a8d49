//! An in-memory user repository and the one-time token lifecycle on it.
//!
//! Every change is one `&mut` call, so a conditional update such as
//! [`UserStore::consume_token`] is atomic: of any number of callers presenting
//! the same token, the first that finds it live wins and every later one finds
//! nothing.
use vstd::prelude::*;
use crate::user::{holds_live_token, holds_token, User, UserRole};

verus! {

/// The lower-case form of a string.
pub uninterp spec fn lower_of(s: Seq<char>) -> Seq<char>;

/// Relies on `str::to_lowercase`: the result depends on the characters alone.
#[verifier::external_body]
fn lowercase(s: &str) -> (r: String)
    ensures
        r@ == lower_of(s@),
{
    s.to_lowercase()
}

/// Why a repository operation was refused.
#[derive(Debug, Clone, Copy, PartialEq, Eq, Structural)]
pub enum StoreError {
    /// No record matches (no such user; no live token).
    NotFound,
    /// Another user has this email, compared without case.
    EmailTaken,
    /// Another user has this id.
    IdTaken,
    /// Another user holds this one-time token.
    TokenInUse,
}

/// Why a one-time token does not validate.
#[derive(Debug, Clone, Copy, PartialEq, Eq, Structural)]
pub enum TokenLookupError {
    NotFound,
    Expired,
}

/// What consuming a one-time token does besides clearing it.
#[derive(Debug, Clone)]
pub enum TokenAction {
    /// Confirms the email address.
    Verify,
    /// Replaces the password digest (and, the link having reached the
    /// mailbox, confirms the address too).
    ResetPassword(String),
}

pub open spec fn tokens_clash(a: User, b: User) -> bool {
    match (a.verification_token, b.verification_token) {
        (Some(x), Some(y)) => x@ == y@,
        _ => false,
    }
}

/// Ids, case-folded emails and active tokens are unique; a token always has an expiry.
pub open spec fn users_wf(us: Seq<User>) -> bool {
    &&& forall|i: int, j: int|
        #![trigger us[i], us[j]]
        0 <= i < us.len() && 0 <= j < us.len() && i != j ==> us[i].id != us[j].id && lower_of(
            us[i].email@,
        ) != lower_of(us[j].email@) && !tokens_clash(us[i], us[j])
    &&& forall|i: int|
        0 <= i < us.len() ==> (#[trigger] us[i]).verification_token.is_some()
            == us[i].token_expires_at.is_some()
}

pub open spec fn index_of_id(us: Seq<User>, id: u128) -> Option<int> {
    if exists|i: int| 0 <= i < us.len() && #[trigger] us[i].id == id {
        Some(choose|i: int| 0 <= i < us.len() && #[trigger] us[i].id == id)
    } else {
        None
    }
}

/// The user whose case-folded email is `key`.
pub open spec fn index_of_email(us: Seq<User>, key: Seq<char>) -> Option<int> {
    if exists|i: int| 0 <= i < us.len() && lower_of(#[trigger] us[i].email@) == key {
        Some(choose|i: int| 0 <= i < us.len() && lower_of(#[trigger] us[i].email@) == key)
    } else {
        None
    }
}

pub open spec fn index_of_token(us: Seq<User>, t: Seq<char>) -> Option<int> {
    if exists|i: int| 0 <= i < us.len() && holds_token(#[trigger] us[i], t) {
        Some(choose|i: int| 0 <= i < us.len() && holds_token(#[trigger] us[i], t))
    } else {
        None
    }
}

/// The record after its token was consumed with `action` at `now`.
pub open spec fn consumed(u: User, action: TokenAction, now: u64) -> User {
    User {
        verified: true,
        verification_token: None,
        token_expires_at: None,
        updated_at: now,
        password: match action {
            TokenAction::Verify => u.password,
            TokenAction::ResetPassword(h) => h,
        },
        ..u
    }
}

/// Whether some user holds `t` unexpired at `now`.
pub open spec fn can_consume(us: Seq<User>, t: Seq<char>, now: u64) -> bool {
    match index_of_token(us, t) {
        Some(i) => holds_live_token(us[i], t, now),
        None => false,
    }
}

/// The records after one consume attempt, and whether it succeeded.
pub open spec fn consume_spec(us: Seq<User>, t: Seq<char>, action: TokenAction, now: u64) -> (
    Seq<User>,
    bool,
) {
    if can_consume(us, t, now) {
        let i = index_of_token(us, t)->0;
        (us.update(i, consumed(us[i], action, now)), true)
    } else {
        (us, false)
    }
}

/// What validating `t` at `now` finds: the index of its holder, or why not.
pub open spec fn validate_token_spec(us: Seq<User>, t: Seq<char>, now: u64) -> Result<
    int,
    TokenLookupError,
> {
    match index_of_token(us, t) {
        None => Err(TokenLookupError::NotFound),
        Some(i) => if holds_live_token(us[i], t, now) {
            Ok(i)
        } else {
            Err(TokenLookupError::Expired)
        },
    }
}

pub open spec fn create_spec(us: Seq<User>, id: u128, email: Seq<char>, token: Seq<char>) -> Result<
    (),
    StoreError,
> {
    if index_of_email(us, lower_of(email)) is Some {
        Err(StoreError::EmailTaken)
    } else if index_of_id(us, id) is Some {
        Err(StoreError::IdTaken)
    } else if index_of_token(us, token) is Some {
        Err(StoreError::TokenInUse)
    } else {
        Ok(())
    }
}

pub open spec fn reissue_spec(us: Seq<User>, id: u128, token: Seq<char>) -> Result<(), StoreError> {
    match index_of_id(us, id) {
        None => Err(StoreError::NotFound),
        Some(_) => if index_of_token(us, token) is Some {
            Err(StoreError::TokenInUse)
        } else {
            Ok(())
        },
    }
}

pub(crate) proof fn lemma_id_index(us: Seq<User>, i: int)
    requires
        users_wf(us),
        0 <= i < us.len(),
    ensures
        index_of_id(us, us[i].id) == Some(i),
{
    let j = choose|j: int| 0 <= j < us.len() && #[trigger] us[j].id == us[i].id;
    assert(us[j] == us[j] && us[i] == us[i]);
}

proof fn lemma_email_index(us: Seq<User>, i: int, key: Seq<char>)
    requires
        users_wf(us),
        0 <= i < us.len(),
        lower_of(us[i].email@) == key,
    ensures
        index_of_email(us, key) == Some(i),
{
    let j = choose|j: int| 0 <= j < us.len() && lower_of(#[trigger] us[j].email@) == key;
    assert(us[j] == us[j] && us[i] == us[i]);
}

pub proof fn lemma_token_index(us: Seq<User>, i: int, t: Seq<char>)
    requires
        users_wf(us),
        0 <= i < us.len(),
        holds_token(us[i], t),
    ensures
        index_of_token(us, t) == Some(i),
{
    let j = choose|j: int| 0 <= j < us.len() && holds_token(#[trigger] us[j], t);
    assert(us[j] == us[j] && us[i] == us[i]);
    if i != j {
        assert(tokens_clash(us[i], us[j]));
    }
}

/// The repository: a sequence of user records.
pub struct UserStore {
    users: Vec<User>,
}

impl View for UserStore {
    type V = Seq<User>;

    closed spec fn view(&self) -> Seq<User> {
        self.users@
    }
}

impl UserStore {
    pub open spec fn wf(&self) -> bool {
        users_wf(self@)
    }

    pub fn new() -> (r: Self)
        ensures
            r@ == Seq::<User>::empty(),
            r.wf(),
    {
        UserStore { users: Vec::new() }
    }

    pub fn len(&self) -> (r: usize)
        ensures
            r == self@.len(),
    {
        self.users.len()
    }

    pub fn get(&self, i: usize) -> (r: &User)
        requires
            i < self@.len(),
        ensures
            *r == self@[i as int],
    {
        &self.users[i]
    }

    pub(crate) fn find_id_index(&self, id: u128) -> (r: Option<usize>)
        requires
            self.wf(),
        ensures
            match r {
                Some(i) => index_of_id(self@, id) == Some(i as int) && i < self@.len(),
                None => index_of_id(self@, id) is None,
            },
    {
        let mut i: usize = 0;
        while i < self.users.len()
            invariant
                self.wf(),
                i <= self.users@.len(),
                forall|k: int| 0 <= k < i ==> #[trigger] self.users@[k].id != id,
            decreases self.users@.len() - i,
        {
            if self.users[i].id == id {
                proof {
                    lemma_id_index(self@, i as int);
                }
                return Some(i);
            }
            i = i + 1;
        }
        None
    }

    pub(crate) fn find_email_index(&self, email: &str) -> (r: Option<usize>)
        requires
            self.wf(),
        ensures
            match r {
                Some(i) => index_of_email(self@, lower_of(email@)) == Some(i as int) && i
                    < self@.len(),
                None => index_of_email(self@, lower_of(email@)) is None,
            },
    {
        let key = lowercase(email);
        let mut i: usize = 0;
        while i < self.users.len()
            invariant
                self.wf(),
                i <= self.users@.len(),
                key@ == lower_of(email@),
                forall|k: int| 0 <= k < i ==> lower_of(#[trigger] self.users@[k].email@) != key@,
            decreases self.users@.len() - i,
        {
            let folded = lowercase(self.users[i].email.as_str());
            if folded == key {
                proof {
                    lemma_email_index(self@, i as int, key@);
                }
                return Some(i);
            }
            i = i + 1;
        }
        None
    }

    pub(crate) fn find_token_index(&self, token: &String) -> (r: Option<usize>)
        requires
            self.wf(),
        ensures
            match r {
                Some(i) => index_of_token(self@, token@) == Some(i as int) && i < self@.len(),
                None => index_of_token(self@, token@) is None,
            },
    {
        let mut i: usize = 0;
        while i < self.users.len()
            invariant
                self.wf(),
                i <= self.users@.len(),
                forall|k: int| 0 <= k < i ==> !holds_token(#[trigger] self.users@[k], token@),
            decreases self.users@.len() - i,
        {
            match &self.users[i].verification_token {
                Some(x) => {
                    if x.eq(token) {
                        proof {
                            lemma_token_index(self@, i as int, token@);
                        }
                        return Some(i);
                    }
                },
                None => {},
            }
            i = i + 1;
        }
        None
    }

    /// The user with this id.
    pub fn find_by_id(&self, id: u128) -> (r: Option<&User>)
        requires
            self.wf(),
        ensures
            match r {
                Some(u) => index_of_id(self@, id) matches Some(i) && *u == self@[i],
                None => index_of_id(self@, id) is None,
            },
    {
        match self.find_id_index(id) {
            Some(i) => Some(&self.users[i]),
            None => None,
        }
    }

    /// The user with this email, compared without case.
    pub fn find_by_email(&self, email: &str) -> (r: Option<&User>)
        requires
            self.wf(),
        ensures
            match r {
                Some(u) => index_of_email(self@, lower_of(email@)) matches Some(i) && *u
                    == self@[i],
                None => index_of_email(self@, lower_of(email@)) is None,
            },
    {
        match self.find_email_index(email) {
            Some(i) => Some(&self.users[i]),
            None => None,
        }
    }

    /// The user whose active one-time token is `token`, expired or not.
    pub fn find_by_token(&self, token: &String) -> (r: Option<&User>)
        requires
            self.wf(),
        ensures
            match r {
                Some(u) => index_of_token(self@, token@) matches Some(i) && *u == self@[i],
                None => index_of_token(self@, token@) is None,
            },
    {
        match self.find_token_index(token) {
            Some(i) => Some(&self.users[i]),
            None => None,
        }
    }

    /// Adds an unverified user with role `User`, holding `token` until `expires_at`.
    pub fn create_user(
        &mut self,
        id: u128,
        name: String,
        email: String,
        password: String,
        token: String,
        expires_at: u64,
        now: u64,
    ) -> (r: Result<(), StoreError>)
        requires
            old(self).wf(),
        ensures
            final(self).wf(),
            r == create_spec(old(self)@, id, email@, token@),
            r is Ok ==> final(self)@ == old(self)@.push(
                User {
                    id,
                    name,
                    email,
                    password,
                    role: UserRole::User,
                    verified: false,
                    verification_token: Some(token),
                    token_expires_at: Some(expires_at),
                    created_at: now,
                    updated_at: now,
                },
            ),
            r is Err ==> final(self)@ == old(self)@,
    {
        if self.find_email_index(email.as_str()).is_some() {
            return Err(StoreError::EmailTaken);
        }
        if self.find_id_index(id).is_some() {
            return Err(StoreError::IdTaken);
        }
        if self.find_token_index(&token).is_some() {
            return Err(StoreError::TokenInUse);
        }
        let ghost before = self@;
        let ghost key = lower_of(email@);
        let ghost t = token@;
        let user = User {
            id,
            name,
            email,
            password,
            role: UserRole::User,
            verified: false,
            verification_token: Some(token),
            token_expires_at: Some(expires_at),
            created_at: now,
            updated_at: now,
        };
        self.users.push(user);
        proof {
            let us = self@;
            assert forall|a: int, b: int|
                #![trigger us[a], us[b]]
                0 <= a < us.len() && 0 <= b < us.len() && a != b implies us[a].id != us[b].id
                && lower_of(us[a].email@) != lower_of(us[b].email@) && !tokens_clash(
                us[a],
                us[b],
            ) by {
                if a < before.len() && b < before.len() {
                    assert(before[a] == us[a] && before[b] == us[b]);
                } else if a < before.len() {
                    assert(before[a] == us[a]);
                    assert(lower_of(before[a].email@) != key);
                    assert(before[a].id != id);
                    assert(!holds_token(before[a], t));
                } else {
                    assert(before[b] == us[b]);
                    assert(lower_of(before[b].email@) != key);
                    assert(before[b].id != id);
                    assert(!holds_token(before[b], t));
                }
            }
        }
        Ok(())
    }

    /// Gives the user `id` the one-time token `token` until `expires_at`,
    /// replacing the token it held. The new token must be held by no user,
    /// this one included, so the old token stops working.
    pub fn reissue_token(&mut self, id: u128, token: String, expires_at: u64, now: u64) -> (r:
        Result<(), StoreError>)
        requires
            old(self).wf(),
        ensures
            final(self).wf(),
            r == reissue_spec(old(self)@, id, token@),
            r is Ok ==> ({
                let i = index_of_id(old(self)@, id)->0;
                final(self)@ == old(self)@.update(
                    i,
                    User {
                        verification_token: Some(token),
                        token_expires_at: Some(expires_at),
                        updated_at: now,
                        ..old(self)@[i]
                    },
                )
            }),
            r is Ok ==> ({
                let i = index_of_id(old(self)@, id)->0;
                old(self)@[i].verification_token matches Some(o) ==> index_of_token(
                    final(self)@,
                    o@,
                ) is None
            }),
            r is Err ==> final(self)@ == old(self)@,
    {
        let i = match self.find_id_index(id) {
            Some(i) => i,
            None => {
                return Err(StoreError::NotFound);
            },
        };
        if self.find_token_index(&token).is_some() {
            return Err(StoreError::TokenInUse);
        }
        let ghost before = self@;
        let ghost t = token@;
        self.users[i].verification_token = Some(token);
        self.users[i].token_expires_at = Some(expires_at);
        self.users[i].updated_at = now;
        proof {
            let us = self@;
            assert(us =~= before.update(
                i as int,
                User {
                    verification_token: us[i as int].verification_token,
                    token_expires_at: Some(expires_at),
                    updated_at: now,
                    ..before[i as int]
                },
            ));
            assert forall|a: int, b: int|
                #![trigger us[a], us[b]]
                0 <= a < us.len() && 0 <= b < us.len() && a != b implies us[a].id != us[b].id
                && lower_of(us[a].email@) != lower_of(us[b].email@) && !tokens_clash(
                us[a],
                us[b],
            ) by {
                assert(before[a] == before[a] && before[b] == before[b]);
                if a == i {
                    assert(!holds_token(before[b], t));
                } else if b == i {
                    assert(!holds_token(before[a], t));
                }
            }
            assert forall|a: int| 0 <= a < us.len() implies (#[trigger] us[a]).verification_token.is_some()
                == us[a].token_expires_at.is_some() by {
                assert(before[a] == before[a]);
            }
        }
        proof {
            let us = self@;
            match before[i as int].verification_token {
                Some(o) => {
                    assert forall|k: int| 0 <= k < us.len() implies !holds_token(#[trigger] us[k], o@) by {
                        if k != i {
                            assert(before[k] == us[k]);
                            assert(!tokens_clash(before[i as int], before[k]));
                        } else {
                            assert(!holds_token(before[i as int], t));
                        }
                    }
                },
                None => {},
            }
        }
        Ok(())
    }

    /// Finds the holder of `token` and says whether it is still live at `now`.
    /// Nothing changes: an expired token stays stored until it is reissued.
    pub fn validate_token(&self, token: &String, now: u64) -> (r: Result<&User, TokenLookupError>)
        requires
            self.wf(),
        ensures
            match r {
                Ok(u) => validate_token_spec(self@, token@, now) matches Ok(i) && *u == self@[i],
                Err(e) => validate_token_spec(self@, token@, now) == Err::<int, TokenLookupError>(
                    e,
                ),
            },
    {
        match self.find_token_index(token) {
            None => Err(TokenLookupError::NotFound),
            Some(i) => {
                let live = match self.users[i].token_expires_at {
                    Some(e) => now <= e,
                    None => false,
                };
                if live {
                    Ok(&self.users[i])
                } else {
                    Err(TokenLookupError::Expired)
                }
            },
        }
    }

    /// Atomically checks that `token` is some user's live token and clears it,
    /// applying `action` in the same step. Every failure is `NotFound`.
    pub fn consume_token(&mut self, token: &String, action: TokenAction, now: u64) -> (r: Result<
        u128,
        StoreError,
    >)
        requires
            old(self).wf(),
        ensures
            final(self).wf(),
            (final(self)@, r is Ok) == consume_spec(old(self)@, token@, action, now),
            r matches Ok(id) ==> index_of_token(old(self)@, token@) matches Some(i) && old(
                self,
            )@[i].id == id,
            r is Err ==> r == Err::<u128, StoreError>(StoreError::NotFound),
    {
        let i = match self.find_token_index(token) {
            Some(i) => i,
            None => {
                return Err(StoreError::NotFound);
            },
        };
        let live = match self.users[i].token_expires_at {
            Some(e) => now <= e,
            None => false,
        };
        if !live {
            return Err(StoreError::NotFound);
        }
        let ghost before = self@;
        let ghost act = action;
        let id = self.users[i].id;
        match action {
            TokenAction::Verify => {},
            TokenAction::ResetPassword(h) => {
                self.users[i].password = h;
            },
        }
        self.users[i].verified = true;
        self.users[i].verification_token = None;
        self.users[i].token_expires_at = None;
        self.users[i].updated_at = now;
        proof {
            lemma_consume_preserves_wf(before, token@, act, now);
            assert(self@ =~= consume_spec(before, token@, act, now).0);
        }
        Ok(id)
    }
}


proof fn lemma_consume_preserves_wf(us: Seq<User>, t: Seq<char>, action: TokenAction, now: u64)
    requires
        users_wf(us),
    ensures
        users_wf(consume_spec(us, t, action, now).0),
{
    if can_consume(us, t, now) {
        let n = consume_spec(us, t, action, now).0;
        assert forall|a: int, b: int|
            #![trigger n[a], n[b]]
            0 <= a < n.len() && 0 <= b < n.len() && a != b implies n[a].id != n[b].id && lower_of(
            n[a].email@,
        ) != lower_of(n[b].email@) && !tokens_clash(n[a], n[b]) by {
            assert(us[a] == us[a] && us[b] == us[b]);
        }
        assert forall|a: int| 0 <= a < n.len() implies (#[trigger] n[a]).verification_token.is_some()
            == n[a].token_expires_at.is_some() by {
            assert(us[a] == us[a]);
        }
    }
}

/// After a successful consume no record holds the token any more.
proof fn lemma_consumed_token_gone(us: Seq<User>, t: Seq<char>, action: TokenAction, now: u64)
    requires
        users_wf(us),
        can_consume(us, t, now),
    ensures
        index_of_token(consume_spec(us, t, action, now).0, t) is None,
{
    let n = consume_spec(us, t, action, now).0;
    let i = index_of_token(us, t)->0;
    if exists|k: int| 0 <= k < n.len() && holds_token(#[trigger] n[k], t) {
        let k = choose|k: int| 0 <= k < n.len() && holds_token(#[trigger] n[k], t);
        assert(k != i);
        assert(n[k] == us[k]);
        lemma_token_index(us, k, t);
    }
}

/// A token that validates can be consumed once: the first consume succeeds and
/// any later one, whatever its action and time, finds nothing.
pub proof fn lemma_validate_consume_once(
    us: Seq<User>,
    t: Seq<char>,
    action: TokenAction,
    now: u64,
    again: TokenAction,
    later: u64,
)
    requires
        users_wf(us),
        validate_token_spec(us, t, now) is Ok,
    ensures
        consume_spec(us, t, action, now).1,
        !consume_spec(consume_spec(us, t, action, now).0, t, again, later).1,
        validate_token_spec(consume_spec(us, t, action, now).0, t, later) == Err::<
            int,
            TokenLookupError,
        >(TokenLookupError::NotFound),
        ({
            let i = index_of_token(us, t)->0;
            let after = consume_spec(us, t, action, now).0[i];
            &&& after.verified
            &&& after.verification_token is None
            &&& after.token_expires_at is None
            &&& after.id == us[i].id
        }),
{
    lemma_consumed_token_gone(us, t, action, now);
}

/// How many of consecutive consume attempts on `t`, made at `times`, succeed.
pub open spec fn consume_successes(
    us: Seq<User>,
    t: Seq<char>,
    action: TokenAction,
    times: Seq<u64>,
) -> nat
    decreases times.len(),
{
    if times.len() == 0 {
        0
    } else {
        let (next, ok) = consume_spec(us, t, action, times[0]);
        (if ok {
            1nat
        } else {
            0nat
        }) + consume_successes(next, t, action, times.drop_first())
    }
}

proof fn lemma_no_token_no_success(us: Seq<User>, t: Seq<char>, action: TokenAction, times: Seq<u64>)
    requires
        index_of_token(us, t) is None,
    ensures
        consume_successes(us, t, action, times) == 0,
    decreases times.len(),
{
    if times.len() > 0 {
        lemma_no_token_no_success(us, t, action, times.drop_first());
    }
}

/// However many attempts race to consume one token, at most one succeeds; when
/// the token is live for every attempt, exactly one does and the others fail.
pub proof fn lemma_consume_race(us: Seq<User>, t: Seq<char>, action: TokenAction, times: Seq<u64>)
    requires
        users_wf(us),
    ensures
        consume_successes(us, t, action, times) <= 1,
        times.len() >= 1 && (forall|k: int| 0 <= k < times.len() ==> can_consume(us, t, #[trigger] times[k]))
            ==> consume_successes(us, t, action, times) == 1,
    decreases times.len(),
{
    if times.len() > 0 {
        if can_consume(us, t, times[0]) {
            lemma_consumed_token_gone(us, t, action, times[0]);
            lemma_no_token_no_success(consume_spec(us, t, action, times[0]).0, t, action, times.drop_first());
        } else {
            lemma_consume_race(us, t, action, times.drop_first());
        }
    }
}

/// A token found expired at `checked` can never be consumed at `later >= checked`.
pub proof fn lemma_expired_never_consumed(
    us: Seq<User>,
    t: Seq<char>,
    action: TokenAction,
    checked: u64,
    later: u64,
)
    requires
        users_wf(us),
        validate_token_spec(us, t, checked) == Err::<int, TokenLookupError>(TokenLookupError::Expired),
        checked <= later,
    ensures
        !consume_spec(us, t, action, later).1,
        consume_spec(us, t, action, later).0 == us,
{
}

} // verus!
