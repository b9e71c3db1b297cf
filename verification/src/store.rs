//! In-memory relational store.
//!
//! The handlers consume a relational store through parameterized statements;
//! this module gives those statements exact semantics over four tables held
//! as vectors in insertion (rowid) order. Row ids are assigned from
//! monotone counters, like rowids. The user table enforces a unique
//! username, the constraint the invite-claim handler's conflict path relies
//! on.

use vstd::prelude::*;
use crate::endpoint::projects::ProjectInfo;
use crate::user::{User, UserToken, UserTokenScope, UserTokenTy, UserTy};

verus! {

/// Largest issuance timestamp the store accepts for a token; keeps
/// expiry arithmetic (issuance plus lifetime) within `i64`.
pub const MAX_ISSUED_AT: i64 = 0xfff_ffff_ffff_ffff;

/// Single-use claim ticket: once `claimed_user_id` is set the invite is
/// permanently consumed.
pub struct UserInvite {
    pub id: i64,
    pub user_ty: UserTy,
    pub reason: String,
    pub invite: String,
    pub issued_at: i64,
    pub claimed_user_id: Option<i64>,
}

impl Clone for UserInvite {
    fn clone(&self) -> (r: Self)
        ensures
            r == *self,
    {
        UserInvite {
            id: self.id,
            user_ty: self.user_ty,
            reason: self.reason.clone(),
            invite: self.invite.clone(),
            issued_at: self.issued_at,
            claimed_user_id: self.claimed_user_id,
        }
    }
}

/// The four tables and their rowid counters.
pub struct Store {
    pub users: Vec<User>,
    pub tokens: Vec<UserToken>,
    pub invites: Vec<UserInvite>,
    pub projects: Vec<ProjectInfo>,
    pub next_user_id: i64,
    pub next_token_id: i64,
    pub next_invite_id: i64,
    pub next_project_id: i64,
}

/// The join/filter predicates of the statements the handlers issue.
pub open spec fn invite_matches(v: UserInvite, secret: Seq<char>) -> bool {
    v.invite@ == secret && v.claimed_user_id is None
}

pub open spec fn token_matches(t: UserToken, secret: Seq<char>, user_id: i64) -> bool {
    t.token@ == secret && t.user_id == user_id
}

pub open spec fn project_targeted(p: ProjectInfo, id: i64, author_id: i64) -> bool {
    p.id == id && p.author_id == author_id
}

/// Index of the first unclaimed invite carrying `secret`, scanning from `i`.
pub open spec fn spec_unclaimed_invite_idx_from(s: Seq<UserInvite>, secret: Seq<char>, i: int) -> Option<int>
    decreases s.len() - i,
{
    if i < 0 || i >= s.len() {
        None
    } else if invite_matches(s[i], secret) {
        Some(i)
    } else {
        spec_unclaimed_invite_idx_from(s, secret, i + 1)
    }
}

pub open spec fn spec_unclaimed_invite_idx(s: Seq<UserInvite>, secret: Seq<char>) -> Option<int> {
    spec_unclaimed_invite_idx_from(s, secret, 0)
}

pub proof fn lemma_unclaimed_invite_idx_from(s: Seq<UserInvite>, secret: Seq<char>, i: int)
    requires
        0 <= i <= s.len(),
    ensures
        match spec_unclaimed_invite_idx_from(s, secret, i) {
            Some(k) => i <= k < s.len() && invite_matches(s[k], secret) && (forall|j: int|
                i <= j < k ==> !invite_matches(#[trigger] s[j], secret)),
            None => forall|j: int| i <= j < s.len() ==> !invite_matches(#[trigger] s[j], secret),
        },
    decreases s.len() - i,
{
    if i < s.len() && !invite_matches(s[i], secret) {
        lemma_unclaimed_invite_idx_from(s, secret, i + 1);
    }
}

/// Index of the first invite with rowid `id`, scanning from `i`.
pub open spec fn spec_invite_id_idx_from(s: Seq<UserInvite>, id: i64, i: int) -> Option<int>
    decreases s.len() - i,
{
    if i < 0 || i >= s.len() {
        None
    } else if s[i].id == id {
        Some(i)
    } else {
        spec_invite_id_idx_from(s, id, i + 1)
    }
}

pub open spec fn spec_invite_id_idx(s: Seq<UserInvite>, id: i64) -> Option<int> {
    spec_invite_id_idx_from(s, id, 0)
}

pub proof fn lemma_invite_id_idx_from(s: Seq<UserInvite>, id: i64, i: int)
    requires
        0 <= i <= s.len(),
    ensures
        match spec_invite_id_idx_from(s, id, i) {
            Some(k) => i <= k < s.len() && s[k].id == id && (forall|j: int|
                i <= j < k ==> (#[trigger] s[j]).id != id),
            None => forall|j: int| i <= j < s.len() ==> (#[trigger] s[j]).id != id,
        },
    decreases s.len() - i,
{
    if i < s.len() && s[i].id != id {
        lemma_invite_id_idx_from(s, id, i + 1);
    }
}

/// Index of the first token with `secret` owned by `user_id` (the join of
/// the token table with its owning user), scanning from `i`.
pub open spec fn spec_token_idx_from(s: Seq<UserToken>, secret: Seq<char>, user_id: i64, i: int) -> Option<int>
    decreases s.len() - i,
{
    if i < 0 || i >= s.len() {
        None
    } else if token_matches(s[i], secret, user_id) {
        Some(i)
    } else {
        spec_token_idx_from(s, secret, user_id, i + 1)
    }
}

pub open spec fn spec_token_idx(s: Seq<UserToken>, secret: Seq<char>, user_id: i64) -> Option<int> {
    spec_token_idx_from(s, secret, user_id, 0)
}

pub proof fn lemma_token_idx_from(s: Seq<UserToken>, secret: Seq<char>, user_id: i64, i: int)
    requires
        0 <= i <= s.len(),
    ensures
        match spec_token_idx_from(s, secret, user_id, i) {
            Some(k) => i <= k < s.len() && token_matches(s[k], secret, user_id) && (forall|j: int|
                i <= j < k ==> !token_matches(#[trigger] s[j], secret, user_id)),
            None => forall|j: int| i <= j < s.len() ==> !token_matches(#[trigger] s[j], secret, user_id),
        },
    decreases s.len() - i,
{
    if i < s.len() && !token_matches(s[i], secret, user_id) {
        lemma_token_idx_from(s, secret, user_id, i + 1);
    }
}

/// Index of the first token with rowid `id`, scanning from `i`.
pub open spec fn spec_token_id_idx_from(s: Seq<UserToken>, id: i64, i: int) -> Option<int>
    decreases s.len() - i,
{
    if i < 0 || i >= s.len() {
        None
    } else if s[i].id == id {
        Some(i)
    } else {
        spec_token_id_idx_from(s, id, i + 1)
    }
}

pub open spec fn spec_token_id_idx(s: Seq<UserToken>, id: i64) -> Option<int> {
    spec_token_id_idx_from(s, id, 0)
}

pub proof fn lemma_token_id_idx_from(s: Seq<UserToken>, id: i64, i: int)
    requires
        0 <= i <= s.len(),
    ensures
        match spec_token_id_idx_from(s, id, i) {
            Some(k) => i <= k < s.len() && s[k].id == id && (forall|j: int|
                i <= j < k ==> (#[trigger] s[j]).id != id),
            None => forall|j: int| i <= j < s.len() ==> (#[trigger] s[j]).id != id,
        },
    decreases s.len() - i,
{
    if i < s.len() && s[i].id != id {
        lemma_token_id_idx_from(s, id, i + 1);
    }
}

/// Index of the first user with rowid `id`, scanning from `i`.
pub open spec fn spec_user_id_idx_from(s: Seq<User>, id: i64, i: int) -> Option<int>
    decreases s.len() - i,
{
    if i < 0 || i >= s.len() {
        None
    } else if s[i].id == id {
        Some(i)
    } else {
        spec_user_id_idx_from(s, id, i + 1)
    }
}

pub open spec fn spec_user_id_idx(s: Seq<User>, id: i64) -> Option<int> {
    spec_user_id_idx_from(s, id, 0)
}

pub proof fn lemma_user_id_idx_from(s: Seq<User>, id: i64, i: int)
    requires
        0 <= i <= s.len(),
    ensures
        match spec_user_id_idx_from(s, id, i) {
            Some(k) => i <= k < s.len() && s[k].id == id && (forall|j: int|
                i <= j < k ==> (#[trigger] s[j]).id != id),
            None => forall|j: int| i <= j < s.len() ==> (#[trigger] s[j]).id != id,
        },
    decreases s.len() - i,
{
    if i < s.len() && s[i].id != id {
        lemma_user_id_idx_from(s, id, i + 1);
    }
}

/// Index of the first user linked to `telegram_id`, scanning from `i`.
pub open spec fn spec_user_tg_idx_from(s: Seq<User>, telegram_id: i64, i: int) -> Option<int>
    decreases s.len() - i,
{
    if i < 0 || i >= s.len() {
        None
    } else if s[i].telegram_id == telegram_id {
        Some(i)
    } else {
        spec_user_tg_idx_from(s, telegram_id, i + 1)
    }
}

pub open spec fn spec_user_tg_idx(s: Seq<User>, telegram_id: i64) -> Option<int> {
    spec_user_tg_idx_from(s, telegram_id, 0)
}

/// Index of the first user named `name`, scanning from `i`.
pub open spec fn spec_username_idx_from(s: Seq<User>, name: Seq<char>, i: int) -> Option<int>
    decreases s.len() - i,
{
    if i < 0 || i >= s.len() {
        None
    } else if s[i].username@ == name {
        Some(i)
    } else {
        spec_username_idx_from(s, name, i + 1)
    }
}

pub open spec fn spec_username_idx(s: Seq<User>, name: Seq<char>) -> Option<int> {
    spec_username_idx_from(s, name, 0)
}

/// Rows of `select * from project where author_id = ?`, in rowid order.
pub open spec fn spec_projects_of(s: Seq<ProjectInfo>, author_id: i64) -> Seq<ProjectInfo>
    decreases s.len(),
{
    if s.len() == 0 {
        Seq::empty()
    } else {
        let rest = spec_projects_of(s.drop_last(), author_id);
        if s.last().author_id == author_id {
            rest.push(s.last())
        } else {
            rest
        }
    }
}

/// The window `limit offset, count` cuts out of a row sequence.
pub open spec fn spec_window(s: Seq<ProjectInfo>, offset: int, count: int) -> Seq<ProjectInfo>
    recommends
        0 <= offset,
        0 <= count,
{
    let lo = if offset <= s.len() {
        offset
    } else {
        s.len() as int
    };
    let hi = if offset + count <= s.len() {
        offset + count
    } else {
        s.len() as int
    };
    s.subrange(lo, hi)
}

/// Rows surviving `delete from project where id = ? and author_id = ?`.
pub open spec fn spec_projects_after_delete(s: Seq<ProjectInfo>, id: i64, author_id: i64) -> Seq<
    ProjectInfo,
>
    decreases s.len(),
{
    if s.len() == 0 {
        Seq::empty()
    } else {
        let rest = spec_projects_after_delete(s.drop_last(), id, author_id);
        if project_targeted(s.last(), id, author_id) {
            rest
        } else {
            rest.push(s.last())
        }
    }
}

/// A delete whose predicate matches no row leaves the table as it was.
pub proof fn lemma_delete_no_match(s: Seq<ProjectInfo>, id: i64, author_id: i64)
    requires
        forall|j: int| 0 <= j < s.len() ==> !project_targeted(#[trigger] s[j], id, author_id),
    ensures
        spec_projects_after_delete(s, id, author_id) == s,
    decreases s.len(),
{
    if s.len() > 0 {
        assert(forall|j: int|
            0 <= j < s.drop_last().len() ==> !project_targeted(
                #[trigger] s.drop_last()[j],
                id,
                author_id,
            ));
        lemma_delete_no_match(s.drop_last(), id, author_id);
        assert(spec_projects_after_delete(s, id, author_id) =~= s.drop_last().push(s.last()));
        assert(s.drop_last().push(s.last()) =~= s);
    }
}

/// A delete whose predicate matches some row removes at least one.
pub proof fn lemma_delete_match_shrinks(s: Seq<ProjectInfo>, id: i64, author_id: i64, k: int)
    requires
        0 <= k < s.len(),
        project_targeted(s[k], id, author_id),
    ensures
        spec_projects_after_delete(s, id, author_id).len() < s.len(),
    decreases s.len(),
{
    lemma_delete_len(s, id, author_id);
    if project_targeted(s.last(), id, author_id) {
        lemma_delete_len(s.drop_last(), id, author_id);
    } else {
        lemma_delete_match_shrinks(s.drop_last(), id, author_id, k);
    }
}

/// A delete never grows the table.
pub proof fn lemma_delete_len(s: Seq<ProjectInfo>, id: i64, author_id: i64)
    ensures
        spec_projects_after_delete(s, id, author_id).len() <= s.len(),
    decreases s.len(),
{
    if s.len() > 0 {
        lemma_delete_len(s.drop_last(), id, author_id);
    }
}

impl Store {
    /// Well-formedness: counters are ahead of every stored rowid (so a fresh
    /// id never collides), token and invite rowids are unique, and token
    /// issuance timestamps allow expiry arithmetic.
    pub open spec fn inv(self) -> bool {
        &&& 1 <= self.next_user_id
        &&& 1 <= self.next_token_id
        &&& 1 <= self.next_invite_id
        &&& 1 <= self.next_project_id
        &&& forall|i: int|
            0 <= i < self.users@.len() ==> (#[trigger] self.users@[i]).id < self.next_user_id
        &&& forall|i: int|
            0 <= i < self.tokens@.len() ==> (#[trigger] self.tokens@[i]).id < self.next_token_id
        &&& forall|i: int|
            0 <= i < self.invites@.len() ==> (#[trigger] self.invites@[i]).id < self.next_invite_id
        &&& forall|i: int|
            0 <= i < self.projects@.len() ==> (#[trigger] self.projects@[i]).id
                < self.next_project_id
        &&& forall|i: int, j: int|
            0 <= i < j < self.tokens@.len() ==> (#[trigger] self.tokens@[i]).id != (
            #[trigger] self.tokens@[j]).id
        &&& forall|i: int, j: int|
            0 <= i < j < self.invites@.len() ==> (#[trigger] self.invites@[i]).id != (
            #[trigger] self.invites@[j]).id
        &&& forall|i: int|
            0 <= i < self.tokens@.len() ==> 0 <= (#[trigger] self.tokens@[i]).issued_at
                <= MAX_ISSUED_AT
    }

    /// An empty store, counters at the first rowid.
    pub fn new() -> (s: Store)
        ensures
            s.inv(),
            s.users@ =~= Seq::<User>::empty(),
            s.tokens@ =~= Seq::<UserToken>::empty(),
            s.invites@ =~= Seq::<UserInvite>::empty(),
            s.projects@ =~= Seq::<ProjectInfo>::empty(),
            s.next_user_id == 1,
            s.next_token_id == 1,
            s.next_invite_id == 1,
            s.next_project_id == 1,
    {
        Store {
            users: Vec::new(),
            tokens: Vec::new(),
            invites: Vec::new(),
            projects: Vec::new(),
            next_user_id: 1,
            next_token_id: 1,
            next_invite_id: 1,
            next_project_id: 1,
        }
    }

    /// `select id, user_ty from userinvite where invite = ? and
    /// claimed_user_id is null`, first row if any.
    pub fn find_unclaimed_invite(&self, invite: &str) -> (r: Option<(i64, UserTy)>)
        ensures
            r == (match spec_unclaimed_invite_idx(self.invites@, invite@) {
                Some(k) => Some((self.invites@[k].id, self.invites@[k].user_ty)),
                None => None::<(i64, UserTy)>,
            }),
    {
        let n = self.invites.len();
        let mut i: usize = 0;
        while i < n
            invariant
                0 <= i <= n,
                n == self.invites@.len(),
                spec_unclaimed_invite_idx(self.invites@, invite@) == spec_unclaimed_invite_idx_from(
                    self.invites@,
                    invite@,
                    i as int,
                ),
            decreases n - i,
        {
            let row = &self.invites[i];
            if crate::text::str_eq(row.invite.as_str(), invite) && row.claimed_user_id.is_none() {
                return Some((row.id, row.user_ty));
            }
            i = i + 1;
        }
        None
    }

    /// Position of the row `select * from user where id = ?` would return.
    fn user_idx_by_id(&self, user_id: i64) -> (r: Option<usize>)
        ensures
            match r {
                Some(k) => spec_user_id_idx(self.users@, user_id) == Some(k as int),
                None => spec_user_id_idx(self.users@, user_id) is None,
            },
    {
        let n = self.users.len();
        let mut i: usize = 0;
        while i < n
            invariant
                0 <= i <= n,
                n == self.users@.len(),
                spec_user_id_idx(self.users@, user_id) == spec_user_id_idx_from(
                    self.users@,
                    user_id,
                    i as int,
                ),
            decreases n - i,
        {
            if self.users[i].id == user_id {
                return Some(i);
            }
            i = i + 1;
        }
        None
    }

    /// The authentication join: `select usertoken.*, user.* from usertoken
    /// join user on usertoken.user_id = user.id where usertoken.token = ?
    /// and user.id = ?`, first row if any.
    pub fn find_token_and_user(&self, secret: &str, user_id: i64) -> (r: Option<(UserToken, User)>)
        ensures
            r == (match (
                spec_token_idx(self.tokens@, secret@, user_id),
                spec_user_id_idx(self.users@, user_id),
            ) {
                (Some(t), Some(u)) => Some((self.tokens@[t], self.users@[u])),
                _ => None::<(UserToken, User)>,
            }),
    {
        let ui = match self.user_idx_by_id(user_id) {
            Some(k) => k,
            None => {
                return None;
            },
        };
        proof {
            lemma_user_id_idx_from(self.users@, user_id, 0);
        }
        let found_user = &self.users[ui];
        let nt = self.tokens.len();
        let mut ti: usize = 0;
        while ti < nt
            invariant
                0 <= ti <= nt,
                nt == self.tokens@.len(),
                spec_user_id_idx(self.users@, user_id) is Some,
                *found_user == self.users@[spec_user_id_idx(self.users@, user_id).unwrap()],
                spec_token_idx(self.tokens@, secret@, user_id) == spec_token_idx_from(
                    self.tokens@,
                    secret@,
                    user_id,
                    ti as int,
                ),
            decreases nt - ti,
        {
            let row = &self.tokens[ti];
            if row.user_id == user_id && crate::text::str_eq(row.token.as_str(), secret) {
                return Some((row.clone(), found_user.clone()));
            }
            ti = ti + 1;
        }
        None
    }

    /// `insert into user(ty, username, telegram_id) values (?, ?, ?)`.
    /// Fails (returns `None`) when the unique-username constraint is
    /// violated; otherwise returns the fresh rowid.
    pub fn insert_user(&mut self, ty: UserTy, username: String, telegram_id: i64) -> (r: Option<
        i64,
    >)
        requires
            old(self).inv(),
            old(self).next_user_id < i64::MAX,
        ensures
            final(self).inv(),
            final(self).tokens == old(self).tokens,
            final(self).invites == old(self).invites,
            final(self).projects == old(self).projects,
            final(self).next_token_id == old(self).next_token_id,
            final(self).next_invite_id == old(self).next_invite_id,
            final(self).next_project_id == old(self).next_project_id,
            match r {
                None => {
                    &&& spec_username_idx(old(self).users@, username@) is Some
                    &&& final(self).users == old(self).users
                    &&& final(self).next_user_id == old(self).next_user_id
                },
                Some(id) => {
                    &&& spec_username_idx(old(self).users@, username@) is None
                    &&& id == old(self).next_user_id
                    &&& final(self).users@ == old(self).users@.push(
                        (User { id, ty, username, telegram_id }),
                    )
                    &&& final(self).next_user_id == old(self).next_user_id + 1
                },
            },
    {
        let n = self.users.len();
        let mut i: usize = 0;
        while i < n
            invariant
                0 <= i <= n,
                n == self.users@.len(),
                self == old(self),
                old(self).inv(),
                spec_username_idx(self.users@, username@) == spec_username_idx_from(
                    self.users@,
                    username@,
                    i as int,
                ),
            decreases n - i,
        {
            if crate::text::str_eq(self.users[i].username.as_str(), username.as_str()) {
                return None;
            }
            i = i + 1;
        }
        let id = self.next_user_id;
        self.users.push(User { id, ty, username, telegram_id });
        self.next_user_id = id + 1;
        Some(id)
    }

    /// `update userinvite set claimed_user_id = ? where id = ?`.
    pub fn mark_invite_claimed(&mut self, invite_id: i64, user_id: i64)
        requires
            old(self).inv(),
        ensures
            final(self).inv(),
            final(self).users == old(self).users,
            final(self).tokens == old(self).tokens,
            final(self).projects == old(self).projects,
            final(self).next_user_id == old(self).next_user_id,
            final(self).next_token_id == old(self).next_token_id,
            final(self).next_invite_id == old(self).next_invite_id,
            final(self).next_project_id == old(self).next_project_id,
            match spec_invite_id_idx(old(self).invites@, invite_id) {
                Some(k) => final(self).invites@ == old(self).invites@.update(
                    k,
                    (UserInvite {
                        id: old(self).invites@[k].id,
                        user_ty: old(self).invites@[k].user_ty,
                        reason: old(self).invites@[k].reason,
                        invite: old(self).invites@[k].invite,
                        issued_at: old(self).invites@[k].issued_at,
                        claimed_user_id: Some(user_id),
                    }),
                ),
                None => final(self).invites == old(self).invites,
            },
    {
        let n = self.invites.len();
        let mut i: usize = 0;
        while i < n
            invariant
                0 <= i <= n,
                n == self.invites@.len(),
                self == old(self),
                old(self).inv(),
                spec_invite_id_idx(self.invites@, invite_id) == spec_invite_id_idx_from(
                    self.invites@,
                    invite_id,
                    i as int,
                ),
            decreases n - i,
        {
            if self.invites[i].id == invite_id {
                let row = &mut self.invites[i];
                row.claimed_user_id = Some(user_id);
                proof {
                    assert forall|a: int| 0 <= a < self.invites@.len() implies (
                    #[trigger] self.invites@[a]).id == old(self).invites@[a].id by {}
                }
                return ;
            }
            i = i + 1;
        }
    }

    /// `insert into usertoken(user_id, token, issued_at, ty) values
    /// (?, ?, ?, ?)`; the scope column takes its default of no flags.
    /// Returns the fresh rowid.
    pub fn insert_token(&mut self, user_id: i64, token: String, issued_at: i64, ty: UserTokenTy) -> (r:
        i64)
        requires
            old(self).inv(),
            old(self).next_token_id < i64::MAX,
            0 <= issued_at <= MAX_ISSUED_AT,
        ensures
            final(self).inv(),
            final(self).users == old(self).users,
            final(self).invites == old(self).invites,
            final(self).projects == old(self).projects,
            final(self).next_user_id == old(self).next_user_id,
            final(self).next_invite_id == old(self).next_invite_id,
            final(self).next_project_id == old(self).next_project_id,
            r == old(self).next_token_id,
            final(self).next_token_id == old(self).next_token_id + 1,
            final(self).tokens@ == old(self).tokens@.push(
                (UserToken {
                    id: r,
                    ty,
                    user_id,
                    scope: UserTokenScope(0),
                    issued_at,
                    token,
                }),
            ),
    {
        let id = self.next_token_id;
        self.tokens.push(
            UserToken { id, ty, user_id, scope: UserTokenScope::from_bits_retain(0), issued_at, token },
        );
        self.next_token_id = id + 1;
        id
    }

    /// `delete from usertoken where id = ?`. Afterwards no token carries
    /// the rowid.
    pub fn delete_token(&mut self, token_id: i64)
        requires
            old(self).inv(),
        ensures
            final(self).inv(),
            final(self).users == old(self).users,
            final(self).invites == old(self).invites,
            final(self).projects == old(self).projects,
            final(self).next_user_id == old(self).next_user_id,
            final(self).next_token_id == old(self).next_token_id,
            final(self).next_invite_id == old(self).next_invite_id,
            final(self).next_project_id == old(self).next_project_id,
            match spec_token_id_idx(old(self).tokens@, token_id) {
                Some(k) => final(self).tokens@ == old(self).tokens@.remove(k),
                None => final(self).tokens == old(self).tokens,
            },
            forall|j: int|
                0 <= j < final(self).tokens@.len() ==> (#[trigger] final(self).tokens@[j]).id
                    != token_id,
    {
        let n = self.tokens.len();
        let mut i: usize = 0;
        while i < n
            invariant
                0 <= i <= n,
                n == self.tokens@.len(),
                self == old(self),
                old(self).inv(),
                spec_token_id_idx(self.tokens@, token_id) == spec_token_id_idx_from(
                    self.tokens@,
                    token_id,
                    i as int,
                ),
            decreases n - i,
        {
            if self.tokens[i].id == token_id {
                let ghost pre = self.tokens@;
                self.tokens.remove(i);
                proof {
                    lemma_token_id_idx_from(pre, token_id, 0);
                    assert(self.tokens@ =~= pre.subrange(0, i as int) + pre.subrange(
                        i as int + 1,
                        pre.len() as int,
                    ));
                    assert forall|j: int|
                        0 <= j < self.tokens@.len() implies (
                    #[trigger] self.tokens@[j]).id != token_id by {
                        if j < i {
                            assert(self.tokens@[j] == pre[j]);
                        } else {
                            assert(self.tokens@[j] == pre[j + 1]);
                        }
                    }
                }
                return ;
            }
            i = i + 1;
        }
        proof {
            lemma_token_id_idx_from(self.tokens@, token_id, 0);
        }
    }

    /// `insert into userinvite(user_ty, reason, invite, issued_at) values
    /// (?, ?, ?, ?)`; the claimed-by column starts null. Returns the fresh
    /// rowid.
    pub fn insert_invite(&mut self, user_ty: UserTy, reason: String, invite: String, issued_at: i64) -> (r:
        i64)
        requires
            old(self).inv(),
            old(self).next_invite_id < i64::MAX,
        ensures
            final(self).inv(),
            final(self).users == old(self).users,
            final(self).tokens == old(self).tokens,
            final(self).projects == old(self).projects,
            final(self).next_user_id == old(self).next_user_id,
            final(self).next_token_id == old(self).next_token_id,
            final(self).next_project_id == old(self).next_project_id,
            r == old(self).next_invite_id,
            final(self).next_invite_id == old(self).next_invite_id + 1,
            final(self).invites@ == old(self).invites@.push(
                (UserInvite {
                    id: r,
                    user_ty,
                    reason,
                    invite,
                    issued_at,
                    claimed_user_id: None,
                }),
            ),
    {
        let id = self.next_invite_id;
        self.invites.push(
            UserInvite { id, user_ty, reason, invite, issued_at, claimed_user_id: None },
        );
        self.next_invite_id = id + 1;
        id
    }

    /// `insert into project(ty, title, descript, author_id) values
    /// (?, ?, ?, ?)`. Returns the fresh rowid.
    pub fn insert_project(
        &mut self,
        ty: crate::project::ProjectTy,
        title: String,
        description: Option<String>,
        author_id: i64,
    ) -> (r: i64)
        requires
            old(self).inv(),
            old(self).next_project_id < i64::MAX,
        ensures
            final(self).inv(),
            final(self).users == old(self).users,
            final(self).tokens == old(self).tokens,
            final(self).invites == old(self).invites,
            final(self).next_user_id == old(self).next_user_id,
            final(self).next_token_id == old(self).next_token_id,
            final(self).next_invite_id == old(self).next_invite_id,
            r == old(self).next_project_id,
            final(self).next_project_id == old(self).next_project_id + 1,
            final(self).projects@ == old(self).projects@.push(
                (ProjectInfo { id: r, ty, title, description, author_id }),
            ),
    {
        let id = self.next_project_id;
        self.projects.push(ProjectInfo { id, ty, title, description, author_id });
        self.next_project_id = id + 1;
        id
    }

    /// `select * from project where author_id = ? limit ?, ?`: the author's
    /// rows in rowid order, from `offset`, at most `count` of them.
    pub fn list_projects_window(&self, author_id: i64, offset: u64, count: u64) -> (r: Vec<
        ProjectInfo,
    >)
        ensures
            r@ == spec_window(
                spec_projects_of(self.projects@, author_id),
                offset as int,
                count as int,
            ),
    {
        let n = self.projects.len();
        let mut all: Vec<ProjectInfo> = Vec::new();
        let mut i: usize = 0;
        while i < n
            invariant
                0 <= i <= n,
                n == self.projects@.len(),
                all@ == spec_projects_of(self.projects@.subrange(0, i as int), author_id),
            decreases n - i,
        {
            let ghost pre = self.projects@.subrange(0, i as int);
            let ghost cur = self.projects@.subrange(0, i as int + 1);
            proof {
                assert(cur.drop_last() =~= pre);
            }
            if self.projects[i].author_id == author_id {
                all.push(self.projects[i].clone());
            }
            i = i + 1;
        }
        proof {
            assert(self.projects@.subrange(0, n as int) =~= self.projects@);
        }
        let ghost full = spec_projects_of(self.projects@, author_id);
        let m = all.len();
        let lo: usize = if offset <= m as u64 {
            offset as usize
        } else {
            m
        };
        let rem = m - lo;
        let take_n: usize = if count <= rem as u64 {
            count as usize
        } else {
            rem
        };
        let mut r: Vec<ProjectInfo> = Vec::new();
        let mut k: usize = 0;
        while k < take_n
            invariant
                0 <= k <= take_n,
                lo + take_n <= m,
                m == all@.len(),
                r@ == all@.subrange(lo as int, lo as int + k as int),
            decreases take_n - k,
        {
            proof {
                assert(all@.subrange(lo as int, lo as int + k as int + 1) =~= all@.subrange(
                    lo as int,
                    lo as int + k as int,
                ).push(all@[lo as int + k as int]));
            }
            r.push(all[lo + k].clone());
            k = k + 1;
        }
        proof {
            assert(r@ =~= spec_window(full, offset as int, count as int));
        }
        r
    }

    /// `delete from project where id = ? and author_id = ?`; returns the
    /// number of rows affected.
    pub fn delete_project_rows(&mut self, id: i64, author_id: i64) -> (r: u64)
        requires
            old(self).inv(),
        ensures
            final(self).inv(),
            final(self).users == old(self).users,
            final(self).tokens == old(self).tokens,
            final(self).invites == old(self).invites,
            final(self).next_user_id == old(self).next_user_id,
            final(self).next_token_id == old(self).next_token_id,
            final(self).next_invite_id == old(self).next_invite_id,
            final(self).next_project_id == old(self).next_project_id,
            final(self).projects@ == spec_projects_after_delete(old(self).projects@, id, author_id),
            r as int == old(self).projects@.len() - final(self).projects@.len(),
    {
        let n = self.projects.len();
        let mut kept: Vec<ProjectInfo> = Vec::new();
        let mut removed: u64 = 0;
        let mut i: usize = 0;
        while i < n
            invariant
                0 <= i <= n,
                n == self.projects@.len(),
                self == old(self),
                old(self).inv(),
                kept@ == spec_projects_after_delete(
                    self.projects@.subrange(0, i as int),
                    id,
                    author_id,
                ),
                removed as int == i - kept@.len(),
                forall|j: int|
                    0 <= j < kept@.len() ==> (#[trigger] kept@[j]).id < self.next_project_id,
            decreases n - i,
        {
            let ghost pre = self.projects@.subrange(0, i as int);
            let ghost cur = self.projects@.subrange(0, i as int + 1);
            proof {
                assert(cur.drop_last() =~= pre);
            }
            let row = &self.projects[i];
            if row.id == id && row.author_id == author_id {
                removed = removed + 1;
            } else {
                kept.push(row.clone());
            }
            i = i + 1;
        }
        proof {
            assert(self.projects@.subrange(0, n as int) =~= self.projects@);
        }
        self.projects = kept;
        removed
    }

    /// `select id from user where telegram_id = ?`, first row if any.
    pub fn find_user_by_telegram_id(&self, telegram_id: i64) -> (r: Option<i64>)
        ensures
            r == (match spec_user_tg_idx(self.users@, telegram_id) {
                Some(k) => Some(self.users@[k].id),
                None => None::<i64>,
            }),
    {
        let n = self.users.len();
        let mut i: usize = 0;
        while i < n
            invariant
                0 <= i <= n,
                n == self.users@.len(),
                spec_user_tg_idx(self.users@, telegram_id) == spec_user_tg_idx_from(
                    self.users@,
                    telegram_id,
                    i as int,
                ),
            decreases n - i,
        {
            if self.users[i].telegram_id == telegram_id {
                return Some(self.users[i].id);
            }
            i = i + 1;
        }
        None
    }
}

} // verus!
