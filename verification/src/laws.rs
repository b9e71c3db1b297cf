//! Cross-operation laws, stated over the same spec functions the operation
//! contracts use and proved once and for all.

use vstd::prelude::*;
use crate::api::Error;
use crate::endpoint::projects::ProjectInfo;
use crate::handlers::{spec_claim_effect, spec_claim_invite_outcome, spec_list_outcome};
use crate::store::{
    Store, lemma_delete_match_shrinks, lemma_delete_no_match, lemma_unclaimed_invite_idx_from,
    project_targeted, spec_projects_after_delete, spec_projects_of, spec_unclaimed_invite_idx,
    spec_username_idx,
};
use crate::user::spec_username_ok;

verus! {

/// An invite is consumed exactly once: under a valid username and external
/// id, with the username still free and the secret naming a single
/// unclaimed invite, the claim succeeds with the fresh user id — and in the
/// store it leaves behind, any further claim naming the same invite answers
/// `NotFound`, whatever body it carries.
pub proof fn lemma_invite_single_claim(
    pre: Store,
    post: Store,
    invite: Seq<char>,
    username: String,
    telegram_id: i64,
    uid: i64,
    username2: Seq<char>,
    telegram_id2: i64,
)
    requires
        spec_username_ok(username@),
        telegram_id >= 0,
        spec_username_idx(pre.users@, username@) is None,
        spec_unclaimed_invite_idx(pre.invites@, invite) is Some,
        forall|i: int, j: int|
            0 <= i < j < pre.invites@.len() ==> !((#[trigger] pre.invites@[i]).invite@ == invite
                && (#[trigger] pre.invites@[j]).invite@ == invite),
        spec_claim_effect(pre, post, invite, username, telegram_id, uid),
        spec_username_ok(username2),
        telegram_id2 >= 0,
    ensures
        spec_claim_invite_outcome(pre, invite, username@, telegram_id) == Ok::<i64, Error>(uid),
        spec_claim_invite_outcome(post, invite, username2, telegram_id2) == Err::<i64, Error>(
            Error::NotFound,
        ),
{
    lemma_unclaimed_invite_idx_from(pre.invites@, invite, 0);
    let k = spec_unclaimed_invite_idx(pre.invites@, invite).unwrap();
    lemma_unclaimed_invite_idx_from(post.invites@, invite, 0);
    match spec_unclaimed_invite_idx(post.invites@, invite) {
        Some(m) => {
            if m == k {
                assert(post.invites@[m].claimed_user_id is Some);
                assert(false);
            } else {
                assert(post.invites@[m] == pre.invites@[m]);
                if m < k {
                    assert(!(pre.invites@[m].invite@ == invite && pre.invites@[k].invite@
                        == invite));
                } else {
                    assert(!(pre.invites@[k].invite@ == invite && pre.invites@[m].invite@
                        == invite));
                }
                assert(false);
            }
        },
        None => {},
    }
}

/// Listing with `limit = 0` answers exactly as listing with `limit = 50`.
pub proof fn lemma_list_limit_zero_default(s: Store, author_id: i64, skip: u32)
    ensures
        spec_list_outcome(s, author_id, 0, skip) == spec_list_outcome(s, author_id, 50, skip),
{
}

/// `skip` shifts the returned window: with an accepted limit `l`, the
/// listing holds at most `l` rows, and its `j`-th row is row `l * skip + j`
/// of the caller's own projects.
pub proof fn lemma_list_skip_shifts(s: Store, author_id: i64, limit: u32, skip: u32, j: int)
    requires
        1 <= limit <= 50,
    ensures
        match spec_list_outcome(s, author_id, limit, skip) {
            Ok(w) => w.len() <= limit && (0 <= j < w.len() ==> w[j] == spec_projects_of(
                s.projects@,
                author_id,
            )[(limit as int) * (skip as int) + j]),
            Err(_) => false,
        },
{
}

/// Deleting one's own existing project is never refused: the delete
/// statement removes at least that row, so the handler answers success.
pub proof fn lemma_delete_own_succeeds(s: Seq<ProjectInfo>, caller: i64, k: int)
    requires
        0 <= k < s.len(),
        s[k].author_id == caller,
    ensures
        spec_projects_after_delete(s, s[k].id, caller).len() < s.len(),
{
    lemma_delete_match_shrinks(s, s[k].id, caller, k);
}

/// Deleting a project that belongs to someone else and deleting an id that
/// does not exist are indistinguishable: neither changes the table, so the
/// handler answers `Forbidden` for both.
pub proof fn lemma_delete_foreign_like_missing(
    s: Seq<ProjectInfo>,
    caller: i64,
    foreign_id: i64,
    owner: i64,
    missing_id: i64,
)
    requires
        owner != caller,
        forall|j: int|
            0 <= j < s.len() && (#[trigger] s[j]).id == foreign_id ==> s[j].author_id == owner,
        forall|j: int| 0 <= j < s.len() ==> (#[trigger] s[j]).id != missing_id,
    ensures
        spec_projects_after_delete(s, foreign_id, caller) == s,
        spec_projects_after_delete(s, missing_id, caller) == s,
{
    assert(forall|j: int|
        0 <= j < s.len() ==> !project_targeted(#[trigger] s[j], foreign_id, caller));
    assert(forall|j: int|
        0 <= j < s.len() ==> !project_targeted(#[trigger] s[j], missing_id, caller));
    lemma_delete_no_match(s, foreign_id, caller);
    lemma_delete_no_match(s, missing_id, caller);
}

} // verus!
