//! Authentication extractors.
//!
//! [`AuthorizedUser::from_header`] derives an authenticated identity from a
//! request's `Authorization: Bearer <user-id>:<secret>` header, validating
//! existence, ownership and expiry, and lazily revoking a token found
//! expired. [`MicroserviceAuthorization::from_header`] authenticates a
//! trusted service by a static shared secret; it needs no storage and has
//! no expiry.

use vstd::prelude::*;
use crate::api::Error;
use crate::config::Config;
use crate::store::{
    Store, spec_token_idx, spec_token_id_idx, spec_user_id_idx, lemma_token_idx_from,
    lemma_token_id_idx_from, lemma_user_id_idx_from, MAX_ISSUED_AT,
};
use crate::text::{spec_find_char, spec_parse_i64, find_char, parse_i64, str_eq};
use crate::user::{User, UserToken};

verus! {

/// View of an optional header value.
pub open spec fn spec_opt_str_view(h: Option<&str>) -> Option<Seq<char>> {
    match h {
        Some(s) => Some(s@),
        None => None,
    }
}

/// The user id and secret of a well-formed bearer header value: the exact
/// scheme prefix, then `<id>:<secret>` with a numeric id, split at the
/// first colon.
pub open spec fn spec_bearer_credentials(s: Seq<char>) -> Option<(i64, Seq<char>)> {
    if s.len() < 7 || s.subrange(0, 7) != "Bearer "@ {
        None
    } else {
        let rest = s.subrange(7, s.len() as int);
        match spec_find_char(rest, ':') {
            Some(k) => match spec_parse_i64(rest.subrange(0, k)) {
                Some(id) => Some((id, rest.subrange(k + 1, rest.len() as int))),
                None => None,
            },
            None => None,
        }
    }
}

/// Credentials of the whole (possibly absent) header.
pub open spec fn spec_auth_credentials(h: Option<Seq<char>>) -> Option<(i64, Seq<char>)> {
    match h {
        Some(s) => spec_bearer_credentials(s),
        None => None,
    }
}

/// Parse a bearer header value into the claimed user id and the secret.
pub fn parse_bearer(header: &str) -> (r: Option<(i64, String)>)
    ensures
        r is Some <==> spec_bearer_credentials(header@) is Some,
        match r {
            Some(p) => spec_bearer_credentials(header@) == Some((p.0, p.1@)),
            None => true,
        },
{
    let n = header.unicode_len();
    if n < 7 {
        return None;
    }
    let prefix = header.substring_char(0, 7);
    if !str_eq(prefix, "Bearer ") {
        return None;
    }
    let rest = header.substring_char(7, n);
    let k = match find_char(rest, ':') {
        Some(k) => k,
        None => {
            return None;
        },
    };
    proof {
        crate::text::lemma_find_char_from(rest@, ':', 0);
    }
    let id_part = rest.substring_char(0, k);
    let id = match parse_i64(id_part) {
        Some(id) => id,
        None => {
            return None;
        },
    };
    let secret = rest.substring_char(k + 1, rest.unicode_len());
    Some((id, String::from_str(secret)))
}

/// Whether a token has outlived its type's lifetime at time `now`.
pub open spec fn spec_token_expired(t: UserToken, now: i64) -> bool {
    t.ty.spec_lifetime() + t.issued_at < now
}

/// An authenticated identity: the user and the session token the request
/// carried.
pub struct AuthorizedUser {
    pub user: User,
    pub token: UserToken,
}

impl AuthorizedUser {
    /// The identity came out of a well-formed store, so its token's
    /// issuance timestamp admits expiry arithmetic.
    pub open spec fn wf(self) -> bool {
        0 <= self.token.issued_at <= MAX_ISSUED_AT
    }

    /// Derive the authenticated identity from the `Authorization` header.
    ///
    /// A missing or malformed header (wrong scheme, no colon, non-numeric
    /// id) answers `AuthorizationRequired`; a well-formed but unknown
    /// id-and-secret pair answers `InvalidToken`, distinguishing an absent
    /// credential from a wrong one. A token found past its expiry is
    /// deleted — the system's only revocation mechanism — and answers
    /// `InvalidToken` as well.
    pub fn from_header(header: Option<&str>, now: i64, store: &mut Store) -> (r: Result<
        AuthorizedUser,
        Error,
    >)
        requires
            old(store).inv(),
        ensures
            final(store).inv(),
            final(store).users == old(store).users,
            final(store).invites == old(store).invites,
            final(store).projects == old(store).projects,
            final(store).next_user_id == old(store).next_user_id,
            final(store).next_token_id == old(store).next_token_id,
            final(store).next_invite_id == old(store).next_invite_id,
            final(store).next_project_id == old(store).next_project_id,
            match spec_auth_credentials(spec_opt_str_view(header)) {
                None => r == Err::<AuthorizedUser, Error>(Error::AuthorizationRequired)
                    && *final(store) == *old(store),
                Some(cred) => match (
                    spec_token_idx(old(store).tokens@, cred.1, cred.0),
                    spec_user_id_idx(old(store).users@, cred.0),
                ) {
                    (Some(t), Some(u)) => {
                        let tok = old(store).tokens@[t];
                        if spec_token_expired(tok, now) {
                            &&& r == Err::<AuthorizedUser, Error>(Error::InvalidToken)
                            &&& final(store).tokens@ == old(store).tokens@.remove(t)
                            &&& forall|j: int|
                                0 <= j < final(store).tokens@.len() ==> (
                                #[trigger] final(store).tokens@[j]).id != tok.id
                        } else {
                            &&& r matches Ok(a) && a.token == tok && a.user == old(
                                store,
                            ).users@[u] && a.wf()
                            &&& *final(store) == *old(store)
                        }
                    },
                    _ => r == Err::<AuthorizedUser, Error>(Error::InvalidToken)
                        && *final(store) == *old(store),
                },
            },
    {
        let h = match header {
            Some(h) => h,
            None => {
                return Err(Error::AuthorizationRequired);
            },
        };
        let (user_id, secret) = match parse_bearer(h) {
            Some(c) => c,
            None => {
                return Err(Error::AuthorizationRequired);
            },
        };
        let (token, user) = match store.find_token_and_user(secret.as_str(), user_id) {
            Some(p) => p,
            None => {
                return Err(Error::InvalidToken);
            },
        };
        proof {
            lemma_token_idx_from(store.tokens@, secret@, user_id, 0);
            lemma_user_id_idx_from(store.users@, user_id, 0);
        }
        if token.ty.lifetime() + token.issued_at < now {
            let ghost t = spec_token_idx(store.tokens@, secret@, user_id).unwrap();
            store.delete_token(token.id);
            proof {
                lemma_token_id_idx_from(old(store).tokens@, token.id, 0);
                match spec_token_id_idx(old(store).tokens@, token.id) {
                    Some(k) => {
                        assert(old(store).tokens@[k].id == old(store).tokens@[t].id);
                        assert(k == t);
                    },
                    None => {
                        assert(false);
                    },
                }
            }
            return Err(Error::InvalidToken);
        }
        Ok(AuthorizedUser { user, token })
    }
}

/// A trusted-service identity, authenticated by a static shared secret.
#[derive(Clone, Copy, PartialEq, Eq, Structural, Debug)]
pub enum MicroserviceAuthorization {
    Telegram,
}

/// The service name and secret of a header value: split at the first space.
pub open spec fn spec_service_credentials(s: Seq<char>) -> Option<(Seq<char>, Seq<char>)> {
    match spec_find_char(s, ' ') {
        Some(k) => Some((s.subrange(0, k), s.subrange(k + 1, s.len() as int))),
        None => None,
    }
}

/// Whether the header names the bridge service and carries exactly its
/// configured shared secret.
pub open spec fn spec_microservice_accepts(h: Option<Seq<char>>, config: Config) -> bool {
    match h {
        Some(s) => match spec_service_credentials(s) {
            Some(cred) => {
                &&& cred.0 == "Internal-TelegramMicroservice"@
                &&& config.telegram matches Some(t) && t.shared_key@ == cred.1
            },
            None => false,
        },
        None => false,
    }
}

impl MicroserviceAuthorization {
    /// Derive the trusted-service identity from the `Authorization` header:
    /// a static-configuration comparison, cheap and side-effect-free.
    /// Mismatch, unknown service name or missing header all answer
    /// `AuthorizationRequired`.
    pub fn from_header(header: Option<&str>, config: &Config) -> (r: Result<
        MicroserviceAuthorization,
        Error,
    >)
        ensures
            r == (if spec_microservice_accepts(spec_opt_str_view(header), *config) {
                Ok::<MicroserviceAuthorization, Error>(MicroserviceAuthorization::Telegram)
            } else {
                Err::<MicroserviceAuthorization, Error>(Error::AuthorizationRequired)
            }),
    {
        let h = match header {
            Some(h) => h,
            None => {
                return Err(Error::AuthorizationRequired);
            },
        };
        let n = h.unicode_len();
        let k = match find_char(h, ' ') {
            Some(k) => k,
            None => {
                return Err(Error::AuthorizationRequired);
            },
        };
        proof {
            crate::text::lemma_find_char_from(h@, ' ', 0);
        }
        let name = h.substring_char(0, k);
        let rest = h.substring_char(k + 1, n);
        if !str_eq(name, "Internal-TelegramMicroservice") {
            return Err(Error::AuthorizationRequired);
        }
        match &config.telegram {
            Some(t) => {
                if str_eq(t.shared_key.as_str(), rest) {
                    Ok(MicroserviceAuthorization::Telegram)
                } else {
                    Err(Error::AuthorizationRequired)
                }
            },
            None => Err(Error::AuthorizationRequired),
        }
    }
}

} // verus!
